use aspasia::substation::{SubStationEventKind, SubStationFont};
use aspasia::webvtt::WebVttCue;
use aspasia::{
    AssSubtitle, Frame, MicroDvdSubtitle, Moment, SsaSubtitle, SubRipSubtitle, TimeDelta,
    WebVttSubtitle,
};

#[test]
fn timestamps_in_each_format() {
    let moment = Moment::from(3_723_456);

    assert_eq!(moment.hours(), 1);
    assert_eq!(moment.minutes(), 2);
    assert_eq!(moment.seconds(), 3);
    assert_eq!(moment.ms(), 456);
    assert_eq!(moment.cs(), 45);
    assert_eq!(moment.as_srt_timestamp(), "01:02:03,456");
    assert_eq!(moment.as_vtt_timestamp(), "01:02:03.456");
    assert_eq!(moment.as_substation_timestamp(), "1:02:03.45");
}

#[test]
fn hours_are_not_wrapped() {
    let moment = Moment::from_timestamp(123, 0, 0, 7);

    assert_eq!(moment, Moment::from(442_800_007));
    assert_eq!(moment.as_srt_timestamp(), "123:00:00,007");
    assert_eq!(moment.as_substation_timestamp(), "123:00:00.00");
}

#[test]
fn timestamp_fields_are_not_checked() {
    assert_eq!(Moment::from_timestamp(0, 90, 75, 1500), Moment::from(5_476_500));
    assert_eq!(Moment::from_timestamp(0, -1, 0, 0), Moment::from(-60_000));
    assert_eq!(
        Moment::checked_from_timestamp(0, 0, 1, 26, 10),
        Some(Moment::from(1260))
    );
    assert_eq!(Moment::checked_from_timestamp(i64::MAX, 0, 0, 0, 1), None);
}

#[test]
fn negative_moments_keep_their_sign_in_every_field() {
    let moment = Moment::from(-3_723_456);

    assert_eq!(moment.hours(), -1);
    assert_eq!(moment.minutes(), -2);
    assert_eq!(moment.seconds(), -3);
    assert_eq!(moment.ms(), -456);
    assert_eq!(moment.as_srt_timestamp(), "-1:-2:-3,-456");
}

#[test]
fn moment_and_delta_arithmetic() {
    assert_eq!(Moment::from(1500) - Moment::from(500), TimeDelta::from(1000));
    assert_eq!(Moment::from(7) * 3, Moment::from(21));
    assert_eq!(Moment::from(-7) / 2, Moment::from(-3));
    assert_eq!(TimeDelta::from(-7) / 2, TimeDelta::from(-3));
    assert_eq!(TimeDelta::from(7) * -2, TimeDelta::from(-14));
    assert_eq!(i64::from(Frame::from(12)), 12);
    assert_eq!(Frame::from(-12).to_string(), "-12");
}

#[test]
fn subrip_text_is_read_back_as_it_was_written() {
    let text = "1
00:00:01,000 --> 00:00:02,500 X1:10 X2:20
First line
of two

22
01:00:03,000 --> 01:00:06,007
<i>Second</i>
";
    let srt = SubRipSubtitle::from_str(text).unwrap();

    assert_eq!(srt.events().len(), 2);
    assert_eq!(
        srt.event(0).unwrap().coordinates.as_deref(),
        Some("X1:10 X2:20")
    );
    assert_eq!(srt.event(0).unwrap().text, "First line\nof two");
    assert_eq!(srt.event(1).unwrap().line_number, 22);
    assert_eq!(srt.event(1).unwrap().coordinates, None);
    assert_eq!(srt.event(1).unwrap().start, Moment::from(3_603_000));
    assert_eq!(srt.event(1).unwrap().end, Moment::from(3_606_007));
    assert_eq!(srt.to_string(), text);
}

#[test]
fn subrip_event_without_text_is_read_back() {
    let text = "1
00:00:01,000 --> 00:00:02,500


2
00:00:03,000 --> 00:00:06,000
Two
";
    let srt = SubRipSubtitle::from_str(text).unwrap();

    assert_eq!(srt.events().len(), 2);
    assert_eq!(srt.event(0).unwrap().text, "");
    assert_eq!(srt.to_string(), text);
}

#[test]
fn lines_that_hold_no_block_are_dropped() {
    let srt = SubRipSubtitle::from_str(
        "

Hello

1
00:00:01,000 --> 00:00:02,000
Text



More text
",
    )
    .unwrap();

    assert_eq!(srt.events().len(), 1);
    assert_eq!(srt.event(0).unwrap().text, "Text\n\nMore text");
}

#[test]
fn empty_subtitles() {
    assert_eq!(SubRipSubtitle::from_str("").unwrap().to_string(), "");
    assert_eq!(MicroDvdSubtitle::from_str("\n\n").unwrap().to_string(), "");
    assert_eq!(WebVttSubtitle::from_str("").unwrap().to_string(), "WEBVTT\n\n");
    assert_eq!(
        AssSubtitle::from_str("").unwrap().to_string(),
        "[Script Info]\n\n"
    );
    assert_eq!(AssSubtitle::from_str("").unwrap().events().len(), 0);
}

#[test]
fn webvtt_header_styles_regions_and_settings() {
    let vtt = WebVttSubtitle::from_str(
        "WEBVTT - Translated by someone

STYLE
::cue { color: red }

REGION
id:fred

NOTE
not kept

intro
00:01.000 --> 00:02.000 line:0
Hello
",
    )
    .unwrap();

    assert_eq!(vtt.header().map(String::as_str), Some("Translated by someone"));
    assert_eq!(vtt.styles().len(), 1);
    assert_eq!(vtt.style(0).unwrap(), "::cue { color: red }");
    assert_eq!(vtt.regions().len(), 1);
    assert_eq!(vtt.region(0).unwrap(), "id:fred");
    assert_eq!(vtt.region(1), None);
    assert_eq!(vtt.events().len(), 1);
    let cue = vtt.event(0).unwrap();
    assert_eq!(cue.identifier.as_deref(), Some("intro"));
    assert_eq!(cue.settings.as_deref(), Some("line:0"));
    assert_eq!(cue.start, Moment::from(1000));
    assert_eq!(
        vtt.to_string(),
        "WEBVTT - Translated by someone

STYLE
::cue { color: red }

REGION
id:fred

intro
00:00:01.000 --> 00:00:02.000 line:0
Hello
"
    );
}

#[test]
fn webvtt_blocks_are_parted_by_one_empty_line() {
    let cue = WebVttCue {
        identifier: None,
        text: String::from("Hi"),
        settings: None,
        start: Moment::from(1000),
        end: Moment::from(2000),
    };
    let cues_only = WebVttSubtitle::from_cues(Some(String::from("note")), vec![cue]);
    assert_eq!(
        cues_only.to_string(),
        "WEBVTT - note\n\n00:00:01.000 --> 00:00:02.000\nHi\n"
    );

    let styled = WebVttSubtitle::new(
        None,
        Vec::new(),
        vec![String::from("::cue { color: red }"), String::from("::cue(b) { color: blue }")],
        vec![String::from("id:top")],
    );
    let written = styled.to_string();
    assert_eq!(
        written,
        "WEBVTT\n\nSTYLE\n::cue { color: red }\n\nSTYLE\n::cue(b) { color: blue }\n\nREGION\nid:top\n"
    );
    let read = WebVttSubtitle::from_str(&written).unwrap();
    assert!(read.header().is_none());
    assert_eq!(read.styles().len(), 2);
    assert_eq!(read.style(1).unwrap(), "::cue(b) { color: blue }");
    assert_eq!(read.regions().len(), 1);
    assert_eq!(read.to_string(), written);

    let headed = WebVttSubtitle::from_cues(Some(String::from("note")), Vec::new());
    assert_eq!(headed.to_string(), "WEBVTT - note\n\n");
    assert_eq!(
        WebVttSubtitle::from_str("WEBVTT - note\n\n").unwrap().to_string(),
        "WEBVTT - note\n\n"
    );
}

#[test]
fn ass_file_is_written_section_by_section() {
    let ass = AssSubtitle::from_str(
        "[Script Info]
Title: Example
ScriptType: v4.00+
Title: Better example

[V4+ Styles]
Format: Name, Fontname, Fontsize, PrimaryColour, SecondaryColour, OutlineColour, BackColour, Bold, Italic, Underline, StrikeOut, ScaleX, ScaleY, Spacing, Angle, BorderStyle, Outline, Shadow, Alignment, MarginL, MarginR, MarginV, Encoding
Style: Default,Arial,20,&H00FFFFFF,&H000000FF,&H00000000,&H00000000,-1,0,0,0,100,100,0,0.50,1,2,2,2,10,10,10,1
Style: Broken,Arial,x

[Events]
Format: Layer, Start, End, Style, Name, MarginL, MarginR, MarginV, Effect, Text
dialogue: 3,0:00:01.00,0:00:03.40,Default,Someone,1,2,3,fx,Oh, yeah.
Sound: 0,0:00:01.00,0:00:03.40,Default,,0,0,0,,ding.wav
",
    )
    .unwrap();

    assert_eq!(
        ass.script_info().title.as_deref(),
        Some("Better example")
    );
    assert_eq!(ass.script_info().script_type.as_deref(), Some("v4.00+"));
    assert_eq!(ass.script_info().timer, None);
    assert_eq!(ass.styles().len(), 1);
    let style = &ass.styles()[0];
    assert_eq!(style.name, "Default");
    assert_eq!(style.fontsize, 20);
    assert!(style.bold);
    assert!(!style.italic);
    assert_eq!(style.angle, "0.50");
    assert_eq!(style.encoding, 1);
    let event = ass.event(0).unwrap();
    assert!(matches!(event.kind, SubStationEventKind::Dialogue));
    assert_eq!(event.layer, 3);
    assert_eq!(event.start, Moment::from(1000));
    assert_eq!(event.end, Moment::from(3400));
    assert_eq!(event.name.as_deref(), Some("Someone"));
    assert_eq!(event.style.as_deref(), Some("Default"));
    assert_eq!(event.margin_v, 3);
    assert_eq!(event.effect.as_deref(), Some("fx"));
    assert_eq!(ass.sounds().len(), 1);
    assert_eq!(ass.sound(0).unwrap().text, "ding.wav");
    assert_eq!(ass.pictures().len(), 0);
    assert_eq!(ass.movies().len(), 0);
    assert_eq!(
        ass.to_string(),
        "[Script Info]
Title: Better example
ScriptType: v4.00+

[V4+ Styles]
Format: Name, Fontname, Fontsize, PrimaryColour, SecondaryColour, OutlineColour, BackColour, Bold, Italic, Underline, StrikeOut, ScaleX, ScaleY, Spacing, Angle, BorderStyle, Outline, Shadow, Alignment, MarginL, MarginR, MarginV, Encoding
Style: Default,Arial,20,&H00FFFFFF,&H000000FF,&H00000000,&H00000000,-1,0,0,0,100,100,0,0.50,1,2,2,2,10,10,10,1

[Events]
Format: Layer, Start, End, Style, Actor, MarginL, MarginR, MarginV, Effect, Text
Dialogue: 3,0:00:01.00,0:00:03.40,Default,Someone,1,2,3,fx,Oh, yeah.
Sound: 0,0:00:01.00,0:00:03.40,Default,,0,0,0,,ding.wav
"
    );
}

#[test]
fn ssa_marked_events_and_styles() {
    let ssa = SsaSubtitle::from_str(
        "[Script Info]
ScriptType: v4.00

[V4 Styles]
Style: Zombie,Courier New,32,16777215,65535,65535,-2147483640,-1,0,1,3,0,2,0,0,40,0,0

[Events]
Dialogue: Marked=1,0:01:19.00,0:01:26.50,Zombie,,0000,0000,0000,,{\\a10}Graahhh...
Dialogue: Marked=2,0:01:31.50,0:01:37.00,Zombie,,0000,0000,0100,,never read
Movie: marked=0,0:01:31.50,0:01:37.00,Zombie,,0000,0000,0100,,film.avi
",
    )
    .unwrap();

    assert_eq!(ssa.events().len(), 1);
    assert!(ssa.event(0).unwrap().marked);
    assert_eq!(ssa.event(0).unwrap().start, Moment::from(79_000));
    assert_eq!(ssa.movies().len(), 1);
    assert!(!ssa.movie(0).unwrap().marked);
    assert_eq!(ssa.styles()[0].alpha_level, 0);
    assert_eq!(ssa.styles()[0].back_colour, "-2147483640");
    assert_eq!(
        ssa.to_string(),
        "[Script Info]
ScriptType: v4.00

[V4 Styles]
Format: Name, Fontname, Fontsize, PrimaryColour, SecondaryColour, TertiaryColour, BackColour, Bold, Italic, BorderStyle, Outline, Shadow, Alignment, MarginL, MarginR, MarginV, AlphaLevel, Encoding
Style: Zombie,Courier New,32,16777215,65535,65535,-2147483640,-1,0,1,3,0,2,0,0,40,0,0

[Events]
Format: Marked, Start, End, Style, Name, MarginL, MarginR, MarginV, Effect, Text
Dialogue: Marked=1,0:01:19.00,0:01:26.50,Zombie,,0,0,0,,{\\a10}Graahhh...
Movie: Marked=0,0:01:31.50,0:01:37.00,Zombie,,0,0,100,,film.avi
"
    );
}

#[test]
fn embedded_fonts_end_at_an_empty_line() {
    let ass = AssSubtitle::from_str(
        "[Fonts]
fontname: first.ttf
M1234
5678

fontname: second.ttf
9999


[Graphics]
filename: never.png
lost because no empty line follows
",
    )
    .unwrap();

    assert_eq!(ass.fonts().len(), 2);
    assert_eq!(ass.fonts()[0].fontname, "first.ttf");
    assert_eq!(ass.fonts()[0].data, "M1234\n5678");
    assert_eq!(ass.fonts()[1].fontname, "second.ttf");
    assert_eq!(ass.fonts()[1].data, "9999");
    assert_eq!(ass.graphics().len(), 0);
    let font = SubStationFont {
        fontname: String::from("a.ttf"),
        data: String::from("xyz"),
    };
    assert_eq!(font.to_string(), "fontname: a.ttf\nxyz\n");
}

#[test]
fn lines_before_the_first_header_are_passed_over() {
    let ass = AssSubtitle::from_str(
        "Dialogue: 0,0:00:01.00,0:00:03.40,Default,,0,0,0,,too early
  [events] and the rest of this line
Dialogue: 0,0:00:01.00,0:00:03.40,Default,,0,0,0,,in time
Dialogue: 0,0:00:01.00,0:00:03.40,Default,,0,0,0
",
    )
    .unwrap();

    assert_eq!(ass.events().len(), 1);
    assert_eq!(ass.event(0).unwrap().text, "in time");
}
