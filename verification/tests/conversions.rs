use aspasia::detection::{
    format_of_extension, format_of_optional_extension, format_with_encoding,
};
use aspasia::plain::PlainEvent;
use aspasia::subrip::convert::{
    correct_colour_hex, srt_to_ass_formatting, srt_to_ssa_formatting, srt_to_vtt_formatting,
    strip_srt_formatting,
};
use aspasia::subrip::SubRipEvent;
use aspasia::substation::ass::convert::{ass_to_srt_formatting, strip_formatting_tags};
use aspasia::substation::common::convert::{convert_hex, split_formatting_tags};
use aspasia::substation::ssa::convert::ssa_to_srt_formatting;
use aspasia::webvtt::convert::{strip_html_tags, vtt_to_ssa_formatting};
use aspasia::{
    detect_format, detect_format_by_content, detect_format_by_extension, detect_format_from_str,
    AssSubtitle, Error, Format, FrameRate, MicroDvdSubtitle, Moment, PlainSubtitle, SsaSubtitle,
    SubRipSubtitle, TimeDelta, TimedMicroDvdSubtitle, TimedSubtitleFile, WebVttSubtitle,
};

fn event(line_number: usize, start: i64, end: i64, text: &str) -> SubRipEvent {
    SubRipEvent {
        line_number,
        text: String::from(text),
        start: Moment::from(start),
        end: Moment::from(end),
        coordinates: None,
    }
}

#[test]
fn colour_bytes_are_swapped() {
    assert_eq!(correct_colour_hex("ff0000"), "0000ff");
    assert_eq!(convert_hex("FF2022"), "2220FF");
    assert_eq!(convert_hex("ff"), "ff0000");
    assert_eq!(convert_hex(""), "000000");
    assert_eq!(convert_hex("12345678"), "563412");
}

#[test]
fn override_blocks_are_split_by_code() {
    assert_eq!(
        split_formatting_tags("a{\\b1\\i1}b{\\fs14}").as_deref(),
        Some("a{\\b1}{\\i1}b{\\fs14}")
    );
    assert_eq!(split_formatting_tags("no tags").as_deref(), Some("no tags"));
    assert_eq!(split_formatting_tags("{comment}"), None);
    assert_eq!(split_formatting_tags("open {\\b1"), None);
}

#[test]
fn tags_that_are_never_closed() {
    assert_eq!(strip_srt_formatting("a < b").as_deref(), Some("a < b"));
    assert_eq!(srt_to_vtt_formatting("{i}a{/i} { b").as_deref(), Some("<i>a</i> { b"));
    assert_eq!(srt_to_ass_formatting("<b>a</b> < b"), None);
    assert_eq!(strip_html_tags("a < b"), None);
    assert_eq!(strip_formatting_tags("a { b"), None);
    assert_eq!(ass_to_srt_formatting("{\\b1}a{"), None);
}

#[test]
fn tags_do_not_nest() {
    assert_eq!(strip_srt_formatting("a{b{c}d}e<f<g>h>i").as_deref(), Some("ad}eh>i"));
    assert_eq!(strip_formatting_tags("a{b{c}d}e").as_deref(), Some("ad}e"));
    assert_eq!(strip_html_tags("a<f<g>h>i").as_deref(), Some("ah>i"));
    assert_eq!(strip_srt_formatting("<>{}").as_deref(), Some(""));
}

#[test]
fn underline_is_unknown_to_ssa() {
    assert_eq!(
        srt_to_ass_formatting("<u>a</u>{b}b{/b}").as_deref(),
        Some("{\\u1}a{\\u0}{\\b1}b{\\b0}")
    );
    assert_eq!(
        srt_to_ssa_formatting("<u>a</u>{b}b{/b}").as_deref(),
        Some("a{\\b1}b{\\b0}")
    );
    assert_eq!(
        vtt_to_ssa_formatting("<u>a</u><i>b</i>").as_deref(),
        Some("a{\\i1}b{\\i0}")
    );
    assert_eq!(
        ssa_to_srt_formatting("{\\u1}a{\\i1}b{\\c&H0000FF&}c").as_deref(),
        Some("a<i>b<font color=\"#FF0000\">c")
    );
}

#[test]
fn drawing_spans_by_their_codes() {
    assert_eq!(
        strip_formatting_tags("a{\\pos(1,2)\\p1}m 0 0 l 1 1{\\b1}x{\\p0}b").as_deref(),
        Some("ab")
    );
    assert_eq!(strip_formatting_tags("a{\\pos(1,2)}b{\\p0}c").as_deref(), Some("abc"));
}

#[test]
fn text_that_cannot_be_converted_is_kept() {
    let srt = SubRipSubtitle::from_events(vec![event(7, 0, 1000, "<b>a</b>\n< b")]);
    let ass = AssSubtitle::from(&srt);

    assert_eq!(ass.event(0).unwrap().text, "<b>a</b>\\N< b");
    assert_eq!(ass.event(0).unwrap().layer, 0);
    assert_eq!(ass.script_info().script_type.as_deref(), Some("v4.00+"));

    let back = SubRipSubtitle::from(&ass);
    assert_eq!(back.event(0).unwrap().text, "<b>a</b>\n< b");
    assert_eq!(back.event(0).unwrap().line_number, 1);
}

#[test]
fn identifiers_and_line_numbers() {
    let srt = SubRipSubtitle::from_events(vec![event(10, 0, 1, "a"), event(5, 2, 3, "b")]);
    let mut vtt = WebVttSubtitle::from(&srt);

    assert_eq!(vtt.event(0).unwrap().identifier.as_deref(), Some("10"));
    assert_eq!(vtt.event(1).unwrap().identifier.as_deref(), Some("5"));

    vtt.event_mut(0).unwrap().identifier = Some(String::from("intro"));
    let back = SubRipSubtitle::from(vtt);
    assert_eq!(back.event(0).unwrap().line_number, 1);
    assert_eq!(back.event(1).unwrap().line_number, 5);
}

#[test]
fn ssa_and_ass_keep_the_fields_they_share() {
    let ssa = SsaSubtitle::from_str(
        "[Events]
Dialogue: Marked=1,0:01:19.00,0:01:26.50,Zombie,Bob,1,2,3,fx,{\\a10}Graahhh...
",
    )
    .unwrap();
    let ass = AssSubtitle::from(&ssa);
    let event = ass.event(0).unwrap();

    assert_eq!(event.layer, 0);
    assert_eq!(event.style.as_deref(), Some("Zombie"));
    assert_eq!(event.name.as_deref(), Some("Bob"));
    assert_eq!(event.margin_r, 2);
    assert_eq!(event.text, "{\\a10}Graahhh...");
    assert!(!SsaSubtitle::from(ass).event(0).unwrap().marked);
}

#[test]
fn microdvd_marks_for_line_feeds() {
    let srt = SubRipSubtitle::from_events(vec![event(1, 0, 1000, "<i>one</i>\ntwo")]);
    let sub = TimedMicroDvdSubtitle::from(&srt);

    assert_eq!(sub.event(0).unwrap().text, "one|two");
    assert_eq!(sub.framerate(), FrameRate::from_fps(24).unwrap());
    assert_eq!(sub.to_string(), "{0}{24}one|two\n");
    assert_eq!(AssSubtitle::from(&sub).event(0).unwrap().text, "one\\Ntwo");
    assert_eq!(WebVttSubtitle::from(&sub).event(0).unwrap().text, "one\ntwo");

    let ass = AssSubtitle::from_str(
        "[Events]
Dialogue: 0,0:00:01.00,0:00:03.40,Default,,0,0,0,,{\\b1}one\\Ntwo
",
    )
    .unwrap();
    assert_eq!(
        TimedMicroDvdSubtitle::from(&ass).event(0).unwrap().text,
        "one|two"
    );
}

#[test]
fn plain_subtitles_hold_text_and_timing() {
    let vtt = WebVttSubtitle::from_str(
        "WEBVTT

00:00:01.000 --> 00:00:02.000
<b>Hello</b>
there
",
    )
    .unwrap();
    let plain = PlainSubtitle::from(&vtt);

    assert_eq!(plain.events().len(), 1);
    assert_eq!(plain.event(0).unwrap().text, "Hello\nthere");
    assert_eq!(plain.event(0).unwrap().end, Moment::from(2000));
    assert_eq!(SsaSubtitle::from(plain).event(0).unwrap().text, "Hello\\Nthere");
    assert_eq!(PlainSubtitle::new().events().len(), 0);

    let own = PlainSubtitle::from_events(vec![PlainEvent {
        text: String::from("a"),
        start: Moment::from(1),
        end: Moment::from(2),
    }]);
    assert_eq!(SubRipSubtitle::from(own).to_string(), "1\n00:00:00,001 --> 00:00:00,002\na\n");
}

#[test]
fn frames_and_moments() {
    let mut sub = TimedMicroDvdSubtitle::from_raw(
        &MicroDvdSubtitle::from_str("{-3}{1000}a").unwrap(),
        FrameRate::from_micro_fps(23_976_024),
    );

    assert_eq!(sub.event(0).unwrap().start, Moment::from(-125));
    assert_eq!(sub.event(0).unwrap().end, Moment::from(41_708));
    assert_eq!(MicroDvdSubtitle::from_timed(&sub).to_string(), "{-3}{1000}a\n");
    assert_eq!(FrameRate::from_fps(0), None);
    assert_eq!(FrameRate::from_micro_fps(0), None);
    assert_eq!(FrameRate::from_fps(5000), None);

    sub.shift(TimeDelta::from(125));
    assert_eq!(sub.event(0).unwrap().start, Moment::from(0));
    assert_eq!(sub.event(0).unwrap().duration(), TimeDelta::from(41_833));
}

#[test]
fn shifting_moves_every_event() {
    let mut srt = SubRipSubtitle::from_events(vec![event(1, 0, 1000, "a"), event(2, 5, 6, "b")]);
    srt.shift(TimeDelta::from(-10));

    assert_eq!(srt.event(0).unwrap().start, Moment::from(-10));
    assert_eq!(srt.event(0).unwrap().end, Moment::from(990));
    assert_eq!(srt.event(1).unwrap().start, Moment::from(-5));
    assert_eq!(srt.event(2).map(|e| e.line_number), None);
}

#[test]
fn formats_by_extension() {
    assert_eq!(format_of_extension("ASS").unwrap(), Format::Ass);
    assert_eq!(format_of_extension("ssa").unwrap(), Format::Ssa);
    assert_eq!(format_of_extension("Srt").unwrap(), Format::SubRip);
    assert_eq!(format_of_extension("sub").unwrap(), Format::MicroDvd);
    assert_eq!(format_of_extension("vtt").unwrap(), Format::WebVtt);
    assert!(matches!(
        format_of_extension("txt"),
        Err(Error::UnknownFileTypeError)
    ));
    assert!(matches!(
        format_of_extension(".srt"),
        Err(Error::UnknownFileTypeError)
    ));
    assert_eq!(
        detect_format_by_extension("films/some.film.SRT").unwrap(),
        Format::SubRip
    );
    assert_eq!(detect_format_by_extension("movie.srt").unwrap(), Format::SubRip);
    assert_eq!(detect_format_by_extension("archive.tar.Ass").unwrap(), Format::Ass);
    assert_eq!(detect_format_by_extension("..vtt").unwrap(), Format::WebVtt);
    assert!(detect_format_by_extension("srt.").is_err());
    assert!(detect_format_by_extension("srt").is_err());
    assert!(detect_format_by_extension(".").is_err());
    assert!(detect_format_by_extension("").is_err());
    assert_eq!(detect_format("movie.sub", &b"WEBVTT".to_vec()).unwrap(), Format::MicroDvd);
    assert!(detect_format_by_extension("films/srt").is_err());
    assert!(detect_format_by_extension(".vtt").is_err());
}

#[test]
fn formats_that_cannot_be_told() {
    let unknown = detect_format_from_str("Just some text");

    assert!(matches!(unknown, Err(Error::UnknownFileTypeError)));
    assert_eq!(
        unknown.unwrap_err().to_string(),
        "could not detect file type automatically"
    );
    assert!(detect_format("notes.txt", &b"{1}{2".to_vec()).is_err());
    assert!(TimedSubtitleFile::new("notes.txt", &b"Just some text".to_vec()).is_err());
}

#[test]
fn errors_of_the_system_are_carried() {
    let error = Error::from(std::io::Error::new(
        std::io::ErrorKind::NotFound,
        "no such file",
    ));

    assert!(matches!(error, Error::FileIoError(_)));
    let words = error.to_string();
    assert!(words
        .starts_with("file i/o error occurred while trying to read or write from a file: "));
    assert!(words.contains("NotFound"));
    assert!(words.contains("no such file"));
}

#[test]
fn extension_comes_before_content() {
    assert_eq!(detect_format("a.ass", &b"WEBVTT".to_vec()).unwrap(), Format::Ass);
    assert_eq!(
        detect_format("a.txt", &b"webvtt - x".to_vec()).unwrap(),
        Format::WebVtt
    );
    assert_eq!(
        detect_format("a", &b"[script info]\n; comment\nscripttype : V4.00\n".to_vec()).unwrap(),
        Format::Ssa
    );
    assert_eq!(
        detect_format("a", &b"[script info]\n".to_vec()).unwrap(),
        Format::Ass
    );
}

#[test]
fn only_the_first_lines_are_looked_at() {
    let mut late = String::from("[Script Info]\n");
    for _ in 0..40 {
        late.push_str("; padding\n");
    }
    late.push_str("ScriptType: v4.00\n");

    assert_eq!(detect_format_from_str(&late).unwrap(), Format::Ssa);
    assert_eq!(
        detect_format_by_content(&late.into_bytes()).unwrap(),
        Format::Ass
    );
}

#[test]
fn files_of_any_format() {
    let file = TimedSubtitleFile::new("a.sub", &b"{0}{24}Hello|there\n".to_vec()).unwrap();

    assert_eq!(file.format(), Format::MicroDvd);
    assert_eq!(file.export(), "{0}{24}Hello|there\n");
    assert_eq!(
        SubRipSubtitle::from(file).to_string(),
        "1\n00:00:00,000 --> 00:00:01,000\nHello\nthere\n"
    );

    let file = TimedSubtitleFile::with_format(&b"{0}{24}Hello\n".to_vec(), Format::SubRip).unwrap();
    assert_eq!(file.format(), Format::SubRip);
    assert_eq!(file.export(), "");
    assert_eq!(PlainSubtitle::from(file).events().len(), 0);

    let file = TimedSubtitleFile::parse("WEBVTT\n\n00:01.000 --> 00:02.000\nHi\n", Format::WebVtt);
    assert_eq!(file.format(), Format::WebVtt);
    assert_eq!(PlainSubtitle::from(file).event(0).unwrap().text, "Hi");
}

#[test]
fn format_of_a_file_by_its_parts() {
    assert_eq!(
        format_of_optional_extension(Some("Vtt")).unwrap(),
        Format::WebVtt
    );
    assert!(matches!(
        format_of_optional_extension(None),
        Err(Error::UnknownFileTypeError)
    ));
    assert!(matches!(
        format_of_optional_extension(Some("text")),
        Err(Error::UnknownFileTypeError)
    ));
    assert_eq!(
        format_with_encoding(Some("ssa"), &b"WEBVTT".to_vec(), None).unwrap(),
        Format::Ssa
    );
    assert_eq!(
        format_with_encoding(Some("text"), &b"WEBVTT".to_vec(), Some("utf-8")).unwrap(),
        Format::WebVtt
    );
    assert_eq!(
        format_with_encoding(None, &b"{1}{2}x".to_vec(), None).unwrap(),
        Format::MicroDvd
    );
    assert!(format_with_encoding(None, &b"x".to_vec(), None).is_err());
}

#[test]
fn files_read_by_extension_or_content() {
    let bytes = b"1\n00:00:01,000 --> 00:00:02,000\nHi\n\n".to_vec();

    let file = TimedSubtitleFile::read(Some("srt"), &bytes).unwrap();
    assert_eq!(file.format(), Format::SubRip);
    assert_eq!(file.export(), "1\n00:00:01,000 --> 00:00:02,000\nHi\n");

    let file = TimedSubtitleFile::read(None, &bytes).unwrap();
    assert_eq!(file.format(), Format::SubRip);

    let file = TimedSubtitleFile::read(Some("vtt"), &bytes).unwrap();
    assert_eq!(file.format(), Format::WebVtt);

    assert!(matches!(
        TimedSubtitleFile::read(Some("text"), &b"nothing".to_vec()),
        Err(Error::UnknownFileTypeError)
    ));
}
