use std::str::FromStr;

use aspasia::{AssSubtitle, Moment, SsaSubtitle, WebVttSubtitle};

const ASS: &str = "[Script Info]
Title: Example
ScriptType: v4.00+

[V4+ Styles]
Style: Default,Arial,20,&H00FFFFFF,&H000000FF,&H00000000,&H00000000,-1,0,0,0,100,100,0,0.50,1,2,2,2,10,10,10,1

[Fonts]
fontname: first.ttf
AAAA


[Graphics]
filename: logo.bmp
BBBB


[Events]
Dialogue: 0,0:00:01.00,0:00:02.00,Default,,0,0,0,,One
Picture: 0,0:00:01.00,0:00:02.00,Default,,0,0,0,,one.png
Sound: 0,0:00:01.00,0:00:02.00,Default,,0,0,0,,one.wav
Movie: 0,0:00:01.00,0:00:02.00,Default,,0,0,0,,one.avi
Command: 0,0:00:01.00,0:00:02.00,Default,,0,0,0,,one.exe
";

const SSA: &str = "[Script Info]
Title: Example
ScriptType: v4.00

[V4 Styles]
Style: Zombie,Courier New,32,16777215,65535,65535,-2147483640,-1,0,1,3,0,2,0,0,40,0,0

[Fonts]
fontname: first.ttf
AAAA


[Graphics]
filename: logo.bmp
BBBB


[Events]
Dialogue: Marked=0,0:00:01.00,0:00:02.00,Zombie,,0,0,0,,One
Picture: Marked=0,0:00:01.00,0:00:02.00,Zombie,,0,0,0,,one.png
Sound: Marked=0,0:00:01.00,0:00:02.00,Zombie,,0,0,0,,one.wav
Movie: Marked=0,0:00:01.00,0:00:02.00,Zombie,,0,0,0,,one.avi
Command: Marked=0,0:00:01.00,0:00:02.00,Zombie,,0,0,0,,one.exe
";

#[test]
fn every_list_of_an_ass_file_can_be_edited() {
    let mut ass = AssSubtitle::from_str(ASS).unwrap();

    ass.script_info_mut().title = Some(String::from("Edited"));
    ass.styles_mut()[0].name = String::from("Plain");
    ass.fonts_mut()[0].fontname = String::from("second.ttf");
    ass.graphics_mut()[0].data = String::from("CCCC");
    ass.event_mut(0).unwrap().text = String::from("Two");
    ass.pictures_mut()[0].text = String::from("two.png");
    ass.picture_mut(0).unwrap().layer = 1;
    ass.sounds_mut()[0].text = String::from("two.wav");
    ass.sound_mut(0).unwrap().layer = 2;
    ass.movies_mut()[0].text = String::from("two.avi");
    ass.movie_mut(0).unwrap().layer = 3;
    ass.commands_mut()[0].text = String::from("two.exe");
    ass.command_mut(0).unwrap().end = Moment::from(2500);

    assert!(ass.picture_mut(1).is_none());
    assert!(ass.sound_mut(1).is_none());
    assert!(ass.movie_mut(1).is_none());
    assert!(ass.command_mut(1).is_none());
    assert!(ass.event_mut(1).is_none());

    assert_eq!(ass.script_info().title.as_deref(), Some("Edited"));
    assert_eq!(ass.styles()[0].name, "Plain");
    assert_eq!(ass.styles()[0].fontname, "Arial");
    assert_eq!(ass.fonts()[0].fontname, "second.ttf");
    assert_eq!(ass.fonts()[0].data, "AAAA");
    assert_eq!(ass.graphics()[0].filename, "logo.bmp");
    assert_eq!(ass.graphics()[0].data, "CCCC");
    assert_eq!(ass.event(0).unwrap().text, "Two");
    assert_eq!(ass.picture(0).unwrap().text, "two.png");
    assert_eq!(ass.picture(0).unwrap().layer, 1);
    assert_eq!(ass.sound(0).unwrap().text, "two.wav");
    assert_eq!(ass.sound(0).unwrap().layer, 2);
    assert_eq!(ass.movie(0).unwrap().text, "two.avi");
    assert_eq!(ass.movie(0).unwrap().layer, 3);
    assert_eq!(ass.command(0).unwrap().text, "two.exe");
    assert_eq!(ass.command(0).unwrap().end, Moment::from(2500));
    assert_eq!(ass.commands().len(), 1);

    let written = ass.to_string();
    assert!(written.contains("Title: Edited\n"));
    assert!(written.contains("Style: Plain,Arial,20,"));
    assert!(written.contains("Dialogue: 0,0:00:01.00,0:00:02.00,Default,,0,0,0,,Two\n"));
    assert!(written.contains("Picture: 1,0:00:01.00,0:00:02.00,Default,,0,0,0,,two.png\n"));
    assert!(written.contains("Command: 0,0:00:01.00,0:00:02.50,Default,,0,0,0,,two.exe\n"));
}

#[test]
fn every_list_of_an_ssa_file_can_be_edited() {
    let mut ssa = SsaSubtitle::from_str(SSA).unwrap();

    ssa.script_info_mut().title = None;
    ssa.styles_mut()[0].fontsize = 12;
    ssa.fonts_mut()[0].data = String::from("DDDD");
    ssa.graphics_mut()[0].filename = String::from("mark.bmp");
    ssa.event_mut(0).unwrap().marked = true;
    ssa.pictures_mut()[0].text = String::from("two.png");
    ssa.picture_mut(0).unwrap().marked = true;
    ssa.sounds_mut()[0].text = String::from("two.wav");
    ssa.sound_mut(0).unwrap().start = Moment::from(500);
    ssa.movies_mut()[0].text = String::from("two.avi");
    ssa.movie_mut(0).unwrap().margin_l = 7;
    ssa.commands_mut()[0].text = String::from("two.exe");
    ssa.command_mut(0).unwrap().effect = Some(String::from("fx"));

    assert!(ssa.picture_mut(1).is_none());
    assert!(ssa.sound_mut(1).is_none());
    assert!(ssa.movie_mut(1).is_none());
    assert!(ssa.command_mut(1).is_none());

    assert_eq!(ssa.script_info().title, None);
    assert_eq!(ssa.script_info().script_type.as_deref(), Some("v4.00"));
    assert_eq!(ssa.styles()[0].fontsize, 12);
    assert_eq!(ssa.fonts()[0].data, "DDDD");
    assert_eq!(ssa.graphics()[0].filename, "mark.bmp");
    assert!(ssa.event(0).unwrap().marked);
    assert_eq!(ssa.picture(0).unwrap().text, "two.png");
    assert!(ssa.picture(0).unwrap().marked);
    assert_eq!(ssa.sound(0).unwrap().start, Moment::from(500));
    assert_eq!(ssa.movie(0).unwrap().margin_l, 7);
    assert_eq!(ssa.command(0).unwrap().effect.as_deref(), Some("fx"));

    let written = ssa.to_string();
    assert!(!written.contains("Title:"));
    assert!(written.contains("Style: Zombie,Courier New,12,"));
    assert!(written.contains("Dialogue: Marked=1,0:00:01.00,0:00:02.00,Zombie,,0,0,0,,One\n"));
    assert!(written.contains("Sound: Marked=0,0:00:00.50,0:00:02.00,Zombie,,0,0,0,,two.wav\n"));
    assert!(written.contains("Movie: Marked=0,0:00:01.00,0:00:02.00,Zombie,,7,0,0,,two.avi\n"));
    assert!(written.contains("Command: Marked=0,0:00:01.00,0:00:02.00,Zombie,,0,0,0,fx,two.exe\n"));
}

#[test]
fn header_styles_and_regions_of_a_webvtt_file_can_be_edited() {
    let mut vtt = WebVttSubtitle::from_str(
        "WEBVTT - first

STYLE
::cue { color: red }

REGION
id:top

00:01.000 --> 00:02.000
Hi
",
    )
    .unwrap();

    assert_eq!(vtt.header().map(|h| h.as_str()), Some("first"));
    vtt.set_header(Some(String::from("second")));
    assert_eq!(vtt.header().map(|h| h.as_str()), Some("second"));
    vtt.set_header(None);
    assert!(vtt.header().is_none());

    let styles = vtt.styles().len();
    let regions = vtt.regions().len();
    assert_eq!(styles, 1);
    assert_eq!(regions, 1);
    vtt.styles_mut()[0].push_str("\n::cue(b) { color: blue }");
    vtt.style_mut(0).unwrap().push('\n');
    vtt.regions_mut()[0] = String::from("id:bottom");
    vtt.region_mut(0).unwrap().push_str("\nwidth:40%");
    assert!(vtt.style_mut(1).is_none());
    assert!(vtt.region_mut(1).is_none());

    assert!(vtt.style(0).unwrap().ends_with("::cue(b) { color: blue }\n"));
    assert_eq!(vtt.region(0).unwrap(), "id:bottom\nwidth:40%");
    assert_eq!(vtt.events().len(), 1);
    assert_eq!(vtt.event(0).unwrap().text, "Hi");
}
