use aspasia::encoding::{decode_lines, detect_encoding, text_lines};
use aspasia::{
    detect_format_by_content_with_encoding, AssSubtitle, Format, FrameRate, MicroDvdSubtitle,
    Moment, SubRipSubtitle, TimedMicroDvdSubtitle, TimedSubtitleFile, WebVttSubtitle,
};

/// A SubRip file of three events in GBK.
fn gbk_file() -> Vec<u8> {
    let mut bytes = Vec::new();
    bytes.extend_from_slice(b"1\r\n00:00:01,000 --> 00:00:02,000\r\n");
    bytes.extend_from_slice(&[0xd5, 0xe2, 0xca, 0xc7, 0xd6, 0xd0, 0xce, 0xc4]);
    bytes.extend_from_slice(b"\r\n\r\n2\r\n00:00:03,000 --> 00:00:04,000\r\n");
    bytes.extend_from_slice(&[
        0xbb, 0xb9, 0xd3, 0xd0, 0xb8, 0xfc, 0xb6, 0xe0, 0xb5, 0xc4, 0xd6, 0xd0, 0xce, 0xc4,
    ]);
    bytes.extend_from_slice(b"\r\n\r\n3\r\n00:00:05,000 --> 00:00:06,000\r\n");
    bytes.extend_from_slice(&[0xd4, 0xd9, 0xbc, 0xfb]);
    bytes.extend_from_slice(b"\r\n");
    bytes
}

#[test]
fn gbk_srt() {
    let sub = TimedSubtitleFile::new("./tests/data/gbk.srt", &gbk_file()).unwrap();
    let srt = SubRipSubtitle::from(sub);
    assert_eq!(srt.events().len(), 3);
    assert_eq!(srt.event(0).unwrap().text, "这是中文");
    assert_eq!(srt.event(1).unwrap().text, "还有更多的中文");
    assert_eq!(srt.event(2).unwrap().text, "再见");
}

#[test]
fn gbk_is_guessed() {
    assert_eq!(detect_encoding(&gbk_file(), None), "GBK");
}

#[test]
fn gbk_with_its_label() {
    let srt = SubRipSubtitle::from_bytes_with_encoding(&gbk_file(), Some("gbk"));

    assert_eq!(srt.events().len(), 3);
    assert_eq!(srt.event(0).unwrap().text, "这是中文");
    assert_eq!(srt.event(1).unwrap().text, "还有更多的中文");
    assert_eq!(srt.event(2).unwrap().text, "再见");
}

#[test]
fn utf8_is_guessed() {
    let text = "1\n00:00:01,000 --> 00:00:02,000\n这是中文\n";

    assert_eq!(detect_encoding(&text.as_bytes().to_vec(), None), "UTF-8");
    assert_eq!(detect_encoding(&text.as_bytes().to_vec(), Some(1)), "UTF-8");
    let srt = SubRipSubtitle::from_bytes(&text.as_bytes().to_vec());
    assert_eq!(srt.events().len(), 1);
    assert_eq!(srt.event(0).unwrap().text, "这是中文");
}

#[test]
fn lines_that_are_not_utf8_are_passed_over() {
    let mut bytes = b"first\r\n".to_vec();
    bytes.extend_from_slice(&[0xff, 0xfe, 0x41, b'\n']);
    bytes.extend_from_slice(b"\nlast");
    let lines = text_lines(&bytes);

    assert_eq!(
        lines,
        vec![
            Some(String::from("first")),
            None,
            Some(String::new()),
            Some(String::from("last")),
        ]
    );
    assert_eq!(text_lines(&Vec::new()), Vec::<Option<String>>::new());
}

#[test]
fn latin1_with_its_label() {
    let lines = decode_lines(&vec![b'c', b'a', b'f', 0xe9, b'\n'], Some("latin1"));

    assert_eq!(lines, vec![Some(String::from("café"))]);
}

#[test]
fn every_format_is_read_from_bytes() {
    let vtt = WebVttSubtitle::from_bytes(&b"WEBVTT - Head\n\n00:01.000 --> 00:02.000\nHi\n".to_vec());
    assert_eq!(vtt.header().map(String::as_str), Some("Head"));
    assert_eq!(vtt.event(0).unwrap().text, "Hi");

    let mut broken = vec![0xff, b'\n'];
    broken.extend_from_slice(b"WEBVTT - Not a header\n\n00:01.000 --> 00:02.000\nHi\n");
    let vtt = WebVttSubtitle::from_bytes_with_encoding(&broken, Some("utf-8"));
    assert_eq!(vtt.header(), None);
    assert_eq!(vtt.events().len(), 1);

    let ass = AssSubtitle::from_bytes(
        &b"[Events]\nDialogue: 0,0:00:01.00,0:00:03.40,Default,,0,0,0,,Oh, yeah.\n".to_vec(),
    );
    assert_eq!(ass.event(0).unwrap().text, "Oh, yeah.");

    let raw = MicroDvdSubtitle::from_bytes(&b"{1}{450}One\n".to_vec());
    assert_eq!(raw.event(0).unwrap().text, "One");
    let timed = TimedMicroDvdSubtitle::from_bytes(&b"{1}{450}One\n".to_vec());
    assert_eq!(timed.event(0).unwrap().start, Moment::from(42));
    let timed = TimedMicroDvdSubtitle::with_framerate(
        &b"{1}{450}One\n".to_vec(),
        FrameRate::from_fps(25).unwrap(),
    );
    assert_eq!(timed.event(0).unwrap().start, Moment::from(40));
    assert_eq!(timed.event(0).unwrap().end, Moment::from(18_000));
}

#[test]
fn format_of_a_file_in_another_encoding() {
    assert_eq!(
        detect_format_by_content_with_encoding(&gbk_file(), Some("gbk")).unwrap(),
        Format::SubRip
    );
    let file = TimedSubtitleFile::with_format(&gbk_file(), Format::SubRip).unwrap();
    assert_eq!(file.format(), Format::SubRip);
}

#[test]
fn guessing_stops_at_the_line_limit_once_the_guess_is_firm() {
    assert_eq!(detect_encoding(&gbk_file(), Some(1)), "UTF-8");
    assert_eq!(detect_encoding(&gbk_file(), Some(3)), "GBK");
    assert_eq!(detect_encoding(&gbk_file(), Some(100)), "GBK");
    assert_eq!(detect_encoding(&Vec::new(), Some(1)), "UTF-8");
}
