use aspasia::subrip::SubRipEvent;
use aspasia::{
    AssSubtitle, Moment, SubRipSubtitle, Subtitle, TextEvent, TextEventInterface, TextSubtitle,
    TimeDelta, TimedEvent, TimedEventInterface, TimedMicroDvdSubtitle, TimedSubtitle,
    WebVttSubtitle,
};

fn plain_texts<S>(subtitle: &S) -> Vec<String>
where
    S: Subtitle,
    S::Event: TextEvent,
{
    subtitle
        .events()
        .iter()
        .map(|event| TextEvent::as_plaintext(event))
        .collect()
}

fn ends<S>(subtitle: &S) -> Vec<Moment>
where
    S: Subtitle,
    S::Event: TimedEvent,
{
    subtitle
        .events()
        .iter()
        .map(|event| TimedEventInterface::end(event))
        .collect()
}

#[test]
fn events_of_any_format_give_their_plain_text() {
    let srt = SubRipSubtitle::from_str("1\n00:00:01,000 --> 00:00:02,000\n<b>one</b>\ntwo\n").unwrap();
    let vtt = WebVttSubtitle::from_str("WEBVTT\n\n00:01.000 --> 00:02.000\n<i>one</i>\ntwo\n").unwrap();
    let ass = AssSubtitle::from_str(
        "[Events]\nDialogue: 0,0:00:01.00,0:00:02.00,Default,,0,0,0,,{\\b1}one\\Ntwo\n",
    )
    .unwrap();
    let sub = TimedMicroDvdSubtitle::from_str("{24}{48}one|two\n").unwrap();

    assert_eq!(plain_texts(&srt), vec!["one\ntwo"]);
    assert_eq!(plain_texts(&vtt), vec!["one\ntwo"]);
    assert_eq!(plain_texts(&ass), vec!["one\ntwo"]);
    assert_eq!(plain_texts(&sub), vec!["one\ntwo"]);
    assert_eq!(ends(&srt), ends(&vtt));
    assert_eq!(ends(&ass), ends(&sub));
}

#[test]
fn shifting_and_stripping_through_the_traits() {
    let mut ass = AssSubtitle::from_str(
        "[V4+ Styles]
Style: Default,Arial,20,&H00FFFFFF,&H000000FF,&H00000000,&H00000000,-1,0,0,0,100,100,0,0,1,2,2,2,10,10,10,1

[Events]
Dialogue: 0,0:00:01.00,0:00:02.00,Default,,0,0,0,,{\\b1}one
Dialogue: 0,0:00:03.00,0:00:02.00,Default,,0,0,0,,two
",
    )
    .unwrap();

    assert_eq!(ass.styles().len(), 1);
    TimedSubtitle::shift(&mut ass, TimeDelta::from(500));
    TextSubtitle::strip_formatting(&mut ass);

    assert_eq!(ass.styles().len(), 0);
    assert_eq!(Subtitle::event(&ass, 0).unwrap().text, "one");
    assert_eq!(ass.event(0).unwrap().start, Moment::from(1500));
    assert_eq!(ass.event(1).unwrap().start, Moment::from(3500));
    assert_eq!(ass.event(1).unwrap().end, Moment::from(2500));
    assert_eq!(
        TimedEvent::duration(ass.event(1).unwrap()),
        TimeDelta::from(-1000)
    );
    assert!(Subtitle::event(&ass, 2).is_none());
}

#[test]
fn one_event_through_the_traits() {
    let mut event = SubRipEvent {
        line_number: 1,
        text: String::from("{i}one{/i}"),
        start: Moment::from(10),
        end: Moment::from(20),
        coordinates: None,
    };

    assert_eq!(TextEventInterface::text(&event), "{i}one{/i}");
    assert_eq!(TextEvent::unformatted_text(&event), "one");
    TextEvent::strip_formatting(&mut event);
    TimedEvent::shift(&mut event, TimeDelta::from(-10));
    TimedEventInterface::set_end(&mut event, Moment::from(5));
    TextEventInterface::set_text(&mut event, String::from("two"));

    assert_eq!(event.text, "two");
    assert_eq!(TimedEventInterface::start(&event), Moment::from(0));
    assert_eq!(event.end, Moment::from(5));

    let mut srt = SubRipSubtitle::from_events(vec![event]);
    Subtitle::event_mut(&mut srt, 0).unwrap().line_number = 9;
    Subtitle::events_mut(&mut srt)[0].coordinates = Some(String::from("X1:0"));
    assert_eq!(
        srt.to_string(),
        "9\n00:00:00,000 --> 00:00:00,005 X1:0\ntwo\n"
    );
}
