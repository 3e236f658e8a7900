use clemen::clock::Moment;
use clemen::data::{Data, Upload};
use clemen::message::{
    describe, handle_event, handle_event_at, handle_message, Event, Handling, Incoming, Order,
    Relay,
};
use clemen::youtube::Video;

fn video(title: &str) -> Video {
    Video { title: title.to_string(), description: None, channel: None }
}

fn links(list: &[&str]) -> Vec<String> {
    list.iter().map(|s| s.to_string()).collect()
}

fn report(relay: &Relay) -> String {
    match relay.order() {
        Order::Report { chat, text } => {
            assert_eq!(chat, Data::CHANNEL_DEBUG);
            text
        }
        other => panic!("{:?}", other),
    }
}

fn download(relay: &Relay) -> String {
    match relay.order() {
        Order::Download { url } => url,
        other => panic!("{:?}", other),
    }
}

fn incoming(chat: i64, public: bool, text: Option<&str>, audio: bool) -> Incoming {
    Incoming { chat, public, id: 5, text: text.map(|s| s.to_string()), audio }
}

#[test]
fn a_link_is_relayed() {
    let mut relay = Relay::new(9, false, links(&["youtu.be/x&t=3"]));
    assert_eq!(report(&relay), "Downloading URL: \n\nyoutu.be/x");
    assert_eq!(relay.advance(Event::Sent), None);
    assert_eq!(download(&relay), "youtu.be/x");
    assert_eq!(relay.advance(Event::Downloaded(video("Artist - \"Song\""))), None);
    assert_eq!(
        report(&relay),
        "Video download done. Sending as \"Artist - Some(\"\\\"Song\\\"\")\"."
    );
    assert_eq!(relay.advance(Event::Sent), None);
    match relay.order() {
        Order::Deliver { chat, title, performer } => {
            assert_eq!(chat, 9);
            assert_eq!(title, "\"Song\"");
            assert_eq!(performer, Some("Artist".to_string()));
        }
        other => panic!("{:?}", other),
    }
    assert_eq!(relay.advance(Event::Delivered(42)), None);
    assert_eq!(report(&relay), "Video upload done.");
    assert_eq!(relay.advance(Event::Sent), None);
    assert!(matches!(relay.order(), Order::Remove));
    assert_eq!(relay.advance(Event::Removed), None);
    assert!(matches!(relay.order(), Order::Finish));
}

#[test]
fn failures_are_reported_and_retried() {
    let mut relay = Relay::new(9, false, links(&["a.b/c", "d.e"]));
    relay.advance(Event::Sent);
    relay.advance(Event::DownloadTimedOut);
    assert_eq!(report(&relay), "YT time-out error (#0) for URL: \n\na.b/c");
    relay.advance(Event::Sent);
    assert_eq!(download(&relay), "a.b/c");
    relay.advance(Event::DownloadFailed("no format".to_string()));
    assert_eq!(report(&relay), "YT download error (#1): \n\nno format");
    relay.advance(Event::Sent);
    assert_eq!(download(&relay), "a.b/c");
    relay.advance(Event::Downloaded(video("A - B")));
    relay.advance(Event::Sent);
    relay.advance(Event::NotDelivered);
    assert_eq!(report(&relay), "TG time-out error (#2) for URL: \n\na.b/c");
    relay.advance(Event::Sent);
    assert_eq!(report(&relay), "Downloading URL: \n\nd.e");
    relay.advance(Event::Sent);
    relay.advance(Event::DownloadTimedOut);
    assert_eq!(report(&relay), "YT time-out error (#0) for URL: \n\nd.e");
}

#[test]
fn a_link_is_tried_three_times() {
    let mut relay = Relay::new(9, false, links(&["a.b"]));
    let mut downloads = 0;
    let mut answers = 0;
    loop {
        match relay.order() {
            Order::Report { .. } => relay.advance(Event::Sent),
            Order::Download { .. } => {
                downloads += 1;
                relay.advance(Event::Downloaded(video("A")))
            }
            Order::Deliver { .. } => relay.advance(Event::NotDelivered),
            Order::Remove => relay.advance(Event::Removed),
            Order::Finish => break,
        };
        answers += 1;
    }
    assert_eq!(downloads, 3);
    assert!(answers <= 20);
}

#[test]
fn events_that_answer_nothing_change_nothing() {
    let mut relay = Relay::new(9, false, links(&["a.b"]));
    assert_eq!(relay.advance(Event::Removed), None);
    assert_eq!(relay.advance(Event::Delivered(1)), None);
    assert_eq!(relay.advance(Event::NotDelivered), None);
    assert_eq!(report(&relay), "Downloading URL: \n\na.b");
    relay.advance(Event::Sent);
    assert_eq!(relay.advance(Event::Sent), None);
    assert_eq!(download(&relay), "a.b");
    let mut empty = Relay::new(9, false, Vec::new());
    assert!(matches!(empty.order(), Order::Finish));
    assert_eq!(empty.advance(Event::Sent), None);
    assert!(matches!(empty.order(), Order::Finish));
}

/// Brings a relay to the point at which its delivery is confirmed.
fn delivered(chat: i64, public: bool, message: i32) -> Relay {
    let mut relay = Relay::new(chat, public, links(&["a.b"]));
    relay.advance(Event::Sent);
    relay.advance(Event::Downloaded(video("A - B")));
    relay.advance(Event::Sent);
    relay.advance(Event::Delivered(message));
    relay
}

#[test]
fn deliveries_to_the_music_channel_are_logged() {
    let mut data = Data::default();
    let mut relay = delivered(Data::CHANNEL_MUSIC, true, 42);
    assert!(handle_event(&mut data, &mut relay, Event::Sent));
    assert_eq!(data.music.len(), 1);
    assert_eq!(data.music[0].message, 42);
    assert!(!handle_event(&mut data, &mut relay, Event::Removed));
    assert_eq!(data.music.len(), 1);
    assert!(matches!(relay.order(), Order::Finish));
}

#[test]
fn deliveries_are_logged_at_their_moment() {
    let at = |day: i64| Moment::new(day * 86_400, 0, 0).unwrap();
    let mut data = Data::default();
    data.music.push(Upload::at(1, at(10)));
    data.music.push(Upload::at(2, at(30)));
    let mut relay = delivered(Data::CHANNEL_MUSIC, true, 42);
    assert!(handle_event_at(&mut data, &mut relay, Event::Sent, &at(40), &at(41)));
    let log: Vec<(i32, i64)> = data.music.iter().map(|u| (u.message, u.time.wall())).collect();
    assert_eq!(log, vec![(2, 30 * 86_400), (42, 40 * 86_400)]);
}

#[test]
fn deliveries_elsewhere_are_not_logged() {
    for (chat, public) in [(9, false), (9, true), (Data::CHANNEL_MUSIC, false)] {
        let mut data = Data::default();
        let mut relay = delivered(chat, public, 42);
        assert!(!handle_event(&mut data, &mut relay, Event::Sent));
        assert!(data.music.is_empty());
        assert!(matches!(relay.order(), Order::Remove));
    }
}

#[test]
fn songs_in_the_music_channel_are_logged() {
    let mut data = Data::default();
    let message = incoming(Data::CHANNEL_MUSIC, true, None, true);
    assert!(matches!(handle_message(&mut data, &message), Handling::Logged));
    assert_eq!(data.music.len(), 1);
    assert_eq!(data.music[0].message, 5);
}

#[test]
fn other_messages_are_ignored() {
    let mut data = Data::default();
    for message in [
        incoming(9, true, Some("https://youtube.com/watch?v=1"), false),
        incoming(9, true, None, true),
        incoming(9, false, None, true),
        incoming(9, false, None, false),
        incoming(9, false, Some("hola"), false),
        incoming(Data::CHANNEL_MUSIC, true, Some("hola"), false),
        incoming(Data::CHANNEL_MUSIC, true, None, false),
        incoming(Data::CHANNEL_MUSIC, false, None, true),
    ] {
        assert!(matches!(handle_message(&mut data, &message), Handling::Ignored));
    }
    assert!(data.music.is_empty());
}

#[test]
fn links_in_a_message_are_relayed() {
    let mut data = Data::default();
    let text = "https://www.youtube.com/watch?v=1&t=2 y youtu.be/3";
    for (chat, public) in [(9, false), (Data::CHANNEL_MUSIC, true)] {
        match handle_message(&mut data, &incoming(chat, public, Some(text), false)) {
            Handling::Relayed(mut relay) => {
                relay.advance(Event::Sent);
                assert_eq!(download(&relay), "https://www.youtube.com/watch?v=1");
                for _ in 0..3 {
                    relay.advance(Event::DownloadTimedOut);
                    relay.advance(Event::Sent);
                }
                relay.advance(Event::Sent);
                assert_eq!(download(&relay), "youtu.be/3");
            }
            other => panic!("{:?}", other),
        }
    }
    assert!(data.music.is_empty());
}

#[test]
fn links_are_taken_from_whoever_found_them() {
    let message = incoming(9, false, Some("youtube"), false);
    match message.handle(links(&["x.y"])) {
        Handling::Relayed(relay) => assert_eq!(report(&relay), "Downloading URL: \n\nx.y"),
        other => panic!("{:?}", other),
    }
    assert!(matches!(incoming(9, true, Some("youtube"), false).handle(links(&["x.y"])), Handling::Ignored));
}

#[test]
fn videos_are_described() {
    assert_eq!(describe("A", "None"), "Video download done. Sending as \"A - None\".");
}
