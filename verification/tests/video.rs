use clemen::text::{contains, number, same, split, trim};
use clemen::youtube::{Stream, Video, YouTube};

fn video(title: &str, description: Option<&str>, channel: Option<&str>) -> Video {
    Video {
        title: title.to_string(),
        description: description.map(|s| s.to_string()),
        channel: channel.map(|s| s.to_string()),
    }
}

fn read(title: &str, description: Option<&str>, channel: Option<&str>) -> (String, String, bool) {
    let (artist, track, generated) = YouTube::try_artist_track(&video(title, description, channel));
    (artist, track.unwrap(), generated)
}

fn triple(artist: &str, track: &str, generated: bool) -> (String, String, bool) {
    (artist.to_string(), track.to_string(), generated)
}

const GENERATED: &str = "Provided to YouTube by X\n\nAuto-generated by YouTube.";

#[test]
fn a_generated_video_is_named_after_its_channel() {
    let read = read("Come - Together", Some(GENERATED), Some("The Beatles - Topic"));
    assert_eq!(read, triple("The Beatles ", "Come - Together", true));
    assert_eq!(YouTube::stream(&video("x", Some(GENERATED), Some("A - Topic"))), Stream::Audio);
}

#[test]
fn a_generated_video_without_a_channel_goes_by_its_title() {
    assert_eq!(read("A - B", Some(GENERATED), None), triple("A", "B", false));
    assert_eq!(YouTube::stream(&video("A - B", Some(GENERATED), None)), Stream::Video);
}

#[test]
fn other_videos_go_by_their_title() {
    assert_eq!(read("Artist - Song - Live", None, Some("C")), triple("Artist", "Song", false));
    assert_eq!(read(" A\t-\u{a0}B ", Some("auto-generated"), None), triple("A", "B", false));
    assert_eq!(read("-", None, None), triple("", "", false));
    assert_eq!(read("", None, None), triple("", "", false));
    assert_eq!(read(" No hyphen ", None, None), triple(" No hyphen ", "", false));
    assert_eq!(YouTube::stream(&video("A - B", None, Some("C"))), Stream::Video);
}

#[test]
fn titles_lose_exactly_the_white_space_around_their_pieces() {
    let white = |c: char| {
        matches!(c, '\u{9}'..='\u{d}' | ' ' | '\u{85}' | '\u{a0}' | '\u{1680}'
            | '\u{2000}'..='\u{200a}' | '\u{2028}' | '\u{2029}' | '\u{202f}' | '\u{205f}'
            | '\u{3000}')
    };
    for c in '\0'..=char::MAX {
        if c == '-' {
            continue;
        }
        let mut title = String::new();
        title.push(c);
        title.push('-');
        let (artist, _, _) = read(&title, None, None);
        if white(c) {
            assert_eq!(artist, "");
        } else {
            assert_eq!(artist.chars().collect::<Vec<char>>(), vec![c]);
        }
    }
}

#[test]
fn links_are_found_in_order() {
    let text = "mirá https://www.youtube.com/watch?v=abc&t=3 y youtu.be/x_y-z, o ni.";
    let links = YouTube::get_link_list(text);
    assert_eq!(links, vec!["https://www.youtube.com/watch?v=abc&t=3", "youtu.be/x_y-z"]);
    let addresses: Vec<String> = links.iter().map(|l| YouTube::address_of(l)).collect();
    assert_eq!(addresses, vec!["https://www.youtube.com/watch?v=abc", "youtu.be/x_y-z"]);
    for address in addresses {
        assert!(text.contains(&address));
    }
}

#[test]
fn texts_without_links_have_none() {
    assert!(YouTube::get_link_list("").is_empty());
    assert!(YouTube::get_link_list("youtube sin punto").is_empty());
    assert_eq!(YouTube::get_link_list("a.b"), vec!["a.b"]);
}

#[test]
fn an_address_ends_at_the_first_ampersand() {
    assert_eq!(YouTube::address_of("a&b&c"), "a");
    assert_eq!(YouTube::address_of("abc"), "abc");
    assert_eq!(YouTube::address_of("&"), "");
    assert_eq!(YouTube::address_of(""), "");
}

#[test]
fn playlists_are_turned_down_by_their_short_name_only() {
    assert!(YouTube::is_request("https://youtube.com/watch?v=1"));
    assert!(YouTube::is_request("https://youtube.com/playlist?list=1"));
    assert!(YouTube::is_request("https://youtu.be/1"));
    assert!(!YouTube::is_request("https://youtu.be/1?playlist=2"));
    assert!(!YouTube::is_request("https://YouTube.com/watch?v=1"));
    assert!(!YouTube::is_request(""));
}

#[test]
fn texts_are_searched_for_parts() {
    assert!(contains("aab", "ab"));
    assert!(contains("aaab", "aab"));
    assert!(contains("ñandú", "ú"));
    assert!(contains("x", ""));
    assert!(contains("", ""));
    assert!(!contains("", "x"));
    assert!(!contains("ab", "abc"));
    assert!(!contains("ab", "ba"));
}

#[test]
fn texts_are_split_like_strings_are() {
    for text in ["", "-", "a", "a-", "-a", "a--b", "é-ñ-🍅", "--"] {
        let pieces: Vec<&str> = text.split("-").collect();
        assert_eq!(split(text, '-'), pieces);
    }
}

#[test]
fn numbers_are_written_in_decimal() {
    for n in [0, 7, 9, 10, 99, 100, 101, 1_234_567_890, u64::MAX] {
        assert_eq!(number(n), n.to_string());
    }
}

#[test]
fn texts_are_compared() {
    assert!(same("ñ", "ñ"));
    assert!(!same("ñ", "n"));
    assert!(!same("", "n"));
}

#[test]
fn texts_are_trimmed_like_strings_are() {
    for text in ["", " ", "a", " a", "a ", "\t a b \u{3000}\n", "\u{200b}a", " \u{85}\u{a0} ", "é ñ "] {
        assert_eq!(trim(text), text.trim());
    }
    for c in '\0'..=char::MAX {
        let mut text = String::new();
        text.push(c);
        assert_eq!(trim(&text), text.trim());
    }
}
