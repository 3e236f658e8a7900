//! Links to videos in a text, and what a video is called.

use vstd::prelude::*;
use vstd::string::*;

use crate::text;

verus! {

/// The shape of a link: a host name of at least two parts, with or without a
/// scheme before it and a path behind it, between word boundaries.
pub const LINK_PATTERN: &'static str =
    r"\b((?:https?:\/\/)?(?:www\.)?[a-zA-Z0-9-]+(?:\.[a-zA-Z0-9-]+)+(?:\/[^\s]*)?)\b";

/// What YouTube writes into the description of a video that it made itself
/// out of a song.
pub const GENERATED_MARK: &'static str = "Auto-generated by YouTube.";

// ---------------------------------------------------------------------------
// Links
// ---------------------------------------------------------------------------

/// What the first group of a regular expression holds in each of its matches
/// in a text, from left to right.
pub uninterp spec fn first_groups(pattern: Seq<char>, text: Seq<char>) -> Seq<Seq<char>>;

/// The parts stand in the text, each at its place, one behind the other and
/// none across another.
pub open spec fn stand_in_order(parts: Seq<Seq<char>>, text: Seq<char>) -> bool {
    exists|places: Seq<int>| #[trigger] stand_at(parts, text, places)
}

/// The parts stand in the text at these places, in order and apart.
pub open spec fn stand_at(parts: Seq<Seq<char>>, text: Seq<char>, places: Seq<int>) -> bool {
    &&& places.len() == parts.len()
    &&& forall|i: int| 0 <= i < parts.len() ==> text::occurs_at(text, parts[i], #[trigger] places[i])
    &&& forall|i: int, j: int|
        0 <= i < j < parts.len() ==> #[trigger] places[i] + parts[i].len() <= #[trigger] places[j]
}

/// `regex::Regex::captures_iter`: the text of the first group in each match of
/// the pattern, from left to right. The pattern is that of a link, which is well
/// formed and whose one group takes part in every match. Matches do not overlap,
/// so that the groups stand in the text one behind the other.
#[verifier::external_body]
fn captures(pattern: &str, text: &str) -> (groups: Vec<String>)
    requires
        pattern@ == LINK_PATTERN@,
    ensures
        text::texts(groups@) == first_groups(pattern@, text@),
        stand_in_order(text::texts(groups@), text@),
{
    let expression = regex::Regex::new(pattern).unwrap();
    let found = expression.captures_iter(text).map(|capture| capture.extract());
    found.map(|(_, [group])| group.to_string()).collect()
}

/// A text asks for a download: it speaks of YouTube, and where it does so only
/// by the short host name, it does not speak of a playlist.
pub open spec fn asks_for_download(text: Seq<char>) -> bool {
    text::occurs(text, "youtube"@) || (text::occurs(text, "youtu.be"@) && !text::occurs(
        text,
        "playlist"@,
    ))
}

/// The address in a link: what stands before its first ampersand.
pub open spec fn address(link: Seq<char>) -> Seq<char> {
    text::before(link, '&')
}

// ---------------------------------------------------------------------------
// Videos
// ---------------------------------------------------------------------------

/// What is known of a video.
#[derive(Debug)]
pub struct Video {
    pub title: String,
    pub description: Option<String>,
    pub channel: Option<String>,
}

/// The texts of a video.
#[verifier::ext_equal]
pub struct VideoView {
    pub title: Seq<char>,
    pub description: Option<Seq<char>>,
    pub channel: Option<Seq<char>>,
}

impl View for Video {
    type V = VideoView;

    open spec fn view(&self) -> VideoView {
        VideoView {
            title: self.title@,
            description: text::optional(self.description),
            channel: text::optional(self.channel),
        }
    }
}

/// YouTube made the video itself out of a song, and its channel is known.
pub open spec fn is_generated(video: VideoView) -> bool {
    &&& video.description is Some
    &&& text::occurs(video.description->0, GENERATED_MARK@)
    &&& video.channel is Some
}

/// The artist, the track, and whether YouTube made the video itself.
///
/// The channel of such a video is called after the artist, up to a hyphen, and
/// its title is the track. Of any other video the first two pieces of the title
/// between hyphens are the artist and the track; a title without hyphens is
/// the artist, and the track is empty.
pub open spec fn artist_track(video: VideoView) -> (Seq<char>, Option<Seq<char>>, bool) {
    let pieces = text::pieces(video.title, '-');
    if is_generated(video) {
        (text::pieces(video.channel->0, '-')[0], Some(video.title), true)
    } else if pieces.len() >= 2 {
        (text::trimmed(pieces[0]), Some(text::trimmed(pieces[1])), false)
    } else {
        (video.title, Some(Seq::empty()), false)
    }
}

/// What is to be downloaded of a video.
#[derive(Clone, Copy, Debug, PartialEq, Eq, Structural)]
pub enum Stream {
    /// The sound alone.
    Audio,
    /// Sound and picture.
    Video,
}

/// Reading links and videos.
pub struct YouTube;

impl YouTube {
    /// The artist, the track, and whether YouTube made the video itself.
    pub fn try_artist_track(video: &Video) -> (result: (String, Option<String>, bool))
        ensures
            (result.0@, text::optional(result.1), result.2) == artist_track(video@),
    {
        if let Some(description) = &video.description {
            if text::contains(description.as_str(), GENERATED_MARK) {
                if let Some(channel) = &video.channel {
                    let pieces = text::split(channel.as_str(), '-');
                    assert(pieces@[0]@ == text::texts(pieces@)[0]);
                    return (pieces[0].clone(), Some(video.title.clone()), true);
                }
            }
        }
        let pieces = text::split(video.title.as_str(), '-');
        assert(pieces@.len() == text::texts(pieces@).len());
        if pieces.len() >= 2 {
            assert(pieces@[0]@ == text::texts(pieces@)[0]);
            assert(pieces@[1]@ == text::texts(pieces@)[1]);
            (
                text::trim(pieces[0].as_str()).to_owned(),
                Some(text::trim(pieces[1].as_str()).to_owned()),
                false,
            )
        } else {
            (video.title.clone(), Some(String::new()), false)
        }
    }

    /// What to download of a video. Those that YouTube made out of songs have
    /// no pictures to download.
    pub fn stream(video: &Video) -> (stream: Stream)
        ensures
            stream == (if is_generated(video@) {
                Stream::Audio
            } else {
                Stream::Video
            }),
    {
        if Self::try_artist_track(video).2 {
            Stream::Audio
        } else {
            Stream::Video
        }
    }

    /// The links in a text, from left to right.
    pub fn get_link_list(text: &str) -> (list: Vec<String>)
        ensures
            text::texts(list@) == first_groups(LINK_PATTERN@, text@),
            stand_in_order(text::texts(list@), text@),
    {
        captures(LINK_PATTERN, text)
    }

    /// Whether a text asks for a download.
    pub fn is_request(text: &str) -> (asked: bool)
        ensures
            asked == asks_for_download(text@),
    {
        text::contains(text, "youtube") || text::contains(text, "youtu.be") && !text::contains(
            text,
            "playlist",
        )
    }

    /// The address in a link.
    pub fn address_of(link: &str) -> (url: String)
        ensures
            url@ == address(link@),
    {
        let pieces = text::split(link, '&');
        assert(pieces@[0]@ == text::texts(pieces@)[0]);
        proof {
            text::lemma_before(link@, '&');
            if text::before(link@, '&').len() >= link@.len() {
                assert(link@ =~= text::before(link@, '&'));
            }
        }
        pieces[0].clone()
    }
}

// ---------------------------------------------------------------------------
// Laws
// ---------------------------------------------------------------------------

/// A video always has a track, even if it is empty, and what is told of its
/// origin is whether YouTube made it itself.
pub proof fn law_track_is_known(video: VideoView)
    ensures
        artist_track(video).1 is Some,
        artist_track(video).2 == is_generated(video),
{
}

/// The address in a link is a start of the link, ends at its first ampersand,
/// and has none itself.
pub proof fn law_address(link: Seq<char>)
    ensures
        address(link).len() <= link.len(),
        address(link) == link.take(address(link).len() as int),
        !address(link).contains('&'),
        address(link).len() < link.len() ==> link[address(link).len() as int] == '&',
{
    text::lemma_before(link, '&');
}

/// Every address that comes out of the links in a text stands in the text.
pub proof fn law_address_in_text(links: Seq<Seq<char>>, text: Seq<char>, i: int)
    requires
        stand_in_order(links, text),
        0 <= i < links.len(),
    ensures
        text::occurs(text, address(links[i])),
{
    let places = choose|places: Seq<int>| #[trigger] stand_at(links, text, places);
    let at = places[i];
    let link = links[i];
    let url = address(link);
    law_address(link);
    assert(text::occurs_at(text, link, at));
    assert(text.subrange(at, at + url.len()) =~= url) by {
        assert forall|k: int| 0 <= k < url.len() implies text[at + k] == url[k] by {
            assert(text.subrange(at, at + link.len())[k] == link[k]);
        }
    }
    assert(text::occurs_at(text, url, at));
}

// ---------------------------------------------------------------------------
// What is read from links and videos
// ---------------------------------------------------------------------------

/// What a video is said to be is what is known of it.
pub proof fn law_video_is_what_is_known(video: Video)
    ensures
        video@.title == video.title@,
        match video.description {
            Some(description) => video@.description == Some(description@),
            None => video@.description is None,
        },
        match video.channel {
            Some(channel) => video@.channel == Some(channel@),
            None => video@.channel is None,
        },
{
}

/// The description says somewhere that YouTube made the video, and the channel
/// is known.
pub open spec fn is_marked(video: VideoView) -> bool {
    &&& video.channel is Some
    &&& video.description is Some
    &&& exists|front: Seq<char>, back: Seq<char>|
        video.description->0 == #[trigger] (front + "Auto-generated by YouTube."@ + back)
}

/// A video counts as made by YouTube exactly if its description says so, in
/// whatever place, and its channel is known.
pub proof fn law_generated_videos_are_marked(video: VideoView)
    ensures
        is_generated(video) <==> is_marked(video),
        artist_track(video).2 <==> is_marked(video),
{
    let mark = "Auto-generated by YouTube."@;
    if is_generated(video) {
        text::law_what_is_found_stands(video.description->0, mark);
    }
    if is_marked(video) {
        let (front, back) = choose|front: Seq<char>, back: Seq<char>|
            video.description->0 == #[trigger] (front + mark + back);
        text::law_found_where_it_stands(front, mark, back);
    }
}

/// The artist of a video that YouTube made is what the channel is called, up to
/// its first hyphen if it has one, and the track is the whole title.
pub proof fn law_generated_video(video: VideoView, artist: Seq<char>, rest: Seq<char>)
    requires
        is_marked(video),
        !artist.contains('-'),
        video.channel == Some(artist) || video.channel == Some(artist + seq!['-'] + rest),
    ensures
        artist_track(video) == (artist, Some(video.title), true),
{
    law_generated_videos_are_marked(video);
    text::law_split(artist, '-', rest);
}

/// Of any other video the channel and the description do not matter: videos with
/// the same title have the same artist and track.
pub proof fn law_title_alone_matters(one: VideoView, other: VideoView)
    requires
        !is_marked(one),
        !is_marked(other),
        one.title == other.title,
    ensures
        artist_track(one) == artist_track(other),
        !artist_track(one).2,
{
    law_generated_videos_are_marked(one);
    law_generated_videos_are_marked(other);
}

/// Where the title of any other video has a hyphen, the artist stands before the
/// first one, and the track behind it, up to the next one if there is one. Both
/// are trimmed.
pub proof fn law_title_with_hyphen(
    video: VideoView,
    artist: Seq<char>,
    track: Seq<char>,
    rest: Seq<char>,
)
    requires
        !is_marked(video),
        !artist.contains('-'),
        !track.contains('-'),
        video.title == artist + seq!['-'] + track || video.title == artist + seq!['-'] + (track
            + seq!['-'] + rest),
    ensures
        artist_track(video) == (
            text::trimmed(artist),
            Some(text::trimmed(track)),
            false,
        ),
{
    law_generated_videos_are_marked(video);
    text::law_split(artist, '-', track);
    text::law_split(artist, '-', track + seq!['-'] + rest);
    text::law_split(track, '-', rest);
}

/// Where it has none, the title as it is is the artist, and the track is empty.
pub proof fn law_title_without_hyphen(video: VideoView)
    requires
        !is_marked(video),
        !video.title.contains('-'),
    ensures
        artist_track(video) == (video.title, Some(Seq::<char>::empty()), false),
{
    law_generated_videos_are_marked(video);
    text::law_split(video.title, '-', Seq::empty());
}

/// The word `youtube` anywhere in a text asks for a download. So does the word
/// `youtu.be`, if the word `playlist` is nowhere. Nothing else does.
pub proof fn law_requests(front: Seq<char>, back: Seq<char>, text: Seq<char>)
    ensures
        asks_for_download(front + "youtube"@ + back),
        text == front + "youtu.be"@ + back && !text::occurs(text, "playlist"@)
            ==> asks_for_download(text),
        !text::occurs(text, "youtube"@) && text::occurs(text, "playlist"@) ==> !asks_for_download(
            text,
        ),
        !text::occurs(text, "youtube"@) && !text::occurs(text, "youtu.be"@)
            ==> !asks_for_download(text),
{
    text::law_found_where_it_stands(front, "youtube"@, back);
    text::law_found_where_it_stands(front, "youtu.be"@, back);
}

/// A link without an ampersand is its own address. An ampersand and all that is
/// behind it is cut off.
pub proof fn law_ampersand_cuts(url: Seq<char>, rest: Seq<char>)
    requires
        !url.contains('&'),
    ensures
        address(url) == url,
        address(url + seq!['&'] + rest) == url,
{
    text::law_split(url, '&', rest);
}

/// Links are looked for by this pattern.
pub proof fn law_link_pattern()
    ensures
        LINK_PATTERN@
            == r"\b((?:https?:\/\/)?(?:www\.)?[a-zA-Z0-9-]+(?:\.[a-zA-Z0-9-]+)+(?:\/[^\s]*)?)\b"@,
{
}

/// Links that stand in a text in order stand there one behind the other: before
/// each of them there is room for all that came before it.
pub proof fn law_links_do_not_overlap(links: Seq<Seq<char>>, text: Seq<char>, i: int, j: int)
    requires
        stand_in_order(links, text),
        0 <= i < j < links.len(),
    ensures
        exists|front: Seq<char>, middle: Seq<char>, back: Seq<char>|
            text == #[trigger] (front + links[i] + middle + links[j] + back),
{
    let places = choose|places: Seq<int>| #[trigger] stand_at(links, text, places);
    let a = places[i];
    let b = places[j];
    assert(text::occurs_at(text, links[i], a));
    assert(text::occurs_at(text, links[j], b));
    let front = text.take(a);
    let middle = text.subrange(a + links[i].len(), b);
    let back = text.skip(b + links[j].len());
    assert(text =~= front + text.subrange(a, a + links[i].len()) + middle + text.subrange(
        b,
        b + links[j].len(),
    ) + back);
    assert(text == front + links[i] + middle + links[j] + back);
}

/// Of a video that YouTube made the sound is downloaded alone, of any other the
/// pictures too.
pub proof fn law_streams(video: Video, stream: Stream)
    requires
        call_ensures(YouTube::stream, (&video,), stream),
    ensures
        stream is Audio <==> is_marked(video@),
{
    law_generated_videos_are_marked(video@);
}

/// What is read from a video is its artist and its track, in this order, and
/// whether YouTube made it.
pub proof fn law_reading_a_video(video: Video, result: (String, Option<String>, bool))
    requires
        call_ensures(YouTube::try_artist_track, (&video,), result),
    ensures
        result.0@ == artist_track(video@).0,
        result.1 is Some,
        result.1->0@ == artist_track(video@).1->0,
        result.2 <==> is_marked(video@),
{
    law_generated_videos_are_marked(video@);
    text::law_optional(result.1);
}

} // verus!
