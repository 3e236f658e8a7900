//! What the bot does with a message that is no command: it logs the songs of
//! the music channel, and relays videos that are linked to as audio.

use vstd::prelude::*;
use vstd::string::*;

use crate::clock::Moment;
use crate::data;
use crate::data::{Data, DataView, Upload};
use crate::text;
use crate::youtube;
use crate::youtube::{Video, VideoView, YouTube};

verus! {

/// How often the download of a link is tried.
pub const TRIES: u32 = 3;

/// For how many seconds a download is waited for.
pub const DOWNLOAD_SECONDS: u64 = 20;

/// For how many seconds a delivery is waited for.
pub const DELIVERY_SECONDS: u64 = 120;

// ---------------------------------------------------------------------------
// What the relay is told, and what it orders
// ---------------------------------------------------------------------------

/// What has come of an order of the relay.
#[derive(Debug)]
pub enum Event {
    /// The report has been sent.
    Sent,
    /// The download took too long.
    DownloadTimedOut,
    /// The download failed, and why.
    DownloadFailed(String),
    /// The video has been downloaded.
    Downloaded(Video),
    /// The audio has been delivered, in the given message.
    Delivered(i32),
    /// The delivery failed or took too long.
    NotDelivered,
    /// The file has been removed.
    Removed,
}

/// What has come of an order, in texts.
#[verifier::ext_equal]
pub enum EventView {
    Sent,
    DownloadTimedOut,
    DownloadFailed(Seq<char>),
    Downloaded(VideoView),
    Delivered(i32),
    NotDelivered,
    Removed,
}

impl View for Event {
    type V = EventView;

    open spec fn view(&self) -> EventView {
        match self {
            Event::Sent => EventView::Sent,
            Event::DownloadTimedOut => EventView::DownloadTimedOut,
            Event::DownloadFailed(error) => EventView::DownloadFailed(error@),
            Event::Downloaded(video) => EventView::Downloaded(video@),
            Event::Delivered(message) => EventView::Delivered(*message),
            Event::NotDelivered => EventView::NotDelivered,
            Event::Removed => EventView::Removed,
        }
    }
}

/// What the relay wants done.
#[derive(Debug)]
pub enum Order {
    /// Send a message to a chat that hears how downloads get on.
    Report { chat: i64, text: String },
    /// Download the video at an address.
    Download { url: String },
    /// Send the downloaded file as audio, with its title and performer.
    Deliver { chat: i64, title: String, performer: Option<String> },
    /// Remove the downloaded file.
    Remove,
    /// Nothing more.
    Finish,
}

/// What the relay wants done, in texts.
#[verifier::ext_equal]
pub enum OrderView {
    Report { chat: i64, text: Seq<char> },
    Download { url: Seq<char> },
    Deliver { chat: i64, title: Seq<char>, performer: Option<Seq<char>> },
    Remove,
    Finish,
}

impl View for Order {
    type V = OrderView;

    open spec fn view(&self) -> OrderView {
        match self {
            Order::Report { chat, text } => OrderView::Report { chat: *chat, text: text@ },
            Order::Download { url } => OrderView::Download { url: url@ },
            Order::Deliver { chat, title, performer } => OrderView::Deliver {
                chat: *chat,
                title: title@,
                performer: text::optional(*performer),
            },
            Order::Remove => OrderView::Remove,
            Order::Finish => OrderView::Finish,
        }
    }
}

/// How far the relay has come with a link.
#[derive(Debug)]
pub enum Stage {
    /// It is about to say that it starts.
    Announce,
    /// It is about to download.
    Download,
    /// It is about to say that the download took too long.
    DownloadSlow,
    /// It is about to say that the download failed.
    DownloadFailed { error: String },
    /// It is about to say what it has downloaded.
    Describe { artist: String, track: Option<String> },
    /// It is about to deliver the audio.
    Deliver { artist: String, track: Option<String> },
    /// It is about to say that the delivery failed.
    NotDelivered,
    /// It is about to say that the delivery is done.
    Confirm { message: i32 },
    /// It is about to remove the file.
    Discard,
}

/// How far the relay has come with a link, in texts.
#[verifier::ext_equal]
pub enum StageView {
    Announce,
    Download,
    DownloadSlow,
    DownloadFailed { error: Seq<char> },
    Describe { artist: Seq<char>, track: Option<Seq<char>> },
    Deliver { artist: Seq<char>, track: Option<Seq<char>> },
    NotDelivered,
    Confirm { message: i32 },
    Discard,
}

impl View for Stage {
    type V = StageView;

    open spec fn view(&self) -> StageView {
        match self {
            Stage::Announce => StageView::Announce,
            Stage::Download => StageView::Download,
            Stage::DownloadSlow => StageView::DownloadSlow,
            Stage::DownloadFailed { error } => StageView::DownloadFailed { error: error@ },
            Stage::Describe { artist, track } => StageView::Describe {
                artist: artist@,
                track: text::optional(*track),
            },
            Stage::Deliver { artist, track } => StageView::Deliver {
                artist: artist@,
                track: text::optional(*track),
            },
            Stage::NotDelivered => StageView::NotDelivered,
            Stage::Confirm { message } => StageView::Confirm { message: *message },
            Stage::Discard => StageView::Discard,
        }
    }
}

// ---------------------------------------------------------------------------
// The relay
// ---------------------------------------------------------------------------

/// The relay of the links of a message.
#[derive(Debug)]
pub struct Relay {
    chat: i64,
    logs: bool,
    links: Vec<String>,
    next: usize,
    attempt: u32,
    stage: Stage,
}

/// Where the relay stands.
#[verifier::ext_equal]
pub struct RelayView {
    /// The chat that audio is delivered to.
    pub chat: i64,
    /// What is delivered to the chat is logged.
    pub logs: bool,
    /// The links to relay.
    pub links: Seq<Seq<char>>,
    /// The place of the link at hand.
    pub next: int,
    /// How many tries of that link have failed.
    pub attempt: int,
    /// How far the present try has come.
    pub stage: StageView,
}

impl View for Relay {
    type V = RelayView;

    closed spec fn view(&self) -> RelayView {
        RelayView {
            chat: self.chat,
            logs: self.logs,
            links: text::texts(self.links@),
            next: self.next as int,
            attempt: self.attempt as int,
            stage: self.stage@,
        }
    }
}

/// A chat is the music channel, whose songs are logged.
pub open spec fn is_music_channel(public: bool, chat: i64) -> bool {
    public && chat == Data::CHANNEL_MUSIC
}

impl RelayView {
    /// Before the first link.
    pub open spec fn start(chat: i64, public: bool, links: Seq<Seq<char>>) -> RelayView {
        RelayView {
            chat,
            logs: is_music_channel(public, chat),
            links,
            next: 0,
            attempt: 0,
            stage: StageView::Announce,
        }
    }

    /// No link is left.
    pub open spec fn finished(self) -> bool {
        self.next >= self.links.len()
    }

    /// The address in the link at hand.
    pub open spec fn url(self) -> Seq<char> {
        youtube::address(self.links[self.next])
    }

    /// On to another stage of the same try.
    pub open spec fn at(self, stage: StageView) -> RelayView {
        RelayView { stage, ..self }
    }

    /// On to the next link.
    pub open spec fn next_link(self) -> RelayView {
        RelayView { next: self.next + 1, attempt: 0, stage: StageView::Announce, ..self }
    }

    /// On to the next try, or to the next link once all tries have failed.
    pub open spec fn retry(self) -> RelayView {
        if self.attempt + 1 < TRIES {
            RelayView { attempt: self.attempt + 1, stage: StageView::Download, ..self }
        } else {
            self.next_link()
        }
    }

    /// Where the relay stands after an event. An event that does not answer
    /// its order changes nothing.
    pub open spec fn after(self, event: EventView) -> RelayView {
        if self.finished() {
            self
        } else {
            match (self.stage, event) {
                (StageView::Announce, EventView::Sent) => self.at(StageView::Download),
                (StageView::Download, EventView::DownloadTimedOut) => self.at(
                    StageView::DownloadSlow,
                ),
                (StageView::Download, EventView::DownloadFailed(error)) => self.at(
                    StageView::DownloadFailed { error },
                ),
                (StageView::Download, EventView::Downloaded(video)) => self.at(
                    StageView::Describe {
                        artist: youtube::artist_track(video).0,
                        track: youtube::artist_track(video).1,
                    },
                ),
                (StageView::DownloadSlow, EventView::Sent) => self.retry(),
                (StageView::DownloadFailed { error }, EventView::Sent) => self.retry(),
                (StageView::Describe { artist, track }, EventView::Sent) => self.at(
                    StageView::Deliver { artist, track },
                ),
                (StageView::Deliver { artist, track }, EventView::Delivered(message)) => self.at(
                    StageView::Confirm { message },
                ),
                (StageView::Deliver { artist, track }, EventView::NotDelivered) => self.at(
                    StageView::NotDelivered,
                ),
                (StageView::NotDelivered, EventView::Sent) => self.retry(),
                (StageView::Confirm { message }, EventView::Sent) => self.at(StageView::Discard),
                (StageView::Discard, EventView::Removed) => self.next_link(),
                _ => self,
            }
        }
    }

    /// The message that an event makes the relay log.
    pub open spec fn logs_on(self, event: EventView) -> Option<i32> {
        match (self.stage, event) {
            (StageView::Confirm { message }, EventView::Sent) => if self.logs && !self.finished() {
                Some(message)
            } else {
                None
            },
            _ => None,
        }
    }

    /// What the relay wants done.
    pub open spec fn order(self) -> OrderView {
        let number = text::decimal(self.attempt as nat);
        if self.finished() {
            OrderView::Finish
        } else {
            match self.stage {
                StageView::Announce => told(
                    "Downloading URL: \n\n"@ + self.url(),
                ),
                StageView::Download => OrderView::Download { url: self.url() },
                StageView::DownloadSlow => told(
                    "YT time-out error (#"@ + number + ") for URL: \n\n"@ + self.url(),
                ),
                StageView::DownloadFailed { error } => told(
                    "YT download error (#"@ + number + "): \n\n"@ + error,
                ),
                StageView::Describe { artist, track } => told(
                    description(artist, debug_text(track)),
                ),
                StageView::Deliver { artist, track } => match track {
                    Some(track) => OrderView::Deliver {
                        chat: self.chat,
                        title: track,
                        performer: Some(artist),
                    },
                    None => OrderView::Deliver { chat: self.chat, title: artist, performer: None },
                },
                StageView::NotDelivered => told(
                    "TG time-out error (#"@ + number + ") for URL: \n\n"@ + self.url(),
                ),
                StageView::Confirm { message } => told(
                    "Video upload done."@,
                ),
                StageView::Discard => OrderView::Remove,
            }
        }
    }
}

/// A report to the channel for reports.
pub open spec fn told(text: Seq<char>) -> OrderView {
    OrderView::Report { chat: Data::CHANNEL_DEBUG, text }
}

/// What the `Debug` of an optional string writes.
pub uninterp spec fn debug_text(track: Option<Seq<char>>) -> Seq<char>;

/// `Debug` for `Option<String>`, by `format!`: a function of the text alone.
#[verifier::external_body]
fn debug_track(track: &Option<String>) -> (text: String)
    ensures
        text@ == debug_text(text::optional(*track)),
{
    format!("{:?}", track)
}

/// How a video is announced that has been downloaded.
pub open spec fn description(artist: Seq<char>, track: Seq<char>) -> Seq<char> {
    "Video download done. Sending as \""@ + artist + " - "@ + track + "\"."@
}

/// How a video is announced that has been downloaded.
pub fn describe(artist: &str, track: &str) -> (text: String)
    ensures
        text@ == description(artist@, track@),
{
    let mut text = "Video download done. Sending as \"".to_owned();
    text.append(artist);
    text.append(" - ");
    text.append(track);
    text.append("\".");
    text
}

/// A report on a try: what happened, the number of the try, and what about.
fn report(what: &str, attempt: u32, about: &str, subject: &str) -> (order: Order)
    ensures
        order@ == told(what@ + text::decimal(attempt as nat) + about@ + subject@),
{
    let mut text = what.to_owned();
    text.append(text::number(attempt as u64).as_str());
    text.append(about);
    text.append(subject);
    Order::Report { chat: Data::CHANNEL_DEBUG, text }
}

impl Relay {
    /// The relay of links that stood in a message, before the first of them.
    pub fn new(chat: i64, public: bool, links: Vec<String>) -> (relay: Relay)
        ensures
            relay@ == RelayView::start(chat, public, text::texts(links@)),
    {
        Relay {
            chat,
            logs: public && chat == Data::CHANNEL_MUSIC,
            links,
            next: 0,
            attempt: 0,
            stage: Stage::Announce,
        }
    }

    /// What is to be done now.
    pub fn order(&self) -> (order: Order)
        ensures
            order@ == self@.order(),
    {
        assert(text::texts(self.links@).len() == self.links@.len());
        if self.next >= self.links.len() {
            return Order::Finish;
        }
        assert(self@.links[self.next as int] == self.links@[self.next as int]@);
        let url = YouTube::address_of(self.links[self.next].as_str());
        match &self.stage {
            Stage::Announce => {
                let mut text = "Downloading URL: \n\n".to_owned();
                text.append(url.as_str());
                Order::Report { chat: Data::CHANNEL_DEBUG, text }
            },
            Stage::Download => Order::Download { url },
            Stage::DownloadSlow => report(
                "YT time-out error (#",
                self.attempt,
                ") for URL: \n\n",
                url.as_str(),
            ),
            Stage::DownloadFailed { error } => report(
                "YT download error (#",
                self.attempt,
                "): \n\n",
                error.as_str(),
            ),
            Stage::Describe { artist, track } => {
                let shown = debug_track(track);
                Order::Report {
                    chat: Data::CHANNEL_DEBUG,
                    text: describe(artist.as_str(), shown.as_str()),
                }
            },
            Stage::Deliver { artist, track } => {
                if let Some(track) = track {
                    Order::Deliver {
                        chat: self.chat,
                        title: track.clone(),
                        performer: Some(artist.clone()),
                    }
                } else {
                    Order::Deliver { chat: self.chat, title: artist.clone(), performer: None }
                }
            },
            Stage::NotDelivered => report(
                "TG time-out error (#",
                self.attempt,
                ") for URL: \n\n",
                url.as_str(),
            ),
            Stage::Confirm { message } => Order::Report {
                chat: Data::CHANNEL_DEBUG,
                text: "Video upload done.".to_owned(),
            },
            Stage::Discard => Order::Remove,
        }
    }

    fn go_to_next_link(&mut self)
        requires
            !old(self)@.finished(),
        ensures
            final(self)@ == old(self)@.next_link(),
    {
        assert(text::texts(self.links@).len() == self.links@.len());
        assert(self.next < self.links.len());
        self.next = self.next + 1;
        self.attempt = 0;
        self.stage = Stage::Announce;
    }

    fn go_to_retry(&mut self)
        requires
            !old(self)@.finished(),
        ensures
            final(self)@ == old(self)@.retry(),
    {
        if self.attempt < TRIES - 1 {
            self.attempt = self.attempt + 1;
            self.stage = Stage::Download;
        } else {
            self.go_to_next_link();
        }
    }

    /// Takes notice of an event. Hands out the message that is to be logged on
    /// it, if there is one.
    pub fn advance(&mut self, event: Event) -> (message: Option<i32>)
        ensures
            final(self)@ == old(self)@.after(event@),
            message == old(self)@.logs_on(event@),
    {
        assert(text::texts(self.links@).len() == self.links@.len());
        if self.next >= self.links.len() {
            return None;
        }
        let mut stage = Stage::Announce;
        std::mem::swap(&mut stage, &mut self.stage);
        match (stage, event) {
            (Stage::Announce, Event::Sent) => {
                self.stage = Stage::Download;
                None
            },
            (Stage::Download, Event::DownloadTimedOut) => {
                self.stage = Stage::DownloadSlow;
                None
            },
            (Stage::Download, Event::DownloadFailed(error)) => {
                self.stage = Stage::DownloadFailed { error };
                None
            },
            (Stage::Download, Event::Downloaded(video)) => {
                let (artist, track, _) = YouTube::try_artist_track(&video);
                self.stage = Stage::Describe { artist, track };
                None
            },
            (Stage::DownloadSlow, Event::Sent) => {
                self.go_to_retry();
                None
            },
            (Stage::DownloadFailed { error: _ }, Event::Sent) => {
                self.go_to_retry();
                None
            },
            (Stage::Describe { artist, track }, Event::Sent) => {
                self.stage = Stage::Deliver { artist, track };
                None
            },
            (Stage::Deliver { artist: _, track: _ }, Event::Delivered(message)) => {
                self.stage = Stage::Confirm { message };
                None
            },
            (Stage::Deliver { artist: _, track: _ }, Event::NotDelivered) => {
                self.stage = Stage::NotDelivered;
                None
            },
            (Stage::NotDelivered, Event::Sent) => {
                self.go_to_retry();
                None
            },
            (Stage::Confirm { message }, Event::Sent) => {
                self.stage = Stage::Discard;
                if self.logs {
                    Some(message)
                } else {
                    None
                }
            },
            (Stage::Discard, Event::Removed) => {
                self.go_to_next_link();
                None
            },
            (stage, _) => {
                self.stage = stage;
                None
            },
        }
    }
}

/// Tells the relay of an event, and logs what it hands out as a song that came
/// at `arrival`, by the clock at `now`. Says whether the data is to be saved.
pub fn handle_event_at(
    data: &mut Data,
    relay: &mut Relay,
    event: Event,
    arrival: &Moment,
    now: &Moment,
) -> (save: bool)
    ensures
        final(relay)@ == old(relay)@.after(event@),
        match old(relay)@.logs_on(event@) {
            Some(message) => {
                &&& save
                &&& final(data)@ == data::logged(
                    old(data)@,
                    *now,
                    Upload { message, time: *arrival },
                )
            },
            None => !save && final(data)@ == old(data)@,
        },
{
    match relay.advance(event) {
        Some(message) => {
            data.add_upload_at(now, Upload::at(message, *arrival));
            true
        },
        None => false,
    }
}

/// Tells the relay of an event, and logs what it hands out as a song that has
/// come now. Says whether the data is to be saved.
pub fn handle_event(data: &mut Data, relay: &mut Relay, event: Event) -> (save: bool)
    ensures
        final(relay)@ == old(relay)@.after(event@),
        match old(relay)@.logs_on(event@) {
            Some(message) => {
                &&& save
                &&& has_logged(old(data)@, final(data)@, message)
            },
            None => !save && final(data)@ == old(data)@,
        },
{
    match relay.advance(event) {
        Some(message) => {
            data.add_upload(Upload::new(message));
            true
        },
        None => false,
    }
}

/// A message was logged, as a song that came at some moment of the clock.
pub open spec fn has_logged(before: DataView, after: DataView, message: i32) -> bool {
    exists|now: Moment, upload: Upload|
        now.shown() && now.was_read() && upload.time.shown() && upload.time.was_read()
            && upload.message == message && after
            == #[trigger] data::logged(before, now, upload)
}

// ---------------------------------------------------------------------------
// Messages
// ---------------------------------------------------------------------------

/// A message that is no command.
#[derive(Debug)]
pub struct Incoming {
    /// The chat that it was sent to.
    pub chat: i64,
    /// That chat is a group or a channel.
    pub public: bool,
    /// The number of the message in the chat.
    pub id: i32,
    /// What it says, if it is a text.
    pub text: Option<String>,
    /// It is an audio file.
    pub audio: bool,
}

/// What a message brings about.
#[derive(Debug)]
pub enum Handling {
    /// Nothing.
    Ignored,
    /// A song was logged, and the data is to be saved.
    Logged,
    /// A relay of its links is to be run.
    Relayed(Relay),
}

/// What a message brings about, in texts.
#[verifier::ext_equal]
pub enum HandlingView {
    Ignored,
    Logged,
    Relayed(RelayView),
}

impl View for Handling {
    type V = HandlingView;

    open spec fn view(&self) -> HandlingView {
        match self {
            Handling::Ignored => HandlingView::Ignored,
            Handling::Logged => HandlingView::Logged,
            Handling::Relayed(relay) => HandlingView::Relayed(relay@),
        }
    }
}

impl Incoming {
    /// What the message brings about, if `links` are the links in its text.
    ///
    /// Of the chats with more than one user only the music channel is heard.
    /// Texts that ask for a download are relayed, and audio files in the music
    /// channel are logged.
    pub open spec fn handling(self, links: Seq<Seq<char>>) -> HandlingView {
        if self.public && self.chat != Data::CHANNEL_MUSIC {
            HandlingView::Ignored
        } else {
            match self.text {
                Some(text) => if youtube::asks_for_download(text@) {
                    HandlingView::Relayed(RelayView::start(self.chat, self.public, links))
                } else {
                    HandlingView::Ignored
                },
                None => if self.audio && is_music_channel(self.public, self.chat) {
                    HandlingView::Logged
                } else {
                    HandlingView::Ignored
                },
            }
        }
    }

    /// The links in the text of the message.
    pub open spec fn links(self) -> Seq<Seq<char>> {
        match self.text {
            Some(text) => youtube::first_groups(youtube::LINK_PATTERN@, text@),
            None => Seq::empty(),
        }
    }

    /// What the message brings about, if `links` are the links in its text.
    pub fn handle(&self, links: Vec<String>) -> (handling: Handling)
        ensures
            handling@ == self.handling(text::texts(links@)),
    {
        if self.public && self.chat != Data::CHANNEL_MUSIC {
            return Handling::Ignored;
        }
        match &self.text {
            Some(text) => {
                if YouTube::is_request(text.as_str()) {
                    Handling::Relayed(Relay::new(self.chat, self.public, links))
                } else {
                    Handling::Ignored
                }
            },
            None => {
                if self.audio && self.public && self.chat == Data::CHANNEL_MUSIC {
                    Handling::Logged
                } else {
                    Handling::Ignored
                }
            },
        }
    }
}

/// Receives a message that is no command.
pub fn handle_message(data: &mut Data, message: &Incoming) -> (handling: Handling)
    ensures
        handling@ == message.handling(message.links()),
        match handling {
            Handling::Logged => has_logged(old(data)@, final(data)@, message.id),
            _ => final(data)@ == old(data)@,
        },
{
    let mut links: Vec<String> = Vec::new();
    assert(text::texts(links@) =~= Seq::empty());
    if let Some(text) = &message.text {
        if YouTube::is_request(text.as_str()) {
            links = YouTube::get_link_list(text.as_str());
        }
    }
    let handling = message.handle(links);
    if let Handling::Logged = handling {
        data.add_upload(Upload::new(message.id));
    }
    handling
}

// ---------------------------------------------------------------------------
// Laws of the relay
// ---------------------------------------------------------------------------

impl RelayView {
    /// The relay is at one of its links or past the last, with tries left.
    pub open spec fn sound(self) -> bool {
        0 <= self.next <= self.links.len() && 0 <= self.attempt < TRIES
    }

    /// An event answers the order of the relay.
    pub open spec fn answers(self, event: EventView) -> bool {
        match self.order() {
            OrderView::Report { .. } => event is Sent,
            OrderView::Download { .. } => event is DownloadTimedOut || event is DownloadFailed
                || event is Downloaded,
            OrderView::Deliver { .. } => event is Delivered || event is NotDelivered,
            OrderView::Remove => event is Removed,
            OrderView::Finish => false,
        }
    }

    /// Where the relay stands after some events.
    pub open spec fn after_all(self, events: Seq<EventView>) -> RelayView
        decreases events.len(),
    {
        if events.len() == 0 {
            self
        } else {
            self.after(events[0]).after_all(events.drop_first())
        }
    }

    /// Each event answers the order that stands when it comes.
    pub open spec fn answered_by(self, events: Seq<EventView>) -> bool
        decreases events.len(),
    {
        events.len() == 0 || (self.answers(events[0]) && self.after(events[0]).answered_by(
            events.drop_first(),
        ))
    }

    /// How many of the events end a download.
    pub open spec fn downloads(self, events: Seq<EventView>) -> nat
        decreases events.len(),
    {
        if events.len() == 0 {
            0
        } else {
            let rest = self.after(events[0]).downloads(events.drop_first());
            if self.order() is Download && self.answers(events[0]) {
                rest + 1
            } else {
                rest
            }
        }
    }

    /// The messages that are logged on the events, in order.
    pub open spec fn logged_on(self, events: Seq<EventView>) -> Seq<i32>
        decreases events.len(),
    {
        if events.len() == 0 {
            Seq::empty()
        } else {
            let rest = self.after(events[0]).logged_on(events.drop_first());
            match self.logs_on(events[0]) {
                Some(message) => seq![message] + rest,
                None => rest,
            }
        }
    }

    /// How many downloads of the link at hand are still to come at most.
    pub open spec fn tries_left(self) -> int {
        match self.stage {
            StageView::Announce | StageView::Download => TRIES - self.attempt,
            StageView::Confirm { .. } | StageView::Discard => 0,
            _ => TRIES - self.attempt - 1,
        }
    }

    /// How many downloads are still to come at most.
    pub open spec fn downloads_left(self) -> int {
        if self.finished() {
            0
        } else {
            TRIES * (self.links.len() - self.next - 1) + self.tries_left()
        }
    }

    /// How many messages are still to be logged at most.
    pub open spec fn logs_left(self) -> int {
        if self.finished() {
            0
        } else if self.stage is Discard {
            self.links.len() - self.next - 1
        } else {
            self.links.len() - self.next
        }
    }

    /// How many events are still to come at most.
    pub open spec fn events_left(self) -> int {
        let here: int = match self.stage {
            StageView::Announce => 5,
            StageView::Download => 4,
            StageView::DownloadSlow | StageView::DownloadFailed { .. } => 1,
            StageView::Describe { .. } => 3,
            StageView::Deliver { .. } => 2,
            StageView::NotDelivered => 1,
            StageView::Confirm { .. } => 1,
            StageView::Discard => 0,
        };
        if self.finished() {
            0
        } else {
            20 * (self.links.len() - self.next - 1) + 5 * (TRIES - self.attempt - 1) + here + 1
        }
    }
}

/// A relay is sound from its start, and events keep it so. What it relays, and
/// where to, does not change.
pub proof fn law_relay_stays_sound(relay: RelayView, event: EventView)
    requires
        relay.sound(),
    ensures
        relay.after(event).sound(),
        relay.after(event).links == relay.links,
        relay.after(event).chat == relay.chat,
        relay.after(event).logs == relay.logs,
        relay.next <= relay.after(event).next <= relay.next + 1,
        forall|chat: i64, public: bool, links: Seq<Seq<char>>|
            (#[trigger] RelayView::start(chat, public, links)).sound(),
{
}

/// A relay moves on exactly on the events that answer its order.
pub proof fn law_relay_moves_on_answers(relay: RelayView, event: EventView)
    requires
        relay.sound(),
    ensures
        relay.answers(event) <==> relay.after(event) != relay,
{
}

/// Every event that answers an order brings the relay nearer to its end.
pub proof fn law_relay_progresses(relay: RelayView, event: EventView)
    requires
        relay.sound(),
        relay.answers(event),
    ensures
        0 <= relay.after(event).events_left() < relay.events_left(),
{
}

/// A relay ends: it has taken at most twenty answers for each of its links, and
/// has then no order left, or it waits for an answer.
pub proof fn law_relay_ends(relay: RelayView, events: Seq<EventView>)
    requires
        relay.sound(),
        relay.answered_by(events),
    ensures
        events.len() + relay.after_all(events).events_left() <= relay.events_left(),
        relay.after_all(events).events_left() >= 0,
        relay.after_all(events).events_left() == 0 <==> relay.after_all(events).order() is Finish,
        relay.events_left() <= 20 * (relay.links.len() - relay.next),
    decreases events.len(),
{
    if events.len() > 0 {
        law_relay_stays_sound(relay, events[0]);
        law_relay_progresses(relay, events[0]);
        law_relay_ends(relay.after(events[0]), events.drop_first());
    }
}

/// The relay goes through its links in order.
pub proof fn law_links_in_order(relay: RelayView, events: Seq<EventView>)
    requires
        relay.sound(),
    ensures
        relay.after_all(events).sound(),
        relay.next <= relay.after_all(events).next,
    decreases events.len(),
{
    if events.len() > 0 {
        law_relay_stays_sound(relay, events[0]);
        law_links_in_order(relay.after(events[0]), events.drop_first());
    }
}

/// No link is downloaded more often than it may be tried: while the relay is at
/// a link, the downloads are at most the tries that it has left.
pub proof fn law_tries_of_a_link(relay: RelayView, events: Seq<EventView>)
    requires
        relay.sound(),
        relay.after_all(events).next == relay.next,
    ensures
        relay.downloads(events) <= relay.tries_left(),
        relay.tries_left() <= TRIES,
    decreases events.len(),
{
    if events.len() > 0 {
        let then = relay.after(events[0]);
        law_relay_stays_sound(relay, events[0]);
        law_links_in_order(then, events.drop_first());
        law_tries_of_a_link(then, events.drop_first());
    }
}

/// Whatever happens, all downloads together are at most as many as the links
/// may be tried.
pub proof fn law_downloads_are_bounded(relay: RelayView, events: Seq<EventView>)
    requires
        relay.sound(),
    ensures
        relay.downloads(events) <= relay.downloads_left(),
        relay.downloads_left() <= TRIES * (relay.links.len() - relay.next),
    decreases events.len(),
{
    if events.len() > 0 {
        law_relay_stays_sound(relay, events[0]);
        law_downloads_are_bounded(relay.after(events[0]), events.drop_first());
    }
}

/// At most one message is logged for each link, and none at all outside the
/// music channel.
pub proof fn law_logs_are_bounded(relay: RelayView, events: Seq<EventView>)
    requires
        relay.sound(),
    ensures
        relay.logged_on(events).len() <= relay.logs_left(),
        relay.logs_left() <= relay.links.len() - relay.next,
        !relay.logs ==> relay.logged_on(events).len() == 0,
    decreases events.len(),
{
    if events.len() > 0 {
        law_relay_stays_sound(relay, events[0]);
        law_logs_are_bounded(relay.after(events[0]), events.drop_first());
    }
}

/// What has been delivered is not tried again: it is reported and, in the music
/// channel, logged, the file is removed, and the next link is taken up.
pub proof fn law_delivered_once(
    relay: RelayView,
    artist: Seq<char>,
    track: Option<Seq<char>>,
    message: i32,
)
    requires
        !relay.finished(),
        relay.stage == (StageView::Deliver { artist, track }),
    ensures
        ({
            let events = seq![EventView::Delivered(message), EventView::Sent, EventView::Removed];
            &&& relay.answered_by(events)
            &&& relay.after_all(events) == relay.next_link()
            &&& relay.logged_on(events) == if relay.logs {
                seq![message]
            } else {
                Seq::empty()
            }
        }),
{
    reveal_with_fuel(RelayView::after_all, 4);
    reveal_with_fuel(RelayView::answered_by, 4);
    reveal_with_fuel(RelayView::logged_on, 4);
    let events = seq![EventView::Delivered(message), EventView::Sent, EventView::Removed];
    let second = events.drop_first();
    let third = second.drop_first();
    assert(second =~= seq![EventView::Sent, EventView::Removed]);
    assert(third =~= seq![EventView::Removed]);
    assert(third.drop_first() =~= Seq::empty());
    assert(relay.logged_on(events) =~= if relay.logs {
        seq![message]
    } else {
        Seq::empty()
    });
}

/// A try that fails, in whatever way, is reported and followed by the next one,
/// and the last one by the next link.
pub proof fn law_failures_are_retried(relay: RelayView, failure: EventView)
    requires
        relay.sound(),
        relay.answers(failure),
        failure is DownloadTimedOut || failure is DownloadFailed || failure is NotDelivered,
    ensures
        ({
            let reporting = relay.after(failure);
            let next = reporting.after(EventView::Sent);
            &&& reporting.order() is Report
            &&& relay.attempt + 1 < TRIES ==> next.order() == (OrderView::Download {
                url: relay.url(),
            }) && next.attempt == relay.attempt + 1 && next.next == relay.next
            &&& relay.attempt + 1 == TRIES ==> next == relay.next_link()
        }),
{
}

/// Nothing is relayed or logged for a message of a group or channel other than
/// the music channel.
pub proof fn law_other_channels_are_ignored(message: Incoming, links: Seq<Seq<char>>)
    requires
        message.public,
        message.chat != Data::CHANNEL_MUSIC,
    ensures
        message.handling(links) is Ignored,
{
}

// ---------------------------------------------------------------------------
// What is told, ordered and held
// ---------------------------------------------------------------------------

/// What an event is said to be is what it is.
pub proof fn law_event_is_what_it_is(event: Event)
    ensures
        match event {
            Event::Sent => event@ is Sent,
            Event::DownloadTimedOut => event@ is DownloadTimedOut,
            Event::DownloadFailed(error) => event@ == EventView::DownloadFailed(error@),
            Event::Downloaded(video) => event@ == EventView::Downloaded(video@),
            Event::Delivered(message) => event@ == EventView::Delivered(message),
            Event::NotDelivered => event@ is NotDelivered,
            Event::Removed => event@ is Removed,
        },
{
}

/// What an order is said to be is what it is.
pub proof fn law_order_is_what_it_is(order: Order)
    ensures
        match order {
            Order::Report { chat, text } => order@ == (OrderView::Report { chat, text: text@ }),
            Order::Download { url } => order@ == (OrderView::Download { url: url@ }),
            Order::Deliver { chat, title, performer: Some(performer) } => order@ == (
            OrderView::Deliver { chat, title: title@, performer: Some(performer@) }),
            Order::Deliver { chat, title, performer: None } => order@ == (OrderView::Deliver {
                chat,
                title: title@,
                performer: None,
            }),
            Order::Remove => order@ is Remove,
            Order::Finish => order@ is Finish,
        },
{
}

/// What a message is said to bring about is what it brings about.
pub proof fn law_handling_is_what_it_is(handling: Handling)
    ensures
        match handling {
            Handling::Ignored => handling@ is Ignored,
            Handling::Logged => handling@ is Logged,
            Handling::Relayed(relay) => handling@ == HandlingView::Relayed(relay@),
        },
{
}

/// A download is waited for 20 seconds, a delivery 120, and a link is tried
/// three times.
pub proof fn law_patience()
    ensures
        DOWNLOAD_SECONDS == 20,
        DELIVERY_SECONDS == 120,
        TRIES == 3,
{
}

/// A relay starts by announcing the first of the links of a message, for the
/// chat of the message. It logs if that chat is the music channel.
pub proof fn law_relay_starts(chat: i64, public: bool, links: Seq<Seq<char>>)
    ensures
        ({
            let relay = RelayView::start(chat, public, links);
            &&& relay.chat == chat
            &&& relay.logs <==> public && chat == -1_001_296_790_112
            &&& relay.links == links
            &&& relay.next == 0
            &&& relay.attempt == 0
            &&& relay.stage is Announce
        }),
{
}

/// A relay that is made stands at its start.
pub proof fn law_new_relay_starts(chat: i64, public: bool, links: Vec<String>, relay: Relay)
    requires
        call_ensures(Relay::new, (chat, public, links), relay),
    ensures
        relay@.chat == chat,
        relay@.logs <==> public && chat == -1_001_296_790_112,
        relay@.links.len() == links@.len(),
        forall|i: int| 0 <= i < links@.len() ==> #[trigger] relay@.links[i] == links@[i]@,
        relay@.next == 0,
        relay@.attempt == 0,
        relay@.stage is Announce,
{
}

// ---------------------------------------------------------------------------
// What is ordered, and where to
// ---------------------------------------------------------------------------

/// What is delivered goes to the chat of the relay, whether that is logged or
/// not. Where the track is known, it is the title, and the artist the performer.
/// Where it is not, the artist is the title, and nobody is the performer.
pub proof fn law_delivery(relay: RelayView, artist: Seq<char>, track: Seq<char>)
    requires
        0 <= relay.next < relay.links.len(),
    ensures
        relay.stage == (StageView::Deliver { artist, track: Some(track) }) ==> relay.order() == (
        OrderView::Deliver { chat: relay.chat, title: track, performer: Some(artist) }),
        relay.stage == (StageView::Deliver { artist, track: None }) ==> relay.order() == (
        OrderView::Deliver { chat: relay.chat, title: artist, performer: None }),
{
}

/// What a relay orders to be delivered goes to its chat, under the title and
/// performer that it found.
pub proof fn law_delivery_is_ordered(
    relay: Relay,
    order: Order,
    artist: Seq<char>,
    track: Option<Seq<char>>,
)
    requires
        call_ensures(Relay::order, (&relay,), order),
        0 <= relay@.next < relay@.links.len(),
        relay@.stage == (StageView::Deliver { artist, track }),
    ensures
        order is Deliver,
        order->Deliver_chat == relay@.chat,
        track is Some ==> order->title@ == track->0 && order->performer is Some
            && order->performer->0@ == artist,
        track is None ==> order->title@ == artist && order->performer is None,
{
}

/// Whatever happens to a relay, what it delivers goes to the chat that it was
/// started for, and what it says to the channel for reports. It downloads from
/// addresses in its links alone.
pub proof fn law_orders_go_to_the_right_place(
    chat: i64,
    public: bool,
    links: Seq<Seq<char>>,
    events: Seq<EventView>,
)
    ensures
        ({
            let relay = RelayView::start(chat, public, links).after_all(events);
            &&& relay.chat == chat
            &&& relay.links == links
            &&& relay.logs <==> public && chat == -1_001_296_790_112
            &&& relay.order() matches OrderView::Deliver { chat: to, .. } ==> to == chat
            &&& relay.order() matches OrderView::Report { chat: to, .. } ==> to
                == -1_003_792_156_195
            &&& relay.order() matches OrderView::Download { url } ==> 0 <= relay.next < links.len()
                && url == youtube::address(links[relay.next])
        }),
{
    let start = RelayView::start(chat, public, links);
    lemma_relay_keeps_its_links(start, events);
}

/// Events change neither what a relay relays nor where to.
proof fn lemma_relay_keeps_its_links(relay: RelayView, events: Seq<EventView>)
    requires
        relay.sound(),
    ensures
        relay.after_all(events).sound(),
        relay.after_all(events).chat == relay.chat,
        relay.after_all(events).links == relay.links,
        relay.after_all(events).logs == relay.logs,
    decreases events.len(),
{
    if events.len() > 0 {
        law_relay_stays_sound(relay, events[0]);
        lemma_relay_keeps_its_links(relay.after(events[0]), events.drop_first());
    }
}

/// What a relay says: which address it downloads from, what went wrong at which
/// try, what it sends, and that it is done. What it does else is to download
/// from that address, and to remove the file.
pub proof fn law_what_is_ordered(
    relay: RelayView,
    error: Seq<char>,
    artist: Seq<char>,
    track: Option<Seq<char>>,
    message: i32,
)
    requires
        0 <= relay.next < relay.links.len(),
        relay.attempt >= 0,
    ensures
        ({
            let url = youtube::address(relay.links[relay.next]);
            let number = text::decimal(relay.attempt as nat);
            let said = |text: Seq<char>|
                OrderView::Report { chat: -1_003_792_156_195i64, text };
            &&& relay.stage is Announce ==> relay.order() == said("Downloading URL: \n\n"@ + url)
            &&& relay.stage is Download ==> relay.order() == (OrderView::Download { url })
            &&& relay.stage is DownloadSlow ==> relay.order() == said(
                "YT time-out error (#"@ + number + ") for URL: \n\n"@ + url,
            )
            &&& relay.stage == (StageView::DownloadFailed { error }) ==> relay.order() == said(
                "YT download error (#"@ + number + "): \n\n"@ + error,
            )
            &&& relay.stage == (StageView::Describe { artist, track }) ==> relay.order() == said(
                "Video download done. Sending as \""@ + artist + " - "@ + debug_text(track)
                    + "\"."@,
            )
            &&& relay.stage is NotDelivered ==> relay.order() == said(
                "TG time-out error (#"@ + number + ") for URL: \n\n"@ + url,
            )
            &&& relay.stage is Confirm ==> relay.order() == said("Video upload done."@)
            &&& relay.stage is Discard ==> relay.order() is Remove
        }),
{
}

/// A video is announced by its artist and its track.
pub proof fn law_description(artist: Seq<char>, track: Seq<char>)
    ensures
        description(artist, track) == "Video download done. Sending as \""@ + (artist + (" - "@ + (
        track + "\"."@))),
{
    assert(description(artist, track) =~= "Video download done. Sending as \""@ + (artist + (
    " - "@ + (track + "\"."@))));
}

/// A relay without links left orders nothing, logs nothing and stays as it is.
/// One with a link left has an order.
pub proof fn law_relay_is_done_after_its_links(relay: RelayView, event: EventView)
    ensures
        relay.next >= relay.links.len() ==> relay.order() is Finish && relay.after(event) == relay
            && relay.logs_on(event) is None,
        relay.next < relay.links.len() ==> !(relay.order() is Finish),
{
}

// ---------------------------------------------------------------------------
// Step by step
// ---------------------------------------------------------------------------

/// The course of a try that succeeds: the download is announced, and made; the
/// video is described, by what `artist_track` makes of it, and delivered; that
/// is confirmed; the file is removed; and the next link is taken up. The
/// message with the audio is logged in the music channel, and nothing is
/// elsewhere.
pub proof fn law_course_of_a_success(relay: RelayView, video: VideoView, message: i32)
    requires
        0 <= relay.next < relay.links.len(),
        relay.stage is Announce,
    ensures
        ({
            let downloading = relay.after(EventView::Sent);
            let describing = downloading.after(EventView::Downloaded(video));
            let delivering = describing.after(EventView::Sent);
            let confirming = delivering.after(EventView::Delivered(message));
            let discarding = confirming.after(EventView::Sent);
            let done = discarding.after(EventView::Removed);
            let named = youtube::artist_track(video);
            &&& downloading.stage is Download
            &&& describing.stage == (StageView::Describe { artist: named.0, track: named.1 })
            &&& delivering.stage == (StageView::Deliver { artist: named.0, track: named.1 })
            &&& confirming.stage == (StageView::Confirm { message })
            &&& discarding.stage is Discard
            &&& done.stage is Announce
            &&& downloading.attempt == relay.attempt && downloading.next == relay.next
            &&& describing.attempt == relay.attempt && describing.next == relay.next
            &&& delivering.attempt == relay.attempt && delivering.next == relay.next
            &&& confirming.attempt == relay.attempt && confirming.next == relay.next
            &&& discarding.attempt == relay.attempt && discarding.next == relay.next
            &&& done.attempt == 0 && done.next == relay.next + 1
            &&& done.chat == relay.chat && done.links == relay.links && done.logs == relay.logs
            &&& relay.logs_on(EventView::Sent) is None
            &&& downloading.logs_on(EventView::Downloaded(video)) is None
            &&& describing.logs_on(EventView::Sent) is None
            &&& delivering.logs_on(EventView::Delivered(message)) is None
            &&& relay.logs ==> confirming.logs_on(EventView::Sent) == Some(message)
            &&& !relay.logs ==> confirming.logs_on(EventView::Sent) is None
            &&& discarding.logs_on(EventView::Removed) is None
        }),
{
}

/// The course of a try that fails: it is said how, with the number of the try.
/// Nothing is logged. The first two tries are followed by another download of
/// the same link, and the third by the next link.
pub proof fn law_course_of_a_failure(relay: RelayView, error: Seq<char>, failure: EventView)
    requires
        0 <= relay.next < relay.links.len(),
        0 <= relay.attempt < 3,
        failure is DownloadTimedOut || failure == EventView::DownloadFailed(error) ==>
            relay.stage is Download,
        failure is NotDelivered ==> relay.stage is Deliver,
        failure is DownloadTimedOut || failure == EventView::DownloadFailed(error)
            || failure is NotDelivered,
    ensures
        ({
            let failed = relay.after(failure);
            let next = failed.after(EventView::Sent);
            &&& failure is DownloadTimedOut ==> failed.stage is DownloadSlow
            &&& failure is DownloadFailed ==> failed.stage == (StageView::DownloadFailed { error })
            &&& failure is NotDelivered ==> failed.stage is NotDelivered
            &&& failed.attempt == relay.attempt && failed.next == relay.next
            &&& relay.logs_on(failure) is None
            &&& failed.logs_on(EventView::Sent) is None
            &&& relay.attempt < 2 ==> next.stage is Download && next.attempt == relay.attempt + 1
                && next.next == relay.next
            &&& relay.attempt == 2 ==> next.stage is Announce && next.attempt == 0 && next.next
                == relay.next + 1
            &&& next.chat == relay.chat && next.links == relay.links && next.logs == relay.logs
        }),
{
}

/// An event that is no answer to what is being done changes nothing, and
/// nothing is logged on it.
pub proof fn law_stray_events_change_nothing(relay: RelayView, event: EventView)
    requires
        event is Sent ==> relay.stage is Download || relay.stage is Deliver
            || relay.stage is Discard,
        event is DownloadTimedOut || event is DownloadFailed || event is Downloaded ==> !(
        relay.stage is Download),
        event is Delivered || event is NotDelivered ==> !(relay.stage is Deliver),
        event is Removed ==> !(relay.stage is Discard),
    ensures
        relay.after(event) == relay,
        relay.logs_on(event) is None,
{
}

/// A message is logged exactly once its delivery has been confirmed, if the
/// relay logs and has the link still at hand.
pub proof fn law_logged_on_confirmation(relay: RelayView, event: EventView, message: i32)
    ensures
        relay.logs_on(event) == Some(message) <==> relay.logs && relay.next < relay.links.len()
            && relay.stage == (StageView::Confirm { message }) && event is Sent,
{
}

/// Events can be taken notice of one after the other, in any groups.
pub proof fn law_events_in_groups(relay: RelayView, first: Seq<EventView>, rest: Seq<EventView>)
    ensures
        relay.after_all(first + rest) == relay.after_all(first).after_all(rest),
        relay.logged_on(first + rest) == relay.logged_on(first) + relay.after_all(first).logged_on(
            rest,
        ),
        first.len() == 1 ==> relay.after_all(first) == relay.after(first[0]),
    decreases first.len(),
{
    reveal_with_fuel(RelayView::after_all, 2);
    if first.len() == 0 {
        assert(first + rest =~= rest);
        assert(relay.logged_on(first) + relay.logged_on(rest) =~= relay.logged_on(rest));
    } else {
        let then = relay.after(first[0]);
        assert((first + rest).drop_first() =~= first.drop_first() + rest);
        law_events_in_groups(then, first.drop_first(), rest);
        assert(relay.logged_on(first + rest) =~= relay.logged_on(first) + relay.after_all(
            first,
        ).logged_on(rest));
    }
}

// ---------------------------------------------------------------------------
// Messages and the log
// ---------------------------------------------------------------------------

/// Once a message has been logged, it is the last of the log, with a time that
/// was read from the clock. Before it stand the songs that were kept at such a
/// time, and the queue is as it was.
pub proof fn law_logged_message_comes_last(before: DataView, after: DataView, message: i32)
    requires
        has_logged(before, after, message),
    ensures
        after.queue == before.queue,
        after.music.len() > 0,
        after.music.last().message == message,
        after.music.last().time.was_read(),
        exists|now: Moment|
            now.was_read() && after.music.drop_last() == #[trigger] data::recent(
                before.music,
                now,
                29,
            ),
{
    let (now, upload) = choose|now: Moment, upload: Upload|
        now.shown() && now.was_read() && upload.time.shown() && upload.time.was_read()
            && upload.message == message && after == #[trigger] data::logged(before, now, upload);
    data::law_logged_song_comes_last(before, now, upload);
    assert(after.music.drop_last() =~= data::recent(before.music, now, 29));
}

/// A text in a private chat or in the music channel that asks for a download is
/// relayed, link by link, to the chat it came from. Any other text is ignored,
/// whatever else the message holds.
pub proof fn law_texts_are_relayed(message: Incoming, text: String, links: Seq<Seq<char>>)
    requires
        message.text == Some(text),
        !message.public || message.chat == -1_001_296_790_112,
    ensures
        youtube::asks_for_download(text@) ==> message.handling(links) is Relayed && ({
            let relay = message.handling(links)->0;
            &&& relay.chat == message.chat
            &&& relay.links == links
            &&& relay.logs <==> message.public
            &&& relay.next == 0
            &&& relay.attempt == 0
            &&& relay.stage is Announce
        }),
        !youtube::asks_for_download(text@) ==> message.handling(links) is Ignored,
        message.links() == youtube::first_groups(youtube::LINK_PATTERN@, text@),
{
}

/// A message without a text is logged if it is an audio file in the music
/// channel, and ignored else.
pub proof fn law_songs_are_logged(message: Incoming, links: Seq<Seq<char>>)
    requires
        message.text is None,
    ensures
        message.audio && message.public && message.chat == -1_001_296_790_112 ==> message.handling(
            links,
        ) is Logged,
        !message.audio || !message.public || message.chat != -1_001_296_790_112
            ==> message.handling(links) is Ignored,
        message.links().len() == 0,
{
}

/// Groups and channels other than the music channel are not heard, whatever is
/// said there.
pub proof fn law_others_are_not_heard(
    message: Incoming,
    links: Vec<String>,
    handling: Handling,
)
    requires
        call_ensures(Incoming::handle, (&message, links), handling),
        message.public,
        message.chat != -1_001_296_790_112,
    ensures
        handling is Ignored,
{
}

/// A relay that is told of an event stands where that event leaves it, and hands
/// out a message exactly once its delivery has been confirmed, if it logs.
pub proof fn law_advancing(relay: &mut Relay, event: Event, message: Option<i32>)
    requires
        call_ensures(Relay::advance, (relay, event), message),
    ensures
        final(relay)@ == old(relay)@.after(event@),
        final(relay)@.chat == old(relay)@.chat,
        final(relay)@.links == old(relay)@.links,
        final(relay)@.logs == old(relay)@.logs,
        message is Some <==> old(relay)@.logs && old(relay)@.next < old(relay)@.links.len() && old(
            relay,
        )@.stage is Confirm && event is Sent,
        message is Some ==> old(relay)@.stage == (StageView::Confirm { message: message->0 }),
{
}

/// On an event the data changes, and is to be saved, exactly if a delivery to the
/// music channel has been confirmed: its message is then the last of the log,
/// with the time it came at.
pub proof fn law_events_are_logged(
    data: &mut Data,
    relay: &mut Relay,
    event: Event,
    arrival: Moment,
    now: Moment,
    save: bool,
)
    requires
        call_ensures(handle_event_at, (data, relay, event, &arrival, &now), save),
    ensures
        final(relay)@ == old(relay)@.after(event@),
        save <==> old(relay)@.logs && old(relay)@.next < old(relay)@.links.len() && old(
            relay,
        )@.stage is Confirm && event is Sent,
        !save ==> final(data)@ == old(data)@,
        save ==> final(data)@.queue == old(data)@.queue && final(data)@.music == data::recent(
            old(data)@.music,
            now,
            29,
        ) + seq![Upload { message: old(relay)@.stage->message, time: arrival }],
{
    if let StageView::Confirm { message } = old(relay)@.stage {
        data::law_logged_song_comes_last(old(data)@, now, Upload { message, time: arrival });
    }
}

/// On an event as it comes the same is logged, with a time that was read from
/// the clock.
pub proof fn law_events_are_logged_by_the_clock(
    data: &mut Data,
    relay: &mut Relay,
    event: Event,
    save: bool,
)
    requires
        call_ensures(handle_event, (data, relay, event), save),
    ensures
        final(relay)@ == old(relay)@.after(event@),
        save <==> old(relay)@.logs && old(relay)@.next < old(relay)@.links.len() && old(
            relay,
        )@.stage is Confirm && event is Sent,
        !save ==> final(data)@ == old(data)@,
        save ==> has_logged(old(data)@, final(data)@, old(relay)@.stage->message),
{
}

/// A message is logged, under its own number, exactly if it is an audio file in
/// the music channel. No other message changes the data.
pub proof fn law_messages_are_logged(data: &mut Data, message: Incoming, handling: Handling)
    requires
        call_ensures(handle_message, (data, &message), handling),
    ensures
        handling is Logged <==> message.text is None && message.audio && message.public
            && message.chat == -1_001_296_790_112,
        handling is Logged ==> has_logged(old(data)@, final(data)@, message.id),
        !(handling is Logged) ==> final(data)@ == old(data)@,
{
    assert(handling@ == message.handling(message.links()));
    if let Some(text) = message.text {
        assert(!(message.handling(message.links()) is Logged));
    }
}

/// The links of a message that asks for a download, and of no other, are relayed
/// to its chat.
pub proof fn law_messages_are_relayed(data: &mut Data, message: Incoming, handling: Handling)
    requires
        call_ensures(handle_message, (data, &message), handling),
    ensures
        handling is Relayed <==> message.text is Some && youtube::asks_for_download(
            message.text->0@,
        ) && (!message.public || message.chat == -1_001_296_790_112),
        handling is Relayed ==> handling->0@.chat == message.chat && handling->0@.links
            == youtube::first_groups(youtube::LINK_PATTERN@, message.text->0@)
            && handling->0@.next == 0 && handling->0@.stage is Announce,
{
    assert(handling@ == message.handling(message.links()));
}

} // verus!
