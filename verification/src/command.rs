//! What the bot does when it is given a command.

use vstd::prelude::*;
use vstd::string::*;

use crate::clock;
use crate::clock::{Date, Moment};
use crate::data::{Data, DataView, Proposal, ProposalView, Upload, Withdrawal};
use crate::data;
use crate::text;
use crate::words;

verus! {

/// How many films the queue takes: a poll has no room for more.
pub const QUEUE_SIZE: usize = 12;

/// The last rank of a chart that is shown.
pub const LAST_RANK: u32 = 10;

// ---------------------------------------------------------------------------
// Who asks, and for what
// ---------------------------------------------------------------------------

/// A user of the chat.
#[derive(Debug)]
pub struct User {
    pub id: u64,
    pub first_name: String,
    pub last_name: Option<String>,
}

/// The number and the names of a user.
#[verifier::ext_equal]
pub struct UserView {
    pub id: u64,
    pub first_name: Seq<char>,
    pub last_name: Option<Seq<char>>,
}

impl View for User {
    type V = UserView;

    open spec fn view(&self) -> UserView {
        UserView {
            id: self.id,
            first_name: self.first_name@,
            last_name: text::optional(self.last_name),
        }
    }
}

impl UserView {
    /// The first name and, if there is one, the last name behind a space.
    pub open spec fn full_name(self) -> Seq<char> {
        match self.last_name {
            Some(last_name) => self.first_name + " "@ + last_name,
            None => self.first_name,
        }
    }
}

impl User {
    /// The first name and, if there is one, the last name behind a space.
    pub fn full_name(&self) -> (name: String)
        ensures
            name@ == self@.full_name(),
    {
        let mut name = self.first_name.clone();
        if let Some(last_name) = &self.last_name {
            name.append(" ");
            name.append(last_name.as_str());
        }
        name
    }
}

/// Where a command was given, and by whom.
#[derive(Debug)]
pub struct Call {
    pub chat: i64,
    pub from: Option<User>,
}

/// Where a command was given, and by whom.
#[verifier::ext_equal]
pub struct CallView {
    pub chat: i64,
    pub from: Option<UserView>,
}

impl View for Call {
    type V = CallView;

    open spec fn view(&self) -> CallView {
        CallView {
            chat: self.chat,
            from: match self.from {
                Some(user) => Some(user@),
                None => None,
            },
        }
    }
}

/// A chart of what somebody has listened to.
#[derive(Clone, Copy, Debug, PartialEq, Eq, Structural)]
pub enum Chart {
    Tracks,
    Artists,
    Albums,
}

/// A command, with what was written behind it.
#[derive(Clone, Debug)]
pub enum Command {
    Proponer(String),
    Desproponer(String),
    Sinopsis(String),
    Cola,
    Votar,
    Dia,
    Semana,
    Mes,
    LastUsuario(String),
    CancionSemanal(String),
    ArtistaSemanal(String),
    AlbumSemanal(String),
    Vivo,
}

/// A command, with the text behind it.
#[verifier::ext_equal]
pub enum CommandView {
    Proponer(Seq<char>),
    Desproponer(Seq<char>),
    Sinopsis(Seq<char>),
    Cola,
    Votar,
    Dia,
    Semana,
    Mes,
    LastUsuario(Seq<char>),
    CancionSemanal(Seq<char>),
    ArtistaSemanal(Seq<char>),
    AlbumSemanal(Seq<char>),
    Vivo,
}

impl View for Command {
    type V = CommandView;

    open spec fn view(&self) -> CommandView {
        match self {
            Command::Proponer(name) => CommandView::Proponer(name@),
            Command::Desproponer(name) => CommandView::Desproponer(name@),
            Command::Sinopsis(name) => CommandView::Sinopsis(name@),
            Command::Cola => CommandView::Cola,
            Command::Votar => CommandView::Votar,
            Command::Dia => CommandView::Dia,
            Command::Semana => CommandView::Semana,
            Command::Mes => CommandView::Mes,
            Command::LastUsuario(name) => CommandView::LastUsuario(name@),
            Command::CancionSemanal(name) => CommandView::CancionSemanal(name@),
            Command::ArtistaSemanal(name) => CommandView::ArtistaSemanal(name@),
            Command::AlbumSemanal(name) => CommandView::AlbumSemanal(name@),
            Command::Vivo => CommandView::Vivo,
        }
    }
}

// ---------------------------------------------------------------------------
// What is done about it
// ---------------------------------------------------------------------------

/// Who a message goes to.
#[derive(Clone, Copy, Debug, PartialEq, Eq, Structural)]
pub enum Target {
    /// Everybody in a chat.
    Chat(i64),
    /// One user, in private.
    User(u64),
}

/// A week, by the seconds since 1970 at which it starts and ends.
#[derive(Clone, Copy, Debug, PartialEq, Eq, Structural)]
pub struct Week {
    pub from: u32,
    pub to: u32,
}

/// What is to be done next for a command.
#[derive(Debug)]
pub enum Step {
    /// Nothing more.
    Done,
    /// Send a message, with its markup read as HTML or not read at all. That is
    /// the end of it.
    Say { to: Target, text: String, html: bool },
    /// Hold a poll, in which the voters' names are hidden or not, and several
    /// options may be picked or only one. That is the end of it.
    Poll {
        to: Target,
        question: String,
        options: Vec<String>,
        anonymous: bool,
        multiple: bool,
    },
    /// Forward messages of a chat. That is the end of it.
    Forward { to: Target, from: i64, messages: Vec<i32> },
    /// Look for films by name, and go on with `movies_found`.
    SearchMovie { name: String },
    /// Look up a listener by name, and go on with `listener_found`.
    LookUpListener { name: String },
    /// List the weeks of which a listener has charts, and go on with
    /// `weeks_found`.
    ListWeeks { chart: Chart, name: String },
    /// Get a listener's chart of a week, and go on with `chart_found`.
    FetchChart { chart: Chart, name: String, week: Week },
}

/// What is to be done next, in texts.
#[verifier::ext_equal]
pub enum StepView {
    Done,
    Say { to: Target, text: Seq<char>, html: bool },
    Poll {
        to: Target,
        question: Seq<char>,
        options: Seq<Seq<char>>,
        anonymous: bool,
        multiple: bool,
    },
    Forward { to: Target, from: i64, messages: Seq<i32> },
    SearchMovie { name: Seq<char> },
    LookUpListener { name: Seq<char> },
    ListWeeks { chart: Chart, name: Seq<char> },
    FetchChart { chart: Chart, name: Seq<char>, week: Week },
}

impl View for Step {
    type V = StepView;

    open spec fn view(&self) -> StepView {
        match self {
            Step::Done => StepView::Done,
            Step::Say { to, text, html } => StepView::Say { to: *to, text: text@, html: *html },
            Step::Poll { to, question, options, anonymous, multiple } => StepView::Poll {
                to: *to,
                question: question@,
                options: text::texts(options@),
                anonymous: *anonymous,
                multiple: *multiple,
            },
            Step::Forward { to, from, messages } => StepView::Forward {
                to: *to,
                from: *from,
                messages: messages@,
            },
            Step::SearchMovie { name } => StepView::SearchMovie { name: name@ },
            Step::LookUpListener { name } => StepView::LookUpListener { name: name@ },
            Step::ListWeeks { chart, name } => StepView::ListWeeks { chart: *chart, name: name@ },
            Step::FetchChart { chart, name, week } => StepView::FetchChart {
                chart: *chart,
                name: name@,
                week: *week,
            },
        }
    }
}

/// What is to be done for a command: whether the data has to be saved first,
/// and what comes then.
#[derive(Debug)]
pub struct Reaction {
    pub save: bool,
    pub step: Step,
}

/// A plain message to a chat.
pub open spec fn say(chat: i64, text: Seq<char>) -> StepView {
    StepView::Say { to: Target::Chat(chat), text, html: false }
}

/// A message with markup to a chat.
pub open spec fn say_html(chat: i64, text: Seq<char>) -> StepView {
    StepView::Say { to: Target::Chat(chat), text, html: true }
}

fn make_say(chat: i64, text: &str) -> (step: Step)
    ensures
        step@ == say(chat, text@),
{
    Step::Say { to: Target::Chat(chat), text: text.to_owned(), html: false }
}

/// What comes of a command: the data after it, whether it has to be saved, and
/// what is to be done next.
#[verifier::ext_equal]
pub struct Outcome {
    pub data: DataView,
    pub save: bool,
    pub step: StepView,
}

/// The command leaves the data alone.
pub open spec fn only(data: DataView, step: StepView) -> Outcome {
    Outcome { data, save: false, step }
}

/// A step that needs a name, or how to give one if it is missing.
pub open spec fn with_name(chat: i64, name: Seq<char>, help: Seq<char>, step: StepView) -> StepView {
    if name.len() == 0 {
        say(chat, help)
    } else {
        step
    }
}

// ---------------------------------------------------------------------------
// The queue of films
// ---------------------------------------------------------------------------

/// The line of a proposal in the list of the queue.
pub open spec fn queue_line(proposal: ProposalView) -> Seq<char> {
    "• "@ + proposal.name + ", propuesta por "@ + proposal.user + "\n"@
}

/// The list of the queue: a line for each proposal, in order.
pub open spec fn queue_text(queue: Seq<ProposalView>) -> Seq<char>
    decreases queue.len(),
{
    if queue.len() == 0 {
        Seq::empty()
    } else {
        queue_text(queue.drop_last()) + queue_line(queue.last())
    }
}

/// The names of the films in the queue.
pub open spec fn film_names(queue: Seq<ProposalView>) -> Seq<Seq<char>> {
    queue.map_values(|p: ProposalView| p.name)
}

/// What comes of a proposal by `user`.
pub open spec fn propose_outcome(
    data: DataView,
    chat: i64,
    user: UserView,
    name: Seq<char>,
) -> Outcome {
    if name.len() == 0 {
        only(data, say(chat, words::PROPOSE_HELP@))
    } else if data.queue.len() == QUEUE_SIZE {
        only(data, say(chat, words::QUEUE_FULL@))
    } else if data::is_queued(data.queue, name) {
        only(data, say(chat, words::ALREADY_PROPOSED@))
    } else {
        Outcome {
            data: data::proposed(data, name, user.full_name()),
            save: true,
            step: say(chat, words::PROPOSED@),
        }
    }
}

/// What comes of taking a proposal back by `user`. Where no proposal has the
/// name, nothing is said.
pub open spec fn withdraw_outcome(
    data: DataView,
    chat: i64,
    user: UserView,
    name: Seq<char>,
) -> Outcome {
    if name.len() == 0 {
        only(data, say(chat, words::WITHDRAW_HELP@))
    } else {
        match data::withdrawal(data.queue, name, user.full_name()) {
            Withdrawal::Removed => Outcome {
                data: data::withdrawn(data, name, user.full_name()),
                save: true,
                step: say(chat, words::WITHDRAWN@),
            },
            Withdrawal::NotYours => only(data, say(chat, words::NOT_YOURS@)),
            Withdrawal::Unknown => only(data, StepView::Done),
        }
    }
}

/// What comes of listing the queue.
pub open spec fn queue_step(queue: Seq<ProposalView>, chat: i64) -> StepView {
    if queue.len() == 0 {
        say(chat, words::QUEUE_EMPTY@)
    } else {
        say(chat, queue_text(queue))
    }
}

/// What comes of calling a vote: the films of the queue are put to it, and the
/// queue starts anew.
pub open spec fn vote_outcome(data: DataView, chat: i64, user: UserView) -> Outcome {
    if user.id != Data::VOTE_USER {
        only(data, say(chat, words::NOT_THE_ORGANISER@))
    } else {
        Outcome {
            data: DataView { queue: Seq::empty(), ..data },
            save: true,
            step: if data.queue.len() == 0 {
                say(chat, words::QUEUE_EMPTY@)
            } else {
                StepView::Poll {
                    to: Target::Chat(chat),
                    question: words::POLL_QUESTION@,
                    options: film_names(data.queue),
                    anonymous: false,
                    multiple: true,
                }
            },
        }
    }
}

/// A list of proposals that is not empty makes a text that is not empty.
proof fn lemma_queue_text(queue: Seq<ProposalView>)
    ensures
        queue_text(queue).len() == 0 <==> queue.len() == 0,
{
    reveal_strlit("• ");
}

/// Proposes a film.
fn propose(data: &mut Data, chat: i64, user: &User, name: String) -> (reaction: Reaction)
    ensures
        propose_outcome(old(data)@, chat, user@, name@) == (Outcome {
            data: final(data)@,
            save: reaction.save,
            step: reaction.step@,
        }),
{
    if name.as_str().is_empty() {
        return Reaction { save: false, step: make_say(chat, words::PROPOSE_HELP) };
    }
    assert(data@.queue.len() == data.queue@.len());
    if data.queue.len() == QUEUE_SIZE {
        return Reaction { save: false, step: make_say(chat, words::QUEUE_FULL) };
    }
    if data.add(name, user.full_name()) {
        Reaction { save: true, step: make_say(chat, words::PROPOSED) }
    } else {
        Reaction { save: false, step: make_say(chat, words::ALREADY_PROPOSED) }
    }
}

/// Takes the proposal of a film back.
fn withdraw(data: &mut Data, chat: i64, user: &User, name: String) -> (reaction: Reaction)
    ensures
        withdraw_outcome(old(data)@, chat, user@, name@) == (Outcome {
            data: final(data)@,
            save: reaction.save,
            step: reaction.step@,
        }),
{
    if name.as_str().is_empty() {
        return Reaction { save: false, step: make_say(chat, words::WITHDRAW_HELP) };
    }
    let full_name = user.full_name();
    match data.withdraw(name.as_str(), full_name.as_str()) {
        Withdrawal::Removed => Reaction { save: true, step: make_say(chat, words::WITHDRAWN) },
        Withdrawal::NotYours => Reaction { save: false, step: make_say(chat, words::NOT_YOURS) },
        Withdrawal::Unknown => Reaction { save: false, step: Step::Done },
    }
}

/// Lists the queue.
fn show_queue(queue: &Vec<Proposal>, chat: i64) -> (step: Step)
    ensures
        step@ == queue_step(data::proposals(queue@), chat),
{
    let mut text = String::new();
    let mut i: usize = 0;
    let ghost list = data::proposals(queue@);
    while i < queue.len()
        invariant
            list == data::proposals(queue@),
            i <= queue@.len(),
            text@ == queue_text(list.take(i as int)),
        decreases queue@.len() - i,
    {
        text.append("• ");
        text.append(queue[i].name.as_str());
        text.append(", propuesta por ");
        text.append(queue[i].user.as_str());
        text.append("\n");
        proof {
            assert(list.take(i + 1).drop_last() =~= list.take(i as int));
            assert(text@ =~= queue_text(list.take(i as int)) + queue_line(list[i as int]));
        }
        i += 1;
    }
    proof {
        assert(list.take(i as int) =~= list);
        lemma_queue_text(list);
    }
    if text.as_str().is_empty() {
        make_say(chat, words::QUEUE_EMPTY)
    } else {
        Step::Say { to: Target::Chat(chat), text, html: false }
    }
}

/// Puts the films of the queue to the vote.
fn call_vote(data: &mut Data, chat: i64, user: &User) -> (reaction: Reaction)
    ensures
        vote_outcome(old(data)@, chat, user@) == (Outcome {
            data: final(data)@,
            save: reaction.save,
            step: reaction.step@,
        }),
{
    if user.id != Data::VOTE_USER {
        return Reaction { save: false, step: make_say(chat, words::NOT_THE_ORGANISER) };
    }
    let queue = data.clear();
    let ghost list = data::proposals(queue@);
    let mut options: Vec<String> = Vec::new();
    let mut i: usize = 0;
    while i < queue.len()
        invariant
            list == data::proposals(queue@),
            i <= queue@.len(),
            text::texts(options@) == film_names(list.take(i as int)),
        decreases queue@.len() - i,
    {
        let ghost before = options@;
        options.push(queue[i].name.clone());
        proof {
            assert(text::texts(options@) =~= text::texts(before).push(list[i as int].name));
            assert(film_names(list.take(i + 1)) =~= film_names(list.take(i as int)).push(
                list[i as int].name,
            ));
        }
        i += 1;
    }
    assert(list.take(i as int) =~= list);
    assert(text::texts(options@).len() == options@.len());
    let step = if options.is_empty() {
        make_say(chat, words::QUEUE_EMPTY)
    } else {
        Step::Poll {
            to: Target::Chat(chat),
            question: words::POLL_QUESTION.to_owned(),
            options,
            anonymous: false,
            multiple: true,
        }
    };
    Reaction { save: true, step }
}

// ---------------------------------------------------------------------------
// The log of songs
// ---------------------------------------------------------------------------

/// What comes of asking for songs: they are forwarded to the user in private,
/// who hears `nothing` where there are none.
pub open spec fn songs_step(user: u64, list: Seq<i32>, nothing: Seq<char>) -> StepView {
    if list.len() == 0 {
        StepView::Say { to: Target::User(user), text: nothing, html: false }
    } else {
        StepView::Forward { to: Target::User(user), from: Data::CHANNEL_MUSIC, messages: list }
    }
}

/// What comes of asking for the songs of the last days.
pub open spec fn songs_outcome(
    data: DataView,
    user: u64,
    cleaning: Moment,
    now: Moment,
    range: int,
    nothing: Seq<char>,
) -> Outcome {
    let kept = data::cleaned(data, cleaning);
    only(kept, songs_step(user, data::messages(data::recent(kept.music, now, range)), nothing))
}

/// Forwards songs to a user.
pub fn forward_songs(user: u64, list: Vec<i32>, nothing: &str) -> (step: Step)
    ensures
        step@ == songs_step(user, list@, nothing@),
{
    if list.is_empty() {
        Step::Say { to: Target::User(user), text: nothing.to_owned(), html: false }
    } else {
        Step::Forward { to: Target::User(user), from: Data::CHANNEL_MUSIC, messages: list }
    }
}

// ---------------------------------------------------------------------------
// The commands
// ---------------------------------------------------------------------------

/// What comes of a command, where `cleaning` is when old songs are dropped and
/// `now` is when songs are counted.
pub open spec fn outcome(
    data: DataView,
    call: CallView,
    command: CommandView,
    cleaning: Moment,
    now: Moment,
) -> Outcome {
    let chat = call.chat;
    match command {
        CommandView::Proponer(name) => match call.from {
            Some(user) => propose_outcome(data, chat, user, name),
            None => only(data, StepView::Done),
        },
        CommandView::Desproponer(name) => match call.from {
            Some(user) => withdraw_outcome(data, chat, user, name),
            None => only(data, StepView::Done),
        },
        CommandView::Sinopsis(name) => only(
            data,
            with_name(chat, name, words::SYNOPSIS_HELP@, StepView::SearchMovie { name }),
        ),
        CommandView::Cola => only(data, queue_step(data.queue, chat)),
        CommandView::Votar => match call.from {
            Some(user) => vote_outcome(data, chat, user),
            None => only(data, StepView::Done),
        },
        CommandView::Dia => match call.from {
            Some(user) => songs_outcome(data, user.id, cleaning, now, 0, words::NO_SONGS_TODAY@),
            None => only(data, StepView::Done),
        },
        CommandView::Semana => match call.from {
            Some(user) => songs_outcome(
                data,
                user.id,
                cleaning,
                now,
                6,
                words::NO_SONGS_THIS_WEEK@,
            ),
            None => only(data, StepView::Done),
        },
        CommandView::Mes => match call.from {
            Some(user) => songs_outcome(
                data,
                user.id,
                cleaning,
                now,
                29,
                words::NO_SONGS_THIS_MONTH@,
            ),
            None => only(data, StepView::Done),
        },
        CommandView::LastUsuario(name) => only(
            data,
            with_name(chat, name, words::LISTENER_HELP@, StepView::LookUpListener { name }),
        ),
        CommandView::CancionSemanal(name) => only(
            data,
            with_name(
                chat,
                name,
                words::TRACKS_HELP@,
                StepView::ListWeeks { chart: Chart::Tracks, name },
            ),
        ),
        CommandView::ArtistaSemanal(name) => only(
            data,
            with_name(
                chat,
                name,
                words::ARTISTS_HELP@,
                StepView::ListWeeks { chart: Chart::Artists, name },
            ),
        ),
        CommandView::AlbumSemanal(name) => only(
            data,
            with_name(
                chat,
                name,
                words::ALBUMS_HELP@,
                StepView::ListWeeks { chart: Chart::Albums, name },
            ),
        ),
        CommandView::Vivo => only(data, say(chat, words::ALIVE@)),
    }
}

/// How many days back a command asks for songs, and what is said where there are
/// none.
pub open spec fn songs_asked(command: CommandView) -> Option<(int, Seq<char>)> {
    match command {
        CommandView::Dia => Some((0, words::NO_SONGS_TODAY@)),
        CommandView::Semana => Some((6, words::NO_SONGS_THIS_WEEK@)),
        CommandView::Mes => Some((29, words::NO_SONGS_THIS_MONTH@)),
        _ => None,
    }
}

/// How many days back a command asks for songs, and what is said where there are
/// none.
fn asks_for_songs(command: &Command) -> (asked: Option<(i64, &'static str)>)
    ensures
        match asked {
            Some((range, nothing)) => songs_asked(command@) == Some((range as int, nothing@)),
            None => songs_asked(command@) is None,
        },
{
    match command {
        Command::Dia => Some((0, words::NO_SONGS_TODAY)),
        Command::Semana => Some((6, words::NO_SONGS_THIS_WEEK)),
        Command::Mes => Some((29, words::NO_SONGS_THIS_MONTH)),
        _ => None,
    }
}

/// Carries a command out that has no songs to count: it asks for none, or
/// nobody does. The clock does not matter to it.
fn answer(data: &mut Data, call: &Call, command: Command) -> (reaction: Reaction)
    requires
        songs_asked(command@) is None || call@.from is None,
    ensures
        forall|cleaning: Moment, now: Moment| #[trigger]
            outcome(old(data)@, call@, command@, cleaning, now) == (Outcome {
                data: final(data)@,
                save: reaction.save,
                step: reaction.step@,
            }),
{
    let chat = call.chat;
    let step = match command {
        Command::Proponer(name) => {
            if let Some(user) = &call.from {
                return propose(data, chat, user, name);
            }
            Step::Done
        },
        Command::Desproponer(name) => {
            if let Some(user) = &call.from {
                return withdraw(data, chat, user, name);
            }
            Step::Done
        },
        Command::Sinopsis(name) => {
            if name.as_str().is_empty() {
                make_say(chat, words::SYNOPSIS_HELP)
            } else {
                Step::SearchMovie { name }
            }
        },
        Command::Cola => show_queue(&data.queue, chat),
        Command::Votar => {
            if let Some(user) = &call.from {
                return call_vote(data, chat, user);
            }
            Step::Done
        },
        Command::Dia | Command::Semana | Command::Mes => Step::Done,
        Command::LastUsuario(name) => {
            if name.as_str().is_empty() {
                make_say(chat, words::LISTENER_HELP)
            } else {
                Step::LookUpListener { name }
            }
        },
        Command::CancionSemanal(name) => {
            if name.as_str().is_empty() {
                make_say(chat, words::TRACKS_HELP)
            } else {
                Step::ListWeeks { chart: Chart::Tracks, name }
            }
        },
        Command::ArtistaSemanal(name) => {
            if name.as_str().is_empty() {
                make_say(chat, words::ARTISTS_HELP)
            } else {
                Step::ListWeeks { chart: Chart::Artists, name }
            }
        },
        Command::AlbumSemanal(name) => {
            if name.as_str().is_empty() {
                make_say(chat, words::ALBUMS_HELP)
            } else {
                Step::ListWeeks { chart: Chart::Albums, name }
            }
        },
        Command::Vivo => make_say(chat, words::ALIVE),
    };
    Reaction { save: false, step }
}

/// Carries a command out at given moments.
pub fn handle_command_at(
    data: &mut Data,
    call: &Call,
    command: Command,
    cleaning: &Moment,
    now: &Moment,
) -> (reaction: Reaction)
    ensures
        outcome(old(data)@, call@, command@, *cleaning, *now) == (Outcome {
            data: final(data)@,
            save: reaction.save,
            step: reaction.step@,
        }),
{
    if let Some((range, nothing)) = asks_for_songs(&command) {
        if let Some(user) = &call.from {
            let list = data.upload_range_at(cleaning, now, range);
            return Reaction { save: false, step: forward_songs(user.id, list, nothing) };
        }
    }
    answer(data, call, command)
}

/// Carries a command out. The clock is read only to count songs.
pub fn handle_command(data: &mut Data, call: &Call, command: Command) -> (reaction: Reaction)
    ensures
        exists|cleaning: Moment, now: Moment|
            cleaning.shown() && now.shown() && #[trigger] outcome(
                old(data)@,
                call@,
                command@,
                cleaning,
                now,
            ) == (Outcome { data: final(data)@, save: reaction.save, step: reaction.step@ }),
        songs_asked(command@) is Some && call@.from is Some ==> exists|
            cleaning: Moment,
            now: Moment,
        |
            cleaning.was_read() && now.was_read() && #[trigger] outcome(
                old(data)@,
                call@,
                command@,
                cleaning,
                now,
            ) == (Outcome { data: final(data)@, save: reaction.save, step: reaction.step@ }),
        songs_asked(command@) is None || call@.from is None ==> forall|
            cleaning: Moment,
            now: Moment,
        | #[trigger]
            outcome(old(data)@, call@, command@, cleaning, now) == (Outcome {
                data: final(data)@,
                save: reaction.save,
                step: reaction.step@,
            }),
{
    if let Some((range, nothing)) = asks_for_songs(&command) {
        if let Some(user) = &call.from {
            let list = data.upload_range(range);
            let step = forward_songs(user.id, list, nothing);
            proof {
                let (cleaning, now) = choose|cleaning: Moment, now: Moment|
                    cleaning.shown() && now.shown() && cleaning.was_read() && now.was_read()
                        && data@ == data::cleaned(
                        old(data)@,
                        cleaning,
                    ) && list@ == data::messages(
                        #[trigger] data::recent(
                            data::cleaned(old(data)@, cleaning).music,
                            now,
                            range as int,
                        ),
                    );
                assert(outcome(old(data)@, call@, command@, cleaning, now) == (Outcome {
                    data: data@,
                    save: false,
                    step: step@,
                }));
            }
            return Reaction { save: false, step };
        }
    }
    let ghost before = data@;
    let ghost asked = command@;
    let reaction = answer(data, call, command);
    proof {
        clock::lemma_a_clock_shows_something();
        let moment = choose|moment: Moment| moment.shown();
        assert(outcome(before, call@, asked, moment, moment) == (Outcome {
            data: data@,
            save: reaction.save,
            step: reaction.step@,
        }));
    }
    reaction
}

// ---------------------------------------------------------------------------
// Going on with what was found
// ---------------------------------------------------------------------------

/// A film that was found.
#[derive(Debug)]
pub struct Movie {
    pub id: u64,
    pub title: String,
    pub overview: String,
    pub release_date: Option<Date>,
}

impl Movie {
    /// When the film came out; the first of January 1970 where that is not known.
    pub open spec fn release_text(self) -> Seq<char> {
        match self.release_date {
            Some(date) => date.spec_text(),
            None => clock::date_text(1970, 1, 1),
        }
    }

    /// What is said of the film: its title, when it came out, what it is about,
    /// and where there is more.
    pub open spec fn summary(self) -> Seq<char> {
        self.title@ + " • ("@ + self.release_text() + ")\n\n"@ + self.overview@
            + "\n\nhttps://www.themoviedb.org/movie/"@ + text::decimal(self.id as nat)
    }
}

/// Goes on once films were looked for, with those that were found, or with
/// `None` where the search failed. Only the first of them is spoken of.
pub fn movies_found(chat: i64, found: Option<Vec<Movie>>) -> (step: Step)
    ensures
        step@ == match found {
            Some(list) => if list@.len() > 0 {
                say(chat, list@[0].summary())
            } else {
                say(chat, words::NO_MOVIE@)
            },
            None => StepView::Done,
        },
{
    match found {
        Some(list) => {
            if list.is_empty() {
                return make_say(chat, words::NO_MOVIE);
            }
            let movie = &list[0];
            let date = match movie.release_date {
                Some(date) => date,
                None => Date::unknown(),
            };
            let mut text = movie.title.clone();
            text.append(" • (");
            text.append(date.text().as_str());
            text.append(")\n\n");
            text.append(movie.overview.as_str());
            text.append("\n\nhttps://www.themoviedb.org/movie/");
            text.append(text::number(movie.id).as_str());
            Step::Say { to: Target::Chat(chat), text, html: false }
        },
        None => Step::Done,
    }
}

/// Somebody who listens to music.
#[derive(Debug)]
pub struct Listener {
    pub url: String,
    pub name: String,
    pub play_count: u32,
}

impl Listener {
    /// What is said of a listener: a link to them, and how much they listened to.
    pub open spec fn summary(self) -> Seq<char> {
        "<a href=\""@ + self.url@ + "\">"@ + self.name@ + "</a> - "@ + text::decimal(
            self.play_count as nat,
        ) + " scrobbles"@
    }
}

/// Goes on once a listener was looked up, with `None` where that failed.
pub fn listener_found(chat: i64, found: Option<Listener>) -> (step: Step)
    ensures
        step@ == match found {
            Some(listener) => say_html(chat, listener.summary()),
            None => say(chat, words::NO_LISTENER@),
        },
{
    match found {
        Some(listener) => {
            let mut text = "<a href=\"".to_owned();
            text.append(listener.url.as_str());
            text.append("\">");
            text.append(listener.name.as_str());
            text.append("</a> - ");
            text.append(text::number(listener.play_count as u64).as_str());
            text.append(" scrobbles");
            Step::Say { to: Target::Chat(chat), text, html: true }
        },
        None => make_say(chat, words::NO_LISTENER),
    }
}

/// Goes on once the weeks of a listener's charts were listed, with `None` where
/// that failed. The last week is the one to show.
pub fn weeks_found(chat: i64, chart: Chart, name: String, found: Option<Vec<Week>>) -> (step: Step)
    ensures
        step@ == match found {
            Some(weeks) => if weeks@.len() > 0 {
                StepView::FetchChart { chart, name: name@, week: weeks@.last() }
            } else {
                StepView::Done
            },
            None => say(chat, words::NO_LISTENER@),
        },
{
    match found {
        Some(weeks) => {
            if weeks.is_empty() {
                Step::Done
            } else {
                Step::FetchChart { chart, name, week: weeks[weeks.len() - 1] }
            }
        },
        None => make_say(chat, words::NO_LISTENER),
    }
}

/// A line of a chart.
#[derive(Debug)]
pub struct Entry {
    pub rank: u32,
    pub url: String,
    pub name: String,
    pub playcount: u32,
}

impl Entry {
    /// What is said of the entry: its rank, a link to it, and how often it was
    /// played.
    pub open spec fn line(self) -> Seq<char> {
        text::decimal(self.rank as nat) + ". <a href=\""@ + self.url@ + "\">"@ + self.name@
            + "</a> - "@ + text::decimal(self.playcount as nat) + " reproducciones"@ + "\n"@
    }
}

/// How many entries of a chart come before the first with too low a rank.
pub open spec fn shown_entries(chart: Seq<Entry>) -> nat
    decreases chart.len(),
{
    if chart.len() == 0 || chart[0].rank > LAST_RANK {
        0
    } else {
        1 + shown_entries(chart.drop_first())
    }
}

/// The lines of a chart, in order.
pub open spec fn chart_text(chart: Seq<Entry>) -> Seq<char>
    decreases chart.len(),
{
    if chart.len() == 0 {
        Seq::empty()
    } else {
        chart_text(chart.drop_last()) + chart.last().line()
    }
}

/// The entries that are shown are the longest start of the chart in which all
/// ranks are high enough.
pub proof fn lemma_shown_entries(chart: Seq<Entry>)
    ensures
        shown_entries(chart) <= chart.len(),
        forall|i: int| 0 <= i < shown_entries(chart) ==> (#[trigger] chart[i]).rank <= LAST_RANK,
        shown_entries(chart) < chart.len() ==> chart[shown_entries(chart) as int].rank > LAST_RANK,
    decreases chart.len(),
{
    if chart.len() > 0 && chart[0].rank <= LAST_RANK {
        let rest = chart.drop_first();
        lemma_shown_entries(rest);
        assert forall|i: int| 0 <= i < shown_entries(chart) implies (
        #[trigger] chart[i]).rank <= LAST_RANK by {
            if i > 0 {
                assert(chart[i] == rest[i - 1]);
            }
        }
        if shown_entries(chart) < chart.len() {
            assert(chart[shown_entries(chart) as int] == rest[shown_entries(rest) as int]);
        }
    }
}

/// A number of entries is what is shown if all up to there have ranks high
/// enough and the next one has not.
proof fn lemma_shown_entries_is(chart: Seq<Entry>, n: int)
    requires
        0 <= n <= chart.len(),
        forall|i: int| 0 <= i < n ==> (#[trigger] chart[i]).rank <= LAST_RANK,
        n < chart.len() ==> chart[n].rank > LAST_RANK,
    ensures
        shown_entries(chart) == n,
{
    lemma_shown_entries(chart);
    let shown = shown_entries(chart) as int;
    if shown < n {
        assert(chart[shown].rank <= LAST_RANK);
    } else if n < shown {
        assert(chart[n].rank <= LAST_RANK);
    }
}

/// Goes on once a chart was asked for, with `None` where that failed. Shows the
/// entries down to the first with too low a rank.
pub fn chart_found(chat: i64, found: Option<Vec<Entry>>) -> (step: Step)
    ensures
        step@ == match found {
            Some(chart) => say_html(
                chat,
                chart_text(chart@.take(shown_entries(chart@) as int)),
            ),
            None => StepView::Done,
        },
{
    match found {
        Some(chart) => {
            let mut text = String::new();
            let mut i: usize = 0;
            while i < chart.len() && chart[i].rank <= LAST_RANK
                invariant
                    i <= chart@.len(),
                    forall|k: int| 0 <= k < i ==> (#[trigger] chart@[k]).rank <= LAST_RANK,
                    text@ == chart_text(chart@.take(i as int)),
                decreases chart@.len() - i,
            {
                let entry = &chart[i];
                text.append(text::number(entry.rank as u64).as_str());
                text.append(". <a href=\"");
                text.append(entry.url.as_str());
                text.append("\">");
                text.append(entry.name.as_str());
                text.append("</a> - ");
                text.append(text::number(entry.playcount as u64).as_str());
                text.append(" reproducciones");
                text.append("\n");
                proof {
                    assert(chart@.take(i + 1).drop_last() =~= chart@.take(i as int));
                    assert(text@ =~= chart_text(chart@.take(i as int)) + chart@[i as int].line());
                }
                i += 1;
            }
            proof {
                lemma_shown_entries_is(chart@, i as int);
            }
            Step::Say { to: Target::Chat(chat), text, html: true }
        },
        None => Step::Done,
    }
}

// ---------------------------------------------------------------------------
// Laws
// ---------------------------------------------------------------------------

/// No command makes the queue longer than a poll has room for.
pub proof fn law_queue_fits_a_poll(
    data: DataView,
    call: CallView,
    command: CommandView,
    cleaning: Moment,
    now: Moment,
)
    requires
        data.queue.len() <= QUEUE_SIZE,
    ensures
        outcome(data, call, command, cleaning, now).data.queue.len() <= QUEUE_SIZE,
        outcome(data, call, command, cleaning, now).step matches StepView::Poll { options, .. }
            ==> 1 <= options.len() <= QUEUE_SIZE,
{
    if let CommandView::Desproponer(name) = command {
        data::lemma_position(data.queue, name);
    }
}

/// No command gives two proposals of the queue the same name.
pub proof fn law_commands_keep_names_distinct(
    data: DataView,
    call: CallView,
    command: CommandView,
    cleaning: Moment,
    now: Moment,
)
    requires
        data::distinct_names(data.queue),
    ensures
        data::distinct_names(outcome(data, call, command, cleaning, now).data.queue),
{
    if let Some(user) = call.from {
        match command {
            CommandView::Proponer(name) => {
                data::law_names_stay_distinct(data, name, user.full_name());
            },
            CommandView::Desproponer(name) => {
                data::law_names_stay_distinct(data, name, user.full_name());
            },
            _ => {},
        }
    }
}

/// Whatever a command changes in the queue is saved, and the songs that it
/// drops are too old to be listed on any later day.
pub proof fn law_changes_are_saved(
    data: DataView,
    call: CallView,
    command: CommandView,
    cleaning: Moment,
    now: Moment,
    later: Moment,
    range: int,
)
    requires
        cleaning.spec_day() <= later.spec_day(),
        range <= data::KEPT_DAYS,
    ensures
        ({
            let result = outcome(data, call, command, cleaning, now);
            &&& result.save || result.data.queue == data.queue
            &&& data::recent(result.data.music, later, range) == data::recent(
                data.music,
                later,
                range,
            )
        }),
{
    data::law_cleaning_spares_listings(data, cleaning, later, range);
}

/// Only the organiser of the votes can take out of the queue what others have
/// proposed.
pub proof fn law_proposals_are_safe(
    data: DataView,
    call: CallView,
    command: CommandView,
    cleaning: Moment,
    now: Moment,
    kept: ProposalView,
)
    requires
        data.queue.contains(kept),
        call.from matches Some(user) ==> user.full_name() != kept.user && user.id
            != Data::VOTE_USER,
    ensures
        outcome(data, call, command, cleaning, now).data.queue.contains(kept),
{
    if let Some(user) = call.from {
        match command {
            CommandView::Proponer(name) => {
                let queue = outcome(data, call, command, cleaning, now).data.queue;
                let i = data.queue.index_of(kept);
                assert(queue[i] == kept);
            },
            CommandView::Desproponer(name) => {
                data::law_only_own_proposals_leave(data, name, user.full_name(), kept);
            },
            _ => {},
        }
    }
}

/// A vote puts every film of the queue to the vote, in order, and leaves the
/// queue empty. It is an open vote, in which several films may be picked.
pub proof fn law_vote_takes_all(data: DataView, chat: i64, user: UserView)
    requires
        user.id == Data::VOTE_USER,
        data.queue.len() > 0,
    ensures
        ({
            let result = vote_outcome(data, chat, user);
            &&& result.data.queue.len() == 0
            &&& result.step matches StepView::Poll { to, options, anonymous, multiple, .. } && {
                &&& to == Target::Chat(chat)
                &&& !anonymous && multiple
                &&& options.len() == data.queue.len()
                &&& forall|i: int|
                    0 <= i < options.len() ==> #[trigger] options[i] == data.queue[i].name
            }
        }),
{
}

/// Without a sender no command changes the data.
pub proof fn law_nobody_changes_nothing(
    data: DataView,
    call: CallView,
    command: CommandView,
    cleaning: Moment,
    now: Moment,
)
    requires
        call.from is None,
    ensures
        outcome(data, call, command, cleaning, now).data == data,
        !outcome(data, call, command, cleaning, now).save,
{
}

/// The songs of the day are among those of the week, and those of the week
/// among those of the month.
pub proof fn law_day_week_month(data: DataView, cleaning: Moment, now: Moment, upload: Upload)
    ensures
        ({
            let music = data::cleaned(data, cleaning).music;
            let day = data::recent(music, now, 0);
            let week = data::recent(music, now, 6);
            let month = data::recent(music, now, 29);
            &&& day.contains(upload) ==> week.contains(upload)
            &&& week.contains(upload) ==> month.contains(upload)
        }),
{
    let music = data::cleaned(data, cleaning).music;
    data::law_listing_is_exact(music, now, 0, upload);
    data::law_listing_is_exact(music, now, 6, upload);
    data::law_listing_is_exact(music, now, 29, upload);
}

// ---------------------------------------------------------------------------
// What is given, and what is handed out
// ---------------------------------------------------------------------------

/// What a call is said to be is what it is.
pub proof fn law_call_is_what_it_is(call: Call, user: User)
    ensures
        call@.chat == call.chat,
        call.from is None <==> call@.from is None,
        call.from == Some(user) ==> call@.from == Some(user@),
        user@.id == user.id,
        user@.first_name == user.first_name@,
        match user.last_name {
            Some(last_name) => user@.last_name == Some(last_name@),
            None => user@.last_name is None,
        },
{
}

/// What a command is said to be is what it is.
pub proof fn law_command_is_what_it_is(command: Command)
    ensures
        match command {
            Command::Proponer(name) => command@ == CommandView::Proponer(name@),
            Command::Desproponer(name) => command@ == CommandView::Desproponer(name@),
            Command::Sinopsis(name) => command@ == CommandView::Sinopsis(name@),
            Command::Cola => command@ is Cola,
            Command::Votar => command@ is Votar,
            Command::Dia => command@ is Dia,
            Command::Semana => command@ is Semana,
            Command::Mes => command@ is Mes,
            Command::LastUsuario(name) => command@ == CommandView::LastUsuario(name@),
            Command::CancionSemanal(name) => command@ == CommandView::CancionSemanal(name@),
            Command::ArtistaSemanal(name) => command@ == CommandView::ArtistaSemanal(name@),
            Command::AlbumSemanal(name) => command@ == CommandView::AlbumSemanal(name@),
            Command::Vivo => command@ is Vivo,
        },
{
}

/// What a step is said to be is what it is, down to each option of a poll and
/// each message that is forwarded.
pub proof fn law_step_is_what_it_is(step: Step)
    ensures
        match step {
            Step::Done => step@ is Done,
            Step::Say { to, text, html } => {
                &&& step@ is Say
                &&& step@->Say_to == to
                &&& step@->Say_text == text@
                &&& step@->html == html
            },
            Step::Poll { to, question, options, anonymous, multiple } => {
                &&& step@ is Poll
                &&& step@->Poll_to == to
                &&& step@->question == question@
                &&& step@->options.len() == options@.len()
                &&& forall|i: int|
                    0 <= i < options@.len() ==> #[trigger] step@->options[i] == options@[i]@
                &&& step@->anonymous == anonymous
                &&& step@->multiple == multiple
            },
            Step::Forward { to, from, messages } => {
                &&& step@ is Forward
                &&& step@->Forward_to == to
                &&& step@->from == from
                &&& step@->messages == messages@
            },
            Step::SearchMovie { name } => step@ is SearchMovie && step@->SearchMovie_name == name@,
            Step::LookUpListener { name } => step@ is LookUpListener && step@->LookUpListener_name
                == name@,
            Step::ListWeeks { chart, name } => {
                &&& step@ is ListWeeks
                &&& step@->ListWeeks_chart == chart
                &&& step@->ListWeeks_name == name@
            },
            Step::FetchChart { chart, name, week } => {
                &&& step@ is FetchChart
                &&& step@->FetchChart_chart == chart
                &&& step@->FetchChart_name == name@
                &&& step@->week == week
            },
        },
{
}

/// A full name is the first name alone, or the first and the last with one space
/// between them.
pub proof fn law_full_name(user: UserView)
    ensures
        user.last_name is None ==> user.full_name() == user.first_name,
        user.last_name is Some ==> user.full_name() == user.first_name + seq![' ']
            + user.last_name->0,
{
    reveal_strlit(" ");
    assert(" "@ =~= seq![' ']);
}

// ---------------------------------------------------------------------------
// What comes of each command
// ---------------------------------------------------------------------------

/// A film with a new name, for which there is room, goes to the end of the queue
/// in the full name of who proposed it. That is saved and said.
pub proof fn law_proposing(
    data: DataView,
    call: CallView,
    user: UserView,
    name: Seq<char>,
    cleaning: Moment,
    now: Moment,
)
    requires
        call.from == Some(user),
        name.len() > 0,
        data.queue.len() != 12,
        forall|i: int|
            0 <= i < data.queue.len() ==> text::trimmed(
                text::lowercase((#[trigger] data.queue[i]).name),
            ) != text::trimmed(text::lowercase(name)),
    ensures
        ({
            let result = outcome(data, call, CommandView::Proponer(name), cleaning, now);
            &&& result.save
            &&& result.data.music == data.music
            &&& result.data.queue == data.queue + seq![
                ProposalView { name, user: user.full_name() },
            ]
            &&& result.step == (StepView::Say {
                to: Target::Chat(call.chat),
                text: "Lo anotubi"@,
                html: false,
            })
        }),
{
    data::law_new_film_goes_last(data, name, user.full_name());
    let result = outcome(data, call, CommandView::Proponer(name), cleaning, now);
    assert(result.data.queue =~= data.queue + seq![ProposalView { name, user: user.full_name() }]);
}

/// A film that cannot be taken changes nothing, and whoever proposed it hears
/// why: it has no name, there is no room, or its name is in the queue.
pub proof fn law_proposing_in_vain(
    data: DataView,
    call: CallView,
    user: UserView,
    name: Seq<char>,
    i: int,
    cleaning: Moment,
    now: Moment,
)
    requires
        call.from == Some(user),
        name.len() == 0 || data.queue.len() == 12 || (0 <= i < data.queue.len() && text::trimmed(
            text::lowercase(data.queue[i].name),
        ) == text::trimmed(text::lowercase(name))),
    ensures
        ({
            let result = outcome(data, call, CommandView::Proponer(name), cleaning, now);
            &&& !result.save
            &&& result.data == data
            &&& result.step == (StepView::Say {
                to: Target::Chat(call.chat),
                text: if name.len() == 0 {
                    "Tenés que dar el nombre de la película. Ejemplo: /proponer@clemen_dc_bot Rocky Horror Picture Show"@
                } else if data.queue.len() == 12 {
                    "Telegram tiene un límite de 12 opciones por encuesta...don't hate the player hate the game"@
                } else {
                    "Ya está en la cola, me estás gargando"@
                },
                html: false,
            })
        }),
{
    if name.len() > 0 && data.queue.len() != 12 {
        data::law_same_name_is_turned_down(data, i, name, user.full_name());
    }
}

/// Whoever made the first proposal with exactly this name, by their full name,
/// takes it back. That is saved and said.
pub proof fn law_withdrawing(
    data: DataView,
    call: CallView,
    user: UserView,
    name: Seq<char>,
    i: int,
    cleaning: Moment,
    now: Moment,
)
    requires
        call.from == Some(user),
        name.len() > 0,
        0 <= i < data.queue.len(),
        data.queue[i].name == name,
        data.queue[i].user == user.full_name(),
        forall|k: int| 0 <= k < i ==> (#[trigger] data.queue[k]).name != name,
    ensures
        ({
            let result = outcome(data, call, CommandView::Desproponer(name), cleaning, now);
            &&& result.save
            &&& result.data.music == data.music
            &&& result.data.queue == data.queue.take(i) + data.queue.skip(i + 1)
            &&& result.step == (StepView::Say {
                to: Target::Chat(call.chat),
                text: "Lo desanotubi"@,
                html: false,
            })
        }),
{
    data::law_own_proposal_is_withdrawn(data, i, name, user.full_name());
}

/// Nobody else can take it back: nothing changes, and they hear so.
pub proof fn law_withdrawing_in_vain(
    data: DataView,
    call: CallView,
    user: UserView,
    name: Seq<char>,
    i: int,
    cleaning: Moment,
    now: Moment,
)
    requires
        call.from == Some(user),
        name.len() > 0,
        0 <= i < data.queue.len(),
        data.queue[i].name == name,
        data.queue[i].user != user.full_name(),
        forall|k: int| 0 <= k < i ==> (#[trigger] data.queue[k]).name != name,
    ensures
        ({
            let result = outcome(data, call, CommandView::Desproponer(name), cleaning, now);
            &&& !result.save
            &&& result.data == data
            &&& result.step == (StepView::Say {
                to: Target::Chat(call.chat),
                text: "Me estás gargando...no propusiste esa película vos. 🍅la de acá"@,
                html: false,
            })
        }),
{
    data::law_others_proposal_is_not_withdrawn(data, i, name, user.full_name());
}

/// Where no proposal has the name, nothing changes, and nothing is said. Without
/// a name, nothing changes, and it is said how to give one.
pub proof fn law_withdrawing_nothing(
    data: DataView,
    call: CallView,
    user: UserView,
    name: Seq<char>,
    cleaning: Moment,
    now: Moment,
)
    requires
        call.from == Some(user),
        name.len() == 0 || forall|k: int|
            0 <= k < data.queue.len() ==> (#[trigger] data.queue[k]).name != name,
    ensures
        ({
            let result = outcome(data, call, CommandView::Desproponer(name), cleaning, now);
            &&& !result.save
            &&& result.data == data
            &&& name.len() > 0 ==> result.step is Done
            &&& name.len() == 0 ==> result.step == (StepView::Say {
                to: Target::Chat(call.chat),
                text: "Tenés que dar el nombre de la película. Ejemplo: /desproponer@clemen_dc_bot Rocky Horror Picture Show"@,
                html: false,
            })
        }),
{
    if name.len() > 0 {
        data::law_unknown_film_is_not_withdrawn(data, name, user.full_name());
    }
}

/// A command by nobody for which a sender is needed brings nothing about.
pub proof fn law_nobody_hears_nothing(
    data: DataView,
    call: CallView,
    command: CommandView,
    cleaning: Moment,
    now: Moment,
)
    requires
        call.from is None,
        command is Proponer || command is Desproponer || command is Votar || command is Dia
            || command is Semana || command is Mes,
    ensures
        outcome(data, call, command, cleaning, now).step is Done,
        outcome(data, call, command, cleaning, now).data == data,
        !outcome(data, call, command, cleaning, now).save,
{
}

/// The list of the queue is that of its parts, one behind the other: a line for
/// each proposal, with its name and who made it.
pub proof fn law_queue_is_listed_line_by_line(
    first: Seq<ProposalView>,
    proposal: ProposalView,
    rest: Seq<ProposalView>,
)
    ensures
        queue_text(Seq::empty()) == Seq::<char>::empty(),
        queue_text(first + rest) == queue_text(first) + queue_text(rest),
        queue_text(seq![proposal]) == "• "@ + proposal.name + ", propuesta por "@ + proposal.user
            + "\n"@,
    decreases rest.len(),
{
    reveal_with_fuel(queue_text, 2);
    let one = seq![proposal];
    assert(one.drop_last() =~= Seq::empty());
    assert(queue_text(one) =~= queue_line(proposal));
    if rest.len() == 0 {
        assert(first + rest =~= first);
        assert(queue_text(first) + queue_text(rest) =~= queue_text(first));
    } else {
        assert((first + rest).drop_last() =~= first + rest.drop_last());
        law_queue_is_listed_line_by_line(first, proposal, rest.drop_last());
        assert(queue_text(first + rest) =~= queue_text(first) + queue_text(rest));
    }
}

/// Listing the queue says what is in it to the chat, or that nothing is, and
/// changes nothing.
pub proof fn law_listing_the_queue(
    data: DataView,
    call: CallView,
    cleaning: Moment,
    now: Moment,
)
    ensures
        ({
            let result = outcome(data, call, CommandView::Cola, cleaning, now);
            &&& !result.save
            &&& result.data == data
            &&& result.step == (StepView::Say {
                to: Target::Chat(call.chat),
                text: if data.queue.len() == 0 {
                    "La cola está vacía."@
                } else {
                    queue_text(data.queue)
                },
                html: false,
            })
        }),
{
}

/// The organiser puts the films of the queue, by name and in order, to an open
/// vote in the chat in which several can be picked. The queue is then empty, and
/// saved. Where it was empty before, that is said.
pub proof fn law_voting(
    data: DataView,
    call: CallView,
    user: UserView,
    cleaning: Moment,
    now: Moment,
)
    requires
        call.from == Some(user),
        user.id == 1_511_061_836,
    ensures
        ({
            let result = outcome(data, call, CommandView::Votar, cleaning, now);
            &&& result.save
            &&& result.data.music == data.music
            &&& result.data.queue.len() == 0
            &&& data.queue.len() == 0 ==> result.step == (StepView::Say {
                to: Target::Chat(call.chat),
                text: "La cola está vacía."@,
                html: false,
            })
            &&& data.queue.len() > 0 ==> {
                &&& result.step is Poll
                &&& result.step->Poll_to == Target::Chat(call.chat)
                &&& result.step->question == "Vota la próxima película!"@
                &&& !result.step->anonymous
                &&& result.step->multiple
                &&& result.step->options.len() == data.queue.len()
                &&& forall|i: int|
                    0 <= i < data.queue.len() ==> #[trigger] result.step->options[i]
                        == data.queue[i].name
            }
        }),
{
}

/// Nobody else can call a vote: nothing changes, and they hear so.
pub proof fn law_voting_in_vain(
    data: DataView,
    call: CallView,
    user: UserView,
    cleaning: Moment,
    now: Moment,
)
    requires
        call.from == Some(user),
        user.id != 1_511_061_836,
    ensures
        ({
            let result = outcome(data, call, CommandView::Votar, cleaning, now);
            &&& !result.save
            &&& result.data == data
            &&& result.step == (StepView::Say {
                to: Target::Chat(call.chat),
                text: "Únicamente Queso puede utilizar este comando."@,
                html: false,
            })
        }),
{
}

/// Whoever asks for the songs of today, of the last six days and today, or of
/// the last 29 and today gets the messages with them forwarded from the music
/// channel in private, in the order of the log, or hears in private that there
/// are none. The songs that are too old to be kept are dropped.
pub proof fn law_asking_for_songs(
    data: DataView,
    call: CallView,
    user: UserView,
    command: CommandView,
    cleaning: Moment,
    now: Moment,
)
    requires
        call.from == Some(user),
        command is Dia || command is Semana || command is Mes,
    ensures
        ({
            let result = outcome(data, call, command, cleaning, now);
            let days = if command is Dia {
                0int
            } else if command is Semana {
                6int
            } else {
                29int
            };
            let list = data::messages(
                data::recent(data::recent(data.music, cleaning, 29), now, days),
            );
            &&& !result.save
            &&& result.data.queue == data.queue
            &&& result.data.music == data::recent(data.music, cleaning, 29)
            &&& list.len() > 0 ==> result.step == (StepView::Forward {
                to: Target::User(user.id),
                from: -1_001_296_790_112i64,
                messages: list,
            })
            &&& list.len() == 0 ==> result.step == (StepView::Say {
                to: Target::User(user.id),
                text: if command is Dia {
                    "No hay ninguna canción subida hoy."@
                } else if command is Semana {
                    "No hay ninguna canción subida esta semana."@
                } else {
                    "No hay ninguna canción subida este mes."@
                },
                html: false,
            })
        }),
{
    data::law_a_month_is_kept(data, cleaning);
}

/// Songs that were found are all forwarded, as they are.
pub proof fn law_forwarding(user: u64, list: Seq<i32>, nothing: Seq<char>)
    ensures
        list.len() > 0 ==> songs_step(user, list, nothing) == (StepView::Forward {
            to: Target::User(user),
            from: -1_001_296_790_112i64,
            messages: list,
        }),
        list.len() == 0 ==> songs_step(user, list, nothing) == (StepView::Say {
            to: Target::User(user),
            text: nothing,
            html: false,
        }),
{
}

/// The commands that look something up by name change nothing. They look up the
/// name as it was given, or, where none was, say how to give one.
pub proof fn law_looking_up(
    data: DataView,
    call: CallView,
    name: Seq<char>,
    cleaning: Moment,
    now: Moment,
)
    ensures
        ({
            let help = |text: Seq<char>|
                StepView::Say { to: Target::Chat(call.chat), text, html: false };
            let films = outcome(data, call, CommandView::Sinopsis(name), cleaning, now);
            let listener = outcome(data, call, CommandView::LastUsuario(name), cleaning, now);
            let tracks = outcome(data, call, CommandView::CancionSemanal(name), cleaning, now);
            let artists = outcome(data, call, CommandView::ArtistaSemanal(name), cleaning, now);
            let albums = outcome(data, call, CommandView::AlbumSemanal(name), cleaning, now);
            &&& films.data == data && !films.save
            &&& listener.data == data && !listener.save
            &&& tracks.data == data && !tracks.save
            &&& artists.data == data && !artists.save
            &&& albums.data == data && !albums.save
            &&& name.len() > 0 ==> {
                &&& films.step == (StepView::SearchMovie { name })
                &&& listener.step == (StepView::LookUpListener { name })
                &&& tracks.step == (StepView::ListWeeks { chart: Chart::Tracks, name })
                &&& artists.step == (StepView::ListWeeks { chart: Chart::Artists, name })
                &&& albums.step == (StepView::ListWeeks { chart: Chart::Albums, name })
            }
            &&& name.len() == 0 ==> {
                &&& films.step == help(
                    "Tenés que dar el nombre de la película. Ejemplo: /sinopsis@clemen_dc_bot Rocky Horror Picture Show"@,
                )
                &&& listener.step == help(
                    "Tenés que dar el nombre del usuario. Ejemplo: /lastusuario@clemen_dc_bot luxreduxdelux"@,
                )
                &&& tracks.step == help(
                    "Tenés que dar el nombre del usuario. Ejemplo: /cancionsemanal@clemen_dc_bot luxreduxdelux"@,
                )
                &&& artists.step == help(
                    "Tenés que dar el nombre del usuario. Ejemplo: /artistasemanal@clemen_dc_bot luxreduxdelux"@,
                )
                &&& albums.step == help(
                    "Tenés que dar el nombre del usuario. Ejemplo: /albumsemanal@clemen_dc_bot luxreduxdelux"@,
                )
            }
        }),
{
}

/// Whoever asks whether the bot is alive hears that it is.
pub proof fn law_alive(data: DataView, call: CallView, cleaning: Moment, now: Moment)
    ensures
        ({
            let result = outcome(data, call, CommandView::Vivo, cleaning, now);
            &&& !result.save
            &&& result.data == data
            &&& result.step == (StepView::Say {
                to: Target::Chat(call.chat),
                text: "Acá estoy."@,
                html: false,
            })
        }),
{
}

// ---------------------------------------------------------------------------
// What is said of what was found
// ---------------------------------------------------------------------------

/// What was found is said to the chat it was asked for in, with its markup read
/// or not, and nothing is added to it.
pub proof fn law_saying(chat: i64, text: Seq<char>)
    ensures
        say(chat, text) == (StepView::Say { to: Target::Chat(chat), text, html: false }),
        say_html(chat, text) == (StepView::Say { to: Target::Chat(chat), text, html: true }),
        words::NO_MOVIE@ == "No encontré ningún resultado para esa película."@,
        words::NO_LISTENER@ == "No hay ningún usuario con ese nombre."@,
{
}

/// A film is told of by its title, its date, what it is about and its number, in
/// this order.
pub proof fn law_film_is_told_of(movie: Movie)
    ensures
        ({
            let date = match movie.release_date {
                Some(date) => clock::date_text(date.ymd().0, date.ymd().1, date.ymd().2),
                None => clock::date_text(1970, 1, 1),
            };
            movie.summary() == movie.title@ + (" • ("@ + (date + (")\n\n"@ + (movie.overview@ + (
            "\n\nhttps://www.themoviedb.org/movie/"@ + text::decimal(movie.id as nat))))))
        }),
{
    let date = movie.release_text();
    let number = text::decimal(movie.id as nat);
    assert(movie.summary() =~= movie.title@ + (" • ("@ + (date + (")\n\n"@ + (movie.overview@ + (
    "\n\nhttps://www.themoviedb.org/movie/"@ + number))))));
}

/// A listener is told of by a link to them that shows their name, and by how
/// much they listened to.
pub proof fn law_listener_is_told_of(listener: Listener)
    ensures
        listener.summary() == "<a href=\""@ + (listener.url@ + ("\">"@ + (listener.name@ + (
        "</a> - "@ + (text::decimal(listener.play_count as nat) + " scrobbles"@))))),
{
    let number = text::decimal(listener.play_count as nat);
    assert(listener.summary() =~= "<a href=\""@ + (listener.url@ + ("\">"@ + (listener.name@ + (
    "</a> - "@ + (number + " scrobbles"@))))));
}

/// An entry of a chart is a line of its rank, a link to it that shows its name,
/// and how often it was played.
pub proof fn law_entry_is_a_line(entry: Entry)
    ensures
        entry.line() == text::decimal(entry.rank as nat) + (". <a href=\""@ + (entry.url@ + (
        "\">"@ + (entry.name@ + ("</a> - "@ + (text::decimal(entry.playcount as nat) + (
        " reproducciones"@ + "\n"@))))))),
{
    let rank = text::decimal(entry.rank as nat);
    let plays = text::decimal(entry.playcount as nat);
    assert(entry.line() =~= rank + (". <a href=\""@ + (entry.url@ + ("\">"@ + (entry.name@ + (
    "</a> - "@ + (plays + (" reproducciones"@ + "\n"@))))))));
}

/// The text of a chart is that of its parts, one behind the other, however long
/// they are: the line of each entry, in order.
pub proof fn law_chart_is_told_line_by_line(first: Seq<Entry>, entry: Entry, rest: Seq<Entry>)
    ensures
        chart_text(Seq::empty()) == Seq::<char>::empty(),
        chart_text(seq![entry]) == entry.line(),
        chart_text(first + rest) == chart_text(first) + chart_text(rest),
    decreases rest.len(),
{
    reveal_with_fuel(chart_text, 2);
    let one = seq![entry];
    assert(one.drop_last() =~= Seq::empty());
    assert(chart_text(one) =~= entry.line());
    if rest.len() == 0 {
        assert(first + rest =~= first);
        assert(chart_text(first) + chart_text(rest) =~= chart_text(first));
    } else {
        assert((first + rest).drop_last() =~= first + rest.drop_last());
        law_chart_is_told_line_by_line(first, entry, rest.drop_last());
        assert(chart_text(first + rest) =~= chart_text(first) + chart_text(rest));
    }
}

/// Of a chart, the entries up to the first with a rank below the tenth are
/// shown, and all of them where there is none.
pub proof fn law_ten_ranks_are_shown(shown: Seq<Entry>, low: Entry, rest: Seq<Entry>)
    requires
        forall|i: int| 0 <= i < shown.len() ==> (#[trigger] shown[i]).rank <= 10,
        low.rank > 10,
    ensures
        shown_entries(shown) == shown.len(),
        shown_entries(shown + seq![low] + rest) == shown.len(),
        (shown + seq![low] + rest).take(shown.len() as int) == shown,
{
    let chart = shown + seq![low] + rest;
    let n = shown.len() as int;
    lemma_shown_entries_is(shown, n);
    assert forall|i: int| 0 <= i < n implies (#[trigger] chart[i]).rank <= LAST_RANK by {
        assert(chart[i] == shown[i]);
    }
    assert(chart[n] == low);
    lemma_shown_entries_is(chart, n);
    assert(chart.take(n) =~= shown);
}

// ---------------------------------------------------------------------------
// What the operations do
// ---------------------------------------------------------------------------

/// The first film that was found is told of in the chat, as it is. Where none
/// was, that is said, and where the search failed, nothing.
pub proof fn law_going_on_with_films(chat: i64, found: Option<Vec<Movie>>, step: Step)
    requires
        call_ensures(movies_found, (chat, found), step),
    ensures
        found is None ==> step is Done,
        found is Some ==> step is Say && step->Say_to == Target::Chat(chat) && !step->html,
        found is Some && found->0@.len() > 0 ==> step->Say_text@ == found->0@[0].summary(),
        found is Some && found->0@.len() == 0 ==> step->Say_text@
            == "No encontré ningún resultado para esa película."@,
{
}

/// A listener who was found is told of in the chat, with a link. Where nobody
/// was, that is said.
pub proof fn law_going_on_with_a_listener(chat: i64, found: Option<Listener>, step: Step)
    requires
        call_ensures(listener_found, (chat, found), step),
    ensures
        step is Say,
        step->Say_to == Target::Chat(chat),
        step->html <==> found is Some,
        found is Some ==> step->Say_text@ == found->0.summary(),
        found is None ==> step->Say_text@ == "No hay ningún usuario con ese nombre."@,
{
}

/// Of the weeks that were found the last is fetched, for the listener and the
/// chart that were asked for.
pub proof fn law_going_on_with_weeks(
    chat: i64,
    chart: Chart,
    name: String,
    found: Option<Vec<Week>>,
    step: Step,
)
    requires
        call_ensures(weeks_found, (chat, chart, name, found), step),
    ensures
        found is Some && found->0@.len() > 0 ==> step is FetchChart && step->FetchChart_chart
            == chart && step->FetchChart_name@ == name@ && step->week == found->0@[found->0@.len()
            - 1],
        found is Some && found->0@.len() == 0 ==> step is Done,
        found is None ==> step is Say && step->Say_to == Target::Chat(chat) && !step->html
            && step->Say_text@ == "No hay ningún usuario con ese nombre."@,
{
}

/// Of a chart that was found, all lines down to the first with a rank below the
/// tenth are told in the chat, with their links, however many they are.
pub proof fn law_going_on_with_a_chart(
    chat: i64,
    chart: Vec<Entry>,
    shown: Seq<Entry>,
    rest: Seq<Entry>,
    step: Step,
)
    requires
        call_ensures(chart_found, (chat, Some(chart)), step),
        chart@ == shown + rest,
        forall|i: int| 0 <= i < shown.len() ==> (#[trigger] shown[i]).rank <= 10,
        rest.len() > 0 ==> rest[0].rank > 10,
    ensures
        step is Say,
        step->Say_to == Target::Chat(chat),
        step->html,
        step->Say_text@ == chart_text(shown),
{
    if rest.len() > 0 {
        assert(chart@ =~= shown + seq![rest[0]] + rest.drop_first());
        law_ten_ranks_are_shown(shown, rest[0], rest.drop_first());
    } else {
        assert(chart@ =~= shown);
        assert(chart@.take(shown.len() as int) =~= shown);
        lemma_shown_entries_is(shown, shown.len() as int);
    }
}

/// Where a chart could not be had, nothing is said.
pub proof fn law_going_on_without_a_chart(chat: i64, step: Step)
    requires
        call_ensures(chart_found, (chat, None::<Vec<Entry>>), step),
    ensures
        step is Done,
{
}

/// A command that is carried out at given moments has its outcome.
pub proof fn law_carrying_out(
    data: &mut Data,
    call: Call,
    command: Command,
    cleaning: Moment,
    now: Moment,
    reaction: Reaction,
)
    requires
        call_ensures(handle_command_at, (data, &call, command, &cleaning, &now), reaction),
    ensures
        final(data)@ == outcome(old(data)@, call@, command@, cleaning, now).data,
        reaction.save == outcome(old(data)@, call@, command@, cleaning, now).save,
        reaction.step@ == outcome(old(data)@, call@, command@, cleaning, now).step,
{
}

/// A command that does not ask for songs has the outcome that it has at any
/// moment: no clock matters.
pub proof fn law_carrying_out_at_any_time(
    data: &mut Data,
    call: Call,
    command: Command,
    cleaning: Moment,
    now: Moment,
    reaction: Reaction,
)
    requires
        call_ensures(handle_command, (data, &call, command), reaction),
        call.from is None || !(command is Dia || command is Semana || command is Mes),
    ensures
        final(data)@ == outcome(old(data)@, call@, command@, cleaning, now).data,
        reaction.save == outcome(old(data)@, call@, command@, cleaning, now).save,
        reaction.step@ == outcome(old(data)@, call@, command@, cleaning, now).step,
{
    let result = outcome(old(data)@, call@, command@, cleaning, now);
    assert(songs_asked(command@) is None || call@.from is None);
}

/// One that asks for songs has the outcome that it has at moments that were read
/// from the clock.
pub proof fn law_carrying_out_by_the_clock(
    data: &mut Data,
    call: Call,
    command: Command,
    reaction: Reaction,
)
    requires
        call_ensures(handle_command, (data, &call, command), reaction),
        call.from is Some,
        command is Dia || command is Semana || command is Mes,
    ensures
        exists|cleaning: Moment, now: Moment|
            cleaning.was_read() && now.was_read() && #[trigger] outcome(
                old(data)@,
                call@,
                command@,
                cleaning,
                now,
            ) == (Outcome { data: final(data)@, save: reaction.save, step: reaction.step@ }),
{
    assert(songs_asked(command@) is Some && call@.from is Some);
}

} // verus!
