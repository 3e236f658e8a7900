//! What the bot keeps: the queue of proposed films and the log of songs.

use vstd::prelude::*;

use crate::clock::Moment;
use crate::text;

verus! {

/// For how many days after the day of its upload a song stays in the log.
pub const KEPT_DAYS: i64 = 29;

// ---------------------------------------------------------------------------
// Proposals
// ---------------------------------------------------------------------------

/// A film that somebody proposed.
#[derive(Clone, Debug)]
pub struct Proposal {
    pub name: String,
    pub user: String,
}

/// The texts of a proposal.
#[verifier::ext_equal]
pub struct ProposalView {
    pub name: Seq<char>,
    pub user: Seq<char>,
}

impl View for Proposal {
    type V = ProposalView;

    open spec fn view(&self) -> ProposalView {
        ProposalView { name: self.name@, user: self.user@ }
    }
}

impl Proposal {
    pub fn new(name: String, user: String) -> (proposal: Self)
        ensures
            proposal@ == (ProposalView { name: name@, user: user@ }),
    {
        Self { name, user }
    }
}

/// The texts of a list of proposals.
pub open spec fn proposals(list: Seq<Proposal>) -> Seq<ProposalView> {
    list.map_values(|p: Proposal| p@)
}

/// What is left of a name once case and surrounding white space are put aside.
pub open spec fn name_key(name: Seq<char>) -> Seq<char> {
    text::trimmed(text::lowercase(name))
}

/// A proposal of the queue has this name, but for case and surrounding white
/// space.
pub open spec fn is_queued(queue: Seq<ProposalView>, name: Seq<char>) -> bool {
    exists|i: int| 0 <= i < queue.len() && name_key(#[trigger] queue[i].name) == name_key(name)
}

/// The same for names in ASCII letters, without recourse to other alphabets.
pub open spec fn is_queued_ascii(queue: Seq<ProposalView>, name: Seq<char>) -> bool {
    exists|i: int|
        0 <= i < queue.len() && text::trimmed(text::ascii_lowercase(#[trigger] queue[i].name))
            == text::trimmed(text::ascii_lowercase(name))
}

/// Every name, queued or new, is in ASCII.
pub open spec fn all_ascii(queue: Seq<ProposalView>, name: Seq<char>) -> bool {
    &&& vstd::utf8::is_ascii_chars(name)
    &&& forall|i: int|
        0 <= i < queue.len() ==> vstd::utf8::is_ascii_chars(#[trigger] queue[i].name)
}

/// Whether one of the names in `lowered` is `name` but for surrounding white
/// space.
pub fn is_taken(lowered: &Vec<String>, name: &str) -> (taken: bool)
    ensures
        taken == exists|i: int|
            0 <= i < lowered@.len() && text::trimmed(#[trigger] lowered@[i]@) == text::trimmed(
                name@,
            ),
{
    let inner = text::trim(name);
    let mut i: usize = 0;
    while i < lowered.len()
        invariant
            inner@ == text::trimmed(name@),
            i <= lowered@.len(),
            forall|k: int|
                0 <= k < i ==> text::trimmed(#[trigger] lowered@[k]@) != text::trimmed(name@),
        decreases lowered@.len() - i,
    {
        if text::same(text::trim(lowered[i].as_str()), inner) {
            return true;
        }
        i += 1;
    }
    false
}

// ---------------------------------------------------------------------------
// Uploads
// ---------------------------------------------------------------------------

/// A song in the music channel: the message that holds it, and when it came.
#[derive(Clone, Copy, Debug)]
pub struct Upload {
    pub message: i32,
    pub time: Moment,
}

impl Upload {
    /// A song that has come at the given moment.
    pub fn at(message: i32, time: Moment) -> (upload: Self)
        ensures
            upload.message == message,
            upload.time == time,
    {
        Self { message, time }
    }

    /// A song that has come now.
    pub fn new(message: i32) -> (upload: Self)
        ensures
            upload.message == message,
            upload.time.shown(),
            upload.time.was_read(),
    {
        Upload::at(message, Moment::now())
    }
}

/// A song came at most `days` days before the day of `now`, by the calendar.
pub open spec fn within(upload: Upload, now: Moment, days: int) -> bool {
    now.spec_day() - upload.time.spec_day() <= days
}

/// The songs of a log that came at most `days` days before `now`, in the
/// order of the log.
pub open spec fn recent(music: Seq<Upload>, now: Moment, days: int) -> Seq<Upload> {
    music.filter(|u: Upload| within(u, now, days))
}

/// The messages that hold the songs of a log.
pub open spec fn messages(music: Seq<Upload>) -> Seq<i32> {
    music.map_values(|u: Upload| u.message)
}

/// The songs of a log that came at most `days` days before `now`.
fn select(music: &Vec<Upload>, now: &Moment, days: i64) -> (kept: Vec<Upload>)
    ensures
        kept@ == recent(music@, *now, days as int),
{
    let mut kept: Vec<Upload> = Vec::new();
    let mut i: usize = 0;
    let ghost pred = |u: Upload| within(u, *now, days as int);
    assert(music@.take(0).filter(pred) =~= Seq::empty()) by {
        reveal(Seq::filter);
    }
    while i < music.len()
        invariant
            pred == (|u: Upload| within(u, *now, days as int)),
            i <= music@.len(),
            kept@ == music@.take(i as int).filter(pred),
        decreases music@.len() - i,
    {
        let upload = music[i];
        proof {
            reveal(Seq::filter);
            assert(music@.take(i + 1).drop_last() =~= music@.take(i as int));
        }
        if now.days_since(&upload.time) <= days {
            kept.push(upload);
        }
        i += 1;
    }
    assert(music@.take(music@.len() as int) =~= music@);
    kept
}

// ---------------------------------------------------------------------------
// The data as a whole
// ---------------------------------------------------------------------------

/// Everything that outlives a run of the bot.
#[derive(Debug)]
pub struct Data {
    pub music: Vec<Upload>,
    pub queue: Vec<Proposal>,
}

/// What the data holds.
#[verifier::ext_equal]
pub struct DataView {
    pub music: Seq<Upload>,
    pub queue: Seq<ProposalView>,
}

impl View for Data {
    type V = DataView;

    open spec fn view(&self) -> DataView {
        DataView { music: self.music@, queue: proposals(self.queue@) }
    }
}

/// The data without the songs that are too old at `now` to be kept.
pub open spec fn cleaned(data: DataView, now: Moment) -> DataView {
    DataView { music: recent(data.music, now, KEPT_DAYS as int), ..data }
}

/// The data once a song has been logged at `now`.
pub open spec fn logged(data: DataView, now: Moment, upload: Upload) -> DataView {
    DataView { music: cleaned(data, now).music.push(upload), ..data }
}

/// The data once a film has been proposed.
pub open spec fn proposed(data: DataView, name: Seq<char>, user: Seq<char>) -> DataView {
    if is_queued(data.queue, name) {
        data
    } else {
        DataView { queue: data.queue.push(ProposalView { name, user }), ..data }
    }
}

/// The place in the queue of the first proposal with exactly this name, or the
/// end of the queue.
pub open spec fn position(queue: Seq<ProposalView>, name: Seq<char>) -> int
    decreases queue.len(),
{
    if queue.len() == 0 || queue[0].name == name {
        0
    } else {
        1 + position(queue.drop_first(), name)
    }
}

/// What came of taking a proposal back.
#[derive(Clone, Copy, Debug, PartialEq, Eq, Structural)]
pub enum Withdrawal {
    /// It is no longer in the queue.
    Removed,
    /// Somebody else made it.
    NotYours,
    /// No proposal has that name.
    Unknown,
}

/// What comes of taking the proposal of a film back.
pub open spec fn withdrawal(
    queue: Seq<ProposalView>,
    name: Seq<char>,
    user: Seq<char>,
) -> Withdrawal {
    let i = position(queue, name);
    if i >= queue.len() {
        Withdrawal::Unknown
    } else if queue[i].user == user {
        Withdrawal::Removed
    } else {
        Withdrawal::NotYours
    }
}

/// The data once the proposal of a film has been taken back.
pub open spec fn withdrawn(data: DataView, name: Seq<char>, user: Seq<char>) -> DataView {
    if withdrawal(data.queue, name, user) == Withdrawal::Removed {
        DataView { queue: data.queue.remove(position(data.queue, name)), ..data }
    } else {
        data
    }
}

/// The first proposal with a name is the one before which none has it.
pub proof fn lemma_position(queue: Seq<ProposalView>, name: Seq<char>)
    ensures
        0 <= position(queue, name) <= queue.len(),
        forall|i: int| 0 <= i < position(queue, name) ==> (#[trigger] queue[i]).name != name,
        position(queue, name) < queue.len() ==> queue[position(queue, name)].name == name,
    decreases queue.len(),
{
    if queue.len() > 0 && queue[0].name != name {
        let rest = queue.drop_first();
        lemma_position(rest, name);
        assert forall|i: int| 0 <= i < position(queue, name) implies (
        #[trigger] queue[i]).name != name by {
            if i > 0 {
                assert(queue[i] == rest[i - 1]);
            }
        }
        if position(queue, name) < queue.len() {
            assert(queue[position(queue, name)] == rest[position(rest, name)]);
        }
    }
}

/// A place with a name, before which none has it, is the first.
proof fn lemma_position_is(queue: Seq<ProposalView>, name: Seq<char>, n: int)
    requires
        0 <= n <= queue.len(),
        forall|i: int| 0 <= i < n ==> (#[trigger] queue[i]).name != name,
        n < queue.len() ==> queue[n].name == name,
    ensures
        position(queue, name) == n,
{
    lemma_position(queue, name);
    let p = position(queue, name);
    if p < n {
        assert(queue[p].name != name);
    } else if n < p {
        assert(queue[n].name != name);
    }
}

impl Default for Data {
    /// What there is where nothing has been saved yet: no songs and no
    /// proposals. Data that was saved is read from its file by the application.
    fn default() -> (data: Self)
        ensures
            data@ == (DataView { music: Seq::empty(), queue: Seq::empty() }),
    {
        let data = Data { music: Vec::new(), queue: Vec::new() };
        assert(proposals(data.queue@) =~= Seq::empty());
        data
    }
}

impl Data {
    /// The only user who may call a vote.
    pub const VOTE_USER: u64 = 1_511_061_836;

    /// The file that the data is saved to.
    pub const FILE_PATH: &'static str = "clemen.json";

    /// The channel that songs are posted to.
    pub const CHANNEL_MUSIC: i64 = -1_001_296_790_112;

    /// The channel that hears how downloads get on.
    pub const CHANNEL_DEBUG: i64 = -1_003_792_156_195;

    /// Puts a film at the end of the queue, unless its name is in the queue
    /// already, but for case and surrounding white space. Says whether the
    /// queue has changed, in which case the data is to be saved.
    pub fn add(&mut self, name: String, user: String) -> (added: bool)
        ensures
            added == !is_queued(old(self)@.queue, name@),
            final(self)@ == proposed(old(self)@, name@, user@),
            all_ascii(old(self)@.queue, name@) ==> added == !is_queued_ascii(
                old(self)@.queue,
                name@,
            ),
    {
        let mut lowered: Vec<String> = Vec::new();
        let mut i: usize = 0;
        let ghost queue = self@.queue;
        while i < self.queue.len()
            invariant
                *self == *old(self),
                queue == self@.queue,
                i <= queue.len(),
                lowered@.len() == i,
                forall|k: int|
                    0 <= k < i ==> (#[trigger] lowered@[k])@ == text::lowercase(queue[k].name),
                forall|k: int|
                    0 <= k < i && vstd::utf8::is_ascii_chars((#[trigger] queue[k]).name)
                        ==> text::lowercase(queue[k].name) == text::ascii_lowercase(queue[k].name),
            decreases queue.len() - i,
        {
            lowered.push(text::to_lowercase(self.queue[i].name.as_str()));
            i += 1;
        }
        let lower = text::to_lowercase(name.as_str());
        let taken = is_taken(&lowered, lower.as_str());
        proof {
            let key = name_key(name@);
            if taken {
                let k = choose|k: int|
                    0 <= k < lowered@.len() && text::trimmed(#[trigger] lowered@[k]@) == key;
                assert(name_key(queue[k].name) == key);
            }
            if is_queued(queue, name@) {
                let k = choose|k: int|
                    0 <= k < queue.len() && name_key(#[trigger] queue[k].name) == key;
                assert(text::trimmed(lowered@[k]@) == key);
            }
            if all_ascii(queue, name@) {
                assert forall|k: int| 0 <= k < queue.len() implies name_key(
                    #[trigger] queue[k].name,
                ) == text::trimmed(text::ascii_lowercase(queue[k].name)) by {
                    assert(vstd::utf8::is_ascii_chars(queue[k].name));
                }
                assert(is_queued(queue, name@) == is_queued_ascii(queue, name@));
            }
        }
        if taken {
            return false;
        }
        self.queue.push(Proposal::new(name, user));
        assert(proposals(self.queue@) =~= queue.push(ProposalView { name: name@, user: user@ }));
        true
    }

    /// Takes the first proposal with exactly this name out of the queue, if
    /// this user made it. The data is to be saved if it is removed.
    pub fn withdraw(&mut self, name: &str, user: &str) -> (result: Withdrawal)
        ensures
            result == withdrawal(old(self)@.queue, name@, user@),
            final(self)@ == withdrawn(old(self)@, name@, user@),
    {
        let ghost queue = self@.queue;
        let mut i: usize = 0;
        while i < self.queue.len()
            invariant
                *self == *old(self),
                queue == self@.queue,
                i <= queue.len(),
                forall|k: int| 0 <= k < i ==> (#[trigger] queue[k]).name != name@,
            decreases queue.len() - i,
        {
            assert(queue[i as int] == self.queue@[i as int]@);
            if text::same(self.queue[i].name.as_str(), name) {
                proof {
                    lemma_position_is(queue, name@, i as int);
                }
                if text::same(user, self.queue[i].user.as_str()) {
                    self.queue.remove(i);
                    assert(proposals(self.queue@) =~= queue.remove(i as int));
                    return Withdrawal::Removed;
                } else {
                    return Withdrawal::NotYours;
                }
            }
            i += 1;
        }
        proof {
            lemma_position_is(queue, name@, i as int);
        }
        Withdrawal::Unknown
    }

    /// Empties the queue and hands out what was in it. The data is to be saved.
    pub fn clear(&mut self) -> (queue: Vec<Proposal>)
        ensures
            proposals(queue@) == old(self)@.queue,
            final(self)@ == (DataView { queue: Seq::empty(), ..old(self)@ }),
    {
        let mut queue: Vec<Proposal> = Vec::new();
        std::mem::swap(&mut queue, &mut self.queue);
        assert(proposals(self.queue@) =~= Seq::empty());
        queue
    }

    /// Logs a song, as of the given moment. The data is to be saved.
    pub fn add_upload_at(&mut self, now: &Moment, upload: Upload)
        ensures
            final(self)@ == logged(old(self)@, *now, upload),
    {
        self.clean_upload_at(now);
        self.music.push(upload);
    }

    /// Logs a song. The data is to be saved.
    pub fn add_upload(&mut self, upload: Upload)
        ensures
            exists|now: Moment|
                now.shown() && now.was_read() && final(self)@ == logged(old(self)@, now, upload),
    {
        let now = Moment::now();
        self.add_upload_at(&now, upload);
    }

    /// Drops the songs that are too old to be kept at the given moment.
    pub fn clean_upload_at(&mut self, now: &Moment)
        ensures
            final(self)@ == cleaned(old(self)@, *now),
    {
        self.music = select(&self.music, now, KEPT_DAYS);
    }

    /// Drops the songs that are too old to be kept.
    pub fn clean_upload(&mut self)
        ensures
            exists|now: Moment|
                now.shown() && now.was_read() && final(self)@ == cleaned(old(self)@, now),
    {
        let now = Moment::now();
        self.clean_upload_at(&now);
    }

    /// The messages with the songs of the last `range` days before the day of
    /// `now`, once those too old to be kept at `cleaning` are dropped.
    pub fn upload_range_at(&mut self, cleaning: &Moment, now: &Moment, range: i64) -> (list: Vec<
        i32,
    >)
        ensures
            final(self)@ == cleaned(old(self)@, *cleaning),
            list@ == messages(recent(cleaned(old(self)@, *cleaning).music, *now, range as int)),
    {
        self.clean_upload_at(cleaning);
        let found = select(&self.music, now, range);
        let mut list: Vec<i32> = Vec::new();
        let mut i: usize = 0;
        while i < found.len()
            invariant
                i <= found@.len(),
                list@ == messages(found@.take(i as int)),
            decreases found@.len() - i,
        {
            list.push(found[i].message);
            i += 1;
            assert(list@ =~= messages(found@.take(i as int)));
        }
        assert(found@.take(found@.len() as int) =~= found@);
        list
    }

    /// The messages with the songs of the last `range` days, once those too old
    /// to be kept are dropped.
    pub fn upload_range(&mut self, range: i64) -> (list: Vec<i32>)
        ensures
            exists|cleaning: Moment, now: Moment|
                cleaning.shown() && now.shown() && cleaning.was_read() && now.was_read()
                    && final(self)@ == cleaned(old(self)@, cleaning) && list@ == messages(
                    #[trigger] recent(cleaned(old(self)@, cleaning).music, now, range as int),
                ),
    {
        let cleaning = Moment::now();
        let now = Moment::now();
        self.upload_range_at(&cleaning, &now, range)
    }
}

// ---------------------------------------------------------------------------
// Laws of the queue
// ---------------------------------------------------------------------------

/// No two proposals have the same name, but for case and surrounding white
/// space.
pub open spec fn distinct_names(queue: Seq<ProposalView>) -> bool {
    forall|i: int, j: int|
        0 <= i < j < queue.len() ==> name_key(#[trigger] queue[i].name) != name_key(
            #[trigger] queue[j].name,
        )
}

/// Once a film has been proposed, it cannot be proposed again by anybody, in
/// whatever case its name is written and whatever white space is around it.
pub proof fn law_proposed_once(
    data: DataView,
    name: Seq<char>,
    user: Seq<char>,
    again: Seq<char>,
    other: Seq<char>,
)
    requires
        name_key(again) == name_key(name),
    ensures
        is_queued(proposed(data, name, user).queue, again),
        proposed(proposed(data, name, user), again, other) == proposed(data, name, user),
{
    let queue = proposed(data, name, user).queue;
    if is_queued(data.queue, name) {
        let i = choose|i: int|
            0 <= i < data.queue.len() && name_key(#[trigger] data.queue[i].name) == name_key(name);
        assert(name_key(queue[i].name) == name_key(again));
    } else {
        assert(name_key(queue[queue.len() - 1].name) == name_key(again));
    }
}

/// No operation on the queue gives two proposals the same name.
pub proof fn law_names_stay_distinct(data: DataView, name: Seq<char>, user: Seq<char>)
    requires
        distinct_names(data.queue),
    ensures
        distinct_names(proposed(data, name, user).queue),
        distinct_names(withdrawn(data, name, user).queue),
        distinct_names(Seq::empty()),
{
    let queue = data.queue;
    if !is_queued(queue, name) {
        let longer = proposed(data, name, user).queue;
        assert forall|i: int, j: int| 0 <= i < j < longer.len() implies name_key(
            #[trigger] longer[i].name,
        ) != name_key(#[trigger] longer[j].name) by {
            assert(longer[i] == queue[i]);
            if j < queue.len() {
                assert(longer[j] == queue[j]);
            }
        }
    }
    let p = position(queue, name);
    lemma_position(queue, name);
    if p < queue.len() {
        let shorter = queue.remove(p);
        assert forall|i: int, j: int| 0 <= i < j < shorter.len() implies name_key(
            #[trigger] shorter[i].name,
        ) != name_key(#[trigger] shorter[j].name) by {
            let a = if i < p {
                i
            } else {
                i + 1
            };
            let b = if j < p {
                j
            } else {
                j + 1
            };
            assert(shorter[i] == queue[a] && shorter[j] == queue[b]);
        }
    }
}

/// Taking back what one has just proposed leaves the data as it was.
pub proof fn law_withdrawing_undoes_proposing(data: DataView, name: Seq<char>, user: Seq<char>)
    requires
        !is_queued(data.queue, name),
    ensures
        withdrawal(proposed(data, name, user).queue, name, user) == Withdrawal::Removed,
        withdrawn(proposed(data, name, user), name, user) == data,
{
    let queue = proposed(data, name, user).queue;
    let n = data.queue.len() as int;
    assert forall|i: int| 0 <= i < n implies (#[trigger] queue[i]).name != name by {
        assert(queue[i] == data.queue[i]);
        if queue[i].name == name {
            assert(name_key(data.queue[i].name) == name_key(name));
        }
    }
    lemma_position_is(queue, name, n);
    assert(queue.remove(n) =~= data.queue);
}

/// Nobody can take back what somebody else has proposed: what leaves the queue
/// has the name of the user who takes it back, and nothing else leaves it.
pub proof fn law_only_own_proposals_leave(
    data: DataView,
    name: Seq<char>,
    user: Seq<char>,
    kept: ProposalView,
)
    requires
        data.queue.contains(kept),
        kept.user != user || kept.name != name,
    ensures
        withdrawn(data, name, user).queue.contains(kept),
{
    let queue = data.queue;
    let i = queue.index_of(kept);
    assert(queue[i] == kept);
    lemma_position(queue, name);
    if withdrawal(queue, name, user) == Withdrawal::Removed {
        let p = position(queue, name);
        let shorter = queue.remove(p);
        if i < p {
            assert(shorter[i] == kept);
        } else {
            assert(i != p);
            assert(shorter[i - 1] == kept);
        }
    }
}

/// Once the queue has been cleared, any film can be proposed.
pub proof fn law_cleared_queue_takes_all(data: DataView, name: Seq<char>, user: Seq<char>)
    ensures
        proposed(DataView { queue: Seq::empty(), ..data }, name, user).queue == seq![
            ProposalView { name, user },
        ],
{
    assert(!is_queued(Seq::empty(), name));
    assert(Seq::<ProposalView>::empty().push(ProposalView { name, user }) =~= seq![
        ProposalView { name, user },
    ]);
}

// ---------------------------------------------------------------------------
// Laws of the log
// ---------------------------------------------------------------------------

/// A filter that passes no more than another one finds the same behind it.
proof fn lemma_filter_twice<A>(s: Seq<A>, wide: spec_fn(A) -> bool, narrow: spec_fn(A) -> bool)
    requires
        forall|x: A| #[trigger] narrow(x) ==> wide(x),
    ensures
        s.filter(wide).filter(narrow) == s.filter(narrow),
    decreases s.len(),
{
    reveal(Seq::filter);
    if s.len() > 0 {
        let rest = s.drop_last();
        let x = s.last();
        lemma_filter_twice(rest, wide, narrow);
        if wide(x) {
            assert(s.filter(wide) =~= rest.filter(wide).push(x));
            assert(rest.filter(wide).push(x).drop_last() =~= rest.filter(wide));
        }
    }
}

/// The songs of fewer days are found among those of more days: a day's songs
/// are among the week's, and the week's among the month's.
pub proof fn law_ranges_nest(music: Seq<Upload>, now: Moment, fewer: int, more: int)
    requires
        fewer <= more,
    ensures
        recent(recent(music, now, more), now, fewer) == recent(music, now, fewer),
{
    lemma_filter_twice(
        music,
        |u: Upload| within(u, now, more),
        |u: Upload| within(u, now, fewer),
    );
}

/// Dropping old songs drops none that could be listed: the songs of up to as
/// many days as songs are kept are the same before and after, on that day and
/// on every later one.
pub proof fn law_cleaning_spares_listings(
    data: DataView,
    cleaning: Moment,
    now: Moment,
    range: int,
)
    requires
        cleaning.spec_day() <= now.spec_day(),
        range <= KEPT_DAYS,
    ensures
        recent(cleaned(data, cleaning).music, now, range) == recent(data.music, now, range),
{
    lemma_filter_twice(
        data.music,
        |u: Upload| within(u, cleaning, KEPT_DAYS as int),
        |u: Upload| within(u, now, range),
    );
}

/// Dropping old songs again, on the same day or later, is as good as dropping
/// them only then.
pub proof fn law_cleaning_again(data: DataView, first: Moment, second: Moment)
    requires
        first.spec_day() <= second.spec_day(),
    ensures
        cleaned(cleaned(data, first), second) == cleaned(data, second),
{
    law_cleaning_spares_listings(data, first, second, KEPT_DAYS as int);
}

/// Nothing older than the days asked for is ever listed, and nothing else is
/// left out.
pub proof fn law_listing_is_exact(music: Seq<Upload>, now: Moment, days: int, upload: Upload)
    ensures
        recent(music, now, days).contains(upload) <==> music.contains(upload) && within(
            upload,
            now,
            days,
        ),
{
    broadcast use {
        Seq::lemma_filter_pred,
        Seq::lemma_filter_contains,
        Seq::lemma_filter_contains_rev,
    };

    let pred = |u: Upload| within(u, now, days);
    let found = music.filter(pred);
    if found.contains(upload) {
        let i = found.index_of(upload);
        assert(pred(found[i]));
    }
    if music.contains(upload) && pred(upload) {
        let i = music.index_of(upload);
        assert(found.contains(music[i]));
    }
}

/// A song that was logged is the last of every later listing that reaches back
/// to the day it came, as long as it is kept.
pub proof fn law_logged_is_listed(
    data: DataView,
    logging: Moment,
    upload: Upload,
    cleaning: Moment,
    now: Moment,
    range: int,
)
    requires
        within(upload, cleaning, KEPT_DAYS as int),
        within(upload, now, range),
    ensures
        ({
            let list = messages(
                recent(cleaned(logged(data, logging, upload), cleaning).music, now, range),
            );
            list.len() > 0 && list.last() == upload.message
        }),
{
    reveal(Seq::filter);
    let music = logged(data, logging, upload).music;
    let kept = recent(music, cleaning, KEPT_DAYS as int);
    assert(music.last() == upload);
    assert(kept.last() == upload);
    assert(recent(kept, now, range).last() == upload);
}

/// The queue and the log do not touch each other.
pub proof fn law_queue_and_log_apart(
    data: DataView,
    name: Seq<char>,
    user: Seq<char>,
    now: Moment,
    upload: Upload,
)
    ensures
        proposed(data, name, user).music == data.music,
        withdrawn(data, name, user).music == data.music,
        cleaned(data, now).queue == data.queue,
        logged(data, now, upload).queue == data.queue,
{
}

// ---------------------------------------------------------------------------
// What the operations do to what they are given
// ---------------------------------------------------------------------------

/// What the data is said to hold is what it holds: its songs, and the names and
/// users of its proposals, one for one.
pub proof fn law_data_is_what_it_holds(data: Data)
    ensures
        data@.music == data.music@,
        data@.queue.len() == data.queue@.len(),
        forall|i: int|
            0 <= i < data.queue@.len() ==> (#[trigger] data@.queue[i]).name == data.queue@[i].name@
                && data@.queue[i].user == data.queue@[i].user@,
{
}

/// A proposal anywhere in the queue whose name is the same once both are in
/// lower case and trimmed keeps a film out of it: nothing changes.
pub proof fn law_same_name_is_turned_down(
    data: DataView,
    i: int,
    name: Seq<char>,
    user: Seq<char>,
)
    requires
        0 <= i < data.queue.len(),
        text::trimmed(text::lowercase(data.queue[i].name)) == text::trimmed(text::lowercase(name)),
    ensures
        is_queued(data.queue, name),
        proposed(data, name, user) == data,
{
    assert(name_key(data.queue[i].name) == name_key(name));
}

/// A film whose name, in lower case and trimmed, is that of no proposal is put
/// behind all of them, with its name and its user as they were given.
pub proof fn law_new_film_goes_last(data: DataView, name: Seq<char>, user: Seq<char>)
    requires
        forall|i: int|
            0 <= i < data.queue.len() ==> text::trimmed(
                text::lowercase((#[trigger] data.queue[i]).name),
            ) != text::trimmed(text::lowercase(name)),
    ensures
        !is_queued(data.queue, name),
        proposed(data, name, user).music == data.music,
        proposed(data, name, user).queue.len() == data.queue.len() + 1,
        forall|i: int|
            0 <= i < data.queue.len() ==> #[trigger] proposed(data, name, user).queue[i]
                == data.queue[i],
        proposed(data, name, user).queue.last().name == name,
        proposed(data, name, user).queue.last().user == user,
{
}

/// For names in ASCII, to be queued is to be the name of some proposal once the
/// ASCII capitals of both are lowered and both are trimmed.
pub proof fn law_ascii_names(queue: Seq<ProposalView>, name: Seq<char>)
    ensures
        is_queued_ascii(queue, name) <==> exists|i: int|
            0 <= i < queue.len() && text::trimmed(text::ascii_lowercase(#[trigger] queue[i].name))
                == text::trimmed(text::ascii_lowercase(name)),
        all_ascii(queue, name) <==> vstd::utf8::is_ascii_chars(name) && forall|i: int|
            0 <= i < queue.len() ==> vstd::utf8::is_ascii_chars(#[trigger] queue[i].name),
{
}

/// Whoever made the first proposal with a name takes it back, wherever it stands
/// in the queue and however long the queue is: it is gone, and all others stay
/// in their order.
pub proof fn law_own_proposal_is_withdrawn(
    data: DataView,
    i: int,
    name: Seq<char>,
    user: Seq<char>,
)
    requires
        0 <= i < data.queue.len(),
        data.queue[i].name == name,
        data.queue[i].user == user,
        forall|k: int| 0 <= k < i ==> (#[trigger] data.queue[k]).name != name,
    ensures
        withdrawal(data.queue, name, user) == Withdrawal::Removed,
        withdrawn(data, name, user).queue == data.queue.take(i) + data.queue.skip(i + 1),
        withdrawn(data, name, user).music == data.music,
{
    lemma_position_is(data.queue, name, i);
    assert(data.queue.remove(i) =~= data.queue.take(i) + data.queue.skip(i + 1));
}

/// Whoever did not make the first proposal with a name is told so, and nothing
/// changes.
pub proof fn law_others_proposal_is_not_withdrawn(
    data: DataView,
    i: int,
    name: Seq<char>,
    user: Seq<char>,
)
    requires
        0 <= i < data.queue.len(),
        data.queue[i].name == name,
        data.queue[i].user != user,
        forall|k: int| 0 <= k < i ==> (#[trigger] data.queue[k]).name != name,
    ensures
        withdrawal(data.queue, name, user) == Withdrawal::NotYours,
        withdrawn(data, name, user) == data,
{
    lemma_position_is(data.queue, name, i);
}

/// Where no proposal has a name, there is nothing to take back, and nothing
/// changes.
pub proof fn law_unknown_film_is_not_withdrawn(data: DataView, name: Seq<char>, user: Seq<char>)
    requires
        forall|k: int| 0 <= k < data.queue.len() ==> (#[trigger] data.queue[k]).name != name,
    ensures
        withdrawal(data.queue, name, user) == Withdrawal::Unknown,
        withdrawn(data, name, user) == data,
{
    lemma_position_is(data.queue, name, data.queue.len() as int);
}

/// The recent songs of a log are found song by song, in order: a song is one of
/// them exactly if the number of midnights from it to now, on the clocks that
/// showed the two, is at most that of the days.
pub proof fn law_recent_song_by_song(
    first: Seq<Upload>,
    upload: Upload,
    rest: Seq<Upload>,
    now: Moment,
    days: int,
)
    ensures
        recent(Seq::empty(), now, days) == Seq::<Upload>::empty(),
        recent(first + rest, now, days) == recent(first, now, days) + recent(rest, now, days),
        now.spec_wall() / 86_400 - upload.time.spec_wall() / 86_400 <= days ==> recent(
            seq![upload],
            now,
            days,
        ) == seq![upload],
        now.spec_wall() / 86_400 - upload.time.spec_wall() / 86_400 > days ==> recent(
            seq![upload],
            now,
            days,
        ) == Seq::<Upload>::empty(),
{
    reveal(Seq::filter);
    let pred = |u: Upload| within(u, now, days);
    Seq::filter_distributes_over_add(first, rest, pred);
    let one = seq![upload];
    assert(one.drop_last() =~= Seq::empty());
    assert(one.last() == upload);
    assert(Seq::<Upload>::empty().filter(pred) =~= Seq::empty());
    if pred(upload) {
        assert(one.filter(pred) =~= seq![upload]);
    }
}

/// The messages of songs are theirs, one for one.
pub proof fn law_messages(music: Seq<Upload>)
    ensures
        messages(music).len() == music.len(),
        forall|i: int| 0 <= i < music.len() ==> #[trigger] messages(music)[i] == music[i].message,
{
}

/// Of the songs, exactly those of the last 29 days and of today are kept, and
/// the queue is left alone.
pub proof fn law_a_month_is_kept(data: DataView, now: Moment)
    ensures
        cleaned(data, now).music == recent(data.music, now, 29),
        cleaned(data, now).queue == data.queue,
{
}

/// A song that is logged comes last, behind those that are kept, with the
/// message and the time it was given.
pub proof fn law_logged_song_comes_last(data: DataView, now: Moment, upload: Upload)
    ensures
        logged(data, now, upload).music == recent(data.music, now, 29) + seq![upload],
        logged(data, now, upload).queue == data.queue,
{
}

/// A message holds a song of a log that came at most `days` midnights before
/// `now`.
pub open spec fn holds_song(music: Seq<Upload>, message: i32, now: Moment, days: int) -> bool {
    exists|song: Upload| #[trigger]
        music.contains(song) && song.message == message && now.spec_wall() / 86_400
            - song.time.spec_wall() / 86_400 <= days
}

/// Whatever is listed for a number of days is the message of a song of the log
/// that came no longer ago than that, and every such song that is kept is
/// listed.
pub proof fn law_listing(
    data: DataView,
    cleaning: Moment,
    now: Moment,
    range: int,
    list: Seq<i32>,
    upload: Upload,
)
    requires
        list == messages(recent(cleaned(data, cleaning).music, now, range)),
    ensures
        forall|i: int|
            0 <= i < list.len() ==> holds_song(data.music, #[trigger] list[i], now, range),
        data.music.contains(upload) && cleaning.spec_wall() / 86_400 - upload.time.spec_wall()
            / 86_400 <= 29 && now.spec_wall() / 86_400 - upload.time.spec_wall() / 86_400 <= range
            ==> list.contains(upload.message),
{
    let kept = cleaned(data, cleaning).music;
    let found = recent(kept, now, range);
    assert forall|i: int| 0 <= i < list.len() implies holds_song(
        data.music,
        #[trigger] list[i],
        now,
        range,
    ) by {
        let song = found[i];
        assert(found.contains(song));
        law_listing_is_exact(kept, now, range, song);
        law_listing_is_exact(data.music, cleaning, KEPT_DAYS as int, song);
        assert(song.message == list[i]);
    }
    law_listing_is_exact(kept, now, range, upload);
    law_listing_is_exact(data.music, cleaning, KEPT_DAYS as int, upload);
    if found.contains(upload) {
        let i = found.index_of(upload);
        assert(list[i] == upload.message);
    }
}

// ---------------------------------------------------------------------------
// What the operations do
// ---------------------------------------------------------------------------

/// Who calls votes, which channels there are, and where the data is saved.
pub proof fn law_places()
    ensures
        Data::VOTE_USER == 1_511_061_836,
        Data::CHANNEL_MUSIC == -1_001_296_790_112,
        Data::CHANNEL_DEBUG == -1_003_792_156_195,
        Data::FILE_PATH@ == "clemen.json"@,
{
}

/// A film is added, behind all others, exactly if its name is, in lower case and
/// trimmed, that of no proposal. Else nothing changes.
pub proof fn law_adding(data: &mut Data, name: String, user: String, added: bool)
    requires
        call_ensures(Data::add, (data, name, user), added),
    ensures
        added <==> forall|i: int|
            0 <= i < old(data)@.queue.len() ==> text::trimmed(
                text::lowercase((#[trigger] old(data)@.queue[i]).name),
            ) != text::trimmed(text::lowercase(name@)),
        added ==> final(data)@.queue == old(data)@.queue + seq![
            ProposalView { name: name@, user: user@ },
        ],
        !added ==> final(data)@.queue == old(data)@.queue,
        final(data)@.music == old(data)@.music,
{
    if forall|i: int|
        0 <= i < old(data)@.queue.len() ==> text::trimmed(
            text::lowercase((#[trigger] old(data)@.queue[i]).name),
        ) != text::trimmed(text::lowercase(name@)) {
        law_new_film_goes_last(old(data)@, name@, user@);
        assert(final(data)@.queue =~= old(data)@.queue + seq![
            ProposalView { name: name@, user: user@ },
        ]);
    } else {
        let i = choose|i: int|
            0 <= i < old(data)@.queue.len() && text::trimmed(
                text::lowercase((#[trigger] old(data)@.queue[i]).name),
            ) == text::trimmed(text::lowercase(name@));
        law_same_name_is_turned_down(old(data)@, i, name@, user@);
    }
}

/// The first proposal with a name leaves the queue exactly if it is taken back
/// by who made it. Else nothing changes.
pub proof fn law_taking_back(data: &mut Data, name: &str, user: &str, result: Withdrawal, i: int)
    requires
        call_ensures(Data::withdraw, (data, name, user), result),
        0 <= i <= old(data)@.queue.len(),
        forall|k: int| 0 <= k < i ==> (#[trigger] old(data)@.queue[k]).name != name@,
        i < old(data)@.queue.len() ==> old(data)@.queue[i].name == name@,
    ensures
        result is Unknown <==> i == old(data)@.queue.len(),
        result is Removed <==> i < old(data)@.queue.len() && old(data)@.queue[i].user == user@,
        result is Removed ==> final(data)@.queue == old(data)@.queue.take(i)
            + old(data)@.queue.skip(i + 1),
        !(result is Removed) ==> final(data)@.queue == old(data)@.queue,
        final(data)@.music == old(data)@.music,
{
    if i == old(data)@.queue.len() {
        law_unknown_film_is_not_withdrawn(old(data)@, name@, user@);
    } else if old(data)@.queue[i].user == user@ {
        law_own_proposal_is_withdrawn(old(data)@, i, name@, user@);
    } else {
        law_others_proposal_is_not_withdrawn(old(data)@, i, name@, user@);
    }
}

/// Clearing hands out all proposals, as they were, and leaves none. The songs
/// stay.
pub proof fn law_clearing(data: &mut Data, queue: Vec<Proposal>)
    requires
        call_ensures(Data::clear, (data,), queue),
    ensures
        final(data)@.queue.len() == 0,
        final(data)@.music == old(data)@.music,
        queue@.len() == old(data)@.queue.len(),
        forall|i: int|
            0 <= i < queue@.len() ==> #[trigger] queue@[i]@ == old(data)@.queue[i],
{
    assert(proposals(queue@) == old(data)@.queue);
    assert forall|i: int| 0 <= i < queue@.len() implies #[trigger] queue@[i]@
        == old(data)@.queue[i] by {
        assert(proposals(queue@)[i] == queue@[i]@);
    }
}

/// Logging a song puts it behind those of the last 29 days and today, and
/// cleaning leaves those.
pub proof fn law_logging(data: &mut Data, now: Moment, upload: Upload)
    ensures
        call_ensures(Data::add_upload_at, (data, &now, upload), ()) ==> final(data)@.queue == old(
            data,
        )@.queue && final(data)@.music == recent(old(data)@.music, now, 29) + seq![upload],
        call_ensures(Data::clean_upload_at, (data, &now), ()) ==> final(data)@.queue == old(
            data,
        )@.queue && final(data)@.music == recent(old(data)@.music, now, 29),
{
    law_logged_song_comes_last(old(data)@, now, upload);
    law_a_month_is_kept(old(data)@, now);
}

/// The list for a number of days holds, in the order of the log, the messages of
/// the songs that are left after cleaning and came no longer ago than that.
pub proof fn law_ranging(
    data: &mut Data,
    cleaning: Moment,
    now: Moment,
    range: i64,
    list: Vec<i32>,
)
    requires
        call_ensures(Data::upload_range_at, (data, &cleaning, &now, range), list),
    ensures
        final(data)@.queue == old(data)@.queue,
        final(data)@.music == recent(old(data)@.music, cleaning, 29),
        ({
            let songs = recent(recent(old(data)@.music, cleaning, 29), now, range as int);
            &&& list@.len() == songs.len()
            &&& forall|i: int| 0 <= i < songs.len() ==> #[trigger] list@[i] == songs[i].message
        }),
{
    law_a_month_is_kept(old(data)@, cleaning);
    law_messages(recent(recent(old(data)@.music, cleaning, 29), now, range as int));
}

} // verus!
