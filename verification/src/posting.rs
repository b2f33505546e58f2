//! Posting a validated journal entry to the ledger as one transaction: the
//! header first, then each line against the account its code names, then the
//! commit. The store's work is done by the caller; this module decides, from
//! each outcome the caller reports, what to do next and how the posting ends.

use crate::money::running_total;
use crate::requests::{CreateJournalEntry, CreateJournalLine};
use vstd::prelude::*;

verus! {

/// Where a posting stands.
#[derive(Clone, Copy, Debug, PartialEq, Eq, Structural)]
pub enum Phase {
    /// Waiting for the transaction to open.
    Beginning,
    /// Waiting for the entry header to be inserted.
    InsertingHeader,
    /// Waiting for the account of the current line to be looked up.
    LookingUp,
    /// Waiting for the current line to be inserted.
    InsertingLine,
    /// Waiting for the transaction to commit.
    Committing,
    /// Done; the outcome has been handed out.
    Finished,
}

/// What the store reports back after an action.
pub enum PostingEvent {
    /// The transaction opened, or the store's message why not.
    TransactionBegun(Result<(), String>),
    /// The id of the inserted header, or the store's message.
    HeaderInserted(Result<String, String>),
    /// The id of the account with the current line's code, none if no account
    /// has that code, or the store's message.
    AccountFound(Result<Option<String>, String>),
    /// The current line was inserted, or the store's message.
    LineInserted(Result<(), String>),
    /// The transaction committed, or the store's message.
    Committed(Result<(), String>),
}

/// What the caller is to do next.
pub enum PostingAction {
    /// Open the transaction.
    BeginTransaction,
    /// Insert the entry header.
    InsertHeader,
    /// Look up the id of the account whose code line `line` names.
    LookUpAccount { line: usize },
    /// Insert line `line` of the entry, under the header, against the account
    /// with id `account_id`.
    InsertLine { line: usize, account_id: String },
    /// Commit the transaction.
    Commit,
    /// Stop: the entry's id when it was posted, or why it was not (the
    /// transaction is then abandoned and rolls back).
    Finish(Result<String, String>),
}

/// An event, with its texts taken as character sequences.
pub enum EventModel {
    TransactionBegun(Result<(), Seq<char>>),
    HeaderInserted(Result<Seq<char>, Seq<char>>),
    AccountFound(Result<Option<Seq<char>>, Seq<char>>),
    LineInserted(Result<(), Seq<char>>),
    Committed(Result<(), Seq<char>>),
}

/// An action, with its texts taken as character sequences.
pub enum ActionModel {
    BeginTransaction,
    InsertHeader,
    LookUpAccount(nat),
    InsertLine(nat, Seq<char>),
    Commit,
    Finish(Result<Seq<char>, Seq<char>>),
}

/// A result whose error is a message, with the message as a character sequence.
pub open spec fn text_result<T: View>(r: Result<T, String>) -> Result<T::V, Seq<char>> {
    match r {
        Ok(v) => Ok(v@),
        Err(e) => Err(e@),
    }
}

impl View for PostingEvent {
    type V = EventModel;

    open spec fn view(&self) -> EventModel {
        match self {
            PostingEvent::TransactionBegun(r) => EventModel::TransactionBegun(
                match r {
                    Ok(()) => Ok(()),
                    Err(e) => Err(e@),
                },
            ),
            PostingEvent::HeaderInserted(r) => EventModel::HeaderInserted(text_result(*r)),
            PostingEvent::AccountFound(r) => EventModel::AccountFound(
                match r {
                    Ok(Some(id)) => Ok(Some(id@)),
                    Ok(None) => Ok(None),
                    Err(e) => Err(e@),
                },
            ),
            PostingEvent::LineInserted(r) => EventModel::LineInserted(
                match r {
                    Ok(()) => Ok(()),
                    Err(e) => Err(e@),
                },
            ),
            PostingEvent::Committed(r) => EventModel::Committed(
                match r {
                    Ok(()) => Ok(()),
                    Err(e) => Err(e@),
                },
            ),
        }
    }
}

impl View for PostingAction {
    type V = ActionModel;

    open spec fn view(&self) -> ActionModel {
        match self {
            PostingAction::BeginTransaction => ActionModel::BeginTransaction,
            PostingAction::InsertHeader => ActionModel::InsertHeader,
            PostingAction::LookUpAccount { line } => ActionModel::LookUpAccount(*line as nat),
            PostingAction::InsertLine { line, account_id } => ActionModel::InsertLine(*line as nat, account_id@),
            PostingAction::Commit => ActionModel::Commit,
            PostingAction::Finish(r) => ActionModel::Finish(text_result(*r)),
        }
    }
}

/// The state of a posting: the account codes of the entry's lines, the phase,
/// the line at hand and the id the header received.
pub struct PostingModel {
    pub codes: Seq<Seq<char>>,
    pub phase: Phase,
    pub line: nat,
    pub entry_id: Seq<char>,
}

/// The reason a line's account code was refused.
pub open spec fn invalid_account_reason(code: Seq<char>) -> Seq<char> {
    "Invalid account code provided: "@ + code
}

/// The reason the header could not be inserted.
pub open spec fn header_failure_reason(message: Seq<char>) -> Seq<char> {
    "Failed to insert journal entry header: "@ + message
}

/// The reason a line could not be inserted.
pub open spec fn line_failure_reason(message: Seq<char>) -> Seq<char> {
    "Failed to insert journal line: "@ + message
}

/// The event is the one the phase waits for.
pub open spec fn expects(phase: Phase, event: EventModel) -> bool {
    match (phase, event) {
        (Phase::Beginning, EventModel::TransactionBegun(_)) => true,
        (Phase::InsertingHeader, EventModel::HeaderInserted(_)) => true,
        (Phase::LookingUp, EventModel::AccountFound(_)) => true,
        (Phase::InsertingLine, EventModel::LineInserted(_)) => true,
        (Phase::Committing, EventModel::Committed(_)) => true,
        _ => false,
    }
}

/// The model after finishing with the given outcome.
pub open spec fn finished(m: PostingModel) -> PostingModel {
    PostingModel { phase: Phase::Finished, ..m }
}

/// The move to line `line`: its account lookup, or the commit when no line is
/// left.
pub open spec fn advance(m: PostingModel, line: nat) -> (PostingModel, ActionModel) {
    if line < m.codes.len() {
        (PostingModel { phase: Phase::LookingUp, line, ..m }, ActionModel::LookUpAccount(line))
    } else {
        (PostingModel { phase: Phase::Committing, line, ..m }, ActionModel::Commit)
    }
}

/// One step of a posting: the next state and action, given the state and the
/// event the current phase waits for.
pub open spec fn spec_step(m: PostingModel, event: EventModel) -> (PostingModel, ActionModel) {
    match event {
        EventModel::TransactionBegun(Ok(())) => (PostingModel { phase: Phase::InsertingHeader, ..m }, ActionModel::InsertHeader),
        EventModel::TransactionBegun(Err(e)) => (finished(m), ActionModel::Finish(Err(e))),
        EventModel::HeaderInserted(Ok(id)) => advance(PostingModel { entry_id: id, ..m }, 0),
        EventModel::HeaderInserted(Err(e)) => (finished(m), ActionModel::Finish(Err(header_failure_reason(e)))),
        EventModel::AccountFound(Ok(Some(account_id))) => (
            PostingModel { phase: Phase::InsertingLine, ..m },
            ActionModel::InsertLine(m.line, account_id),
        ),
        EventModel::AccountFound(Ok(None)) => (
            finished(m),
            ActionModel::Finish(Err(invalid_account_reason(m.codes[m.line as int]))),
        ),
        EventModel::AccountFound(Err(e)) => (finished(m), ActionModel::Finish(Err(e))),
        EventModel::LineInserted(Ok(())) => advance(m, m.line + 1),
        EventModel::LineInserted(Err(e)) => (finished(m), ActionModel::Finish(Err(line_failure_reason(e)))),
        EventModel::Committed(Ok(())) => (finished(m), ActionModel::Finish(Ok(m.entry_id))),
        EventModel::Committed(Err(e)) => (finished(m), ActionModel::Finish(Err(e))),
    }
}

/// The phases agree with the line at hand: lookups and inserts concern an
/// existing line, and the commit comes after the last one.
pub open spec fn model_consistent(m: PostingModel) -> bool {
    &&& (m.phase == Phase::LookingUp || m.phase == Phase::InsertingLine) ==> m.line < m.codes.len()
    &&& m.phase == Phase::Committing ==> m.line == m.codes.len()
}

/// The text `prefix` followed by `message`.
fn prefixed(prefix: &str, message: &str) -> (r: String)
    ensures
        r@ == prefix@ + message@,
{
    let mut text = String::from_str(prefix);
    text.append(message);
    text
}

/// A posting in progress.
pub struct JournalPosting {
    codes: Vec<String>,
    phase: Phase,
    line: usize,
    entry_id: String,
}

impl View for JournalPosting {
    type V = PostingModel;

    closed spec fn view(&self) -> PostingModel {
        PostingModel {
            codes: self.codes@.map_values(|code: String| code@),
            phase: self.phase,
            line: self.line as nat,
            entry_id: self.entry_id@,
        }
    }
}

impl JournalPosting {
    /// The posting's phase agrees with the line at hand.
    pub closed spec fn well_formed(&self) -> bool {
        &&& model_consistent(self@)
        &&& self.line <= self.codes@.len()
    }

    /// A posting of `entry`, and its first action: open the transaction.
    pub fn start(entry: &CreateJournalEntry) -> (r: (JournalPosting, PostingAction))
        ensures
            r.0@.codes == line_codes(entry.lines@),
            r.0@.phase == Phase::Beginning,
            r.0@.line == 0,
            r.0@.entry_id == Seq::<char>::empty(),
            r.1@ == ActionModel::BeginTransaction,
            r.0.well_formed(),
    {
        let mut codes: Vec<String> = Vec::new();
        let n = entry.lines.len();
        for i in 0..n
            invariant
                n == entry.lines@.len(),
                codes@.len() == i,
                forall|j: int| 0 <= j < i ==> codes@[j]@ == (#[trigger] entry.lines@[j]).account_code@,
        {
            codes.push(entry.lines[i].account_code.clone());
        }
        let posting = JournalPosting { codes, phase: Phase::Beginning, line: 0, entry_id: String::new() };
        assert(posting@.codes =~= line_codes(entry.lines@));
        (posting, PostingAction::BeginTransaction)
    }

    /// The next action, given what the store reported for the last one. The
    /// posting ends with the entry's id only from the commit, once every line
    /// has been inserted.
    pub fn step(&mut self, event: PostingEvent) -> (r: PostingAction)
        requires
            old(self).well_formed(),
            expects(old(self)@.phase, event@),
        ensures
            final(self).well_formed(),
            (final(self)@, r@) == spec_step(old(self)@, event@),
            r@ matches ActionModel::Finish(Ok(id)) ==> old(self)@.phase == Phase::Committing && old(self)@.line
                == old(self)@.codes.len() && id == old(self)@.entry_id,
            event@ matches EventModel::TransactionBegun(Ok(_)) ==> r@ == ActionModel::InsertHeader && final(self)@.phase == Phase::InsertingHeader,
            event@ matches EventModel::TransactionBegun(Err(e)) ==> r@ == ActionModel::Finish(Err(e)),
            event@ matches EventModel::HeaderInserted(Ok(id)) ==> final(self)@.entry_id == id && r@ == (if old(self)@.codes.len() > 0 { ActionModel::LookUpAccount(0) } else { ActionModel::Commit }),
            event@ matches EventModel::HeaderInserted(Err(e)) ==> r@ == ActionModel::Finish(Err("Failed to insert journal entry header: "@ + e)),
            event@ matches EventModel::AccountFound(Ok(Some(id))) ==> r@ == ActionModel::InsertLine(old(self)@.line, id),
            event@ matches EventModel::AccountFound(Ok(None)) ==> r@ == ActionModel::Finish(Err("Invalid account code provided: "@ + old(self)@.codes[old(self)@.line as int])),
            event@ matches EventModel::AccountFound(Err(e)) ==> r@ == ActionModel::Finish(Err(e)),
            event@ matches EventModel::LineInserted(Ok(_)) ==> r@ == (if old(self)@.line + 1 < old(self)@.codes.len() { ActionModel::LookUpAccount(old(self)@.line + 1) } else { ActionModel::Commit }),
            event@ matches EventModel::LineInserted(Err(e)) ==> r@ == ActionModel::Finish(Err("Failed to insert journal line: "@ + e)),
            event@ matches EventModel::Committed(Ok(_)) ==> r@ == ActionModel::Finish(Ok(old(self)@.entry_id)),
            event@ matches EventModel::Committed(Err(e)) ==> r@ == ActionModel::Finish(Err(e)),
            r@ matches ActionModel::Finish(Ok(_)) ==> event@ matches EventModel::Committed(Ok(_)),
            r@ is Finish ==> final(self)@.phase == Phase::Finished,
            final(self)@.codes == old(self)@.codes,
    {
        proof {
            lemma_step_outcomes(self@, event@);
        }
        match event {
            PostingEvent::TransactionBegun(Ok(())) => {
                self.phase = Phase::InsertingHeader;
                PostingAction::InsertHeader
            },
            PostingEvent::TransactionBegun(Err(e)) => {
                self.phase = Phase::Finished;
                PostingAction::Finish(Err(e))
            },
            PostingEvent::HeaderInserted(Ok(id)) => {
                self.entry_id = id;
                self.advance(0)
            },
            PostingEvent::HeaderInserted(Err(e)) => {
                self.phase = Phase::Finished;
                PostingAction::Finish(Err(prefixed("Failed to insert journal entry header: ", e.as_str())))
            },
            PostingEvent::AccountFound(Ok(Some(account_id))) => {
                self.phase = Phase::InsertingLine;
                PostingAction::InsertLine { line: self.line, account_id }
            },
            PostingEvent::AccountFound(Ok(None)) => {
                let reason = prefixed("Invalid account code provided: ", self.codes[self.line].as_str());
                self.phase = Phase::Finished;
                PostingAction::Finish(Err(reason))
            },
            PostingEvent::AccountFound(Err(e)) => {
                self.phase = Phase::Finished;
                PostingAction::Finish(Err(e))
            },
            PostingEvent::LineInserted(Ok(())) => {
                let count = self.codes.len();
                assert(self@.codes.len() == count);
                let next = self.line + 1;
                self.advance(next)
            },
            PostingEvent::LineInserted(Err(e)) => {
                self.phase = Phase::Finished;
                PostingAction::Finish(Err(prefixed("Failed to insert journal line: ", e.as_str())))
            },
            PostingEvent::Committed(Ok(())) => {
                self.phase = Phase::Finished;
                PostingAction::Finish(Ok(self.entry_id.clone()))
            },
            PostingEvent::Committed(Err(e)) => {
                self.phase = Phase::Finished;
                PostingAction::Finish(Err(e))
            },
        }
    }

    /// Moves to line `line`: its lookup, or the commit when no line is left.
    fn advance(&mut self, line: usize) -> (r: PostingAction)
        requires
            line <= old(self).codes@.len(),
        ensures
            (final(self)@, r@) == advance(old(self)@, line as nat),
            final(self).well_formed(),
    {
        self.line = line;
        if line < self.codes.len() {
            self.phase = Phase::LookingUp;
            PostingAction::LookUpAccount { line }
        } else {
            self.phase = Phase::Committing;
            PostingAction::Commit
        }
    }

    /// Whether `event` is the report the current phase waits for.
    pub fn accepts(&self, event: &PostingEvent) -> (r: bool)
        ensures
            r == expects(self@.phase, event@),
            self@.phase == Phase::Beginning ==> (r <==> event@ is TransactionBegun),
            self@.phase == Phase::InsertingHeader ==> (r <==> event@ is HeaderInserted),
            self@.phase == Phase::LookingUp ==> (r <==> event@ is AccountFound),
            self@.phase == Phase::InsertingLine ==> (r <==> event@ is LineInserted),
            self@.phase == Phase::Committing ==> (r <==> event@ is Committed),
            self@.phase == Phase::Finished ==> !r,
    {
        match (self.phase, event) {
            (Phase::Beginning, PostingEvent::TransactionBegun(_)) => true,
            (Phase::InsertingHeader, PostingEvent::HeaderInserted(_)) => true,
            (Phase::LookingUp, PostingEvent::AccountFound(_)) => true,
            (Phase::InsertingLine, PostingEvent::LineInserted(_)) => true,
            (Phase::Committing, PostingEvent::Committed(_)) => true,
            _ => false,
        }
    }

    /// The account codes of the entry's lines, in order.
    pub fn codes(&self) -> (r: &Vec<String>)
        ensures
            r@.map_values(|code: String| code@) == self@.codes,
    {
        &self.codes
    }

    /// The phase the posting is in.
    pub fn phase(&self) -> (r: Phase)
        ensures
            r == self@.phase,
    {
        self.phase
    }
}

/// What each report leads to, stated report by report: an opened transaction
/// asks for the header; the header's id is kept and the first line is looked
/// up (or, with no line, the commit asked for); a found account has the current
/// line inserted against it; an inserted line moves to the next line or to the
/// commit; a failure of any step ends the posting with the store's message
/// (with context for the header and the lines, and the code of an unknown
/// account); and the posting ends with the entry's id only in answer to a
/// successful commit, so a failed commit is never reported as posted.
pub proof fn lemma_step_outcomes(m: PostingModel, event: EventModel)
    ensures
        event matches EventModel::TransactionBegun(Ok(_)) ==> spec_step(m, event).1 == ActionModel::InsertHeader && spec_step(m, event).0.phase == Phase::InsertingHeader,
        event matches EventModel::TransactionBegun(Err(e)) ==> spec_step(m, event).1 == ActionModel::Finish(Err(e)),
        event matches EventModel::HeaderInserted(Ok(id)) ==> spec_step(m, event).0.entry_id == id && spec_step(m, event).1 == (if m.codes.len() > 0 { ActionModel::LookUpAccount(0) } else { ActionModel::Commit }),
        event matches EventModel::HeaderInserted(Err(e)) ==> spec_step(m, event).1 == ActionModel::Finish(Err("Failed to insert journal entry header: "@ + e)),
        event matches EventModel::AccountFound(Ok(Some(id))) ==> spec_step(m, event).1 == ActionModel::InsertLine(m.line, id),
        event matches EventModel::AccountFound(Ok(None)) ==> spec_step(m, event).1 == ActionModel::Finish(Err("Invalid account code provided: "@ + m.codes[m.line as int])),
        event matches EventModel::AccountFound(Err(e)) ==> spec_step(m, event).1 == ActionModel::Finish(Err(e)),
        event matches EventModel::LineInserted(Ok(_)) ==> spec_step(m, event).1 == (if m.line + 1 < m.codes.len() { ActionModel::LookUpAccount(m.line + 1) } else { ActionModel::Commit }),
        event matches EventModel::LineInserted(Err(e)) ==> spec_step(m, event).1 == ActionModel::Finish(Err("Failed to insert journal line: "@ + e)),
        event matches EventModel::Committed(Ok(_)) ==> spec_step(m, event).1 == ActionModel::Finish(Ok(m.entry_id)),
        event matches EventModel::Committed(Err(e)) ==> spec_step(m, event).1 == ActionModel::Finish(Err(e)),
        spec_step(m, event).1 matches ActionModel::Finish(Ok(_)) ==> event matches EventModel::Committed(Ok(_)),
        spec_step(m, event).1 is Finish ==> spec_step(m, event).0.phase == Phase::Finished,
        spec_step(m, event).0.codes == m.codes,
{
}

/// Over a whole run, a posting reports the entry posted only in answer to a
/// successful commit, and answers every failed commit with the store's message.
pub proof fn lemma_posted_only_on_commit(m: PostingModel, events: Seq<EventModel>)
    ensures
        forall|k: int| 0 <= k < events.len() ==> ((#[trigger] run(m, events).1[k]) matches ActionModel::Finish(Ok(_))
            ==> events[k] matches EventModel::Committed(Ok(_))),
        forall|k: int| 0 <= k < events.len() ==> ((#[trigger] events[k]) matches EventModel::Committed(Err(e))
            ==> run(m, events).1[k] == ActionModel::Finish(Err(e))),
    decreases events.len(),
{
    lemma_run_len(m, events);
    if events.len() > 0 {
        let next = spec_step(m, events[0]).0;
        let rest = events.drop_first();
        lemma_posted_only_on_commit(next, rest);
        lemma_step_outcomes(m, events[0]);
        assert forall|k: int| 0 <= k < events.len() implies ((#[trigger] run(m, events).1[k]) matches ActionModel::Finish(Ok(_))
            ==> events[k] matches EventModel::Committed(Ok(_))) by {
            if k > 0 {
                assert(run(m, events).1[k] == run(next, rest).1[k - 1]);
                assert(events[k] == rest[k - 1]);
            }
        }
        assert forall|k: int| 0 <= k < events.len() implies ((#[trigger] events[k]) matches EventModel::Committed(Err(e))
            ==> run(m, events).1[k] == ActionModel::Finish(Err(e))) by {
            if k > 0 {
                assert(run(m, events).1[k] == run(next, rest).1[k - 1]);
                assert(events[k] == rest[k - 1]);
            }
        }
    }
}

/// The state and the actions after feeding `events` to a posting in state `m`,
/// one step at a time.
pub open spec fn run(m: PostingModel, events: Seq<EventModel>) -> (PostingModel, Seq<ActionModel>)
    decreases events.len(),
{
    if events.len() == 0 {
        (m, Seq::empty())
    } else {
        let (next, action) = spec_step(m, events[0]);
        let (last, rest) = run(next, events.drop_first());
        (last, seq![action] + rest)
    }
}

/// The store's reports for lines whose accounts all exist and whose inserts all
/// succeed: for each line, the id of its account, then the insert.
pub open spec fn line_reports(account_ids: Seq<Seq<char>>) -> Seq<EventModel>
    decreases account_ids.len(),
{
    if account_ids.len() == 0 {
        Seq::empty()
    } else {
        seq![EventModel::AccountFound(Ok(Some(account_ids[0]))), EventModel::LineInserted(Ok(()))]
            + line_reports(account_ids.drop_first())
    }
}

/// The actions a posting of `count` lines asks for from line `line` on, when
/// the store reports success: insert the line against its account, then look up
/// the next line, or commit after the last.
pub open spec fn line_requests(line: nat, count: nat, account_ids: Seq<Seq<char>>) -> Seq<ActionModel>
    decreases account_ids.len(),
{
    if account_ids.len() == 0 {
        Seq::empty()
    } else {
        seq![
            ActionModel::InsertLine(line, account_ids[0]),
            if line + 1 < count { ActionModel::LookUpAccount(line + 1) } else { ActionModel::Commit },
        ] + line_requests(line + 1, count, account_ids.drop_first())
    }
}

/// A fresh posting of an entry whose lines name `codes`.
pub open spec fn fresh(codes: Seq<Seq<char>>) -> PostingModel {
    PostingModel { codes, phase: Phase::Beginning, line: 0, entry_id: Seq::empty() }
}

proof fn lemma_run_append(m: PostingModel, first: Seq<EventModel>, second: Seq<EventModel>)
    ensures
        run(m, first + second) == (run(run(m, first).0, second).0, run(m, first).1 + run(run(m, first).0, second).1),
    decreases first.len(),
{
    if first.len() == 0 {
        assert(first + second =~= second);
        assert(run(m, first).1 + run(m, second).1 =~= run(m, second).1);
    } else {
        assert((first + second).drop_first() =~= first.drop_first() + second);
        let (next, action) = spec_step(m, first[0]);
        lemma_run_append(next, first.drop_first(), second);
        assert(seq![action] + (run(next, first.drop_first()).1 + run(run(next, first.drop_first()).0, second).1)
            =~= (seq![action] + run(next, first.drop_first()).1) + run(run(next, first.drop_first()).0, second).1);
    }
}

proof fn lemma_run_one(m: PostingModel, event: EventModel)
    ensures
        run(m, seq![event]) == (spec_step(m, event).0, seq![spec_step(m, event).1]),
{
    assert(seq![event].drop_first() =~= Seq::<EventModel>::empty());
    let (next, action) = spec_step(m, event);
    assert(run(next, Seq::<EventModel>::empty()) == (next, Seq::<ActionModel>::empty()));
    assert(seq![action] + Seq::<ActionModel>::empty() =~= seq![action]);
}

proof fn lemma_run_two(m: PostingModel, first: EventModel, second: EventModel)
    ensures
        run(m, seq![first, second]) == (
            spec_step(spec_step(m, first).0, second).0,
            seq![spec_step(m, first).1, spec_step(spec_step(m, first).0, second).1],
        ),
{
    assert(seq![first, second].drop_first() =~= seq![second]);
    let (next, action) = spec_step(m, first);
    lemma_run_one(next, second);
    assert(seq![action] + seq![spec_step(next, second).1] =~= seq![action, spec_step(next, second).1]);
}

proof fn lemma_lines(m: PostingModel, account_ids: Seq<Seq<char>>)
    requires
        m.phase == Phase::LookingUp,
        m.line + account_ids.len() <= m.codes.len(),
        account_ids.len() > 0,
    ensures
        run(m, line_reports(account_ids)).1 == line_requests(m.line, m.codes.len(), account_ids),
        run(m, line_reports(account_ids)).0 == (PostingModel {
            phase: if m.line + account_ids.len() < m.codes.len() { Phase::LookingUp } else { Phase::Committing },
            line: m.line + account_ids.len(),
            ..m
        }),
    decreases account_ids.len(),
{
    let tail = account_ids.drop_first();
    let found = EventModel::AccountFound(Ok(Some(account_ids[0])));
    let inserted = EventModel::LineInserted(Ok(()));
    assert(line_reports(account_ids) =~= seq![found, inserted] + line_reports(tail));
    let m2 = spec_step(spec_step(m, found).0, inserted).0;
    lemma_run_append(m, seq![found, inserted], line_reports(tail));
    lemma_run_two(m, found, inserted);
    if tail.len() == 0 {
        assert(line_reports(tail) =~= Seq::<EventModel>::empty());
        assert(line_requests(m.line + 1, m.codes.len(), tail) =~= Seq::<ActionModel>::empty());
        assert(run(m2, line_reports(tail)).1 =~= Seq::<ActionModel>::empty());
    } else {
        assert(m2.phase == Phase::LookingUp);
        lemma_lines(m2, tail);
    }
}

/// The state after the transaction opened and the header was inserted with id
/// `entry_id`, and the actions asked for on the way.
proof fn lemma_header(codes: Seq<Seq<char>>, entry_id: Seq<char>)
    ensures
        ({
            let start = seq![EventModel::TransactionBegun(Ok(())), EventModel::HeaderInserted(Ok(entry_id))];
            let first_after_header = if codes.len() > 0 { ActionModel::LookUpAccount(0) } else { ActionModel::Commit };
            &&& run(fresh(codes), start).1 == seq![ActionModel::InsertHeader, first_after_header]
            &&& run(fresh(codes), start).0 == (PostingModel {
                codes,
                phase: if codes.len() > 0 { Phase::LookingUp } else { Phase::Committing },
                line: 0,
                entry_id,
            })
        }),
{
    lemma_run_two(fresh(codes), EventModel::TransactionBegun(Ok(())), EventModel::HeaderInserted(Ok(entry_id)));
}

/// A posting whose store reports success at every step opens the transaction,
/// inserts the header, looks up and inserts each line in order against the
/// account found for it, commits, and ends with the id the header received.
pub proof fn lemma_successful_posting(codes: Seq<Seq<char>>, entry_id: Seq<char>, account_ids: Seq<Seq<char>>)
    requires
        account_ids.len() == codes.len(),
    ensures
        ({
            let events = seq![EventModel::TransactionBegun(Ok(())), EventModel::HeaderInserted(Ok(entry_id))]
                + line_reports(account_ids) + seq![EventModel::Committed(Ok(()))];
            let first_after_header = if codes.len() > 0 { ActionModel::LookUpAccount(0) } else { ActionModel::Commit };
            &&& run(fresh(codes), events).1 == seq![ActionModel::InsertHeader, first_after_header]
                + line_requests(0, codes.len(), account_ids) + seq![ActionModel::Finish(Ok(entry_id))]
            &&& run(fresh(codes), events).0.phase == Phase::Finished
        }),
{
    let start = seq![EventModel::TransactionBegun(Ok(())), EventModel::HeaderInserted(Ok(entry_id))];
    let commit = seq![EventModel::Committed(Ok(()))];
    let m = fresh(codes);
    lemma_header(codes, entry_id);
    let m2 = run(m, start).0;
    lemma_run_append(m, start, line_reports(account_ids) + commit);
    lemma_run_append(m2, line_reports(account_ids), commit);
    if codes.len() > 0 {
        lemma_lines(m2, account_ids);
    } else {
        assert(account_ids =~= Seq::<Seq<char>>::empty());
        assert(line_reports(account_ids) =~= Seq::<EventModel>::empty());
        assert(line_requests(0, codes.len(), account_ids) =~= Seq::<ActionModel>::empty());
    }
    let m3 = run(m2, line_reports(account_ids)).0;
    assert(m3.phase == Phase::Committing && m3.entry_id == entry_id);
    lemma_run_one(m3, EventModel::Committed(Ok(())));
    assert(start + line_reports(account_ids) + commit =~= start + (line_reports(account_ids) + commit));
    assert(run(m, start).1 + (run(m2, line_reports(account_ids)).1 + run(m3, commit).1)
        =~= seq![ActionModel::InsertHeader, if codes.len() > 0 { ActionModel::LookUpAccount(0) } else { ActionModel::Commit }]
            + line_requests(0, codes.len(), account_ids) + seq![ActionModel::Finish(Ok(entry_id))]);
}

/// A posting whose line at position `account_ids.len()` names an account code
/// that no account has stops there: after the header and the lines before it
/// (whose accounts are `account_ids`), it ends with the refusal naming that
/// code, and it never asks to commit, so the transaction and the header it
/// holds are abandoned.
pub proof fn lemma_unknown_account_aborts(
    codes: Seq<Seq<char>>,
    entry_id: Seq<char>,
    account_ids: Seq<Seq<char>>,
)
    requires
        account_ids.len() < codes.len(),
    ensures
        ({
            let events = seq![EventModel::TransactionBegun(Ok(())), EventModel::HeaderInserted(Ok(entry_id))]
                + line_reports(account_ids) + seq![EventModel::AccountFound(Ok(None))];
            let actions = run(fresh(codes), events).1;
            &&& actions.last() == ActionModel::Finish(Err(invalid_account_reason(codes[account_ids.len() as int])))
            &&& forall|i: int| 0 <= i < actions.len() ==> actions[i] != ActionModel::Commit
            &&& run(fresh(codes), events).0.phase == Phase::Finished
        }),
{
    let start = seq![EventModel::TransactionBegun(Ok(())), EventModel::HeaderInserted(Ok(entry_id))];
    let refusal = seq![EventModel::AccountFound(Ok(None))];
    let m = fresh(codes);
    lemma_header(codes, entry_id);
    let m2 = run(m, start).0;
    lemma_run_append(m, start, line_reports(account_ids) + refusal);
    lemma_run_append(m2, line_reports(account_ids), refusal);
    if account_ids.len() > 0 {
        lemma_lines(m2, account_ids);
        lemma_no_commit_before_last(0, codes.len(), account_ids);
    } else {
        assert(line_reports(account_ids) =~= Seq::<EventModel>::empty());
        assert(line_requests(0, codes.len(), account_ids) =~= Seq::<ActionModel>::empty());
    }
    let m3 = run(m2, line_reports(account_ids)).0;
    assert(m3.phase == Phase::LookingUp && m3.line == account_ids.len() && m3.codes == codes);
    lemma_run_one(m3, EventModel::AccountFound(Ok(None)));
    let events = start + line_reports(account_ids) + refusal;
    assert(events =~= start + (line_reports(account_ids) + refusal));
    let actions = run(m, events).1;
    let middle = line_requests(0, codes.len(), account_ids);
    assert(actions =~= seq![ActionModel::InsertHeader, ActionModel::LookUpAccount(0)] + middle
        + seq![ActionModel::Finish(Err(invalid_account_reason(codes[account_ids.len() as int])))]);
    assert forall|i: int| 0 <= i < actions.len() implies actions[i] != ActionModel::Commit by {
        if 2 <= i < 2 + middle.len() {
            assert(actions[i] == middle[i - 2]);
        }
    }
}

/// Inserting lines `line` to `line + account_ids.len() - 1` of a posting with
/// more lines than that never asks to commit.
proof fn lemma_no_commit_before_last(line: nat, count: nat, account_ids: Seq<Seq<char>>)
    requires
        line + account_ids.len() < count,
    ensures
        forall|i: int| 0 <= i < line_requests(line, count, account_ids).len()
            ==> line_requests(line, count, account_ids)[i] != ActionModel::Commit,
    decreases account_ids.len(),
{
    if account_ids.len() > 0 {
        let tail = account_ids.drop_first();
        lemma_no_commit_before_last(line + 1, count, tail);
        let head = seq![ActionModel::InsertLine(line, account_ids[0]), ActionModel::LookUpAccount(line + 1)];
        assert(line_requests(line, count, account_ids) =~= head + line_requests(line + 1, count, tail));
        assert forall|i: int| 0 <= i < line_requests(line, count, account_ids).len()
            implies line_requests(line, count, account_ids)[i] != ActionModel::Commit by {
            if i >= 2 {
                assert(line_requests(line, count, account_ids)[i] == line_requests(line + 1, count, tail)[i - 2]);
            }
        }
    }
}
/// The events follow the protocol from state `m`: each is the report the phase
/// reached so far waits for.
pub open spec fn follows_protocol(m: PostingModel, events: Seq<EventModel>) -> bool
    decreases events.len(),
{
    if events.len() == 0 {
        true
    } else {
        expects(m.phase, events[0]) && follows_protocol(spec_step(m, events[0]).0, events.drop_first())
    }
}

/// The lines the actions ask to insert, in the order asked.
pub open spec fn inserted_lines(actions: Seq<ActionModel>) -> Seq<nat>
    decreases actions.len(),
{
    if actions.len() == 0 {
        Seq::empty()
    } else {
        inserted_lines(actions.drop_last()) + match actions.last() {
            ActionModel::InsertLine(line, _) => seq![line],
            _ => Seq::<nat>::empty(),
        }
    }
}

/// How many line inserts the events report done.
pub open spec fn acknowledged_inserts(events: Seq<EventModel>) -> nat
    decreases events.len(),
{
    if events.len() == 0 {
        0
    } else {
        acknowledged_inserts(events.drop_last()) + match events.last() {
            EventModel::LineInserted(Ok(_)) => 1nat,
            _ => 0nat,
        }
    }
}

/// The lines `0` to `count - 1`, in order.
pub open spec fn first_lines(count: nat) -> Seq<nat> {
    Seq::new(count, |i: int| i as nat)
}

/// What a posting has done by the time it reaches state `m`, given the actions
/// it asked for and the reports it received.
spec fn progress(m: PostingModel, actions: Seq<ActionModel>, events: Seq<EventModel>) -> bool {
    &&& model_consistent(m)
    &&& match m.phase {
        Phase::Beginning | Phase::InsertingHeader => inserted_lines(actions) == Seq::<nat>::empty()
            && acknowledged_inserts(events) == 0,
        Phase::LookingUp => inserted_lines(actions) == first_lines(m.line) && acknowledged_inserts(events) == m.line,
        Phase::InsertingLine => inserted_lines(actions) == first_lines(m.line + 1) && acknowledged_inserts(events)
            == m.line,
        Phase::Committing => inserted_lines(actions) == first_lines(m.codes.len()) && acknowledged_inserts(events)
            == m.codes.len(),
        Phase::Finished => true,
    }
}

proof fn lemma_run_len(m: PostingModel, events: Seq<EventModel>)
    ensures
        run(m, events).1.len() == events.len(),
    decreases events.len(),
{
    if events.len() > 0 {
        lemma_run_len(spec_step(m, events[0]).0, events.drop_first());
    }
}

proof fn lemma_run_push(m: PostingModel, events: Seq<EventModel>, event: EventModel)
    ensures
        run(m, events.push(event)) == (
            spec_step(run(m, events).0, event).0,
            run(m, events).1.push(spec_step(run(m, events).0, event).1),
        ),
{
    assert(events.push(event) =~= events + seq![event]);
    lemma_run_append(m, events, seq![event]);
    lemma_run_one(run(m, events).0, event);
    assert(run(m, events).1 + seq![spec_step(run(m, events).0, event).1] =~= run(m, events).1.push(
        spec_step(run(m, events).0, event).1,
    ));
}

proof fn lemma_follows_protocol_push(m: PostingModel, events: Seq<EventModel>, event: EventModel)
    ensures
        follows_protocol(m, events.push(event)) == (follows_protocol(m, events) && expects(
            run(m, events).0.phase,
            event,
        )),
    decreases events.len(),
{
    if events.len() == 0 {
        assert(events.push(event).drop_first() =~= Seq::<EventModel>::empty());
        assert(events.push(event)[0] == event);
        assert(run(m, events).0 == m);
        assert(follows_protocol(spec_step(m, event).0, Seq::<EventModel>::empty()));
        assert(follows_protocol(m, events));
    } else {
        let next = spec_step(m, events[0]).0;
        assert(events.push(event)[0] == events[0]);
        assert(events.push(event).drop_first() =~= events.drop_first().push(event));
        lemma_follows_protocol_push(next, events.drop_first(), event);
        assert(run(m, events).0 == run(next, events.drop_first()).0);
        assert(follows_protocol(m, events.push(event)) == (expects(m.phase, events[0]) && follows_protocol(
            next,
            events.drop_first().push(event),
        )));
        assert(follows_protocol(m, events) == (expects(m.phase, events[0]) && follows_protocol(
            next,
            events.drop_first(),
        )));
    }
}

proof fn lemma_progress(codes: Seq<Seq<char>>, events: Seq<EventModel>)
    requires
        follows_protocol(fresh(codes), events),
    ensures
        progress(run(fresh(codes), events).0, run(fresh(codes), events).1, events),
        run(fresh(codes), events).0.codes == codes,
    decreases events.len(),
{
    if events.len() == 0 {
        assert(inserted_lines(run(fresh(codes), events).1) =~= Seq::<nat>::empty());
    } else {
        let before = events.drop_last();
        let event = events.last();
        assert(before.push(event) =~= events);
        lemma_follows_protocol_push(fresh(codes), before, event);
        lemma_progress(codes, before);
        lemma_run_push(fresh(codes), before, event);
        let (m, actions) = run(fresh(codes), before);
        let (next, action) = spec_step(m, event);
        assert(actions.push(action).drop_last() =~= actions);
        assert(events.drop_last() =~= before);
        assert(inserted_lines(actions.push(action)) == inserted_lines(actions) + match action {
            ActionModel::InsertLine(line, _) => seq![line],
            _ => Seq::<nat>::empty(),
        });
        assert(acknowledged_inserts(events) == acknowledged_inserts(before) + match event {
            EventModel::LineInserted(Ok(_)) => 1nat,
            _ => 0nat,
        });
        match m.phase {
            Phase::InsertingHeader => {
                if next.phase == Phase::LookingUp {
                    assert(first_lines(0) =~= Seq::<nat>::empty());
                } else if next.phase == Phase::Committing {
                    assert(first_lines(codes.len()) =~= Seq::<nat>::empty());
                }
            },
            Phase::LookingUp => {
                if next.phase == Phase::InsertingLine {
                    assert(first_lines(m.line) + seq![m.line] =~= first_lines(m.line + 1));
                }
            },
            _ => {},
        }
    }
}

/// Every posting that follows the protocol and comes to ask for the commit has,
/// before that, asked to insert each line of the entry exactly once and in
/// order, and has had each of those inserts reported done: the commit can only
/// make the whole entry, with all of its lines, permanent.
pub proof fn lemma_commit_follows_every_line(codes: Seq<Seq<char>>, events: Seq<EventModel>, k: int)
    requires
        follows_protocol(fresh(codes), events),
        0 <= k < events.len(),
        run(fresh(codes), events).1[k] == ActionModel::Commit,
    ensures
        inserted_lines(run(fresh(codes), events).1.take(k)) == first_lines(codes.len()),
        acknowledged_inserts(events.take(k + 1)) == codes.len(),
{
    let prefix = events.take(k + 1);
    let rest = events.skip(k + 1);
    assert(events =~= prefix + rest);
    lemma_run_append(fresh(codes), prefix, rest);
    lemma_run_len(fresh(codes), prefix);
    let actions = run(fresh(codes), events).1;
    let prefix_actions = run(fresh(codes), prefix).1;
    assert(actions.take(k + 1) =~= prefix_actions);
    lemma_follows_protocol_prefix(fresh(codes), prefix, rest);
    lemma_progress(codes, prefix);
    let before = prefix.drop_last();
    assert(before.push(prefix.last()) =~= prefix);
    lemma_run_push(fresh(codes), before, prefix.last());
    let (m, _) = run(fresh(codes), before);
    assert(spec_step(m, prefix.last()).1 == ActionModel::Commit);
    assert(run(fresh(codes), prefix).0.phase == Phase::Committing);
    assert(prefix_actions.drop_last() =~= actions.take(k));
}

/// The account codes that the lines name, in order.
pub open spec fn line_codes(lines: Seq<CreateJournalLine>) -> Seq<Seq<char>> {
    lines.map_values(|line: CreateJournalLine| line.account_code@)
}

/// A posting of an accepted entry that comes to ask for the commit has asked
/// to insert exactly the entry's lines, each once and in order, and those lines
/// keep the ledger balanced: there are at least two, none is zero, and their
/// decimal total is zero. Whatever the store reports, a posting that never asks
/// for the commit leaves nothing behind, so the ledger only ever gains whole,
/// balanced entries.
pub proof fn lemma_committed_entry_balances(entry: CreateJournalEntry, events: Seq<EventModel>, k: int)
    requires
        entry.spec_validate() is Ok,
        follows_protocol(fresh(line_codes(entry.lines@)), events),
        0 <= k < events.len(),
        run(fresh(line_codes(entry.lines@)), events).1[k] == ActionModel::Commit,
    ensures
        ({
            let inserted = inserted_lines(run(fresh(line_codes(entry.lines@)), events).1.take(k));
            &&& inserted == first_lines(entry.lines@.len())
            &&& inserted.map_values(|i: nat| entry.lines@[i as int].amount) == entry.amounts()
            &&& inserted.len() >= 2
            &&& forall|j: int| 0 <= j < inserted.len() ==> !(#[trigger] entry.lines@[inserted[j] as int]).amount.spec_is_zero()
            &&& running_total(inserted.map_values(|i: nat| entry.lines@[i as int].amount)) matches Some(total)
                && total.spec_is_zero()
        }),
{
    let codes = line_codes(entry.lines@);
    lemma_commit_follows_every_line(codes, events, k);
    crate::requests::lemma_accepted_entry_balances(entry);
    let inserted = inserted_lines(run(fresh(codes), events).1.take(k));
    assert(inserted.map_values(|i: nat| entry.lines@[i as int].amount) =~= entry.amounts());
}

proof fn lemma_follows_protocol_prefix(m: PostingModel, first: Seq<EventModel>, second: Seq<EventModel>)
    requires
        follows_protocol(m, first + second),
    ensures
        follows_protocol(m, first),
    decreases first.len(),
{
    if first.len() > 0 {
        assert((first + second).drop_first() =~= first.drop_first() + second);
        lemma_follows_protocol_prefix(spec_step(m, first[0]).0, first.drop_first(), second);
    }
}

} // verus!
