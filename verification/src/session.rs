//! A run, as a conversation.
//!
//! The session asks for one thing at a time (its pending [`Action`]); a driver
//! does it and reports what came of it (an [`Event`]); the session takes the
//! report in and asks for the next thing. The last thing it asks for is to
//! leave. The order is fixed: open the repository, list its branches, ask the
//! user, resolve the answer, write the tree, move HEAD.

use vstd::prelude::*;
use crate::branch::{
    get_branches_local,
    get_branches_remote,
    matching,
    names_of,
    BranchRecord,
    BranchRecordView,
    BranchType,
};
use crate::checkout::{
    checkout_branch,
    head_for,
    CheckoutTarget,
    CheckoutTargetView,
    Head,
    HeadView,
};
use crate::exit::{fatal, silent, ErrorKind, Exit, ExitView, Failure, FailureView};
use crate::options::{options, outcome_view, read_reply, reply_on, Opt};
use crate::select::{
    branch_names,
    pp_branches,
    prompt_for,
    read_answer,
    selection,
    Prompt,
    PromptView,
    Selection,
    SelectionView,
};

verus! {

/// What the session asks its driver to do next.
#[derive(Clone, Debug, PartialEq, Eq)]
pub enum Action {
    /// Find the repository, from the working directory upward, and open it.
    OpenRepository,
    /// List the branches of this class.
    ListBranches(BranchType),
    /// Show this prompt and wait for the answer.
    Ask(Prompt),
    /// Resolve this revision string to a commit and, where there is one, the
    /// reference that names it.
    Resolve(String),
    /// Make the working directory match the tree of this commit.
    WriteTree(String),
    /// Point HEAD here.
    MoveHead(Head),
    /// Write the last words and leave.
    Leave(Exit),
}

/// The mathematical value of an [`Action`].
pub enum ActionView {
    OpenRepository,
    ListBranches(BranchType),
    Ask(PromptView),
    Resolve(Seq<char>),
    WriteTree(Seq<char>),
    MoveHead(HeadView),
    Leave(ExitView),
}

impl View for Action {
    type V = ActionView;

    open spec fn view(&self) -> ActionView {
        match *self {
            Action::OpenRepository => ActionView::OpenRepository,
            Action::ListBranches(kind) => ActionView::ListBranches(kind),
            Action::Ask(prompt) => ActionView::Ask(prompt@),
            Action::Resolve(name) => ActionView::Resolve(name@),
            Action::WriteTree(commit) => ActionView::WriteTree(commit@),
            Action::MoveHead(head) => ActionView::MoveHead(head@),
            Action::Leave(exit) => ActionView::Leave(exit@),
        }
    }
}

impl DeepView for Action {
    type V = ActionView;

    open spec fn deep_view(&self) -> ActionView {
        self@
    }
}

/// What the driver reports back. Where something failed, the report carries
/// the cause in the collaborator's own words.
#[derive(Clone, Debug, PartialEq, Eq)]
pub enum Event {
    /// The repository was found and opened.
    RepositoryOpened,
    /// There is no repository in the working directory or above it.
    RepositoryMissing(String),
    /// A repository was found, but opening it failed.
    RepositoryUnreadable(String),
    /// The listing, one entry per reference, `None` where a reference could
    /// not be read or named.
    BranchesListed(Vec<Option<BranchRecord>>),
    /// The repository could not list its references at all.
    BranchesUnlisted(String),
    /// The prompt came back, with the name picked or with none.
    Answered(Option<String>),
    /// The revision string resolved to this.
    Resolved(CheckoutTarget),
    /// The revision string names no object.
    Unresolved(String),
    /// The working directory now matches the tree.
    TreeWritten,
    /// The tree could not be written.
    TreeBlocked(String),
    /// HEAD points where it was to point.
    HeadMoved,
    /// HEAD could not be moved.
    HeadStuck(String),
}

/// The mathematical value of an [`Event`].
pub enum EventView {
    RepositoryOpened,
    RepositoryMissing(Seq<char>),
    RepositoryUnreadable(Seq<char>),
    BranchesListed(Seq<Option<BranchRecordView>>),
    BranchesUnlisted(Seq<char>),
    Answered(Option<Seq<char>>),
    Resolved(CheckoutTargetView),
    Unresolved(Seq<char>),
    TreeWritten,
    TreeBlocked(Seq<char>),
    HeadMoved,
    HeadStuck(Seq<char>),
}

impl View for Event {
    type V = EventView;

    open spec fn view(&self) -> EventView {
        match *self {
            Event::RepositoryOpened => EventView::RepositoryOpened,
            Event::RepositoryMissing(cause) => EventView::RepositoryMissing(cause@),
            Event::RepositoryUnreadable(cause) => EventView::RepositoryUnreadable(cause@),
            Event::BranchesListed(entries) => EventView::BranchesListed(entries.deep_view()),
            Event::BranchesUnlisted(cause) => EventView::BranchesUnlisted(cause@),
            Event::Answered(answer) => EventView::Answered(answer.deep_view()),
            Event::Resolved(target) => EventView::Resolved(target@),
            Event::Unresolved(cause) => EventView::Unresolved(cause@),
            Event::TreeWritten => EventView::TreeWritten,
            Event::TreeBlocked(cause) => EventView::TreeBlocked(cause@),
            Event::HeadMoved => EventView::HeadMoved,
            Event::HeadStuck(cause) => EventView::HeadStuck(cause@),
        }
    }
}

impl DeepView for Event {
    type V = EventView;

    open spec fn deep_view(&self) -> EventView {
        self@
    }
}

/// How a run came out.
#[derive(Clone, Debug, PartialEq, Eq)]
pub enum Outcome {
    /// The tree is written, and HEAD was moved as asked: to here.
    CheckedOut(Head),
    /// The user called the prompt off. Nothing was touched.
    Cancelled,
    /// A fatal error cut the run short.
    Failed(Failure),
    /// The command line ended the run before it began: help was asked for, or
    /// the arguments were rejected.
    Stopped(Exit),
}

/// The mathematical value of an [`Outcome`].
pub enum OutcomeView {
    CheckedOut(HeadView),
    Cancelled,
    Failed(FailureView),
    Stopped(ExitView),
}

impl View for Outcome {
    type V = OutcomeView;

    open spec fn view(&self) -> OutcomeView {
        match *self {
            Outcome::CheckedOut(head) => OutcomeView::CheckedOut(head@),
            Outcome::Cancelled => OutcomeView::Cancelled,
            Outcome::Failed(failure) => OutcomeView::Failed(failure@),
            Outcome::Stopped(exit) => OutcomeView::Stopped(exit@),
        }
    }
}

impl DeepView for Outcome {
    type V = OutcomeView;

    open spec fn deep_view(&self) -> OutcomeView {
        self@
    }
}

/// How each outcome ends the run. A checkout and a cancellation both end it
/// quietly with status 0; a failure ends it with its diagnostic; a stop ends
/// it as the command line said.
pub open spec fn exit_of(outcome: OutcomeView) -> ExitView {
    match outcome {
        OutcomeView::CheckedOut(_) => silent(),
        OutcomeView::Cancelled => silent(),
        OutcomeView::Failed(failure) => fatal(failure),
        OutcomeView::Stopped(exit) => exit,
    }
}

impl Outcome {
    /// How this outcome ends the run.
    pub fn exit(&self) -> (exit: Exit)
        ensures
            exit@ == exit_of(self@),
    {
        match self {
            Outcome::CheckedOut(_) => Exit::quiet(),
            Outcome::Cancelled => Exit::quiet(),
            Outcome::Failed(failure) => failure.exit(),
            Outcome::Stopped(exit) => exit.duplicate(),
        }
    }
}

/// Where a run stands: what it is waiting for, and what it has to remember
/// meanwhile.
#[derive(Clone, Debug, PartialEq, Eq)]
pub enum Session {
    /// Waiting for the repository to be opened.
    Opening { opt: Opt },
    /// Waiting for the listing.
    Listing { opt: Opt },
    /// Waiting for the user's answer to a prompt over `branches`.
    Asking { branches: Vec<BranchRecord> },
    /// Waiting for `name` to be resolved.
    Resolving { name: String },
    /// Waiting for the tree of `target` to be written.
    Writing { target: CheckoutTarget },
    /// Waiting for HEAD to be moved to `head`.
    Moving { head: Head },
    /// Over.
    Done { outcome: Outcome },
}

/// The mathematical value of a [`Session`].
pub enum SessionView {
    Opening { opt: Opt },
    Listing { opt: Opt },
    Asking { branches: Seq<BranchRecordView> },
    Resolving { name: Seq<char> },
    Writing { target: CheckoutTargetView },
    Moving { head: HeadView },
    Done { outcome: OutcomeView },
}

impl View for Session {
    type V = SessionView;

    open spec fn view(&self) -> SessionView {
        match *self {
            Session::Opening { opt } => SessionView::Opening { opt },
            Session::Listing { opt } => SessionView::Listing { opt },
            Session::Asking { branches } => SessionView::Asking { branches: branches.deep_view() },
            Session::Resolving { name } => SessionView::Resolving { name: name@ },
            Session::Writing { target } => SessionView::Writing { target: target@ },
            Session::Moving { head } => SessionView::Moving { head: head@ },
            Session::Done { outcome } => SessionView::Done { outcome: outcome@ },
        }
    }
}

impl DeepView for Session {
    type V = SessionView;

    open spec fn deep_view(&self) -> SessionView {
        self@
    }
}

/// A session that ends in failure of this kind, for this cause.
pub open spec fn failed(kind: ErrorKind, cause: Seq<char>) -> SessionView {
    SessionView::Done { outcome: OutcomeView::Failed(FailureView { kind, cause }) }
}

/// Where a run begins: at the repository's door if the command line gave a
/// configuration, at the end if it did not.
pub open spec fn begin(parsed: Result<Opt, ExitView>) -> SessionView {
    match parsed {
        Ok(opt) => SessionView::Opening { opt },
        Err(exit) => SessionView::Done { outcome: OutcomeView::Stopped(exit) },
    }
}

/// Where a session stands once the listing is in. On offer are the branches
/// of the class that the configuration asks for, in the order of the listing.
/// With none to offer the run fails at once, as a listing that could not be
/// had: a prompt over nothing is never shown.
pub open spec fn listed(opt: Opt, entries: Seq<Option<BranchRecordView>>) -> SessionView {
    let branches = matching(entries, opt.kind());
    if branches.len() == 0 {
        failed(ErrorKind::BranchEnumerationError, "no branches found"@)
    } else {
        SessionView::Asking { branches }
    }
}

/// Where a session stands once the prompt over `branches` is back: on to
/// resolving the name that was chosen, or at a quiet end.
pub open spec fn answered(
    branches: Seq<BranchRecordView>,
    answer: Option<Seq<char>>,
) -> SessionView {
    match read_answer(names_of(branches), answer) {
        SelectionView::Chosen(name) => SessionView::Resolving { name },
        SelectionView::Cancelled => SessionView::Done { outcome: OutcomeView::Cancelled },
    }
}

/// The session after a report. Each state takes in the reports that answer its
/// own request and moves on; any other report leaves it where it is, still
/// waiting. A session that is over stays over.
pub open spec fn next(state: SessionView, event: EventView) -> SessionView {
    match (state, event) {
        (SessionView::Opening { opt }, EventView::RepositoryOpened) => SessionView::Listing {
            opt,
        },
        (SessionView::Opening { .. }, EventView::RepositoryMissing(cause)) => failed(
            ErrorKind::RepositoryNotFound,
            cause,
        ),
        (SessionView::Opening { .. }, EventView::RepositoryUnreadable(cause)) => failed(
            ErrorKind::RepositoryOpenError,
            cause,
        ),
        (SessionView::Listing { opt }, EventView::BranchesListed(entries)) => listed(
            opt,
            entries,
        ),
        (SessionView::Listing { .. }, EventView::BranchesUnlisted(cause)) => failed(
            ErrorKind::BranchEnumerationError,
            cause,
        ),
        (SessionView::Asking { branches }, EventView::Answered(answer)) => answered(
            branches,
            answer,
        ),
        (SessionView::Resolving { .. }, EventView::Resolved(target)) => SessionView::Writing {
            target,
        },
        (SessionView::Resolving { .. }, EventView::Unresolved(cause)) => failed(
            ErrorKind::RevisionResolutionError,
            cause,
        ),
        (SessionView::Writing { target }, EventView::TreeWritten) => SessionView::Moving {
            head: head_for(target),
        },
        (SessionView::Writing { .. }, EventView::TreeBlocked(cause)) => failed(
            ErrorKind::CheckoutConflict,
            cause,
        ),
        (SessionView::Moving { head }, EventView::HeadMoved) => SessionView::Done {
            outcome: OutcomeView::CheckedOut(head),
        },
        (SessionView::Moving { .. }, EventView::HeadStuck(cause)) => failed(
            ErrorKind::HeadUpdateError,
            cause,
        ),
        (state, _) => state,
    }
}

/// What a session asks for while it stands in `state`.
pub open spec fn pending(state: SessionView) -> ActionView {
    match state {
        SessionView::Opening { .. } => ActionView::OpenRepository,
        SessionView::Listing { opt } => ActionView::ListBranches(opt.kind()),
        SessionView::Asking { branches } => ActionView::Ask(prompt_for(names_of(branches))),
        SessionView::Resolving { name } => ActionView::Resolve(name),
        SessionView::Writing { target } => ActionView::WriteTree(target.object),
        SessionView::Moving { head } => ActionView::MoveHead(head),
        SessionView::Done { outcome } => ActionView::Leave(exit_of(outcome)),
    }
}

/// The session after a whole sequence of reports, taken in one by one.
pub open spec fn run(state: SessionView, events: Seq<EventView>) -> SessionView
    decreases events.len(),
{
    if events.len() == 0 {
        state
    } else {
        next(run(state, events.drop_last()), events.last())
    }
}

/// What a session asks for along a sequence of reports: first what is pending
/// in `state`, then what is pending after each report in turn.
pub open spec fn requests(state: SessionView, events: Seq<EventView>) -> Seq<ActionView> {
    Seq::new(events.len() + 1, |i: int| pending(run(state, events.take(i))))
}

/// Reports taken in one after another: first `head`, then `tail`.
pub proof fn lemma_run_follows(state: SessionView, head: EventView, tail: Seq<EventView>)
    ensures
        run(state, seq![head] + tail) == run(next(state, head), tail),
    decreases tail.len(),
{
    let events = seq![head] + tail;
    if tail.len() == 0 {
        assert(run(state, events.drop_last()) == state);
    } else {
        lemma_run_follows(state, head, tail.drop_last());
        assert(events.drop_last() == seq![head] + tail.drop_last());
    }
}

/// The requests along a sequence of reports: what is pending now, then the
/// requests along the rest from where the first report leads.
pub proof fn lemma_requests_follow(state: SessionView, head: EventView, tail: Seq<EventView>)
    ensures
        requests(state, seq![head] + tail) == seq![pending(state)] + requests(
            next(state, head),
            tail,
        ),
{
    let events = seq![head] + tail;
    let left = requests(state, events);
    let right = seq![pending(state)] + requests(next(state, head), tail);
    assert forall|k: int| 0 <= k < left.len() implies left[k] == right[k] by {
        if k > 0 {
            assert(events.take(k) == seq![head] + tail.take(k - 1));
            lemma_run_follows(state, head, tail.take(k - 1));
        }
    }
}

/// With nothing reported, the one request is the pending one.
pub proof fn lemma_requests_none(state: SessionView)
    ensures
        requests(state, Seq::empty()) == seq![pending(state)],
{
}

/// A session that is over stays as it is, whatever is reported to it.
pub proof fn lemma_done_is_final(outcome: OutcomeView, events: Seq<EventView>)
    ensures
        run(SessionView::Done { outcome }, events) == (SessionView::Done { outcome }),
    decreases events.len(),
{
    if events.len() > 0 {
        lemma_done_is_final(outcome, events.drop_last());
    }
}

impl Session {
    /// Begins a run from what the command line gave.
    pub fn begin(parsed: Result<Opt, Exit>) -> (session: Session)
        ensures
            session@ == begin(outcome_view(parsed)),
    {
        match parsed {
            Ok(opt) => Session::Opening { opt },
            Err(exit) => Session::Done { outcome: Outcome::Stopped(exit) },
        }
    }

    /// Begins a run from the command line: `program` is the name the program
    /// was called by, if it is known; `args` is what followed it.
    pub fn start(program: &Option<String>, args: &Vec<String>) -> (session: Session)
        ensures
            session@ == begin(read_reply(reply_on(program.deep_view(), args.deep_view()))),
    {
        Session::begin(options(program, args))
    }

    /// What the session asks for now.
    pub fn pending(&self) -> (action: Action)
        ensures
            action@ == pending(self@),
    {
        match self {
            Session::Opening { .. } => Action::OpenRepository,
            Session::Listing { opt } => Action::ListBranches(opt.branch_type()),
            Session::Asking { branches } => Action::Ask(pp_branches(branches)),
            Session::Resolving { name } => Action::Resolve(name.clone()),
            Session::Writing { target } => Action::WriteTree(target.object.clone()),
            Session::Moving { head } => Action::MoveHead(head.duplicate()),
            Session::Done { outcome } => Action::Leave(outcome.exit()),
        }
    }

    /// The outcome, once the session is over.
    pub fn outcome(&self) -> (outcome: Option<&Outcome>)
        ensures
            match outcome {
                Some(reached) => self@ == (SessionView::Done { outcome: reached@ }),
                None => !(self@ is Done),
            },
    {
        match self {
            Session::Done { outcome } => Some(outcome),
            _ => None,
        }
    }

    /// Takes a report in.
    pub fn step(self, event: Event) -> (session: Session)
        ensures
            session@ == next(self@, event@),
    {
        match (self, event) {
            (Session::Opening { opt }, Event::RepositoryOpened) => Session::Listing { opt },
            (Session::Opening { .. }, Event::RepositoryMissing(cause)) => Session::fail(
                ErrorKind::RepositoryNotFound,
                cause,
            ),
            (Session::Opening { .. }, Event::RepositoryUnreadable(cause)) => Session::fail(
                ErrorKind::RepositoryOpenError,
                cause,
            ),
            (Session::Listing { opt }, Event::BranchesListed(entries)) => {
                let branches = if opt.remote {
                    get_branches_remote(&entries)
                } else {
                    get_branches_local(&entries)
                };
                if branches.len() == 0 {
                    Session::fail(
                        ErrorKind::BranchEnumerationError,
                        String::from_str("no branches found"),
                    )
                } else {
                    Session::Asking { branches }
                }
            },
            (Session::Listing { .. }, Event::BranchesUnlisted(cause)) => Session::fail(
                ErrorKind::BranchEnumerationError,
                cause,
            ),
            (Session::Asking { branches }, Event::Answered(answer)) => {
                match selection(&branch_names(&branches), answer) {
                    Selection::Chosen(name) => Session::Resolving { name },
                    Selection::Cancelled => Session::Done { outcome: Outcome::Cancelled },
                }
            },
            (Session::Resolving { .. }, Event::Resolved(target)) => Session::Writing { target },
            (Session::Resolving { .. }, Event::Unresolved(cause)) => Session::fail(
                ErrorKind::RevisionResolutionError,
                cause,
            ),
            (Session::Writing { target }, Event::TreeWritten) => Session::Moving {
                head: checkout_branch(&target),
            },
            (Session::Writing { .. }, Event::TreeBlocked(cause)) => Session::fail(
                ErrorKind::CheckoutConflict,
                cause,
            ),
            (Session::Moving { head }, Event::HeadMoved) => Session::Done {
                outcome: Outcome::CheckedOut(head),
            },
            (Session::Moving { .. }, Event::HeadStuck(cause)) => Session::fail(
                ErrorKind::HeadUpdateError,
                cause,
            ),
            (state, _) => state,
        }
    }

    /// Takes a whole sequence of reports in, one by one. Returns where the
    /// session stands in the end, and all that it asked for on the way: what
    /// was pending at the start, then what was pending after each report.
    pub fn replay(self, events: Vec<Event>) -> (end: (Session, Vec<Action>))
        ensures
            end.0@ == run(self@, events.deep_view()),
            end.1.deep_view() == requests(self@, events.deep_view()),
    {
        let ghost start = self@;
        let ghost all = events.deep_view();
        let mut session = self;
        let mut asked: Vec<Action> = Vec::new();
        asked.push(session.pending());
        for event in reports: events.into_iter()
            invariant
                reports.seq().len() == all.len(),
                forall|i: int| 0 <= i < all.len() ==> reports.seq()[i]@ == all[i],
                session@ == run(start, all.take(reports.index() as int)),
                asked.deep_view() == requests(start, all.take(reports.index() as int)),
        {
            let ghost taken = reports.index() as int;
            let ghost asked_before = asked.deep_view();
            session = session.step(event);
            asked.push(session.pending());
            proof {
                let shorter = all.take(taken);
                let longer = all.take(taken + 1);
                assert(longer.drop_last() == shorter);
                assert(forall|k: int| 0 <= k <= taken ==> longer.take(k) == shorter.take(k));
                assert(longer.take(taken + 1) == longer);
                assert(asked.deep_view() =~= asked_before.push(pending(session@)));
            }
        }
        proof {
            assert(all.take(all.len() as int) == all);
        }
        (session, asked)
    }

    /// A session that ends in failure of this kind, for this cause.
    fn fail(kind: ErrorKind, cause: String) -> (session: Session)
        ensures
            session@ == failed(kind, cause@),
    {
        Session::Done { outcome: Outcome::Failed(Failure::new(kind, cause)) }
    }
}

} // verus!
