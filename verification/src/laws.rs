//! What holds of every run.
//!
//! Each law speaks of the session's side of the conversation: of what it asks
//! its driver to do, and of how it ends. What the repository makes of a
//! request is the repository's business.

use vstd::prelude::*;
use crate::branch::{
    has_branch,
    kept,
    lemma_matching_positions,
    matching,
    names_of,
    BranchRecordView,
    BranchType,
};
use crate::checkout::{head_for, CheckoutTargetView, HeadView};
use crate::exit::{headline, silent, ErrorKind, ExitView, FailureView, Stream, EXIT_FATAL};
use crate::options::Opt;
use crate::select::prompt_for;
use crate::session::{
    begin,
    failed,
    lemma_done_is_final,
    lemma_requests_follow,
    lemma_requests_none,
    lemma_run_follows,
    next,
    pending,
    requests,
    run,
    ActionView,
    EventView,
    OutcomeView,
    SessionView,
};

verus! {

/// With a readable branch of the class asked for in the report, the session
/// opens the repository, asks for the branches of that class, and then shows
/// a prompt that offers exactly the branches of that class in the report, in
/// the order of the report.
pub proof fn law_branches_offered(opt: Opt, entries: Seq<Option<BranchRecordView>>)
    requires
        has_branch(entries, opt.kind()),
    ensures
        requests(
            begin(Ok(opt)),
            seq![EventView::RepositoryOpened, EventView::BranchesListed(entries)],
        ) == seq![
            ActionView::OpenRepository,
            ActionView::ListBranches(opt.kind()),
            ActionView::Ask(prompt_for(names_of(matching(entries, opt.kind())))),
        ],
{
    let kind = opt.kind();
    let i = choose|i: int| 0 <= i < entries.len() && (#[trigger] kept(entries[i], kind)) is Some;
    let at = lemma_matching_positions(entries, kind);
    assert(at.contains(i));
    assert(names_of(matching(entries, kind)).len() > 0);
    let opened = EventView::RepositoryOpened;
    let listed = EventView::BranchesListed(entries);
    let s0 = begin(Ok(opt));
    let s1 = next(s0, opened);
    let s2 = next(s1, listed);
    assert(seq![opened, listed] == seq![opened] + seq![listed]);
    lemma_requests_follow(s0, opened, seq![listed]);
    lemma_requests_follow(s1, listed, Seq::empty());
    lemma_requests_none(s2);
}

/// Run without the switch, on a repository that reports at least one local
/// branch: the prompt offers exactly the local branches of the report, in the
/// order of the report.
pub proof fn law_local_branches_offered(entries: Seq<Option<BranchRecordView>>)
    requires
        has_branch(entries, BranchType::Local),
    ensures
        requests(
            begin(Ok(Opt { remote: false })),
            seq![EventView::RepositoryOpened, EventView::BranchesListed(entries)],
        ) == seq![
            ActionView::OpenRepository,
            ActionView::ListBranches(BranchType::Local),
            ActionView::Ask(
                prompt_for(names_of(matching(entries, BranchType::Local))),
            ),
        ],
{
    law_branches_offered(Opt { remote: false }, entries);
}

/// Run with the switch, on a repository that reports at least one
/// remote-tracking branch: the prompt offers exactly the remote-tracking
/// branches of the report, in the order of the report.
pub proof fn law_remote_branches_offered(entries: Seq<Option<BranchRecordView>>)
    requires
        has_branch(entries, BranchType::Remote),
    ensures
        requests(
            begin(Ok(Opt { remote: true })),
            seq![EventView::RepositoryOpened, EventView::BranchesListed(entries)],
        ) == seq![
            ActionView::OpenRepository,
            ActionView::ListBranches(BranchType::Remote),
            ActionView::Ask(
                prompt_for(names_of(matching(entries, BranchType::Remote))),
            ),
        ],
{
    law_branches_offered(Opt { remote: true }, entries);
}

/// Whether a session that waits at the prompt has something to offer.
spec fn stocked(state: SessionView) -> bool {
    state matches SessionView::Asking { branches } ==> branches.len() > 0
}

/// A session with something to offer keeps something to offer.
proof fn lemma_stocked_run(state: SessionView, events: Seq<EventView>)
    requires
        stocked(state),
    ensures
        stocked(run(state, events)),
    decreases events.len(),
{
    if events.len() > 0 {
        lemma_stocked_run(state, events.drop_last());
    }
}

/// The prompt is never shown over nothing: however the run began and whatever
/// is reported, a prompt that the session asks for has at least one name on
/// offer.
pub proof fn law_prompt_never_empty(parsed: Result<Opt, ExitView>, events: Seq<EventView>)
    ensures
        forall|k: int|
            0 <= k <= events.len() ==> ((#[trigger] requests(
                begin(parsed),
                events,
            )[k]) matches ActionView::Ask(prompt) ==> prompt.options.len() > 0),
{
    assert forall|k: int| 0 <= k <= events.len() implies ((#[trigger] requests(
        begin(parsed),
        events,
    )[k]) matches ActionView::Ask(prompt) ==> prompt.options.len() > 0) by {
        lemma_stocked_run(begin(parsed), events.take(k));
    }
}

/// The prompt is closed over its list: the session goes on to resolve a name
/// only if that name is the answer and was on offer; on any other answer, and
/// on none, the run is over, cancelled.
pub proof fn law_choice_was_offered(branches: Seq<BranchRecordView>, answer: Option<Seq<char>>)
    ensures
        match next(SessionView::Asking { branches }, EventView::Answered(answer)) {
            SessionView::Resolving { name } => answer == Some(name) && names_of(branches).contains(
                name,
            ),
            after => after == (SessionView::Done { outcome: OutcomeView::Cancelled }),
        },
{
}

/// What follows a choice, when all goes well: the session asks for the name
/// to be resolved, for the tree of the commit it resolved to, for HEAD to go
/// where `head_for` says, and then leaves quietly with status 0.
pub proof fn law_checkout(
    branches: Seq<BranchRecordView>,
    name: Seq<char>,
    target: CheckoutTargetView,
)
    requires
        names_of(branches).contains(name),
    ensures
        requests(
            SessionView::Asking { branches },
            seq![
                EventView::Answered(Some(name)),
                EventView::Resolved(target),
                EventView::TreeWritten,
                EventView::HeadMoved,
            ],
        ) == seq![
            ActionView::Ask(prompt_for(names_of(branches))),
            ActionView::Resolve(name),
            ActionView::WriteTree(target.object),
            ActionView::MoveHead(head_for(target)),
            ActionView::Leave(silent()),
        ],
        run(
            SessionView::Asking { branches },
            seq![
                EventView::Answered(Some(name)),
                EventView::Resolved(target),
                EventView::TreeWritten,
                EventView::HeadMoved,
            ],
        ) == (SessionView::Done { outcome: OutcomeView::CheckedOut(head_for(target)) }),
{
    let e1 = EventView::Answered(Some(name));
    let e2 = EventView::Resolved(target);
    let e3 = EventView::TreeWritten;
    let e4 = EventView::HeadMoved;
    let s0 = SessionView::Asking { branches };
    let s1 = next(s0, e1);
    let s2 = next(s1, e2);
    let s3 = next(s2, e3);
    let s4 = next(s3, e4);
    assert(seq![e1, e2, e3, e4] == seq![e1] + seq![e2, e3, e4]);
    assert(seq![e2, e3, e4] == seq![e2] + seq![e3, e4]);
    assert(seq![e3, e4] == seq![e3] + seq![e4]);
    lemma_requests_follow(s0, e1, seq![e2, e3, e4]);
    lemma_requests_follow(s1, e2, seq![e3, e4]);
    lemma_requests_follow(s2, e3, seq![e4]);
    lemma_requests_follow(s3, e4, Seq::empty());
    lemma_requests_none(s4);
    lemma_run_follows(s0, e1, seq![e2, e3, e4]);
    lemma_run_follows(s1, e2, seq![e3, e4]);
    lemma_run_follows(s2, e3, seq![e4]);
    lemma_run_follows(s3, e4, Seq::empty());
    assert(requests(s0, seq![e1, e2, e3, e4]) =~= seq![
        pending(s0),
        pending(s1),
        pending(s2),
        pending(s3),
        pending(s4),
    ]);
}

/// Choosing a name that resolves through a reference: the tree of its commit
/// is asked for, then HEAD is attached to that reference by name, and the run
/// ends with status 0.
pub proof fn law_branch_attaches_head(
    branches: Seq<BranchRecordView>,
    name: Seq<char>,
    target: CheckoutTargetView,
    reference: Seq<char>,
)
    requires
        names_of(branches).contains(name),
        target.reference == Some(reference),
    ensures
        requests(
            SessionView::Asking { branches },
            seq![
                EventView::Answered(Some(name)),
                EventView::Resolved(target),
                EventView::TreeWritten,
                EventView::HeadMoved,
            ],
        ) == seq![
            ActionView::Ask(prompt_for(names_of(branches))),
            ActionView::Resolve(name),
            ActionView::WriteTree(target.object),
            ActionView::MoveHead(HeadView::Attached(reference)),
            ActionView::Leave(silent()),
        ],
        silent().code == 0,
{
    law_checkout(branches, name, target);
}

/// Choosing a name that resolves to a commit with no reference: the tree of
/// the commit is asked for, then HEAD is detached onto that very commit, and
/// the run ends with status 0.
pub proof fn law_commit_detaches_head(
    branches: Seq<BranchRecordView>,
    name: Seq<char>,
    target: CheckoutTargetView,
)
    requires
        names_of(branches).contains(name),
        target.reference is None,
    ensures
        requests(
            SessionView::Asking { branches },
            seq![
                EventView::Answered(Some(name)),
                EventView::Resolved(target),
                EventView::TreeWritten,
                EventView::HeadMoved,
            ],
        ) == seq![
            ActionView::Ask(prompt_for(names_of(branches))),
            ActionView::Resolve(name),
            ActionView::WriteTree(target.object),
            ActionView::MoveHead(HeadView::Detached(target.object)),
            ActionView::Leave(silent()),
        ],
        silent().code == 0,
{
    law_checkout(branches, name, target);
}

/// Checking out what is checked out already: if the working directory holds
/// the tree of `tree` and HEAD stands at `head`, and the chosen name leads just
/// there, then the session asks for that same tree and for HEAD to stand where
/// it stands, and the run ends well, with HEAD recorded where it was.
pub proof fn law_checkout_again(
    branches: Seq<BranchRecordView>,
    name: Seq<char>,
    target: CheckoutTargetView,
    tree: Seq<char>,
    head: HeadView,
)
    requires
        names_of(branches).contains(name),
        tree == target.object,
        head == head_for(target),
    ensures
        requests(
            SessionView::Asking { branches },
            seq![
                EventView::Answered(Some(name)),
                EventView::Resolved(target),
                EventView::TreeWritten,
                EventView::HeadMoved,
            ],
        ) == seq![
            ActionView::Ask(prompt_for(names_of(branches))),
            ActionView::Resolve(name),
            ActionView::WriteTree(tree),
            ActionView::MoveHead(head),
            ActionView::Leave(silent()),
        ],
        run(
            SessionView::Asking { branches },
            seq![
                EventView::Answered(Some(name)),
                EventView::Resolved(target),
                EventView::TreeWritten,
                EventView::HeadMoved,
            ],
        ) == (SessionView::Done { outcome: OutcomeView::CheckedOut(head) }),
        silent().code == 0,
{
    law_checkout(branches, name, target);
}

/// Calling the prompt off ends the run at once and for good: status 0, not a
/// character written, and whatever is reported afterwards the only request
/// left is to leave.
pub proof fn law_cancel_is_quiet(branches: Seq<BranchRecordView>, later: Seq<EventView>)
    ensures
        run(SessionView::Asking { branches }, seq![EventView::Answered(None)] + later) == (
        SessionView::Done { outcome: OutcomeView::Cancelled }),
        forall|k: int|
            1 <= k <= later.len() + 1 ==> #[trigger] requests(
                SessionView::Asking { branches },
                seq![EventView::Answered(None)] + later,
            )[k] == ActionView::Leave(silent()),
        silent().code == 0,
        silent().text.len() == 0,
{
    let s0 = SessionView::Asking { branches };
    let cancel = EventView::Answered(None);
    let over = SessionView::Done { outcome: OutcomeView::Cancelled };
    lemma_run_follows(s0, cancel, later);
    lemma_done_is_final(OutcomeView::Cancelled, later);
    lemma_requests_follow(s0, cancel, later);
    assert forall|k: int| 1 <= k <= later.len() + 1 implies #[trigger] requests(
        s0,
        seq![cancel] + later,
    )[k] == ActionView::Leave(silent()) by {
        lemma_done_is_final(OutcomeView::Cancelled, later.take(k - 1));
    }
}

/// Whether a request changes the repository: the working directory, the index
/// or HEAD.
pub open spec fn touches(action: ActionView) -> bool {
    action is WriteTree || action is MoveHead
}

/// Whether a report says that the user picked a name.
pub open spec fn picks(event: EventView) -> bool {
    event matches EventView::Answered(Some(_))
}

/// Whether a session has not come past the prompt: it is still on its way to
/// it, or waiting at it, or over.
spec fn unpicked(state: SessionView) -> bool {
    state is Opening || state is Listing || state is Asking || state is Done
}

/// One report that picks no name keeps a session on this side of the prompt.
proof fn lemma_unpicked_step(state: SessionView, event: EventView)
    requires
        unpicked(state),
        !picks(event),
    ensures
        unpicked(next(state, event)),
{
}

/// Reports that pick no name keep a session on this side of the prompt.
proof fn lemma_unpicked_run(state: SessionView, events: Seq<EventView>)
    requires
        unpicked(state),
        forall|i: int| 0 <= i < events.len() ==> !picks(#[trigger] events[i]),
    ensures
        unpicked(run(state, events)),
    decreases events.len(),
{
    if events.len() > 0 {
        lemma_unpicked_run(state, events.drop_last());
        lemma_unpicked_step(run(state, events.drop_last()), events.last());
    }
}

/// Unless the user picks a name, the repository is left as it was: however
/// the run began and whatever else is reported, the session never asks for a
/// tree to be written or for HEAD to be moved.
pub proof fn law_untouched_unless_picked(parsed: Result<Opt, ExitView>, events: Seq<EventView>)
    requires
        forall|i: int| 0 <= i < events.len() ==> !picks(#[trigger] events[i]),
    ensures
        forall|k: int|
            0 <= k <= events.len() ==> !touches(#[trigger] requests(begin(parsed), events)[k]),
{
    assert forall|k: int| 0 <= k <= events.len() implies !touches(
        #[trigger] requests(begin(parsed), events)[k],
    ) by {
        lemma_unpicked_run(begin(parsed), events.take(k));
    }
}

/// Whether one of the reports says that the tree was written.
pub open spec fn wrote(events: Seq<EventView>) -> bool {
    exists|j: int| 0 <= j < events.len() && #[trigger] events[j] is TreeWritten
}

/// A session that waits for HEAD to move has been told that the tree was
/// written.
proof fn lemma_moving_after_writing(parsed: Result<Opt, ExitView>, events: Seq<EventView>)
    ensures
        run(begin(parsed), events) is Moving ==> wrote(events),
    decreases events.len(),
{
    if events.len() > 0 {
        let before = events.drop_last();
        lemma_moving_after_writing(parsed, before);
        if run(begin(parsed), events) is Moving {
            if run(begin(parsed), before) is Moving {
                let j = choose|j: int| 0 <= j < before.len() && #[trigger] before[j] is TreeWritten;
                assert(events[j] is TreeWritten);
            } else {
                assert(events[events.len() - 1] is TreeWritten);
            }
        }
    }
}

/// HEAD follows the tree: however the run began and whatever is reported,
/// the session asks for HEAD to be moved only once it has been told that the
/// tree was written.
pub proof fn law_head_follows_tree(parsed: Result<Opt, ExitView>, events: Seq<EventView>)
    ensures
        forall|k: int|
            0 <= k <= events.len() && (#[trigger] requests(begin(parsed), events)[k]) is MoveHead
                ==> wrote(events.take(k)),
{
    assert forall|k: int|
        0 <= k <= events.len() && (#[trigger] requests(
            begin(parsed),
            events,
        )[k]) is MoveHead implies wrote(events.take(k)) by {
        lemma_moving_after_writing(parsed, events.take(k));
    }
}

/// Every failure is final, and told as it was reported: once a run has
/// failed, whatever is reported to it, all it asks for is to leave, with the
/// status of an aborted process and, on the error stream, one line made of
/// the headline of the failure's kind, a colon, and the cause word for word.
pub proof fn law_failure_is_final(kind: ErrorKind, cause: Seq<char>, later: Seq<EventView>)
    ensures
        run(failed(kind, cause), later) == failed(kind, cause),
        forall|k: int|
            0 <= k <= later.len() ==> #[trigger] requests(failed(kind, cause), later)[k]
                == ActionView::Leave(
                ExitView {
                    code: EXIT_FATAL as int,
                    stream: Stream::Stderr,
                    text: headline(kind) + ": "@ + cause + "\n"@,
                },
            ),
        EXIT_FATAL != 0,
{
    let outcome = OutcomeView::Failed(FailureView { kind, cause });
    lemma_done_is_final(outcome, later);
    assert forall|k: int| 0 <= k <= later.len() implies #[trigger] requests(
        failed(kind, cause),
        later,
    )[k] == pending(failed(kind, cause)) by {
        lemma_done_is_final(outcome, later.take(k));
    }
}

/// Outside any repository the run ends at once and for good: the prompt is
/// never shown, and all that is left to ask for is to leave, with the status
/// of a failure and, on the error stream, the diagnostic of a repository that
/// could not be opened, cause included.
pub proof fn law_missing_repository(opt: Opt, cause: Seq<char>, later: Seq<EventView>)
    ensures
        run(begin(Ok(opt)), seq![EventView::RepositoryMissing(cause)] + later) == failed(
            ErrorKind::RepositoryNotFound,
            cause,
        ),
        forall|k: int|
            0 <= k <= later.len() + 1 ==> !((#[trigger] requests(
                begin(Ok(opt)),
                seq![EventView::RepositoryMissing(cause)] + later,
            )[k]) is Ask),
        forall|k: int|
            1 <= k <= later.len() + 1 ==> #[trigger] requests(
                begin(Ok(opt)),
                seq![EventView::RepositoryMissing(cause)] + later,
            )[k] == ActionView::Leave(
                ExitView {
                    code: EXIT_FATAL as int,
                    stream: Stream::Stderr,
                    text: "failed to open"@ + ": "@ + cause + "\n"@,
                },
            ),
        EXIT_FATAL != 0,
{
    let s0 = begin(Ok(opt));
    let missing = EventView::RepositoryMissing(cause);
    lemma_run_follows(s0, missing, later);
    lemma_requests_follow(s0, missing, later);
    law_failure_is_final(ErrorKind::RepositoryNotFound, cause, later);
}

} // verus!
