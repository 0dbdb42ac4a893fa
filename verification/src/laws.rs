//! What holds of every run, whatever the judge and the file server answer.

use crate::client::{headers_for, record_list_request_for};
use crate::error::HarvestError;
use crate::harvest::{ActionView, EventView, HarvestView, OutcomeView, StageView};
use crate::judge::{problem_list_in, source_code_in, submission_in};
use crate::relay::{RelayState, UploadView};
use vstd::prelude::*;

verus! {

/// One event never disturbs what a run has settled: the run stays well
/// formed, it keeps its judge client, its session with the file server and
/// what it was asked for, and once the problem list is in, the list stays
/// as it is and the outcomes only grow, by one at most.
pub proof fn law_step_keeps_order(run: HarvestView, event: EventView)
    requires
        run.wf(),
    ensures
        run.step(event).wf(),
        run.step(event).cookie == run.cookie,
        run.step(event).relay == run.relay,
        run.step(event).problem_set == run.problem_set,
        run.step(event).user_id == run.user_id,
        !(run.stage is Listing) ==> {
            &&& run.step(event).problems == run.problems
            &&& run.outcomes.len() <= run.step(event).outcomes.len() <= run.outcomes.len() + 1
            &&& run.step(event).outcomes.take(run.outcomes.len() as int) == run.outcomes
        },
{
    let next = run.step(event);
    if !(run.stage is Listing) {
        assert(next.outcomes.take(run.outcomes.len() as int) =~= run.outcomes);
    }
}

/// However a run goes, there are never more outcomes than problems, and
/// every outcome is about the problem at its own position in the problem
/// list: so each position gets one outcome at most, in the list's order.
pub proof fn law_outcomes_follow_problems(start: HarvestView, events: Seq<EventView>)
    requires
        start.wf(),
    ensures
        start.run(events).wf(),
        start.run(events).outcomes.len() <= start.run(events).problems.len(),
        forall|i: int|
            0 <= i < start.run(events).outcomes.len() ==> (#[trigger] start.run(
                events,
            ).outcomes[i]).problem() == start.run(events).problems[i],
    decreases events.len(),
{
    if events.len() > 0 {
        law_outcomes_follow_problems(start, events.drop_last());
        law_step_keeps_order(start.run(events.drop_last()), events.last());
    }
}

/// However a run goes, it holds the session that it began with, in the
/// folder that was selected then, and every upload it asks for is for
/// that folder: the file named after the current problem.
pub proof fn law_run_keeps_its_session(start: HarvestView, events: Seq<EventView>)
    requires
        start.wf(),
    ensures
        start.run(events).relay == start.relay,
        start.run(events).relay.state == RelayState::FolderSelected,
        start.run(events).cookie == start.cookie,
        start.run(events).problem_set == start.problem_set,
        start.run(events).user_id == start.user_id,
        start.run(events).pending() matches ActionView::Put(upload) ==> upload.folder
            == start.relay.folder && upload.file_name == start.run(events).current() + ".cpp"@,
    decreases events.len(),
{
    if events.len() > 0 {
        law_run_keeps_its_session(start, events.drop_last());
        law_outcomes_follow_problems(start, events.drop_last());
        law_step_keeps_order(start.run(events.drop_last()), events.last());
    }
}

/// A finished run has exactly one outcome for each problem that the
/// problem-list reply named, in the order of that list.
pub proof fn law_finished_run_is_complete(start: HarvestView, events: Seq<EventView>)
    requires
        start.wf(),
        start.stage is Listing,
    ensures
        start.run(events).stage is Finished ==> {
            &&& events.len() > 0
            &&& problem_list_in(events[0].reply()) == Ok::<Seq<Seq<char>>, HarvestError>(
                start.run(events).problems,
            )
            &&& start.run(events).outcomes.len() == start.run(events).problems.len()
            &&& forall|i: int|
                0 <= i < start.run(events).problems.len() ==> (#[trigger] start.run(
                    events,
                ).outcomes[i]).problem() == start.run(events).problems[i]
        },
{
    law_outcomes_follow_problems(start, events);
    lemma_list_is_kept(start, events);
}

/// A run that began by asking for the problem list holds on to the list
/// that the first reply named.
proof fn lemma_list_is_kept(start: HarvestView, events: Seq<EventView>)
    requires
        start.wf(),
        start.stage is Listing,
    ensures
        events.len() == 0 ==> start.run(events) == start,
        events.len() > 0 ==> !(start.run(events).stage is Listing),
        events.len() > 0 ==> match problem_list_in(events[0].reply()) {
            Ok(problems) => start.run(events).problems == problems && !(start.run(
                events,
            ).stage is Aborted),
            Err(error) => start.run(events).stage == StageView::Aborted(error),
        },
    decreases events.len(),
{
    if events.len() > 0 {
        let front = events.drop_last();
        lemma_list_is_kept(start, front);
        law_outcomes_follow_problems(start, front);
        law_step_keeps_order(start.run(front), events.last());
        if front.len() > 0 {
            assert(front[0] == events[0]);
        }
    }
}

/// Every event moves a run that is not over forward, and the work on one
/// problem takes three events at most: so a run that has taken more than
/// three events for each problem of its list is over.
pub proof fn law_run_is_bounded(start: HarvestView, events: Seq<EventView>)
    requires
        start.wf(),
        start.stage is Listing,
    ensures
        !start.run(events).done() ==> events.len() <= start.run(events).progress(),
        !start.run(events).done() ==> start.run(events).progress() <= 3 * start.run(
            events,
        ).problems.len(),
        events.len() > 3 * start.run(events).problems.len() ==> start.run(events).done(),
    decreases events.len(),
{
    law_outcomes_follow_problems(start, events);
    if events.len() > 0 {
        let front = events.drop_last();
        law_run_is_bounded(start, front);
        law_outcomes_follow_problems(start, front);
        law_step_keeps_order(start.run(front), events.last());
    }
}

/// What a run has settled stays settled: once the problem list is in,
/// later events change neither the list nor an outcome already given.
pub proof fn law_outcomes_are_final(run: HarvestView, events: Seq<EventView>)
    requires
        run.wf(),
        !(run.stage is Listing),
    ensures
        !(run.run(events).stage is Listing),
        run.run(events).problems == run.problems,
        run.run(events).outcomes.len() >= run.outcomes.len(),
        run.run(events).outcomes.take(run.outcomes.len() as int) == run.outcomes,
    decreases events.len(),
{
    if events.len() > 0 {
        let front = run.run(events.drop_last());
        law_outcomes_are_final(run, events.drop_last());
        law_outcomes_follow_problems(run, events.drop_last());
        law_step_keeps_order(front, events.last());
        assert(run.run(events).outcomes.take(run.outcomes.len() as int) =~= front.outcomes.take(
            run.outcomes.len() as int,
        ));
    } else {
        assert(run.outcomes.take(run.outcomes.len() as int) =~= run.outcomes);
    }
}

/// A problem without an accepted submission is skipped: it gets the outcome
/// `Skipped` at once, the run turns to the next problem or is finished, and
/// whatever happens later, the outcome stays and the run never returns to
/// the problem, so neither a record nor an upload is ever asked for it.
pub proof fn law_no_submission_is_skipped(run: HarvestView, later: Seq<EventView>)
    requires
        run.wf(),
        run.stage is Resolving,
    ensures
        run.resolved(Ok(None)).outcomes == run.outcomes.push(OutcomeView::Skipped(run.current())),
        run.resolved(Ok(None)).stage is Resolving || run.resolved(Ok(None)).stage is Finished,
        run.resolved(Ok(None)).stage is Resolving ==> run.resolved(Ok(None)).pending()
            == ActionView::Get(
            record_list_request_for(
                run.cookie,
                run.problems[run.outcomes.len() as int + 1],
                run.user_id,
            ),
        ),
        run.resolved(Ok(None)).stage is Finished ==> run.resolved(Ok(None)).pending()
            == ActionView::Done,
        run.resolved(Ok(None)).run(later).outcomes.len() > run.outcomes.len(),
        run.resolved(Ok(None)).run(later).outcomes[run.outcomes.len() as int]
            == OutcomeView::Skipped(run.current()),
{
    let next = run.resolved(Ok(None));
    law_outcomes_are_final(next, later);
    assert(next.run(later).outcomes.take(next.outcomes.len() as int)[run.outcomes.len() as int]
        == next.run(later).outcomes[run.outcomes.len() as int]);
}

/// A record is asked for only when the record list named a submission, and
/// it is the record of that submission; an upload is asked for only when
/// the record held source text, and it is for the same problem.
pub proof fn law_requests_follow_findings(run: HarvestView, event: EventView)
    requires
        run.wf(),
        !run.done(),
    ensures
        run.step(event).stage matches StageView::Fetching(rid) ==> {
            &&& run.stage is Resolving
            &&& submission_in(event.reply()) == Ok::<Option<Seq<char>>, HarvestError>(Some(rid))
            &&& run.step(event).current() == run.current()
        },
        run.step(event).stage matches StageView::Uploading(code) ==> {
            &&& run.stage is Fetching
            &&& source_code_in(event.reply()) == Ok::<Seq<char>, HarvestError>(code)
            &&& run.step(event).current() == run.current()
        },
{
}

/// Where finding the submission, fetching the source text or storing the
/// file fails, the problem gets the outcome `Failed` with that failure, and
/// the run goes on with the next problem, or is finished after the last.
pub proof fn law_failure_is_recorded(run: HarvestView, error: HarvestError)
    requires
        run.wf(),
        run.stage is Resolving || run.stage is Fetching || run.stage is Uploading,
    ensures
        run.stage is Resolving ==> run.resolved(Err(error)) == run.settled(
            OutcomeView::Failed(run.current(), error),
        ),
        run.stage is Fetching ==> run.fetched(Err(error)) == run.settled(
            OutcomeView::Failed(run.current(), error),
        ),
        run.stage is Uploading ==> run.stored(Err(error)) == run.settled(
            OutcomeView::Failed(run.current(), error),
        ),
        run.settled(OutcomeView::Failed(run.current(), error)).outcomes == run.outcomes.push(
            OutcomeView::Failed(run.current(), error),
        ),
        run.settled(OutcomeView::Failed(run.current(), error)).problems == run.problems,
        run.outcomes.len() + 1 < run.problems.len() ==> {
            &&& run.settled(OutcomeView::Failed(run.current(), error)).stage is Resolving
            &&& run.settled(OutcomeView::Failed(run.current(), error)).current()
                == run.problems[run.outcomes.len() as int + 1]
        },
        run.outcomes.len() + 1 == run.problems.len() ==> run.settled(
            OutcomeView::Failed(run.current(), error),
        ).stage is Finished,
{
}

/// Each event is read as the answer to what was pending, and a failure it
/// means is the failure that is recorded: a lost or unreadable reply for a
/// request, a failed transfer for an upload.
pub proof fn law_step_records_the_failure(run: HarvestView, event: EventView, error: HarvestError)
    requires
        run.wf(),
    ensures
        run.failure(event) == Some(error) ==> run.step(event) == run.settled(
            OutcomeView::Failed(run.current(), error),
        ),
{
}

/// The source text that the record holds is uploaded unchanged, as the
/// whole content of the file named after the problem, into the folder of
/// the run's session; and once that upload is stored, the problem's outcome
/// is `Uploaded`.
pub proof fn law_code_is_relayed_unchanged(run: HarvestView, code: Seq<char>)
    requires
        run.wf(),
        run.stage is Fetching,
    ensures
        run.fetched(Ok(code)).pending() == ActionView::Put(
            UploadView {
                folder: run.relay.folder,
                file_name: run.current() + ".cpp"@,
                content: code,
            },
        ),
        run.fetched(Ok(code)).stored(Ok(())).outcomes == run.outcomes.push(
            OutcomeView::Uploaded(run.current()),
        ),
{
}

/// Every request that a run asks for carries the two headers of the judge
/// client: the content-only marker, and the cookie.
pub proof fn law_requests_carry_headers(run: HarvestView)
    ensures
        run.pending() matches ActionView::Get(request) ==> request.headers == headers_for(
            run.cookie,
        ),
        headers_for(run.cookie).len() == 2,
        headers_for(run.cookie)[0] == ("x-luogu-type"@, "content-only"@),
        headers_for(run.cookie)[1] == ("cookie"@, run.cookie),
{
}

} // verus!
