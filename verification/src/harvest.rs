//! The run itself: for each problem of a problem set, find the accepted
//! submission, fetch its source text and store it on the file server.
//!
//! The run is a state machine. Its state says what to ask of the outside
//! world next; the caller does that and hands back what happened.

use crate::client::{
    record_list_request_for, record_request_for, training_request_for, JudgeClient, Request,
    RequestView,
};
use crate::error::HarvestError;
use crate::judge::{
    get_code_by_rid, get_problem_list, get_problem_status, names_view, problem_list_in,
    source_code_in, submission_in, submission_view, text_view, Reply,
};
use crate::relay::{upload_for, RelaySession, RelayState, RelayView, Upload, UploadView};
use vstd::prelude::*;

verus! {

/// What became of one problem.
#[derive(Clone, Debug, PartialEq, Eq)]
pub enum Outcome {
    /// Its accepted source text was stored.
    Uploaded(String),
    /// The user has no accepted submission for it.
    Skipped(String),
    /// Finding, fetching or storing its source text failed.
    Failed(String, HarvestError),
}

/// An outcome as plain text.
pub enum OutcomeView {
    Uploaded(Seq<char>),
    Skipped(Seq<char>),
    Failed(Seq<char>, HarvestError),
}

impl OutcomeView {
    /// The problem that the outcome is about.
    pub open spec fn problem(self) -> Seq<char> {
        match self {
            OutcomeView::Uploaded(pid) => pid,
            OutcomeView::Skipped(pid) => pid,
            OutcomeView::Failed(pid, _) => pid,
        }
    }
}

impl View for Outcome {
    type V = OutcomeView;

    open spec fn view(&self) -> OutcomeView {
        match self {
            Outcome::Uploaded(pid) => OutcomeView::Uploaded(pid@),
            Outcome::Skipped(pid) => OutcomeView::Skipped(pid@),
            Outcome::Failed(pid, error) => OutcomeView::Failed(pid@, *error),
        }
    }
}

impl Outcome {
    /// The problem that the outcome is about.
    pub fn problem(&self) -> (pid: &str)
        ensures
            pid@ == self@.problem(),
    {
        match self {
            Outcome::Uploaded(pid) => pid.as_str(),
            Outcome::Skipped(pid) => pid.as_str(),
            Outcome::Failed(pid, _) => pid.as_str(),
        }
    }
}

/// What the caller is to do next.
#[derive(Clone, Debug, PartialEq, Eq)]
pub enum Action {
    /// Send this request to the judge and hand back the reply.
    Get(Request),
    /// Store this file in the selected folder and hand back whether it worked.
    Put(Upload),
    /// Nothing: the run is over.
    Done,
}

/// An action as plain text.
pub enum ActionView {
    Get(RequestView),
    Put(UploadView),
    Done,
}

impl View for Action {
    type V = ActionView;

    open spec fn view(&self) -> ActionView {
        match self {
            Action::Get(request) => ActionView::Get(request@),
            Action::Put(upload) => ActionView::Put(upload@),
            Action::Done => ActionView::Done,
        }
    }
}

/// What happened when the caller did what was asked.
#[derive(Clone, Debug, PartialEq, Eq)]
pub enum Event {
    /// The judge answered with this body.
    Body(String),
    /// The file was stored.
    Stored,
    /// The request or the upload failed in transport.
    Failed,
}

/// An event as plain text.
pub enum EventView {
    Body(Seq<char>),
    Stored,
    Failed,
}

impl View for Event {
    type V = EventView;

    open spec fn view(&self) -> EventView {
        match self {
            Event::Body(body) => EventView::Body(body@),
            Event::Stored => EventView::Stored,
            Event::Failed => EventView::Failed,
        }
    }
}

impl EventView {
    /// The event as the answer to a request: anything but a body means that
    /// the reply was lost.
    pub open spec fn reply(self) -> Option<Seq<char>> {
        match self {
            EventView::Body(body) => Some(body),
            _ => None,
        }
    }

    /// The event as the answer to an upload: anything but `Stored` means
    /// that the transfer failed.
    pub open spec fn stored(self) -> Result<(), HarvestError> {
        match self {
            EventView::Stored => Ok(()),
            _ => Err(HarvestError::Transport),
        }
    }
}

/// Where a run stands.
pub enum StageView {
    /// Waiting for the problem list.
    Listing,
    /// Waiting for the record list of the current problem.
    Resolving,
    /// Waiting for the record of this submission of the current problem.
    Fetching(Seq<char>),
    /// Waiting for the upload of this source text of the current problem.
    Uploading(Seq<char>),
    /// Every problem has its outcome.
    Finished,
    /// The problem list could not be had.
    Aborted(HarvestError),
}

/// A run as plain values: the cookie of its judge client, the session with
/// the file server that it uploads through, what it was asked to harvest,
/// and how far it has come. The current problem is the first without an
/// outcome.
pub struct HarvestView {
    pub cookie: Seq<char>,
    pub relay: RelayView,
    pub problem_set: nat,
    pub user_id: Seq<char>,
    pub problems: Seq<Seq<char>>,
    pub outcomes: Seq<OutcomeView>,
    pub stage: StageView,
}

impl HarvestView {
    /// A run that has not asked for anything yet.
    pub open spec fn start(
        cookie: Seq<char>,
        relay: RelayView,
        problem_set: nat,
        user_id: Seq<char>,
    ) -> HarvestView {
        HarvestView {
            cookie,
            relay,
            problem_set,
            user_id,
            problems: Seq::empty(),
            outcomes: Seq::empty(),
            stage: StageView::Listing,
        }
    }

    /// The session stands in the destination folder, every outcome so far
    /// is about the problem at its own position, and the stage fits the
    /// number of outcomes.
    pub open spec fn wf(self) -> bool {
        &&& self.relay.state == RelayState::FolderSelected
        &&& self.outcomes.len() <= self.problems.len()
        &&& forall|i: int|
            0 <= i < self.outcomes.len() ==> (#[trigger] self.outcomes[i]).problem()
                == self.problems[i]
        &&& match self.stage {
            StageView::Listing => self.problems.len() == 0,
            StageView::Aborted(_) => self.problems.len() == 0,
            StageView::Finished => self.outcomes.len() == self.problems.len(),
            _ => self.outcomes.len() < self.problems.len(),
        }
    }

    /// Whether the run is over.
    pub open spec fn done(self) -> bool {
        self.stage is Finished || self.stage is Aborted
    }

    /// The problem that is being worked on.
    pub open spec fn current(self) -> Seq<char>
        recommends
            self.outcomes.len() < self.problems.len(),
    {
        self.problems[self.outcomes.len() as int]
    }

    /// What the run asks of the caller in this state.
    pub open spec fn pending(self) -> ActionView {
        match self.stage {
            StageView::Listing => ActionView::Get(
                training_request_for(self.cookie, self.problem_set),
            ),
            StageView::Resolving => ActionView::Get(
                record_list_request_for(self.cookie, self.current(), self.user_id),
            ),
            StageView::Fetching(rid) => ActionView::Get(record_request_for(self.cookie, rid)),
            StageView::Uploading(code) => ActionView::Put(
                upload_for(self.relay.folder, self.current(), code),
            ),
            StageView::Finished => ActionView::Done,
            StageView::Aborted(_) => ActionView::Done,
        }
    }

    /// The run once the current problem has `outcome`: it turns to the next
    /// problem, or is finished when there is none.
    pub open spec fn settled(self, outcome: OutcomeView) -> HarvestView {
        HarvestView {
            outcomes: self.outcomes.push(outcome),
            stage: if self.outcomes.len() + 1 < self.problems.len() {
                StageView::Resolving
            } else {
                StageView::Finished
            },
            ..self
        }
    }

    /// The run once the problem list is read: a failure ends it, a list
    /// starts the work on its first problem, an empty list finishes it. A
    /// run that is not waiting for the list stays as it is.
    pub open spec fn listed(self, found: Result<Seq<Seq<char>>, HarvestError>) -> HarvestView {
        if !(self.stage is Listing) {
            self
        } else {
            self.with_list(found)
        }
    }

    /// The run with the problem list that was found, or ended by the failure.
    pub open spec fn with_list(self, found: Result<Seq<Seq<char>>, HarvestError>) -> HarvestView {
        match found {
            Ok(problems) => HarvestView {
                problems,
                outcomes: Seq::empty(),
                stage: if problems.len() > 0 {
                    StageView::Resolving
                } else {
                    StageView::Finished
                },
                ..self
            },
            Err(error) => HarvestView {
                problems: Seq::empty(),
                outcomes: Seq::empty(),
                stage: StageView::Aborted(error),
                ..self
            },
        }
    }

    /// The run once the record list of the current problem is read: a
    /// submission is fetched next, none means the problem is skipped, a
    /// failure is the problem's outcome. A run that is not waiting for a
    /// record list stays as it is.
    pub open spec fn resolved(self, found: Result<Option<Seq<char>>, HarvestError>) -> HarvestView {
        if !(self.stage is Resolving) {
            self
        } else {
            match found {
                Ok(Some(rid)) => HarvestView { stage: StageView::Fetching(rid), ..self },
                Ok(None) => self.settled(OutcomeView::Skipped(self.current())),
                Err(error) => self.settled(OutcomeView::Failed(self.current(), error)),
            }
        }
    }

    /// The run once the record of the current problem is read: its source
    /// text is uploaded next, a failure is the problem's outcome. A run that
    /// is not waiting for a record stays as it is.
    pub open spec fn fetched(self, found: Result<Seq<char>, HarvestError>) -> HarvestView {
        if !(self.stage is Fetching) {
            self
        } else {
            match found {
                Ok(code) => HarvestView { stage: StageView::Uploading(code), ..self },
                Err(error) => self.settled(OutcomeView::Failed(self.current(), error)),
            }
        }
    }

    /// The run once the upload for the current problem is over: the problem
    /// is uploaded, or failed. A run that is not waiting for an upload stays
    /// as it is.
    pub open spec fn stored(self, found: Result<(), HarvestError>) -> HarvestView {
        if !(self.stage is Uploading) {
            self
        } else {
            match found {
                Ok(_) => self.settled(OutcomeView::Uploaded(self.current())),
                Err(error) => self.settled(OutcomeView::Failed(self.current(), error)),
            }
        }
    }

    /// The run after one event: the event is read as the answer to what was
    /// pending. A run that is over stays as it is.
    pub open spec fn step(self, event: EventView) -> HarvestView {
        match self.stage {
            StageView::Listing => self.listed(problem_list_in(event.reply())),
            StageView::Resolving => self.resolved(submission_in(event.reply())),
            StageView::Fetching(_) => self.fetched(source_code_in(event.reply())),
            StageView::Uploading(_) => self.stored(event.stored()),
            StageView::Finished => self,
            StageView::Aborted(_) => self,
        }
    }

    /// The failure that an event means for the current problem, if it
    /// means one: the record list or the record could not be had or read,
    /// or the upload did not go through.
    pub open spec fn failure(self, event: EventView) -> Option<HarvestError> {
        match self.stage {
            StageView::Resolving => match submission_in(event.reply()) {
                Err(error) => Some(error),
                Ok(_) => None,
            },
            StageView::Fetching(_) => match source_code_in(event.reply()) {
                Err(error) => Some(error),
                Ok(_) => None,
            },
            StageView::Uploading(_) => match event.stored() {
                Err(error) => Some(error),
                Ok(_) => None,
            },
            _ => None,
        }
    }

    /// The run after a sequence of events.
    pub open spec fn run(self, events: Seq<EventView>) -> HarvestView
        decreases events.len(),
    {
        if events.len() == 0 {
            self
        } else {
            self.run(events.drop_last()).step(events.last())
        }
    }

    /// The most events that a run can have taken to come to this state: one
    /// for the list, and three for each problem that has its outcome.
    pub open spec fn progress(self) -> nat {
        match self.stage {
            StageView::Listing => 0,
            StageView::Resolving => 1 + 3 * self.outcomes.len(),
            StageView::Fetching(_) => 2 + 3 * self.outcomes.len(),
            StageView::Uploading(_) => 3 + 3 * self.outcomes.len(),
            StageView::Finished => 1 + 3 * self.outcomes.len(),
            StageView::Aborted(_) => 1,
        }
    }
}

/// Where a run stands, with the text it holds on to.
#[derive(Clone, Debug, PartialEq, Eq)]
pub enum Stage {
    Listing,
    Resolving,
    Fetching(String),
    Uploading(String),
    Finished,
    Aborted(HarvestError),
}

impl View for Stage {
    type V = StageView;

    open spec fn view(&self) -> StageView {
        match self {
            Stage::Listing => StageView::Listing,
            Stage::Resolving => StageView::Resolving,
            Stage::Fetching(rid) => StageView::Fetching(rid@),
            Stage::Uploading(code) => StageView::Uploading(code@),
            Stage::Finished => StageView::Finished,
            Stage::Aborted(error) => StageView::Aborted(*error),
        }
    }
}

/// The outcomes of a list, as plain text.
pub open spec fn outcomes_view(outcomes: Seq<Outcome>) -> Seq<OutcomeView> {
    outcomes.map_values(|outcome: Outcome| outcome@)
}

/// One run over a problem set, for one user, with one judge client, into
/// the folder that the session has selected. A run is well formed at all
/// times: among other things, its session stands in the destination folder.
pub struct Harvest {
    judge: JudgeClient,
    problem_set: u64,
    user_id: String,
    relay: RelaySession,
    problems: Vec<String>,
    outcomes: Vec<Outcome>,
    stage: Stage,
}

impl View for Harvest {
    type V = HarvestView;

    closed spec fn view(&self) -> HarvestView {
        HarvestView {
            cookie: self.judge@,
            relay: self.relay@,
            problem_set: self.problem_set as nat,
            user_id: self.user_id@,
            problems: self.problems.deep_view(),
            outcomes: outcomes_view(self.outcomes@),
            stage: self.stage@,
        }
    }
}

impl Harvest {
    #[verifier::type_invariant]
    spec fn inv(self) -> bool {
        self@.wf()
    }

    /// Begins a run. The session must stand in the destination folder; the
    /// run takes it over as it is, and uploads into that folder.
    pub fn begin(
        problem_set: u64,
        user_id: String,
        judge: JudgeClient,
        relay: RelaySession,
    ) -> (harvest: Harvest)
        requires
            relay@.state == RelayState::FolderSelected,
        ensures
            harvest@ == HarvestView::start(judge@, relay@, problem_set as nat, user_id@),
            harvest@.wf(),
    {
        let harvest = Harvest {
            judge,
            problem_set,
            user_id,
            relay,
            problems: Vec::new(),
            outcomes: Vec::new(),
            stage: Stage::Listing,
        };
        assert(harvest.problems.deep_view() =~= Seq::empty());
        assert(outcomes_view(harvest.outcomes@) =~= Seq::empty());
        harvest
    }

    /// What the caller is to do next. Every run is well formed, whatever
    /// has happened to it.
    pub fn pending(&self) -> (action: Action)
        ensures
            action@ == self@.pending(),
            self@.wf(),
    {
        proof {
            use_type_invariant(self);
        }
        match &self.stage {
            Stage::Listing => Action::Get(self.judge.training_request(self.problem_set)),
            Stage::Resolving => {
                let pid = &self.problems[self.outcomes.len()];
                Action::Get(self.judge.record_list_request(pid.as_str(), self.user_id.as_str()))
            },
            Stage::Fetching(rid) => Action::Get(self.judge.record_request(rid.as_str())),
            Stage::Uploading(code) => {
                let pid = &self.problems[self.outcomes.len()];
                Action::Put(self.relay.ftp_put(pid.as_str(), code.as_str()))
            },
            Stage::Finished => Action::Done,
            Stage::Aborted(_) => Action::Done,
        }
    }

    /// Whether the run is over.
    pub fn is_done(&self) -> (done: bool)
        ensures
            done == self@.done(),
    {
        match &self.stage {
            Stage::Finished => true,
            Stage::Aborted(_) => true,
            _ => false,
        }
    }

    /// The session with the file server that the run uploads through: the
    /// one it began with, standing in the destination folder.
    pub fn session(&self) -> (session: &RelaySession)
        ensures
            session@ == self@.relay,
            session@.state == RelayState::FolderSelected,
    {
        proof {
            use_type_invariant(self);
        }
        &self.relay
    }

    /// Where the run stands.
    pub fn stage(&self) -> (stage: &Stage)
        ensures
            stage@ == self@.stage,
    {
        &self.stage
    }

    /// The outcomes so far, one per problem, in the order of the problem list.
    pub fn outcomes(&self) -> (outcomes: &Vec<Outcome>)
        ensures
            outcomes_view(outcomes@) == self@.outcomes,
            self@.wf(),
    {
        proof {
            use_type_invariant(self);
        }
        &self.outcomes
    }

    /// The result of the run: the failure that ended it, or else the
    /// outcomes so far, which are complete once the run is finished.
    pub fn report(self) -> (report: Result<Vec<Outcome>, HarvestError>)
        ensures
            match self@.stage {
                StageView::Aborted(error) => report == Err::<Vec<Outcome>, _>(error),
                _ => report matches Ok(outcomes) && outcomes_view(outcomes@) == self@.outcomes,
            },
            self@.wf(),
    {
        proof {
            use_type_invariant(&self);
        }
        match self.stage {
            Stage::Aborted(error) => Err(error),
            _ => Ok(self.outcomes),
        }
    }

    /// The current problem gets its outcome, and the run turns to the next one.
    fn settle(self, outcome: Outcome) -> (next: Harvest)
        requires
            self@.outcomes.len() < self@.problems.len(),
            outcome@.problem() == self@.current(),
        ensures
            next@ == self@.settled(outcome@),
    {
        proof {
            use_type_invariant(&self);
        }
        let ghost before = self@;
        let Harvest { judge, problem_set, user_id, relay, problems, mut outcomes, stage: _ } = self;
        outcomes.push(outcome);
        assert(outcomes_view(outcomes@) =~= before.outcomes.push(outcome@));
        let stage = if outcomes.len() < problems.len() {
            Stage::Resolving
        } else {
            Stage::Finished
        };
        Harvest { judge, problem_set, user_id, relay, problems, outcomes, stage }
    }

    /// The current problem, for an outcome to carry.
    fn current(&self) -> (pid: String)
        requires
            self@.outcomes.len() < self@.problems.len(),
        ensures
            pid@ == self@.current(),
    {
        self.problems[self.outcomes.len()].clone()
    }

    /// Goes on with what the problem-list request brought. A run that is
    /// not waiting for the list stays as it is.
    pub fn on_problem_list(self, found: Result<Vec<String>, HarvestError>) -> (next: (
        Harvest,
        Action,
    ))
        ensures
            next.0@ == self@.listed(names_view(found)),
            next.1@ == next.0@.pending(),
            next.0@.wf(),
    {
        proof {
            use_type_invariant(&self);
        }
        let next = match &self.stage {
            Stage::Listing => self.with_list(found),
            _ => self,
        };
        let action = next.pending();
        (next, action)
    }

    /// Goes on with what the record-list request for the current problem
    /// brought. A run that is not waiting for a record list stays as it is.
    pub fn on_submission(self, found: Result<Option<String>, HarvestError>) -> (next: (
        Harvest,
        Action,
    ))
        ensures
            next.0@ == self@.resolved(submission_view(found)),
            next.1@ == next.0@.pending(),
            next.0@.wf(),
    {
        proof {
            use_type_invariant(&self);
        }
        let next = match &self.stage {
            Stage::Resolving => match found {
                Ok(Some(rid)) => self.at_stage(Stage::Fetching(rid)),
                Ok(None) => {
                    let pid = self.current();
                    self.settle(Outcome::Skipped(pid))
                },
                Err(error) => {
                    let pid = self.current();
                    self.settle(Outcome::Failed(pid, error))
                },
            },
            _ => self,
        };
        let action = next.pending();
        (next, action)
    }

    /// Goes on with what the record request for the current problem
    /// brought. A run that is not waiting for a record stays as it is.
    pub fn on_code(self, found: Result<String, HarvestError>) -> (next: (Harvest, Action))
        ensures
            next.0@ == self@.fetched(text_view(found)),
            next.1@ == next.0@.pending(),
            next.0@.wf(),
    {
        proof {
            use_type_invariant(&self);
        }
        let next = match &self.stage {
            Stage::Fetching(_) => match found {
                Ok(code) => self.at_stage(Stage::Uploading(code)),
                Err(error) => {
                    let pid = self.current();
                    self.settle(Outcome::Failed(pid, error))
                },
            },
            _ => self,
        };
        let action = next.pending();
        (next, action)
    }

    /// Goes on with how the upload for the current problem went. A run that
    /// is not waiting for an upload stays as it is.
    pub fn on_stored(self, found: Result<(), HarvestError>) -> (next: (Harvest, Action))
        ensures
            next.0@ == self@.stored(found),
            next.1@ == next.0@.pending(),
            next.0@.wf(),
    {
        proof {
            use_type_invariant(&self);
        }
        let next = match &self.stage {
            Stage::Uploading(_) => {
                let pid = self.current();
                match found {
                    Ok(_) => self.settle(Outcome::Uploaded(pid)),
                    Err(error) => self.settle(Outcome::Failed(pid, error)),
                }
            },
            _ => self,
        };
        let action = next.pending();
        (next, action)
    }

    /// Takes what happened when the caller did what was pending, and says
    /// what to do next. Once the run is over nothing changes any more.
    pub fn step(self, event: Event) -> (next: (Harvest, Action))
        ensures
            next.0@ == self@.step(event@),
            next.1@ == next.0@.pending(),
            next.0@.wf(),
    {
        proof {
            use_type_invariant(&self);
        }
        match &self.stage {
            Stage::Listing => {
                let found = get_problem_list(&reply_of(event));
                self.on_problem_list(found)
            },
            Stage::Resolving => {
                let found = get_problem_status(&reply_of(event));
                self.on_submission(found)
            },
            Stage::Fetching(_) => {
                let found = get_code_by_rid(&reply_of(event));
                self.on_code(found)
            },
            Stage::Uploading(_) => {
                let found = stored_of(&event);
                self.on_stored(found)
            },
            _ => {
                let action = self.pending();
                (self, action)
            },
        }
    }

    /// The run with the problem list that was found, or ended by the failure.
    fn with_list(self, found: Result<Vec<String>, HarvestError>) -> (next: Harvest)
        requires
            self@.stage is Listing,
        ensures
            next@ == self@.with_list(names_view(found)),
    {
        proof {
            use_type_invariant(&self);
        }
        let Harvest { judge, problem_set, user_id, relay, problems: _, outcomes: _, stage: _ } =
            self;
        let outcomes: Vec<Outcome> = Vec::new();
        assert(outcomes_view(outcomes@) =~= Seq::empty());
        match found {
            Ok(problems) => {
                let stage = if problems.len() > 0 {
                    Stage::Resolving
                } else {
                    Stage::Finished
                };
                Harvest { judge, problem_set, user_id, relay, problems, outcomes, stage }
            },
            Err(error) => {
                let problems: Vec<String> = Vec::new();
                assert(problems.deep_view() =~= Seq::empty());
                Harvest {
                    judge,
                    problem_set,
                    user_id,
                    relay,
                    problems,
                    outcomes,
                    stage: Stage::Aborted(error),
                }
            },
        }
    }

    /// The run at another stage of the work on the current problem.
    fn at_stage(self, stage: Stage) -> (next: Harvest)
        requires
            self@.outcomes.len() < self@.problems.len(),
            stage is Fetching || stage is Uploading,
        ensures
            next@ == (HarvestView { stage: stage@, ..self@ }),
    {
        proof {
            use_type_invariant(&self);
        }
        let Harvest { judge, problem_set, user_id, relay, problems, outcomes, stage: _ } = self;
        Harvest { judge, problem_set, user_id, relay, problems, outcomes, stage }
    }
}

/// An event read as the answer to a request.
fn reply_of(event: Event) -> (reply: Reply)
    ensures
        reply@ == event@.reply(),
{
    match event {
        Event::Body(body) => Reply::Body(body),
        _ => Reply::Lost,
    }
}

/// An event read as the answer to an upload.
fn stored_of(event: &Event) -> (stored: Result<(), HarvestError>)
    ensures
        stored == event@.stored(),
{
    match event {
        Event::Stored => Ok(()),
        _ => Err(HarvestError::Transport),
    }
}

} // verus!
