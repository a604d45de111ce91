//! What a WebSocket session does in answer to each frame of its client.
//!
//! The transport reads a frame, says what kind of request it holds, and gets
//! back the steps to take: what to send, which work to start or to stop, and
//! whether the session is over. The tracking session remembers one thing,
//! whether a tracking task runs; the analysis session remembers nothing.

use vstd::prelude::*;

verus! {

/// A frame of the client of a tracking session, as the transport read it.
#[derive(Clone, Debug, PartialEq, Eq)]
pub enum TrackingRequest {
    /// A message that asks for one simulation run.
    Simulate,
    /// A message that asks for the stream of target positions.
    StartTracking,
    /// A message of a kind that asks for nothing.
    Other,
    /// A text that is no message, with the words of the parser.
    Malformed(String),
    /// The closing frame.
    Close,
    /// A frame that holds no text and does not close.
    Ignored,
}

/// A step that the transport takes for a tracking session.
#[derive(Clone, Debug, PartialEq, Eq)]
pub enum TrackingAction {
    /// Send a status message with this text.
    SendStatus(String),
    /// Run the simulation off the session's task and send what comes of it.
    RunSimulation,
    /// Stop the tracking task.
    StopTracking,
    /// Start a tracking task.
    StartTracking,
    /// Send an error message with this text.
    SendError(String),
    /// Read no further frame.
    Finish,
}

/// A frame of the client of an analysis session, as the transport read it.
#[derive(Clone, Debug, PartialEq, Eq)]
pub enum AnalysisRequest {
    /// A message that asks for the analysis of the drone with this number.
    Analyze(usize),
    /// A message of a kind that asks for nothing.
    Other,
    /// A text that is no message, with the words of the parser.
    Malformed(String),
    /// The closing frame.
    Close,
    /// A frame that holds no text and does not close.
    Ignored,
}

/// A step that the transport takes for an analysis session.
#[derive(Clone, Debug, PartialEq, Eq)]
pub enum AnalysisAction {
    /// Send a status message with this text.
    SendStatus(String),
    /// Run the analysis off the session's task and send what comes of it.
    RunAnalysis,
    /// Send an error message with this text.
    SendError(String),
    /// Read no further frame.
    Finish,
}

/// How a piece of work ended that ran off the session's task.
#[derive(Clone, Debug, PartialEq, Eq)]
pub enum TaskOutcome {
    /// It gave its result.
    Finished,
    /// It gave an error, with the error's words.
    Failed(String),
    /// The task itself broke off, with the words of the runtime.
    Aborted(String),
}

/// A tracking request with its text as a sequence of characters.
pub enum TrackingRequestModel {
    Simulate,
    StartTracking,
    Other,
    Malformed(Seq<char>),
    Close,
    Ignored,
}

/// A tracking step with its text as a sequence of characters.
pub enum TrackingActionModel {
    SendStatus(Seq<char>),
    RunSimulation,
    StopTracking,
    StartTracking,
    SendError(Seq<char>),
    Finish,
}

/// An analysis request with its text as a sequence of characters.
pub enum AnalysisRequestModel {
    Analyze(nat),
    Other,
    Malformed(Seq<char>),
    Close,
    Ignored,
}

/// An analysis step with its text as a sequence of characters.
pub enum AnalysisActionModel {
    SendStatus(Seq<char>),
    RunAnalysis,
    SendError(Seq<char>),
    Finish,
}

/// The end of a piece of work with its text as a sequence of characters.
pub enum TaskOutcomeModel {
    Finished,
    Failed(Seq<char>),
    Aborted(Seq<char>),
}

impl View for TrackingRequest {
    type V = TrackingRequestModel;

    open spec fn view(&self) -> TrackingRequestModel {
        match self {
            TrackingRequest::Simulate => TrackingRequestModel::Simulate,
            TrackingRequest::StartTracking => TrackingRequestModel::StartTracking,
            TrackingRequest::Other => TrackingRequestModel::Other,
            TrackingRequest::Malformed(words) => TrackingRequestModel::Malformed(words@),
            TrackingRequest::Close => TrackingRequestModel::Close,
            TrackingRequest::Ignored => TrackingRequestModel::Ignored,
        }
    }
}

impl View for TrackingAction {
    type V = TrackingActionModel;

    open spec fn view(&self) -> TrackingActionModel {
        match self {
            TrackingAction::SendStatus(text) => TrackingActionModel::SendStatus(text@),
            TrackingAction::RunSimulation => TrackingActionModel::RunSimulation,
            TrackingAction::StopTracking => TrackingActionModel::StopTracking,
            TrackingAction::StartTracking => TrackingActionModel::StartTracking,
            TrackingAction::SendError(text) => TrackingActionModel::SendError(text@),
            TrackingAction::Finish => TrackingActionModel::Finish,
        }
    }
}

impl View for AnalysisRequest {
    type V = AnalysisRequestModel;

    open spec fn view(&self) -> AnalysisRequestModel {
        match self {
            AnalysisRequest::Analyze(drone_id) => AnalysisRequestModel::Analyze(*drone_id as nat),
            AnalysisRequest::Other => AnalysisRequestModel::Other,
            AnalysisRequest::Malformed(words) => AnalysisRequestModel::Malformed(words@),
            AnalysisRequest::Close => AnalysisRequestModel::Close,
            AnalysisRequest::Ignored => AnalysisRequestModel::Ignored,
        }
    }
}

impl View for AnalysisAction {
    type V = AnalysisActionModel;

    open spec fn view(&self) -> AnalysisActionModel {
        match self {
            AnalysisAction::SendStatus(text) => AnalysisActionModel::SendStatus(text@),
            AnalysisAction::RunAnalysis => AnalysisActionModel::RunAnalysis,
            AnalysisAction::SendError(text) => AnalysisActionModel::SendError(text@),
            AnalysisAction::Finish => AnalysisActionModel::Finish,
        }
    }
}

impl View for TaskOutcome {
    type V = TaskOutcomeModel;

    open spec fn view(&self) -> TaskOutcomeModel {
        match self {
            TaskOutcome::Finished => TaskOutcomeModel::Finished,
            TaskOutcome::Failed(words) => TaskOutcomeModel::Failed(words@),
            TaskOutcome::Aborted(words) => TaskOutcomeModel::Aborted(words@),
        }
    }
}

/// The digit `d` as a character.
pub open spec fn digit(d: nat) -> Seq<char> {
    if d == 0 {
        "0"@
    } else if d == 1 {
        "1"@
    } else if d == 2 {
        "2"@
    } else if d == 3 {
        "3"@
    } else if d == 4 {
        "4"@
    } else if d == 5 {
        "5"@
    } else if d == 6 {
        "6"@
    } else if d == 7 {
        "7"@
    } else if d == 8 {
        "8"@
    } else {
        "9"@
    }
}

/// The number `n` in decimal digits, without leading zeros.
pub open spec fn decimal(n: nat) -> Seq<char>
    decreases n,
{
    if n < 10 {
        digit(n)
    } else {
        decimal(n / 10) + digit(n % 10)
    }
}

/// The steps of a tracking session for one request, and whether a tracking
/// task runs after them, given whether one ran before.
///
/// A request for a simulation is answered by a status message, then the run.
/// A request for tracking stops the task that runs, if one does, and starts
/// a new one. A text that is no message is answered by an error message. The
/// closing frame stops the task that runs and ends the session. Nothing else
/// has an effect.
pub open spec fn tracking_reaction(tracking: bool, request: TrackingRequestModel) -> (
    bool,
    Seq<TrackingActionModel>,
) {
    match request {
        TrackingRequestModel::Simulate => (
            tracking,
            seq![
                TrackingActionModel::SendStatus("Running simulation..."@),
                TrackingActionModel::RunSimulation,
            ],
        ),
        TrackingRequestModel::StartTracking => (
            true,
            if tracking {
                seq![TrackingActionModel::StopTracking, TrackingActionModel::StartTracking]
            } else {
                seq![TrackingActionModel::StartTracking]
            },
        ),
        TrackingRequestModel::Other => (tracking, seq![]),
        TrackingRequestModel::Malformed(words) => (
            tracking,
            seq![TrackingActionModel::SendError("Invalid message format: "@ + words)],
        ),
        TrackingRequestModel::Close => (
            false,
            if tracking {
                seq![TrackingActionModel::StopTracking, TrackingActionModel::Finish]
            } else {
                seq![TrackingActionModel::Finish]
            },
        ),
        TrackingRequestModel::Ignored => (tracking, seq![]),
    }
}

/// The steps of an analysis session for one request.
///
/// A request for an analysis is answered by a status message that names the
/// drone, then the analysis. A text that is no message is answered by an
/// error message. The closing frame ends the session. Nothing else has an
/// effect.
pub open spec fn analysis_reaction(request: AnalysisRequestModel) -> Seq<AnalysisActionModel> {
    match request {
        AnalysisRequestModel::Analyze(drone_id) => seq![
            AnalysisActionModel::SendStatus("Analyzing drone #"@ + decimal(drone_id) + "..."@),
            AnalysisActionModel::RunAnalysis,
        ],
        AnalysisRequestModel::Other => seq![],
        AnalysisRequestModel::Malformed(words) => seq![
            AnalysisActionModel::SendError("Invalid message format: "@ + words),
        ],
        AnalysisRequestModel::Close => seq![AnalysisActionModel::Finish],
        AnalysisRequestModel::Ignored => seq![],
    }
}

/// The text of the error message that tells the client how a piece of work
/// ended, if it did not give its result: the words of the error for a
/// failure, and for a task that broke off the words of the runtime after
/// `aborted_label`.
pub open spec fn outcome_error(outcome: TaskOutcomeModel, aborted_label: Seq<char>) -> Option<
    Seq<char>,
> {
    match outcome {
        TaskOutcomeModel::Finished => None,
        TaskOutcomeModel::Failed(words) => Some(words),
        TaskOutcomeModel::Aborted(words) => Some(aborted_label + words),
    }
}

/// The views of the steps in `actions`, in their order.
pub open spec fn tracking_steps(actions: Seq<TrackingAction>) -> Seq<TrackingActionModel> {
    actions.map_values(|a: TrackingAction| a@)
}

/// The views of the steps in `actions`, in their order.
pub open spec fn analysis_steps(actions: Seq<AnalysisAction>) -> Seq<AnalysisActionModel> {
    actions.map_values(|a: AnalysisAction| a@)
}

/// What a tracking session does for a run of requests, one after the
/// other: whether a tracking task runs in the end, and all steps in their
/// order.
pub open spec fn tracking_run(tracking: bool, requests: Seq<TrackingRequestModel>) -> (
    bool,
    Seq<TrackingActionModel>,
)
    decreases requests.len(),
{
    if requests.len() == 0 {
        (tracking, seq![])
    } else {
        let before = tracking_run(tracking, requests.drop_last());
        let last = tracking_reaction(before.0, requests.last());
        (last.0, before.1 + last.1)
    }
}

/// How many tracking tasks run after `actions`, if none ran before them:
/// one more with each start, one less with each stop.
pub open spec fn tasks_after(actions: Seq<TrackingActionModel>) -> int
    decreases actions.len(),
{
    if actions.len() == 0 {
        0
    } else {
        tasks_after(actions.drop_last()) + match actions.last() {
            TrackingActionModel::StartTracking => 1int,
            TrackingActionModel::StopTracking => -1int,
            _ => 0int,
        }
    }
}

/// The tasks after two runs of steps are those after the first and those
/// after the second together.
proof fn lemma_tasks_after_both(first: Seq<TrackingActionModel>, second: Seq<TrackingActionModel>)
    ensures
        tasks_after(first + second) == tasks_after(first) + tasks_after(second),
    decreases second.len(),
{
    if second.len() == 0 {
        assert(first + second =~= first);
    } else {
        lemma_tasks_after_both(first, second.drop_last());
        assert((first + second).drop_last() =~= first + second.drop_last());
        assert((first + second).last() == second.last());
    }
}

/// One for a session that tracks, zero for one that does not.
pub open spec fn task_count(tracking: bool) -> int {
    if tracking {
        1
    } else {
        0
    }
}

/// Through the steps for one request one tracking task runs at most, and
/// after them one runs where the session tracks, and none where it does not.
proof fn lemma_tasks_after_reaction(tracking: bool, request: TrackingRequestModel, upto: int)
    requires
        0 <= upto <= tracking_reaction(tracking, request).1.len(),
    ensures
        0 <= task_count(tracking) + tasks_after(tracking_reaction(tracking, request).1.take(upto))
            <= 1,
        task_count(tracking) + tasks_after(tracking_reaction(tracking, request).1) == task_count(
            tracking_reaction(tracking, request).0,
        ),
{
    let steps = tracking_reaction(tracking, request).1;
    reveal_with_fuel(tasks_after, 3);
    assert(steps.take(0) =~= Seq::<TrackingActionModel>::empty());
    assert(steps.take(steps.len() as int) =~= steps);
    if steps.len() == 2 {
        assert(steps.drop_last().drop_last() =~= Seq::<TrackingActionModel>::empty());
        assert(steps.take(1) =~= steps.drop_last());
    } else if steps.len() == 1 {
        assert(steps.drop_last() =~= Seq::<TrackingActionModel>::empty());
    }
}

/// Whatever a client sends to a session that starts without a tracking
/// task, one tracking task runs at most at every step of the session: no
/// task is started while another runs, and none is stopped that does not
/// run. After the last step one task runs where the session tracks, and none
/// where it does not.
pub proof fn lemma_one_tracking_task_at_most(requests: Seq<TrackingRequestModel>, upto: int)
    requires
        0 <= upto <= tracking_run(false, requests).1.len(),
    ensures
        0 <= tasks_after(tracking_run(false, requests).1.take(upto)) <= 1,
        tasks_after(tracking_run(false, requests).1) == task_count(tracking_run(false, requests).0),
    decreases requests.len(),
{
    let steps = tracking_run(false, requests).1;
    if requests.len() == 0 {
        assert(steps.take(upto) =~= steps);
    } else {
        let before = tracking_run(false, requests.drop_last());
        let last = tracking_reaction(before.0, requests.last());
        lemma_one_tracking_task_at_most(requests.drop_last(), before.1.len() as int);
        lemma_tasks_after_reaction(before.0, requests.last(), last.1.len() as int);
        lemma_tasks_after_both(before.1, last.1);
        if upto <= before.1.len() {
            lemma_one_tracking_task_at_most(requests.drop_last(), upto);
            assert(steps.take(upto) =~= before.1.take(upto));
        } else {
            let within = upto - before.1.len();
            lemma_tasks_after_reaction(before.0, requests.last(), within);
            lemma_tasks_after_both(before.1, last.1.take(within));
            assert(steps.take(upto) =~= before.1 + last.1.take(within));
        }
    }
}

/// One decimal digit as text.
fn digit_text(d: usize) -> (text: &'static str)
    requires
        d < 10,
    ensures
        text@ == digit(d as nat),
{
    if d == 0 {
        "0"
    } else if d == 1 {
        "1"
    } else if d == 2 {
        "2"
    } else if d == 3 {
        "3"
    } else if d == 4 {
        "4"
    } else if d == 5 {
        "5"
    } else if d == 6 {
        "6"
    } else if d == 7 {
        "7"
    } else if d == 8 {
        "8"
    } else {
        "9"
    }
}

/// The number `n` in decimal digits, without leading zeros.
pub fn decimal_text(n: usize) -> (text: String)
    ensures
        text@ == decimal(n as nat),
    decreases n,
{
    if n < 10 {
        String::from_str(digit_text(n))
    } else {
        let mut text = decimal_text(n / 10);
        text.append(digit_text(n % 10));
        text
    }
}

/// `label` followed by `words`.
fn labelled(label: &str, words: &str) -> (text: String)
    ensures
        text@ == label@ + words@,
{
    let mut text = String::from_str(label);
    text.append(words);
    text
}

/// The state of a tracking session: whether a tracking task runs.
#[derive(Clone, Copy, Debug, PartialEq, Eq)]
pub struct TrackingSession {
    tracking: bool,
}

impl View for TrackingSession {
    type V = bool;

    /// Whether a tracking task runs.
    closed spec fn view(&self) -> bool {
        self.tracking
    }
}

impl TrackingSession {
    /// A session in which no tracking task runs.
    pub fn new() -> (session: TrackingSession)
        ensures
            !session@,
    {
        TrackingSession { tracking: false }
    }

    /// Whether a tracking task runs.
    pub fn is_tracking(&self) -> (tracking: bool)
        ensures
            tracking == self@,
    {
        self.tracking
    }

    /// The steps to take for `request`, in their order. The session
    /// remembers whether a tracking task runs after them.
    pub fn on_frame(&mut self, request: TrackingRequest) -> (actions: Vec<TrackingAction>)
        ensures
            final(self)@ == tracking_reaction(old(self)@, request@).0,
            tracking_steps(actions@) == tracking_reaction(old(self)@, request@).1,
            actions@.len() == tracking_reaction(old(self)@, request@).1.len(),
            forall|i: int|
                0 <= i < actions@.len() ==> (#[trigger] actions@[i])@ == tracking_reaction(
                    old(self)@,
                    request@,
                ).1[i],
    {
        let mut actions: Vec<TrackingAction> = Vec::new();
        match request {
            TrackingRequest::Simulate => {
                actions.push(TrackingAction::SendStatus(String::from_str("Running simulation...")));
                actions.push(TrackingAction::RunSimulation);
            },
            TrackingRequest::StartTracking => {
                if self.tracking {
                    actions.push(TrackingAction::StopTracking);
                }
                actions.push(TrackingAction::StartTracking);
                self.tracking = true;
            },
            TrackingRequest::Other => {},
            TrackingRequest::Malformed(words) => {
                actions.push(
                    TrackingAction::SendError(labelled("Invalid message format: ", words.as_str())),
                );
            },
            TrackingRequest::Close => {
                if self.tracking {
                    actions.push(TrackingAction::StopTracking);
                }
                actions.push(TrackingAction::Finish);
                self.tracking = false;
            },
            TrackingRequest::Ignored => {},
        }
        assert(tracking_steps(actions@) =~= tracking_reaction(old(self)@, request@).1);
        actions
    }
}

/// The steps that an analysis session takes for `request`, in their order.
pub fn on_analysis_frame(request: AnalysisRequest) -> (actions: Vec<AnalysisAction>)
    ensures
        analysis_steps(actions@) == analysis_reaction(request@),
        actions@.len() == analysis_reaction(request@).len(),
        forall|i: int|
            0 <= i < actions@.len() ==> (#[trigger] actions@[i])@ == analysis_reaction(
                request@,
            )[i],
{
    let mut actions: Vec<AnalysisAction> = Vec::new();
    match request {
        AnalysisRequest::Analyze(drone_id) => {
            let mut text = labelled("Analyzing drone #", decimal_text(drone_id).as_str());
            text.append("...");
            actions.push(AnalysisAction::SendStatus(text));
            actions.push(AnalysisAction::RunAnalysis);
        },
        AnalysisRequest::Other => {},
        AnalysisRequest::Malformed(words) => {
            actions.push(
                AnalysisAction::SendError(labelled("Invalid message format: ", words.as_str())),
            );
        },
        AnalysisRequest::Close => {
            actions.push(AnalysisAction::Finish);
        },
        AnalysisRequest::Ignored => {},
    }
    assert(analysis_steps(actions@) =~= analysis_reaction(request@));
    actions
}

/// The text of the error message that tells the client of a tracking
/// session how a simulation run ended, or `None` where it gave its result.
pub fn simulation_error_text(outcome: TaskOutcome) -> (text: Option<String>)
    ensures
        text is Some <==> !(outcome is Finished),
        match text {
            Some(t) => outcome_error(outcome@, "Task error: "@) == Some(t@),
            None => outcome_error(outcome@, "Task error: "@) is None,
        },
{
    match outcome {
        TaskOutcome::Finished => None,
        TaskOutcome::Failed(words) => Some(words),
        TaskOutcome::Aborted(words) => Some(labelled("Task error: ", words.as_str())),
    }
}

/// The text of the error message that tells the client of an analysis
/// session how an analysis ended, or `None` where it gave its result.
pub fn analysis_error_text(outcome: TaskOutcome) -> (text: Option<String>)
    ensures
        text is Some <==> !(outcome is Finished),
        match text {
            Some(t) => outcome_error(outcome@, "Analysis task error: "@) == Some(t@),
            None => outcome_error(outcome@, "Analysis task error: "@) is None,
        },
{
    match outcome {
        TaskOutcome::Finished => None,
        TaskOutcome::Failed(words) => Some(words),
        TaskOutcome::Aborted(words) => Some(labelled("Analysis task error: ", words.as_str())),
    }
}

} // verus!
