//! The reactor: from a stop notification to, at most, one replacement run and
//! one record of it.
//!
//! The reactor makes no call itself. It is a state machine: each step takes
//! the state and what just happened, and gives the next state and the one
//! thing to do next. Whoever drives it makes the calls and hands back the
//! replies. One notification is worked on once; nothing is retried.

use crate::classifier::{is_memory_related_stop, restart_worthy};
use crate::config::ecs::{LaunchTarget, LaunchTargetView};
use crate::domain::clock::Clock;
use crate::identity::{extract_identity, identity_of, OwnerIdentity, OwnerIdentityView};
use crate::launcher::{
    launch_outcome, launch_request, launch_request_for, launch_result, LaunchError, LaunchReply,
    LaunchRequest, LaunchRequestView,
};
use crate::notification::{text_or_empty, StopNotification, STATUS_STOPPED};
use crate::notification::{DETAIL_TYPE_TASK_STATE_CHANGE, SOURCE_CONTAINER_ORCHESTRATION};
use crate::store::{
    save_plan, save_task_metadata, store_outcome, store_result, StoreError, StoreReply,
    TaskStatus, TransactionWrite, TransactionWriteView,
};
use crate::text::text_eq;
use vstd::prelude::*;

verus! {

/// Why a notification called for no action.
#[derive(Clone, Copy, Debug, PartialEq, Eq, Structural)]
pub enum FilterReason {
    /// Another source, or another kind of notification.
    NotApplicable,
    /// The body did not have the shape of a task state change.
    Unreadable,
    /// The task has not reached its terminal state.
    NotStopped,
    /// The task's overrides do not name both the user and the bot.
    MissingIdentity,
    /// The notification lists no container.
    NoContainers,
    /// An expected stop: another exit code, or a stop that somebody asked for.
    NotRestartWorthy,
}

/// Why the work on a notification failed.
#[derive(Clone, Copy, Debug, PartialEq, Eq, Structural)]
pub enum ReactorError {
    /// No replacement task was started.
    LaunchFailed(LaunchError),
    /// The replacement runs, and the record of it was not written.
    StoreFailed(StoreError),
}

/// How the work on a notification ended.
#[derive(Clone, Copy, Debug, PartialEq, Eq, Structural)]
pub enum Outcome {
    Filtered(FilterReason),
    Restarted,
    Failed(ReactorError),
}

/// What the gates make of a notification.
#[derive(Debug)]
pub enum Verdict {
    Filtered(FilterReason),
    Restart(OwnerIdentity),
}

pub enum VerdictView {
    Filtered(FilterReason),
    Restart(OwnerIdentityView),
}

impl View for Verdict {
    type V = VerdictView;

    open spec fn view(&self) -> VerdictView {
        match self {
            Verdict::Filtered(reason) => VerdictView::Filtered(*reason),
            Verdict::Restart(owner) => VerdictView::Restart(owner@),
        }
    }
}

/// Where the work on one notification stands.
#[derive(Debug)]
pub enum ReactorState {
    /// Nothing has come in yet.
    Idle,
    /// A replacement was asked for; the platform's reply is awaited.
    AwaitingLaunch { owner: OwnerIdentity },
    /// The replacement runs; the store's reply is awaited.
    AwaitingStore { owner: OwnerIdentity, task_id: String },
    /// The work has ended.
    Done,
}

pub enum ReactorStateView {
    Idle,
    AwaitingLaunch { owner: OwnerIdentityView },
    AwaitingStore { owner: OwnerIdentityView, task_id: Seq<char> },
    Done,
}

impl View for ReactorState {
    type V = ReactorStateView;

    open spec fn view(&self) -> ReactorStateView {
        match self {
            ReactorState::Idle => ReactorStateView::Idle,
            ReactorState::AwaitingLaunch { owner } => ReactorStateView::AwaitingLaunch {
                owner: owner@,
            },
            ReactorState::AwaitingStore { owner, task_id } => ReactorStateView::AwaitingStore {
                owner: owner@,
                task_id: task_id@,
            },
            ReactorState::Done => ReactorStateView::Done,
        }
    }
}

/// What happened since the last step.
pub enum Event {
    /// A notification came in.
    Notification(StopNotification),
    /// The platform's reply to the launch request came back.
    Launched(LaunchReply),
    /// The store's reply to the transaction came back.
    Stored(StoreReply),
}

/// The one thing to do after a step.
#[derive(Debug)]
pub enum Action {
    /// Ask the platform for a replacement run, and hand back its reply.
    Launch(LaunchRequest),
    /// Send the transaction to the store, and hand back its reply.
    Save(TransactionWrite),
    /// Report how the work ended.
    Finish(Outcome),
    /// Nothing: the event was not one that the state waits for.
    Nothing,
}

pub enum ActionView {
    Launch(LaunchRequestView),
    Save(TransactionWriteView),
    Finish(Outcome),
    Nothing,
}

impl View for Action {
    type V = ActionView;

    open spec fn view(&self) -> ActionView {
        match self {
            Action::Launch(request) => ActionView::Launch(request@),
            Action::Save(write) => ActionView::Save(write@),
            Action::Finish(outcome) => ActionView::Finish(*outcome),
            Action::Nothing => ActionView::Nothing,
        }
    }
}

impl ActionView {
    /// The action is a call that leaves the process.
    pub open spec fn outbound(self) -> bool {
        self is Launch || self is Save
    }
}

/// What is reported to the host: a filtered notification is a success, so
/// that the host does not deliver it again.
pub open spec fn reported(outcome: Outcome) -> Result<(), ReactorError> {
    match outcome {
        Outcome::Filtered(_) => Ok(()),
        Outcome::Restarted => Ok(()),
        Outcome::Failed(e) => Err(e),
    }
}

/// The gates, in their order: source and kind, shape, status, identity,
/// first container, classification.
pub open spec fn verdict_of(notification: StopNotification) -> VerdictView {
    if !notification.applicable() {
        VerdictView::Filtered(FilterReason::NotApplicable)
    } else {
        match notification.detail {
            None => VerdictView::Filtered(FilterReason::Unreadable),
            Some(detail) => if !detail.stopped() {
                VerdictView::Filtered(FilterReason::NotStopped)
            } else {
                match identity_of(detail) {
                    None => VerdictView::Filtered(FilterReason::MissingIdentity),
                    Some(owner) => match detail.first_container() {
                        None => VerdictView::Filtered(FilterReason::NoContainers),
                        Some(container) => if restart_worthy(
                            container.exit_code_or_unknown(),
                            text_or_empty(detail.stop_code),
                        ) {
                            VerdictView::Restart(owner)
                        } else {
                            VerdictView::Filtered(FilterReason::NotRestartWorthy)
                        },
                    },
                }
            },
        }
    }
}

/// One step of the reactor. `now` is the time of the step; it is the time
/// that a record planned in this step bears.
pub open spec fn transition(
    target: LaunchTargetView,
    state: ReactorStateView,
    event: Event,
    now: i64,
) -> (ReactorStateView, ActionView) {
    match (state, event) {
        (ReactorStateView::Idle, Event::Notification(notification)) => match verdict_of(
            notification,
        ) {
            VerdictView::Filtered(reason) => (
                ReactorStateView::Done,
                ActionView::Finish(Outcome::Filtered(reason)),
            ),
            VerdictView::Restart(owner) => (
                ReactorStateView::AwaitingLaunch { owner },
                ActionView::Launch(
                    launch_request_for(
                        owner,
                        target.cluster_id,
                        target.task_definition,
                        target.container_name,
                    ),
                ),
            ),
        },
        (ReactorStateView::AwaitingLaunch { owner }, Event::Launched(reply)) => match launch_outcome(
            reply,
        ) {
            Ok(task_id) => (
                ReactorStateView::AwaitingStore { owner, task_id },
                ActionView::Save(save_plan(owner, TaskStatus::Running, task_id, now)),
            ),
            Err(e) => (
                ReactorStateView::Done,
                ActionView::Finish(Outcome::Failed(ReactorError::LaunchFailed(e))),
            ),
        },
        (ReactorStateView::AwaitingStore { owner, task_id }, Event::Stored(reply)) => match store_outcome(
            reply,
        ) {
            Ok(_) => (ReactorStateView::Done, ActionView::Finish(Outcome::Restarted)),
            Err(e) => (
                ReactorStateView::Done,
                ActionView::Finish(Outcome::Failed(ReactorError::StoreFailed(e))),
            ),
        },
        _ => (state, ActionView::Nothing),
    }
}

impl Outcome {
    /// What is reported to the host for this outcome.
    pub fn into_result(self) -> (result: Result<(), ReactorError>)
        ensures
            result == reported(self),
    {
        match self {
            Outcome::Filtered(_) => Ok(()),
            Outcome::Restarted => Ok(()),
            Outcome::Failed(e) => Err(e),
        }
    }
}

impl ReactorState {
    /// Whether the work on the notification has ended.
    pub fn is_done(&self) -> (done: bool)
        ensures
            done == (self@ is Done),
    {
        match self {
            ReactorState::Done => true,
            _ => false,
        }
    }
}

/// Takes a notification through the gates.
pub fn judge(notification: &StopNotification) -> (verdict: Verdict)
    ensures
        verdict@ == verdict_of(*notification),
{
    if !text_eq(notification.source.as_str(), SOURCE_CONTAINER_ORCHESTRATION) || !text_eq(
        notification.detail_type.as_str(),
        DETAIL_TYPE_TASK_STATE_CHANGE,
    ) {
        return Verdict::Filtered(FilterReason::NotApplicable);
    }
    let detail = match &notification.detail {
        Some(detail) => detail,
        None => { return Verdict::Filtered(FilterReason::Unreadable); },
    };
    let stopped = match &detail.last_status {
        Some(status) => text_eq(status.as_str(), STATUS_STOPPED),
        None => {
            proof {
                reveal_strlit("");
            }
            assert(""@ =~= Seq::<char>::empty());
            text_eq("", STATUS_STOPPED)
        },
    };
    if !stopped {
        return Verdict::Filtered(FilterReason::NotStopped);
    }
    let owner = match extract_identity(detail) {
        Some(owner) => owner,
        None => { return Verdict::Filtered(FilterReason::MissingIdentity); },
    };
    let containers = match &detail.containers {
        Some(list) => list,
        None => { return Verdict::Filtered(FilterReason::NoContainers); },
    };
    if containers.len() == 0 {
        return Verdict::Filtered(FilterReason::NoContainers);
    }
    let exit_code = match containers[0].exit_code {
        Some(code) => code,
        None => -1,
    };
    let worthy = match &detail.stop_code {
        Some(code) => is_memory_related_stop(exit_code, code.as_str()),
        None => {
            proof {
                reveal_strlit("");
            }
            assert(""@ =~= Seq::<char>::empty());
            is_memory_related_stop(exit_code, "")
        },
    };
    if worthy {
        Verdict::Restart(owner)
    } else {
        Verdict::Filtered(FilterReason::NotRestartWorthy)
    }
}

/// One step of the reactor at a given time.
pub fn step_at(target: &LaunchTarget, state: ReactorState, event: Event, now: i64) -> (next: (
    ReactorState,
    Action,
))
    ensures
        (next.0@, next.1@) == transition(target@, state@, event, now),
{
    match (state, event) {
        (ReactorState::Idle, Event::Notification(notification)) => match judge(&notification) {
            Verdict::Filtered(reason) => (
                ReactorState::Done,
                Action::Finish(Outcome::Filtered(reason)),
            ),
            Verdict::Restart(owner) => {
                let request = launch_request(
                    &owner,
                    target.cluster_id.as_str(),
                    target.task_definition.as_str(),
                    target.container_name.as_str(),
                );
                (ReactorState::AwaitingLaunch { owner }, Action::Launch(request))
            },
        },
        (ReactorState::AwaitingLaunch { owner }, Event::Launched(reply)) => match launch_result(
            &reply,
        ) {
            Ok(task_id) => {
                let write = save_task_metadata(&owner, TaskStatus::Running, task_id.as_str(), now);
                (ReactorState::AwaitingStore { owner, task_id }, Action::Save(write))
            },
            Err(e) => (
                ReactorState::Done,
                Action::Finish(Outcome::Failed(ReactorError::LaunchFailed(e))),
            ),
        },
        (ReactorState::AwaitingStore { owner, task_id }, Event::Stored(reply)) => match store_result(
            reply,
        ) {
            Ok(_) => (ReactorState::Done, Action::Finish(Outcome::Restarted)),
            Err(e) => (
                ReactorState::Done,
                Action::Finish(Outcome::Failed(ReactorError::StoreFailed(e))),
            ),
        },
        (state, _) => (state, Action::Nothing),
    }
}

/// The reactor with what it was given when the process started: where to
/// start replacements, and a clock.
pub struct EventReactor<C: Clock> {
    pub target: LaunchTarget,
    pub clock: C,
}

impl<C: Clock> EventReactor<C> {
    pub fn new(target: LaunchTarget, clock: C) -> (reactor: Self)
        ensures
            reactor.target == target,
            reactor.clock == clock,
    {
        EventReactor { target, clock }
    }

    /// The state in which the work on a notification begins.
    pub fn start(&self) -> (state: ReactorState)
        ensures
            state@ is Idle,
    {
        ReactorState::Idle
    }

    /// One step of the reactor, at the time that the clock shows. Only the
    /// step that plans a record depends on the time.
    pub fn step(&self, state: ReactorState, event: Event) -> (next: (ReactorState, Action))
        ensures
            exists|now: i64| (next.0@, next.1@) == transition(self.target@, state@, event, now),
            !(state@ is AwaitingLaunch) ==> forall|now: i64|
                (next.0@, next.1@) == #[trigger] transition(self.target@, state@, event, now),
    {
        let now = self.clock.now();
        let next = step_at(&self.target, state, event, now);
        assert((next.0@, next.1@) == transition(self.target@, state@, event, now));
        next
    }
}

} // verus!
