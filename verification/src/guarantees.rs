//! What holds of every step and of every run of the reactor.

use crate::classifier::user_initiated;
use crate::config::ecs::LaunchTargetView;
use crate::identity::{
    identity_of, lemma_last_value_is_last_match, names_field, IdentityField, BOT_ID_UPPER,
    USER_ID_UPPER,
};
use crate::launcher::{launch_outcome, LaunchError, LaunchReply, TagPropagation};
use crate::notification::{
    text_or_empty, StopNotification, DETAIL_TYPE_TASK_STATE_CHANGE,
    SOURCE_CONTAINER_ORCHESTRATION, STATUS_STOPPED,
};
use crate::reactor::{
    reported, transition, verdict_of, ActionView, Event, FilterReason, Outcome, ReactorError,
    ReactorStateView, VerdictView,
};
use crate::store::{save_plan, store_outcome, StoreReply, TaskStatus};
use vstd::prelude::*;

verus! {

/// The step that a fresh reactor takes on a notification.
pub open spec fn first_step(target: LaunchTargetView, notification: StopNotification, now: i64) -> (
    ReactorStateView,
    ActionView,
) {
    transition(target, ReactorStateView::Idle, Event::Notification(notification), now)
}

/// The step ends the work without a call, and the host is told of a success.
pub open spec fn filtered_away(step: (ReactorStateView, ActionView)) -> bool {
    &&& step.0 is Done
    &&& !step.1.outbound()
    &&& step.1 matches ActionView::Finish(outcome)
    &&& outcome is Filtered
    &&& reported(outcome) is Ok
}

/// A notification from another source, or of another kind, is discarded: no
/// call is made, and the host is told of a success.
pub proof fn lemma_foreign_notification_is_discarded(
    target: LaunchTargetView,
    notification: StopNotification,
    now: i64,
)
    requires
        notification.source@ != SOURCE_CONTAINER_ORCHESTRATION@ || notification.detail_type@
            != DETAIL_TYPE_TASK_STATE_CHANGE@,
    ensures
        filtered_away(first_step(target, notification, now)),
        first_step(target, notification, now).1 == ActionView::Finish(
            Outcome::Filtered(FilterReason::NotApplicable),
        ),
{
}

/// A notification whose task has another last status than `STOPPED`, or none
/// that can be read, leads to no call.
pub proof fn lemma_unstopped_task_is_left_alone(
    target: LaunchTargetView,
    notification: StopNotification,
    now: i64,
)
    requires
        notification.detail matches Some(detail) ==> text_or_empty(detail.last_status)
            != STATUS_STOPPED@,
    ensures
        filtered_away(first_step(target, notification, now)),
{
}

/// A notification whose first container override names no user, or no bot,
/// leads to no launch, and to no other call.
pub proof fn lemma_missing_identity_starts_nothing(
    target: LaunchTargetView,
    notification: StopNotification,
    field: IdentityField,
    now: i64,
)
    requires
        notification.detail matches Some(detail) ==> forall|i: int|
            0 <= i < detail.first_override_env().len() ==> !names_field(
                #[trigger] detail.first_override_env()[i].key(),
                field,
            ),
    ensures
        !(first_step(target, notification, now).1 is Launch),
        filtered_away(first_step(target, notification, now)),
{
    if notification.detail is Some {
        let detail = notification.detail->0;
        lemma_last_value_is_last_match(detail.first_override_env(), field);
        assert(identity_of(detail) is None);
    }
}

/// A stop that a user or an operator asked for leads to no call, whatever the
/// exit code.
pub proof fn lemma_user_initiated_stop_starts_nothing(
    target: LaunchTargetView,
    notification: StopNotification,
    now: i64,
)
    requires
        notification.detail matches Some(detail) && user_initiated(
            text_or_empty(detail.stop_code),
        ),
    ensures
        filtered_away(first_step(target, notification, now)),
{
}

/// Where a notification passes every gate, the one call asked for is a launch
/// in the configured place, whose container learns the owner from `USER_ID`
/// and `BOT_ID`, the owner being the one that the notification names.
pub proof fn lemma_restart_launches_for_the_owner(
    target: LaunchTargetView,
    notification: StopNotification,
    now: i64,
)
    requires
        verdict_of(notification) is Restart,
    ensures
        notification.detail matches Some(detail) && identity_of(detail) matches Some(owner) && {
            &&& first_step(target, notification, now).0 == (ReactorStateView::AwaitingLaunch {
                owner,
            })
            &&& first_step(target, notification, now).1 matches ActionView::Launch(request)
            &&& request.cluster_id == target.cluster_id
            &&& request.task_definition == target.task_definition
            &&& request.container_name == target.container_name
            &&& request.environment == seq![
                (USER_ID_UPPER@, owner.user_id),
                (BOT_ID_UPPER@, owner.bot_id),
            ]
            &&& request.propagate_tags == TagPropagation::TaskDefinition
        },
{
}

/// A record is planned in one place only: after a launch that gave a task
/// id. It bears the status `Running`, the owner that the launch was for, that
/// task id and the time of the step, and its two items agree.
pub proof fn lemma_save_follows_a_launch(
    target: LaunchTargetView,
    state: ReactorStateView,
    event: Event,
    now: i64,
)
    requires
        transition(target, state, event, now).1 is Save,
    ensures
        state matches ReactorStateView::AwaitingLaunch { owner } && event matches Event::Launched(
            reply,
        ) && launch_outcome(reply) matches Ok(task_id) && {
            &&& transition(target, state, event, now).0 == (ReactorStateView::AwaitingStore {
                owner,
                task_id,
            })
            &&& transition(target, state, event, now).1 == ActionView::Save(
                save_plan(owner, TaskStatus::Running, task_id, now),
            )
            &&& save_plan(owner, TaskStatus::Running, task_id, now).coherent()
        },
{
}

/// A reply that lists failures ends the work with `LaunchFailed`: no record
/// is planned, although the call itself came back.
pub proof fn lemma_rejected_launch_writes_nothing(
    target: LaunchTargetView,
    state: ReactorStateView,
    reply: LaunchReply,
    now: i64,
)
    requires
        state is AwaitingLaunch,
        reply matches LaunchReply::Answered(answer) && answer.failures@.len() > 0,
    ensures
        transition(target, state, Event::Launched(reply), now) == (
            ReactorStateView::Done,
            ActionView::Finish(
                Outcome::Failed(ReactorError::LaunchFailed(LaunchError::PlatformRejected)),
            ),
        ),
{
}

/// The store's answer ends the work: a commit as a success, anything else as
/// `StoreFailed`. Neither asks for another call, so a replacement that runs is
/// never taken back.
pub proof fn lemma_store_reply_ends_the_work(
    target: LaunchTargetView,
    state: ReactorStateView,
    reply: StoreReply,
    now: i64,
)
    requires
        state is AwaitingStore,
    ensures
        transition(target, state, Event::Stored(reply), now).0 is Done,
        transition(target, state, Event::Stored(reply), now).1 matches ActionView::Finish(outcome)
            && (outcome == Outcome::Restarted <==> reply == StoreReply::Committed) && (
        reported(outcome) is Ok <==> reply == StoreReply::Committed),
{
}

/// Once the work has ended, no event brings it back.
pub proof fn lemma_done_is_final(target: LaunchTargetView, event: Event, now: i64)
    ensures
        transition(target, ReactorStateView::Done, event, now) == (
            ReactorStateView::Done,
            ActionView::Nothing,
        ),
{
}

/// The actions that a sequence of events, each with its time, draws from the
/// reactor.
pub open spec fn run(target: LaunchTargetView, state: ReactorStateView, events: Seq<(Event, i64)>)
    -> Seq<ActionView>
    decreases events.len(),
{
    if events.len() == 0 {
        Seq::empty()
    } else {
        let step = transition(target, state, events[0].0, events[0].1);
        seq![step.1] + run(target, step.0, events.drop_first())
    }
}

/// How many launches a sequence of actions asks for.
pub open spec fn launches(actions: Seq<ActionView>) -> nat
    decreases actions.len(),
{
    if actions.len() == 0 {
        0
    } else {
        (if actions[0] is Launch {
            1nat
        } else {
            0nat
        }) + launches(actions.drop_first())
    }
}

/// How many transactions a sequence of actions asks for.
pub open spec fn saves(actions: Seq<ActionView>) -> nat
    decreases actions.len(),
{
    if actions.len() == 0 {
        0
    } else {
        (if actions[0] is Save {
            1nat
        } else {
            0nat
        }) + saves(actions.drop_first())
    }
}

/// How many times a sequence of actions reports an end.
pub open spec fn finishes(actions: Seq<ActionView>) -> nat
    decreases actions.len(),
{
    if actions.len() == 0 {
        0
    } else {
        (if actions[0] is Finish {
            1nat
        } else {
            0nat
        }) + finishes(actions.drop_first())
    }
}

/// The calls that a state still allows: launches, then transactions.
pub open spec fn allowance(state: ReactorStateView) -> (nat, nat) {
    match state {
        ReactorStateView::Idle => (1, 1),
        ReactorStateView::AwaitingLaunch { .. } => (0, 1),
        ReactorStateView::AwaitingStore { .. } => (0, 0),
        ReactorStateView::Done => (0, 0),
    }
}

/// From any state, a run makes no more calls than the state allows, and
/// reports an end at most once.
pub proof fn lemma_run_within_allowance(
    target: LaunchTargetView,
    state: ReactorStateView,
    events: Seq<(Event, i64)>,
)
    ensures
        launches(run(target, state, events)) <= allowance(state).0,
        saves(run(target, state, events)) <= allowance(state).1,
        finishes(run(target, state, events)) <= 1,
        state is Done ==> finishes(run(target, state, events)) == 0,
    decreases events.len(),
{
    if events.len() > 0 {
        let step = transition(target, state, events[0].0, events[0].1);
        let rest = run(target, step.0, events.drop_first());
        lemma_run_within_allowance(target, step.0, events.drop_first());
        let all = seq![step.1] + rest;
        assert(all.drop_first() =~= rest);
        assert(all[0] == step.1);
    }
}

/// Whatever events follow a notification, and in whatever order, the reactor
/// asks for at most one launch and at most one transaction, and never for a
/// transaction without a launch before it: nothing is retried.
pub proof fn lemma_one_launch_one_save(target: LaunchTargetView, events: Seq<(Event, i64)>)
    ensures
        launches(run(target, ReactorStateView::Idle, events)) <= 1,
        saves(run(target, ReactorStateView::Idle, events)) <= launches(
            run(target, ReactorStateView::Idle, events),
        ),
        finishes(run(target, ReactorStateView::Idle, events)) <= 1,
{
    lemma_run_within_allowance(target, ReactorStateView::Idle, events);
    lemma_save_needs_launch(target, ReactorStateView::Idle, events);
}

/// A run that starts before the launch asks for a transaction only where it
/// has asked for the launch.
pub proof fn lemma_save_needs_launch(
    target: LaunchTargetView,
    state: ReactorStateView,
    events: Seq<(Event, i64)>,
)
    requires
        state is Idle,
    ensures
        saves(run(target, state, events)) <= launches(run(target, state, events)),
    decreases events.len(),
{
    if events.len() > 0 {
        let step = transition(target, state, events[0].0, events[0].1);
        let rest = run(target, step.0, events.drop_first());
        let all = seq![step.1] + rest;
        assert(all.drop_first() =~= rest);
        assert(all[0] == step.1);
        if step.0 is Idle {
            lemma_save_needs_launch(target, step.0, events.drop_first());
        } else {
            lemma_run_within_allowance(target, step.0, events.drop_first());
        }
    }
}

/// How the work on a notification ends when the platform answers a launch
/// with `launch_reply` and the store answers a transaction with
/// `store_reply`.
pub open spec fn outcome_of(
    notification: StopNotification,
    launch_reply: LaunchReply,
    store_reply: StoreReply,
) -> Outcome {
    match verdict_of(notification) {
        VerdictView::Filtered(reason) => Outcome::Filtered(reason),
        VerdictView::Restart(_) => match launch_outcome(launch_reply) {
            Err(e) => Outcome::Failed(ReactorError::LaunchFailed(e)),
            Ok(_) => match store_outcome(store_reply) {
                Ok(_) => Outcome::Restarted,
                Err(e) => Outcome::Failed(ReactorError::StoreFailed(e)),
            },
        },
    }
}

/// The events of one whole run: the notification, then the platform's reply,
/// then the store's reply, each at its time.
pub open spec fn whole_run(
    notification: StopNotification,
    launch_reply: LaunchReply,
    store_reply: StoreReply,
    times: (i64, i64, i64),
) -> Seq<(Event, i64)> {
    seq![
        (Event::Notification(notification), times.0),
        (Event::Launched(launch_reply), times.1),
        (Event::Stored(store_reply), times.2),
    ]
}

/// A whole run asks for exactly one launch where the notification passes
/// every gate, and for none otherwise; for exactly one transaction where that
/// launch gave a task id, and for none otherwise; and it reports its end
/// exactly once.
pub proof fn lemma_whole_run_counts(
    target: LaunchTargetView,
    notification: StopNotification,
    launch_reply: LaunchReply,
    store_reply: StoreReply,
    times: (i64, i64, i64),
)
    ensures
        launches(
            run(
                target,
                ReactorStateView::Idle,
                whole_run(notification, launch_reply, store_reply, times),
            ),
        ) == (if verdict_of(notification) is Restart {
            1nat
        } else {
            0nat
        }),
        saves(
            run(
                target,
                ReactorStateView::Idle,
                whole_run(notification, launch_reply, store_reply, times),
            ),
        ) == (if verdict_of(notification) is Restart && launch_outcome(launch_reply) is Ok {
            1nat
        } else {
            0nat
        }),
        finishes(
            run(
                target,
                ReactorStateView::Idle,
                whole_run(notification, launch_reply, store_reply, times),
            ),
        ) == 1,
{
    let events = whole_run(notification, launch_reply, store_reply, times);
    let first = transition(target, ReactorStateView::Idle, events[0].0, events[0].1);
    let tail1 = events.drop_first();
    let second = transition(target, first.0, tail1[0].0, tail1[0].1);
    let tail2 = tail1.drop_first();
    let third = transition(target, second.0, tail2[0].0, tail2[0].1);
    let tail3 = tail2.drop_first();
    assert(tail3.len() == 0);
    let r3 = run(target, third.0, tail3);
    assert(r3 =~= Seq::<ActionView>::empty());
    let r2 = run(target, second.0, tail2);
    let r1 = run(target, first.0, tail1);
    lemma_counts_of_first_and_rest(third.1, r3);
    lemma_counts_of_first_and_rest(second.1, r2);
    lemma_counts_of_first_and_rest(first.1, r1);
}

/// Each count of a sequence of actions is the count of its first action and
/// the count of the rest.
pub proof fn lemma_counts_of_first_and_rest(first: ActionView, rest: Seq<ActionView>)
    ensures
        launches(seq![first] + rest) == (if first is Launch {
            1nat
        } else {
            0nat
        }) + launches(rest),
        saves(seq![first] + rest) == (if first is Save {
            1nat
        } else {
            0nat
        }) + saves(rest),
        finishes(seq![first] + rest) == (if first is Finish {
            1nat
        } else {
            0nat
        }) + finishes(rest),
{
    let all = seq![first] + rest;
    assert(all.drop_first() =~= rest);
    assert(all[0] == first);
}

/// The end that a whole run reports is the one that the notification and the
/// two replies call for.
pub proof fn lemma_whole_run_outcome(
    target: LaunchTargetView,
    notification: StopNotification,
    launch_reply: LaunchReply,
    store_reply: StoreReply,
    times: (i64, i64, i64),
)
    ensures
        exists|i: int|
            0 <= i < 3 && #[trigger] run(
                target,
                ReactorStateView::Idle,
                whole_run(notification, launch_reply, store_reply, times),
            )[i] == ActionView::Finish(outcome_of(notification, launch_reply, store_reply)),
        run(
            target,
            ReactorStateView::Idle,
            whole_run(notification, launch_reply, store_reply, times),
        ).len() == 3,
{
    let events = whole_run(notification, launch_reply, store_reply, times);
    let first = transition(target, ReactorStateView::Idle, events[0].0, events[0].1);
    let tail1 = events.drop_first();
    let second = transition(target, first.0, tail1[0].0, tail1[0].1);
    let tail2 = tail1.drop_first();
    let third = transition(target, second.0, tail2[0].0, tail2[0].1);
    let tail3 = tail2.drop_first();
    assert(tail3.len() == 0);
    let r3 = run(target, third.0, tail3);
    assert(r3 =~= Seq::<ActionView>::empty());
    let r2 = run(target, second.0, tail2);
    assert(r2 =~= seq![third.1]);
    let r1 = run(target, first.0, tail1);
    assert(r1 =~= seq![second.1, third.1]);
    let r0 = run(target, ReactorStateView::Idle, events);
    assert(r0 =~= seq![first.1, second.1, third.1]);
    let want = ActionView::Finish(outcome_of(notification, launch_reply, store_reply));
    if first.1 == want {
        assert(r0[0] == want);
    } else if second.1 == want {
        assert(r0[1] == want);
    } else {
        assert(r0[2] == want);
    }
}

} // verus!
