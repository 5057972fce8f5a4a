//! Cooperative cancellation.

use vstd::prelude::*;

verus! {

/// Cooperative cancellation handle. Once cancelled, it stays cancelled.
#[derive(Debug)]
pub struct Drive9CancelToken {
    flag: bool,
}

impl View for Drive9CancelToken {
    type V = bool;

    closed spec fn view(&self) -> bool {
        self.flag
    }
}

impl Drive9CancelToken {
    /// A token that nobody has cancelled.
    pub fn new() -> (token: Self)
        ensures
            !token@,
    {
        Drive9CancelToken { flag: false }
    }

    /// Cancels; to cancel again changes nothing.
    pub fn cancel(&mut self)
        ensures
            final(self)@,
    {
        self.flag = true;
    }

    /// Whether the token has been cancelled.
    pub fn is_cancelled(&self) -> (cancelled: bool)
        ensures
            cancelled == self@,
    {
        self.flag
    }
}

/// What a task that waits for cancellation has to do next.
#[derive(Debug, Clone, Copy, PartialEq, Eq, Structural)]
pub enum WaitStep {
    /// Look at the token.
    Check,
    /// Register for the notification of a cancellation, then look at the token.
    Register,
    /// Sleep until the notification, then look at the token.
    Sleep,
    /// The token has been cancelled.
    Done,
}

/// The next step of a task whose last step was `last`, given what it then saw of
/// the token. The token is looked at between registering and sleeping, so that a
/// cancellation in between is not missed.
pub open spec fn next_wait_step(last: WaitStep, cancelled: bool) -> WaitStep {
    if cancelled || last == WaitStep::Done {
        WaitStep::Done
    } else {
        match last {
            WaitStep::Check => WaitStep::Register,
            WaitStep::Register => WaitStep::Sleep,
            WaitStep::Sleep => WaitStep::Check,
            WaitStep::Done => WaitStep::Done,
        }
    }
}

/// The next step of a task that waits for cancellation. It starts with
/// [`WaitStep::Check`].
pub fn wait(last: WaitStep, cancelled: bool) -> (step: WaitStep)
    ensures
        step == next_wait_step(last, cancelled),
{
    if cancelled {
        return WaitStep::Done;
    }
    match last {
        WaitStep::Check => WaitStep::Register,
        WaitStep::Register => WaitStep::Sleep,
        WaitStep::Sleep => WaitStep::Check,
        WaitStep::Done => WaitStep::Done,
    }
}

/// The last step of a task that starts with a look at the token and then sees
/// what `seen` says.
pub open spec fn wait_steps(seen: Seq<bool>) -> WaitStep
    decreases seen.len(),
{
    if seen.len() == 0 {
        WaitStep::Check
    } else {
        next_wait_step(wait_steps(seen.drop_last()), seen.last())
    }
}

/// A wait is over exactly when the token has been seen cancelled.
pub proof fn law_wait_ends_with_cancellation(seen: Seq<bool>)
    ensures
        wait_steps(seen) == WaitStep::Done <==> seen.contains(true),
    decreases seen.len(),
{
    if seen.len() > 0 {
        law_wait_ends_with_cancellation(seen.drop_last());
        assert(seen =~= seen.drop_last().push(seen.last()));
        if seen.drop_last().contains(true) {
            let at = choose|i: int| 0 <= i < seen.len() - 1 && seen.drop_last()[i] == true;
            assert(seen[at] == true);
        }
        if seen.last() {
            assert(seen[seen.len() - 1] == true);
        }
        if seen.contains(true) && !seen.last() {
            let at = choose|i: int| 0 <= i < seen.len() && seen[i] == true;
            assert(seen.drop_last()[at] == true);
        }
    }
}

/// A task goes to sleep only if it had registered before it last looked at the
/// token, and saw it not cancelled then: no cancellation is slept through.
pub proof fn law_no_cancellation_is_missed(last: WaitStep, cancelled: bool)
    requires
        next_wait_step(last, cancelled) == WaitStep::Sleep,
    ensures
        last == WaitStep::Register,
        !cancelled,
{
}

/// A task that waits for cancellation, among others that wait and others that
/// cancel. Each of them does one thing at a time, in any order.
///
/// The notification is that of `tokio::sync::Notify`: it reaches every task that
/// registered before it was sent, whether or not that task sleeps already.
pub struct Waiter {
    /// The token has been cancelled.
    pub cancelled: bool,
    /// How many of those who cancelled the token have not yet notified.
    pub unnotified: nat,
    /// The step that the task is at.
    pub step: WaitStep,
    /// The task has done what the step asks for, and looks at the token next.
    pub acted: bool,
    /// The task has registered, and has not slept since.
    pub registered: bool,
    /// A notification has reached the task since it registered.
    pub notified: bool,
}

/// What can happen next.
pub enum WaiterEvent {
    /// Somebody cancels the token.
    Cancel,
    /// Somebody who cancelled the token notifies the tasks that have registered.
    Notify,
    /// The task does what its step asks for.
    Act,
    /// The task looks at the token.
    Look,
}

/// A task begins to wait on a token that has or has not been cancelled.
pub open spec fn begins_wait(cancelled: bool, unnotified: nat) -> Waiter {
    Waiter {
        cancelled,
        unnotified,
        step: WaitStep::Check,
        acted: false,
        registered: false,
        notified: false,
    }
}

/// When an event can happen. To sleep is over only once a notification has
/// reached the task.
pub open spec fn can_happen(w: Waiter, event: WaiterEvent) -> bool {
    match event {
        WaiterEvent::Cancel => true,
        WaiterEvent::Notify => w.unnotified > 0,
        WaiterEvent::Act => !w.acted && w.step != WaitStep::Done && (w.step == WaitStep::Sleep
            ==> w.notified),
        WaiterEvent::Look => w.acted,
    }
}

/// What an event changes.
pub open spec fn happens(w: Waiter, event: WaiterEvent) -> Waiter {
    match event {
        WaiterEvent::Cancel => Waiter { cancelled: true, unnotified: w.unnotified + 1, ..w },
        WaiterEvent::Notify => Waiter {
            unnotified: (w.unnotified - 1) as nat,
            notified: w.notified || w.registered,
            ..w
        },
        WaiterEvent::Act => match w.step {
            WaitStep::Register => Waiter { acted: true, registered: true, notified: false, ..w },
            WaitStep::Sleep => Waiter { acted: true, registered: false, notified: false, ..w },
            _ => Waiter { acted: true, ..w },
        },
        WaiterEvent::Look => Waiter {
            step: next_wait_step(w.step, w.cancelled),
            acted: false,
            ..w
        },
    }
}

/// The task after a sequence of events.
pub open spec fn waits(w: Waiter, events: Seq<WaiterEvent>) -> Waiter
    decreases events.len(),
{
    if events.len() == 0 {
        w
    } else {
        happens(waits(w, events.drop_last()), events.last())
    }
}

/// Each event of the sequence can happen when its turn comes.
pub open spec fn waits_possibly(w: Waiter, events: Seq<WaiterEvent>) -> bool
    decreases events.len(),
{
    events.len() > 0 ==> waits_possibly(w, events.drop_last()) && can_happen(
        waits(w, events.drop_last()),
        events.last(),
    )
}

/// No wake-up is lost, whoever cancels the token and whenever, and however many
/// tasks wait: once the token has been cancelled and those who cancelled it have
/// notified, the task is not stuck. It has finished, or it can go on; and the next
/// time it looks at the token it finishes. It finishes only if the token has been
/// cancelled.
pub proof fn law_no_wakeup_is_lost(
    cancelled: bool,
    unnotified: nat,
    events: Seq<WaiterEvent>,
)
    requires
        unnotified > 0 ==> cancelled,
        waits_possibly(begins_wait(cancelled, unnotified), events),
    ensures
        ({
            let w = waits(begins_wait(cancelled, unnotified), events);
            &&& w.step == WaitStep::Done ==> w.cancelled
            &&& w.cancelled && w.unnotified == 0 && w.step != WaitStep::Done ==> {
                ||| can_happen(w, WaiterEvent::Look)
                ||| can_happen(w, WaiterEvent::Act) && can_happen(
                    happens(w, WaiterEvent::Act),
                    WaiterEvent::Look,
                )
            }
            &&& w.cancelled ==> happens(w, WaiterEvent::Look).step == WaitStep::Done
        }),
{
    lemma_sleeper_is_notified(cancelled, unnotified, events);
}

/// A task that sleeps on a cancelled token has been notified, or is going to be.
proof fn lemma_sleeper_is_notified(cancelled: bool, unnotified: nat, events: Seq<WaiterEvent>)
    requires
        unnotified > 0 ==> cancelled,
        waits_possibly(begins_wait(cancelled, unnotified), events),
    ensures
        ({
            let w = waits(begins_wait(cancelled, unnotified), events);
            &&& w.unnotified > 0 ==> w.cancelled
            &&& w.step == WaitStep::Done ==> w.cancelled && !w.acted
            &&& w.step == WaitStep::Register && w.acted ==> w.registered
            &&& w.step == WaitStep::Sleep && !w.acted ==> w.registered && (w.cancelled
                && !w.notified ==> w.unnotified > 0)
        }),
    decreases events.len(),
{
    if events.len() > 0 {
        lemma_sleeper_is_notified(cancelled, unnotified, events.drop_last());
    }
}

/// A wait on a token that has been cancelled is over after the first look, without
/// sleep.
pub proof fn law_cancelled_token_ends_wait_at_once(unnotified: nat)
    ensures
        ({
            let w = begins_wait(true, unnotified);
            let looked = happens(happens(w, WaiterEvent::Act), WaiterEvent::Look);
            &&& can_happen(w, WaiterEvent::Act)
            &&& can_happen(happens(w, WaiterEvent::Act), WaiterEvent::Look)
            &&& looked.step == WaitStep::Done
        }),
{
}

/// A task that has not seen the token cancelled goes from looking to registering,
/// from registering to sleeping, and from sleeping back to looking; one that has
/// seen it cancelled is done.
pub proof fn law_wait_goes_round(last: WaitStep)
    ensures
        next_wait_step(last, true) == WaitStep::Done,
        next_wait_step(WaitStep::Done, false) == WaitStep::Done,
        next_wait_step(WaitStep::Check, false) == WaitStep::Register,
        next_wait_step(WaitStep::Register, false) == WaitStep::Sleep,
        next_wait_step(WaitStep::Sleep, false) == WaitStep::Check,
{
}

} // verus!
