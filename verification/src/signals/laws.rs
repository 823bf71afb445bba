//! What holds of signal coordination, whatever is done in whatever order.

use crate::signals::{other_than, Signal, SignalOp, SignalView};
use vstd::prelude::*;

verus! {

/// Shutdown latches: once the flag is set, no run of operations clears it.
pub proof fn law_shutdown_stays(state: SignalView, ops: Seq<SignalOp>)
    requires
        state.shutdown,
    ensures
        state.run(ops).shutdown,
    decreases ops.len(),
{
    if ops.len() > 0 {
        law_shutdown_stays(state, ops.drop_last());
    }
}

/// Triggering shutdown sets the flag and wakes everyone who waits for it;
/// triggering it again changes nothing and wakes nobody.
pub proof fn law_shutdown_trigger_is_idempotent(state: SignalView)
    ensures
        state.trigger_shutdown().shutdown,
        state.woken_by(Signal::Shutdown) == state.shutdown_waiters,
        state.trigger_shutdown().trigger_shutdown() == state.trigger_shutdown(),
        state.trigger_shutdown().woken_by(Signal::Shutdown) == Seq::<u64>::empty(),
{
}

/// A waiter that is suspended for shutdown is woken by the trigger, and
/// waits no longer after it.
pub proof fn law_shutdown_wakes_who_waits(state: SignalView, waiter: u64)
    requires
        !state.shutdown,
    ensures
        state.wait_shutdown(waiter).woken_by(Signal::Shutdown).contains(waiter),
        !state.wait_shutdown(waiter).trigger_shutdown().shutdown_waiters.contains(waiter),
{
    let waiting = state.wait_shutdown(waiter).shutdown_waiters;
    assert(waiting[waiting.len() - 1] == waiter);
}

/// Once shutdown has been triggered, a waiter that asks to wait for it is
/// not registered, whatever happened in between: the state is as if it had
/// not asked.
pub proof fn law_wait_after_shutdown_is_immediate(
    state: SignalView,
    ops: Seq<SignalOp>,
    waiter: u64,
)
    ensures
        state.trigger_shutdown().run(ops).shutdown,
        state.trigger_shutdown().run(ops).wait_shutdown(waiter) == state.trigger_shutdown().run(
            ops,
        ),
{
    law_shutdown_stays(state.trigger_shutdown(), ops);
}

/// From the start on, nobody waits for a shutdown that has happened.
pub proof fn law_nobody_waits_after_shutdown(ops: Seq<SignalOp>)
    ensures
        SignalView::fresh().run(ops).shutdown ==> SignalView::fresh().run(ops).shutdown_waiters
            == Seq::<u64>::empty(),
    decreases ops.len(),
{
    if ops.len() > 0 {
        law_nobody_waits_after_shutdown(ops.drop_last());
        let before = SignalView::fresh().run(ops.drop_last());
        match ops.last() {
            SignalOp::Withdraw(waiter) => {
                if before.shutdown {
                    Seq::<u64>::empty().lemma_filter_len(other_than(waiter));
                    assert(before.step(ops.last()).shutdown_waiters == Seq::<u64>::empty());
                }
            },
            _ => {},
        }
    }
}

/// A reload pulse wakes exactly those who wait for reload at that moment,
/// each as often as it had asked, and none of them waits after it: a
/// second pulse wakes nobody unless someone has asked again.
pub proof fn law_reload_wakes_once(state: SignalView, waiter: u64)
    ensures
        state.wait_reload(waiter).woken_by(Signal::Reload) == state.reload_waiters.push(waiter),
        state.wait_reload(waiter).woken_by(Signal::Reload).contains(waiter),
        state.wait_reload(waiter).trigger_reload().woken_by(Signal::Reload) == Seq::<u64>::empty(),
{
    let waiting = state.wait_reload(waiter).reload_waiters;
    assert(waiting[waiting.len() - 1] == waiter);
}

/// A reload pulse that finds nobody waiting leaves nothing behind: the
/// state is what it was, so whatever follows goes as if there had been no
/// pulse, and a waiter that asks afterwards is registered and suspends.
pub proof fn law_reload_leaves_nothing(state: SignalView, ops: Seq<SignalOp>, waiter: u64)
    requires
        state.reload_waiters == Seq::<u64>::empty(),
    ensures
        state.trigger_reload() == state,
        state.trigger_reload().run(ops) == state.run(ops),
        state.trigger_reload().wait_reload(waiter).reload_waiters == seq![waiter],
{
    assert(state.trigger_reload().wait_reload(waiter).reload_waiters =~= seq![waiter]);
}

/// A reload pulse touches neither the shutdown flag nor those who wait for
/// shutdown, and a shutdown touches nobody who waits for reload.
pub proof fn law_signals_do_not_mix(state: SignalView)
    ensures
        state.trigger_reload().shutdown == state.shutdown,
        state.trigger_reload().shutdown_waiters == state.shutdown_waiters,
        state.trigger_shutdown().reload_waiters == state.reload_waiters,
{
}

/// The listeners are installed once: after that the handler stays
/// installed whatever is done, so the condition under which `install` may
/// be called never holds again.
pub proof fn law_installed_stays(state: SignalView, ops: Seq<SignalOp>)
    ensures
        state.install().installed,
        state.install().run(ops).installed,
    decreases ops.len(),
{
    if ops.len() > 0 {
        law_installed_stays(state, ops.drop_last());
    }
}

/// Delivering a logical signal is the trigger it stands for, in the state
/// it leaves and in whom it wakes.
pub proof fn law_delivery_is_the_trigger(state: SignalView)
    ensures
        state.deliver(Signal::Shutdown) == state.trigger_shutdown(),
        state.deliver(Signal::Reload) == state.trigger_reload(),
{
}

} // verus!
