//! Coordination of shutdown and reload.
//!
//! Shutdown is a latch: once set it stays set, everyone waiting for it is
//! woken, and whoever asks later is not made to wait. Reload is a pulse:
//! it wakes those who wait at that moment and leaves nothing behind.
//!
//! A `SignalHandler` is the state behind that, and each of its operations
//! is one indivisible step: it changes the state and names the waiters to
//! wake. Suspending and waking tasks and listening to the operating
//! system belong to whoever holds the handler; waiters are known here by
//! the numbers their holder gives them.

pub mod laws;

use vstd::prelude::*;

verus! {

/// A logical signal.
#[derive(Debug, Clone, Copy, PartialEq, Eq, Structural)]
pub enum Signal {
    /// The application should begin to shut down.
    Shutdown,
    /// The application should read its configuration again.
    Reload,
}

/// A signal of the operating system that the handler listens to.
#[derive(Debug, Clone, Copy, PartialEq, Eq, Structural)]
pub enum OsSignal {
    /// A request to terminate.
    Terminate,
    /// An interrupt from the terminal.
    Interrupt,
    /// A hangup.
    Hangup,
}

/// What a call to wait comes to.
#[derive(Debug, Clone, Copy, PartialEq, Eq, Structural)]
pub enum Wait {
    /// What was waited for has happened already: do not suspend.
    Ready,
    /// The waiter is registered and has to suspend until it is woken.
    Suspended,
}

impl OsSignal {
    /// The logical signal that this signal of the operating system stands
    /// for: termination and interrupt ask for shutdown, hangup for reload.
    pub open spec fn routed(self) -> Signal {
        match self {
            OsSignal::Terminate => Signal::Shutdown,
            OsSignal::Interrupt => Signal::Shutdown,
            OsSignal::Hangup => Signal::Reload,
        }
    }

    /// The logical signal that this signal of the operating system stands
    /// for.
    pub fn routes_to(self) -> (signal: Signal)
        ensures
            signal == self.routed(),
    {
        match self {
            OsSignal::Terminate => Signal::Shutdown,
            OsSignal::Interrupt => Signal::Shutdown,
            OsSignal::Hangup => Signal::Reload,
        }
    }
}

/// What a listener does when its wait on the operating system returns.
#[derive(Debug, Clone, Copy, PartialEq, Eq, Structural)]
pub struct Receipt {
    /// Whether the listener delivers its logical signal.
    pub deliver: bool,
    /// Whether the listener goes back to waiting.
    pub listen_on: bool,
}

impl Signal {
    /// What the listener for this logical signal does when its wait
    /// returns; `arrived` says whether a signal came in, as opposed to the
    /// source having closed.
    ///
    /// The shutdown listener delivers whatever ended its wait and then
    /// stops: shutdown happens once. The reload listener delivers each
    /// signal that comes in and goes on listening, and stops without
    /// delivering when its source closes.
    pub open spec fn receipt(self, arrived: bool) -> Receipt {
        match self {
            Signal::Shutdown => Receipt { deliver: true, listen_on: false },
            Signal::Reload => Receipt { deliver: arrived, listen_on: arrived },
        }
    }

    /// What the listener for this logical signal does when its wait
    /// returns.
    pub fn on_receipt(self, arrived: bool) -> (receipt: Receipt)
        ensures
            receipt == self.receipt(arrived),
    {
        match self {
            Signal::Shutdown => Receipt { deliver: true, listen_on: false },
            Signal::Reload => Receipt { deliver: arrived, listen_on: arrived },
        }
    }

    /// The signals of the operating system that the listener for this
    /// logical signal waits on: those that stand for it, each once.
    pub fn sources(self) -> (sources: Vec<OsSignal>)
        ensures
            forall|os: OsSignal| sources@.contains(os) <==> os.routed() == self,
            sources@.no_duplicates(),
            sources@ == (match self {
                Signal::Shutdown => seq![OsSignal::Terminate, OsSignal::Interrupt],
                Signal::Reload => seq![OsSignal::Hangup],
            }),
    {
        let mut sources: Vec<OsSignal> = Vec::new();
        match self {
            Signal::Shutdown => {
                sources.push(OsSignal::Terminate);
                sources.push(OsSignal::Interrupt);
                assert(sources@[0] == OsSignal::Terminate && sources@[1] == OsSignal::Interrupt);
            },
            Signal::Reload => {
                sources.push(OsSignal::Hangup);
                assert(sources@[0] == OsSignal::Hangup);
            },
        }
        sources
    }
}

/// The test that tells every waiter but `waiter`.
pub open spec fn other_than(waiter: u64) -> spec_fn(u64) -> bool {
    |w: u64| w != waiter
}

/// The state of signal coordination.
#[derive(Debug)]
pub struct SignalHandler {
    shutdown_flag: bool,
    installed: bool,
    shutdown_waiters: Vec<u64>,
    reload_waiters: Vec<u64>,
}

/// The mathematical value of a `SignalHandler`.
pub struct SignalView {
    /// Whether shutdown has been triggered.
    pub shutdown: bool,
    /// Whether the listeners have been installed.
    pub installed: bool,
    /// Who is suspended until shutdown, in the order they came.
    pub shutdown_waiters: Seq<u64>,
    /// Who is suspended until the next reload, in the order they came.
    pub reload_waiters: Seq<u64>,
}

impl SignalView {
    /// The state at the start: running, nothing installed, nobody waiting.
    pub open spec fn fresh() -> SignalView {
        SignalView {
            shutdown: false,
            installed: false,
            shutdown_waiters: Seq::empty(),
            reload_waiters: Seq::empty(),
        }
    }

    /// The state after shutdown is triggered: the flag is set and nobody
    /// waits for shutdown any more.
    pub open spec fn trigger_shutdown(self) -> SignalView {
        SignalView { shutdown: true, shutdown_waiters: Seq::empty(), ..self }
    }

    /// The state after a reload pulse: nobody waits for reload any more,
    /// and nothing else has changed.
    pub open spec fn trigger_reload(self) -> SignalView {
        SignalView { reload_waiters: Seq::empty(), ..self }
    }

    /// The state after `waiter` asks to wait for shutdown: it is added to
    /// those who wait, unless shutdown has happened.
    pub open spec fn wait_shutdown(self, waiter: u64) -> SignalView {
        if self.shutdown {
            self
        } else {
            SignalView { shutdown_waiters: self.shutdown_waiters.push(waiter), ..self }
        }
    }

    /// The state after `waiter` asks to wait for the next reload.
    pub open spec fn wait_reload(self, waiter: u64) -> SignalView {
        SignalView { reload_waiters: self.reload_waiters.push(waiter), ..self }
    }

    /// The state after `waiter` gives up waiting: it waits for nothing.
    pub open spec fn withdraw(self, waiter: u64) -> SignalView {
        SignalView {
            shutdown_waiters: self.shutdown_waiters.filter(other_than(waiter)),
            reload_waiters: self.reload_waiters.filter(other_than(waiter)),
            ..self
        }
    }

    /// The state after the listeners are installed.
    pub open spec fn install(self) -> SignalView {
        SignalView { installed: true, ..self }
    }

    /// The logical signals to start a listener for, one each.
    pub open spec fn listeners() -> Seq<Signal> {
        seq![Signal::Shutdown, Signal::Reload]
    }

    /// The state after `signal` is delivered: that of the trigger it
    /// stands for.
    pub open spec fn deliver(self, signal: Signal) -> SignalView {
        match signal {
            Signal::Shutdown => self.trigger_shutdown(),
            Signal::Reload => self.trigger_reload(),
        }
    }

    /// Who is woken when `signal` is delivered: everyone who waits for it
    /// at that moment.
    pub open spec fn woken_by(self, signal: Signal) -> Seq<u64> {
        match signal {
            Signal::Shutdown => self.shutdown_waiters,
            Signal::Reload => self.reload_waiters,
        }
    }
}

/// One operation on the state, as a value.
pub enum SignalOp {
    TriggerShutdown,
    TriggerReload,
    Deliver(Signal),
    WaitShutdown(u64),
    WaitReload(u64),
    Withdraw(u64),
    Install,
}

impl SignalView {
    /// The state after one operation.
    pub open spec fn step(self, op: SignalOp) -> SignalView {
        match op {
            SignalOp::TriggerShutdown => self.trigger_shutdown(),
            SignalOp::TriggerReload => self.trigger_reload(),
            SignalOp::Deliver(signal) => self.deliver(signal),
            SignalOp::WaitShutdown(waiter) => self.wait_shutdown(waiter),
            SignalOp::WaitReload(waiter) => self.wait_reload(waiter),
            SignalOp::Withdraw(waiter) => self.withdraw(waiter),
            SignalOp::Install => self.install(),
        }
    }

    /// The state after a run of operations, the first of them first.
    pub open spec fn run(self, ops: Seq<SignalOp>) -> SignalView
        decreases ops.len(),
    {
        if ops.len() == 0 {
            self
        } else {
            self.run(ops.drop_last()).step(ops.last())
        }
    }
}

impl View for SignalHandler {
    type V = SignalView;

    closed spec fn view(&self) -> SignalView {
        SignalView {
            shutdown: self.shutdown_flag,
            installed: self.installed,
            shutdown_waiters: self.shutdown_waiters@,
            reload_waiters: self.reload_waiters@,
        }
    }
}

/// The waiters in `waiters` other than `waiter`, in their order.
fn without(waiters: &Vec<u64>, waiter: u64) -> (kept: Vec<u64>)
    ensures
        kept@ == waiters@.filter(other_than(waiter)),
{
    let ghost others = other_than(waiter);
    let mut kept: Vec<u64> = Vec::new();
    let mut i: usize = 0;
    proof {
        assert(waiters@.take(0) == Seq::<u64>::empty());
        Seq::<u64>::empty().lemma_filter_len(others);
    }
    while i < waiters.len()
        invariant
            i <= waiters.len(),
            others == other_than(waiter),
            kept@ == waiters@.take(i as int).filter(others),
        decreases waiters.len() - i,
    {
        let w = waiters[i];
        proof {
            let head = waiters@.take(i as int);
            assert(waiters@.take(i + 1) == head + seq![w]);
            Seq::filter_distributes_over_add(head, seq![w], others);
            reveal_with_fuel(Seq::filter, 2);
            assert(seq![w].drop_last() == Seq::<u64>::empty());
            assert(seq![w].last() == w);
        }
        if w != waiter {
            kept.push(w);
        }
        i = i + 1;
    }
    proof {
        assert(waiters@.take(i as int) == waiters@);
    }
    kept
}

impl SignalHandler {
    /// A handler at the start: running, nothing installed, nobody waiting.
    pub fn new() -> (handler: SignalHandler)
        ensures
            handler@ == SignalView::fresh(),
    {
        SignalHandler {
            shutdown_flag: false,
            installed: false,
            shutdown_waiters: Vec::new(),
            reload_waiters: Vec::new(),
        }
    }

    /// Whether shutdown has been triggered. Asking changes nothing.
    pub fn is_shutdown(&self) -> (shutdown: bool)
        ensures
            shutdown == self@.shutdown,
    {
        self.shutdown_flag
    }

    /// Whether the listeners have been installed.
    pub fn is_installed(&self) -> (installed: bool)
        ensures
            installed == self@.installed,
    {
        self.installed
    }

    /// Triggers shutdown: sets the flag and names everyone who waits for
    /// shutdown, to be woken. Triggered again, it changes nothing and
    /// wakes nobody.
    pub fn trigger_shutdown(&mut self) -> (woken: Vec<u64>)
        ensures
            final(self)@ == old(self)@.trigger_shutdown(),
            woken@ == old(self)@.shutdown_waiters,
    {
        self.shutdown_flag = true;
        let mut woken: Vec<u64> = Vec::new();
        std::mem::swap(&mut woken, &mut self.shutdown_waiters);
        woken
    }

    /// Triggers a reload pulse: names everyone who waits for reload at
    /// this moment, to be woken. Nothing of the pulse stays behind.
    pub fn trigger_reload(&mut self) -> (woken: Vec<u64>)
        ensures
            final(self)@ == old(self)@.trigger_reload(),
            woken@ == old(self)@.reload_waiters,
    {
        let mut woken: Vec<u64> = Vec::new();
        std::mem::swap(&mut woken, &mut self.reload_waiters);
        woken
    }

    /// Delivers a logical signal, as the trigger it stands for does.
    pub fn deliver(&mut self, signal: Signal) -> (woken: Vec<u64>)
        ensures
            final(self)@ == old(self)@.deliver(signal),
            woken@ == old(self)@.woken_by(signal),
    {
        match signal {
            Signal::Shutdown => self.trigger_shutdown(),
            Signal::Reload => self.trigger_reload(),
        }
    }

    /// `waiter` asks to wait for shutdown. Where shutdown has happened it
    /// is told not to suspend; else it is registered and has to suspend.
    pub fn wait_shutdown(&mut self, waiter: u64) -> (wait: Wait)
        ensures
            final(self)@ == old(self)@.wait_shutdown(waiter),
            wait == (if old(self)@.shutdown {
                Wait::Ready
            } else {
                Wait::Suspended
            }),
    {
        if self.shutdown_flag {
            Wait::Ready
        } else {
            self.shutdown_waiters.push(waiter);
            Wait::Suspended
        }
    }

    /// `waiter` asks to wait for the next reload pulse. It is registered
    /// and has to suspend, whatever pulses there were before.
    pub fn wait_reload(&mut self, waiter: u64) -> (wait: Wait)
        ensures
            final(self)@ == old(self)@.wait_reload(waiter),
            wait == Wait::Suspended,
    {
        self.reload_waiters.push(waiter);
        Wait::Suspended
    }

    /// `waiter` gives up waiting, for shutdown and for reload.
    pub fn withdraw(&mut self, waiter: u64)
        ensures
            final(self)@ == old(self)@.withdraw(waiter),
    {
        self.shutdown_waiters = without(&self.shutdown_waiters, waiter);
        self.reload_waiters = without(&self.reload_waiters, waiter);
    }

    /// Installs the listeners: marks the handler as installed and names
    /// the logical signals to start a listener for, one each. A handler
    /// takes this once; its holder must not ask twice.
    pub fn install(&mut self) -> (listeners: Vec<Signal>)
        requires
            !old(self)@.installed,
        ensures
            final(self)@ == old(self)@.install(),
            listeners@ == SignalView::listeners(),
    {
        self.installed = true;
        let mut listeners: Vec<Signal> = Vec::new();
        listeners.push(Signal::Shutdown);
        listeners.push(Signal::Reload);
        listeners
    }

    /// Installs the listeners unless they are installed already, testing
    /// and marking in one step. Nothing is handed out, and nothing changes,
    /// where the handler was installed before: its holder then knows that
    /// it has asked twice.
    pub fn try_install(&mut self) -> (listeners: Option<Vec<Signal>>)
        ensures
            listeners is Some <==> !old(self)@.installed,
            listeners is Some ==> listeners->Some_0@ == SignalView::listeners(),
            final(self)@ == old(self)@.install(),
    {
        if self.installed {
            None
        } else {
            Some(self.install())
        }
    }
}

impl Default for SignalHandler {
    fn default() -> (handler: SignalHandler)
        ensures
            handler@ == SignalView::fresh(),
    {
        SignalHandler::new()
    }
}

} // verus!
