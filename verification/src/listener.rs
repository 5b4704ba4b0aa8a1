use vstd::prelude::*;

use crate::broadcast::SendError;
use crate::channel::channel_send;
use crate::event::{Event, KeyBinding};
use crate::key::Key;

verus! {

/// The lifecycle of the background input listener.
#[derive(Debug, Clone, Copy, PartialEq, Eq, Structural)]
pub enum ListenerPhase {
    /// Built; no hook is installed yet.
    Idle,
    /// All five hooks are installed and forwarding events.
    Running,
    /// Termination was signalled; the hooks are being released.
    ShuttingDown,
    /// Every hook is released and the run unit has exited.
    Stopped,
}

/// The verified core of the background listener: it owns the outbound event
/// sender, the termination-signal receiver and the key bindings, and keeps
/// the phase discipline Idle, then Running, then ShuttingDown, then Stopped.
///
/// Installing and releasing the OS hooks is outside work. The surrounding
/// runtime installs the five hooks (key down and up, mouse move, down and
/// up) when it marks the listener running, translates each callback through
/// [`Listener::event_for_key_down`] and [`Listener::event_for_key_up`],
/// forwards the result with [`Listener::forward`], and must have released
/// every hook before it marks the listener stopped — no hook may fire after
/// that. Signalling termination twice, or to a listener that never started,
/// is a precondition violation, not a handled case.
pub struct Listener {
    phase: ListenerPhase,
    bindings: KeyBinding,
    sender: crossbeam_channel::Sender<Event>,
    termination: crossbeam_channel::Receiver<()>,
}

impl Listener {
    /// The phase the listener is in.
    pub closed spec fn spec_phase(self) -> ListenerPhase {
        self.phase
    }

    /// The key bindings the listener translates with.
    pub closed spec fn spec_bindings(self) -> KeyBinding {
        self.bindings
    }

    /// The sending half of the output event channel.
    pub closed spec fn spec_sender(self) -> crossbeam_channel::Sender<Event> {
        self.sender
    }

    /// The receiving half of the termination-signal channel.
    pub closed spec fn spec_termination(self) -> crossbeam_channel::Receiver<()> {
        self.termination
    }

    /// A listener in the idle phase, holding the given output sender,
    /// termination receiver and bindings.
    pub fn new(
        sender: crossbeam_channel::Sender<Event>,
        termination: crossbeam_channel::Receiver<()>,
        bindings: KeyBinding,
    ) -> (l: Self)
        ensures
            l.spec_phase() == ListenerPhase::Idle,
            l.spec_bindings() == bindings,
            l.spec_sender() == sender,
            l.spec_termination() == termination,
    {
        Listener { phase: ListenerPhase::Idle, bindings, sender, termination }
    }

    /// The phase the listener is in.
    pub fn phase(&self) -> (p: ListenerPhase)
        ensures
            p == self.spec_phase(),
    {
        self.phase
    }

    /// The bindings, for the callbacks' use.
    pub fn bindings(&self) -> (b: &KeyBinding)
        ensures
            *b == self.spec_bindings(),
    {
        &self.bindings
    }

    /// The output sender, for the callbacks' use.
    pub fn sender(&self) -> (s: &crossbeam_channel::Sender<Event>)
        ensures
            *s == self.spec_sender(),
    {
        &self.sender
    }

    /// The termination receiver the run unit blocks on.
    pub fn termination(&self) -> (t: &crossbeam_channel::Receiver<()>)
        ensures
            *t == self.spec_termination(),
    {
        &self.termination
    }

    /// Marks the hooks installed: Idle becomes Running.
    pub fn start(&mut self)
        requires
            old(self).spec_phase() == ListenerPhase::Idle,
        ensures
            final(self).spec_phase() == ListenerPhase::Running,
            final(self).spec_bindings() == old(self).spec_bindings(),
            final(self).spec_sender() == old(self).spec_sender(),
            final(self).spec_termination() == old(self).spec_termination(),
    {
        self.phase = ListenerPhase::Running;
    }

    /// Records the termination signal: Running becomes ShuttingDown.
    pub fn begin_shutdown(&mut self)
        requires
            old(self).spec_phase() == ListenerPhase::Running,
        ensures
            final(self).spec_phase() == ListenerPhase::ShuttingDown,
            final(self).spec_bindings() == old(self).spec_bindings(),
            final(self).spec_sender() == old(self).spec_sender(),
            final(self).spec_termination() == old(self).spec_termination(),
    {
        self.phase = ListenerPhase::ShuttingDown;
    }

    /// Marks every hook released and the run unit exited: ShuttingDown
    /// becomes Stopped.
    pub fn finish_shutdown(&mut self)
        requires
            old(self).spec_phase() == ListenerPhase::ShuttingDown,
        ensures
            final(self).spec_phase() == ListenerPhase::Stopped,
            final(self).spec_bindings() == old(self).spec_bindings(),
            final(self).spec_sender() == old(self).spec_sender(),
            final(self).spec_termination() == old(self).spec_termination(),
    {
        self.phase = ListenerPhase::Stopped;
    }

    /// Translates a key-down notification, as the key-down hook does.
    pub fn event_for_key_down(&self, key: Key) -> (e: Event)
        ensures
            e == self.spec_bindings().spec_key_down_event(key),
    {
        self.bindings.key_down_event(key)
    }

    /// Translates a key-up notification, as the key-up hook does; `None`
    /// means the release is suppressed because the key is bound.
    pub fn event_for_key_up(&self, key: Key) -> (r: Option<Event>)
        ensures
            r == self.spec_bindings().spec_key_up_event(key),
    {
        self.bindings.key_up_event(key)
    }

    /// Sends one translated event on the output channel, as a firing hook
    /// does; hooks only fire while the listener runs. A failure means the
    /// consuming side is gone; it carries the event back and is fatal to
    /// this callback invocation only, so the caller reports it.
    pub fn forward(&self, event: Event) -> (r: Result<(), SendError<Event>>)
        requires
            self.spec_phase() == ListenerPhase::Running,
        ensures
            r matches Err(e) ==> e.0 == event,
    {
        match channel_send(&self.sender, event) {
            Ok(()) => Ok(()),
            Err(m) => Err(SendError(m)),
        }
    }
}

} // verus!
