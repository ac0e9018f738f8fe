//! The hook channel: a bounded, lossy, single-consumer signal conduit from
//! widget notifiers to the dispatcher, carrying widget identities. Backed
//! by a crossbeam channel; since what arrives depends on other threads,
//! receivers state nothing about the values and callers validate them.

use vstd::prelude::*;

verus! {

#[verifier::external_type_specification]
#[verifier::external_body]
#[verifier::reject_recursive_types(T)]
pub struct ExSender<T>(crossbeam_channel::Sender<T>);

#[verifier::external_type_specification]
#[verifier::external_body]
#[verifier::reject_recursive_types(T)]
pub struct ExReceiver<T>(crossbeam_channel::Receiver<T>);

/// A widget notifier's handle for requesting a redraw: sending is
/// non-blocking and a signal is dropped when the channel is saturated,
/// which is harmless because producers are level-triggered and re-send.
pub struct HookSender {
    pub id: u64,
    pub tx: crossbeam_channel::Sender<u64>,
}

/// The dispatcher's receive side of the shared signal channel.
pub struct HookReceiver {
    pub rx: crossbeam_channel::Receiver<u64>,
}

impl HookSender {
    /// Relies on crossbeam_channel::Sender::try_send: queues the widget's
    /// identity unless the channel is full or disconnected; never blocks.
    /// Returns whether the signal was accepted.
    #[verifier::external_body]
    pub fn send(&self) -> bool {
        self.tx.try_send(self.id).is_ok()
    }

    /// Relies on crossbeam_channel::Sender::clone: another handle to the
    /// same channel, re-tagged with the given widget identity.
    #[verifier::external_body]
    pub fn for_widget(&self, id: u64) -> (r: HookSender)
        ensures
            r.id == id,
    {
        HookSender { id, tx: self.tx.clone() }
    }
}

impl HookReceiver {
    /// Relies on crossbeam_channel::Receiver::try_recv: a queued signal if
    /// there is one; never blocks. The value is whatever some sender
    /// queued, so callers validate it.
    #[verifier::external_body]
    pub fn try_recv(&self) -> Option<u64> {
        self.rx.try_recv().ok()
    }

    /// Relies on crossbeam_channel::Receiver::recv_timeout: blocks up to
    /// `ms` milliseconds for a signal. The value is whatever some sender
    /// queued, so callers validate it.
    #[verifier::external_body]
    pub fn recv_timeout_ms(&self, ms: u64) -> Option<u64> {
        self.rx.recv_timeout(core::time::Duration::from_millis(ms)).ok()
    }
}

/// Relies on crossbeam_channel::bounded: a fresh channel of capacity
/// `cap`, returned as a sender tagged with widget identity `id` and the
/// matching receiver. The capacity bound keeps the allocation modest
/// (`bounded` panics when `cap` is near `usize::MAX`).
#[verifier::external_body]
pub fn hook_channel(cap: usize, id: u64) -> (r: (HookSender, HookReceiver))
    requires
        1 <= cap <= 65536,
    ensures
        r.0.id == id,
{
    let (tx, rx) = crossbeam_channel::bounded(cap);
    (HookSender { id, tx }, HookReceiver { rx })
}

} // verus!
