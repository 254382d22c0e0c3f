//! Trusted declarations of the two control channels.
//!
//! The reload signal rides an unbounded, multi-send channel whose receiver is
//! consumed once by spawn; the stop signal rides a single-use notification
//! channel. Both come from the futures crate; the declarations and wrappers
//! below are the only places the library takes that crate on trust.

use vstd::prelude::*;

verus! {

#[verifier::external_type_specification]
#[verifier::external_body]
#[verifier::reject_recursive_types(T)]
pub struct ExUnboundedSender<T>(futures::channel::mpsc::UnboundedSender<T>);

#[verifier::external_type_specification]
#[verifier::external_body]
#[verifier::reject_recursive_types(T)]
pub struct ExUnboundedReceiver<T>(futures::channel::mpsc::UnboundedReceiver<T>);

#[verifier::external_type_specification]
#[verifier::external_body]
#[verifier::reject_recursive_types(T)]
pub struct ExOneshotSender<T>(futures::channel::oneshot::Sender<T>);

#[verifier::external_type_specification]
#[verifier::external_body]
#[verifier::reject_recursive_types(T)]
pub struct ExOneshotReceiver<T>(futures::channel::oneshot::Receiver<T>);

#[verifier::external_type_specification]
#[verifier::external_body]
pub struct ExCanceled(futures::channel::oneshot::Canceled);

/// The sending half of the reload channel.
pub type ReloadSender = futures::channel::mpsc::UnboundedSender<()>;

/// The receiving half of the reload channel; consumed once, by spawn.
pub type ReloadReceiver = futures::channel::mpsc::UnboundedReceiver<()>;

/// The sending half of the stop channel; consumed once, by stop.
pub type StopSender = futures::channel::oneshot::Sender<()>;

/// The receiving half of the stop channel; consumed once, by spawn.
pub type StopReceiver = futures::channel::oneshot::Receiver<()>;

/// Relies on futures::channel::mpsc::unbounded: returns a connected
/// sender/receiver pair; sends are buffered without bound and arrive in
/// send order.
#[verifier::external_body]
pub(crate) fn reload_channel() -> (ReloadSender, ReloadReceiver) {
    futures::channel::mpsc::unbounded()
}

/// Relies on UnboundedSender::unbounded_send: delivery succeeds exactly when
/// the receiving end is still connected; whether it is depends on the
/// background run, so the caller learns it only from the returned Result.
#[verifier::external_body]
pub(crate) fn send_reload_signal(tx: &ReloadSender) -> Result<(), ()> {
    tx.unbounded_send(()).map_err(|_| ())
}

/// Relies on Clone for UnboundedSender: the clone feeds the same receiver.
#[verifier::external_body]
pub(crate) fn clone_reload_sender(tx: &ReloadSender) -> ReloadSender {
    tx.clone()
}

/// Relies on futures::channel::oneshot::channel: returns the connected
/// single-use pair.
#[verifier::external_body]
pub(crate) fn stop_channel() -> (StopSender, StopReceiver) {
    futures::channel::oneshot::channel()
}

/// Relies on oneshot::Sender::send: consumes the sender; succeeds exactly
/// when the receiving end is still alive, which the caller learns only from
/// the returned Result.
#[verifier::external_body]
pub(crate) fn send_stop_signal(tx: StopSender) -> Result<(), ()> {
    tx.send(()).map_err(|_| ())
}

} // verus!
