//! The instance lifecycle state machine.
//!
//! An `Instance` owns the background client handle and the two control
//! channels. The client handle and both channel receivers are take-once
//! slots: spawn takes all three together, exactly once, and only then sets
//! the spawned flag. The stop sender is a take-once slot of its own,
//! consumed by the first effective stop. The contracts below make a second
//! spawn and a second stop structurally impossible.

use vstd::prelude::*;

use crate::signals::{
    clone_reload_sender, reload_channel, send_reload_signal, send_stop_signal, stop_channel,
    ReloadReceiver, ReloadSender, StopReceiver, StopSender,
};

verus! {

/// A lifecycle misuse or delivery failure, reported synchronously at the
/// call site.
#[derive(Clone, Copy, Debug, PartialEq, Eq, Structural)]
pub enum InstanceError {
    /// Spawn was called on an instance whose receivers were already taken.
    AlreadySpawned,
    /// Stop was called a second time on a spawned instance.
    AlreadyStopped,
    /// Spawn found the client handle gone.
    CannotStartStopped,
    /// A reload signal could not be delivered: the background run has exited.
    ReloadNotDelivered,
    /// The stop notification could not be delivered: the background run
    /// finished before the stop arrived. An expected, reportable race.
    StopNotDelivered,
}

impl InstanceError {
    /// A human-readable message identifying the cause.
    pub fn message(&self) -> (r: &'static str)
        ensures
            self is AlreadySpawned ==> r@ == "instance has already been spawned"@,
            self is AlreadyStopped ==> r@ == "instance already stopped"@,
            self is CannotStartStopped ==> r@ == "cannot start already stopped instance"@,
            self is ReloadNotDelivered ==> r@ == "failed to send reload signal"@,
            self is StopNotDelivered ==> r@ == "failed to deliver stop signal"@,
    {
        match self {
            InstanceError::AlreadySpawned => "instance has already been spawned",
            InstanceError::AlreadyStopped => "instance already stopped",
            InstanceError::CannotStartStopped => "cannot start already stopped instance",
            InstanceError::ReloadNotDelivered => "failed to send reload signal",
            InstanceError::StopNotDelivered => "failed to deliver stop signal",
        }
    }
}

/// Everything spawn takes ownership of, handed to the dedicated background
/// execution context exactly once.
#[derive(Debug)]
pub struct SpawnHandles<C> {
    /// The client handle, moved out of its slot.
    pub client: C,
    /// A clone of the retained reload sender, for the background run.
    pub reload_tx: ReloadSender,
    /// The reload receiver, consumed by the client run loop.
    pub reload_rx: ReloadReceiver,
    /// The stop receiver, raced against the client run loop.
    pub stop_rx: StopReceiver,
}

/// The core entity: one background client run, started at most once.
pub struct Instance<C> {
    client: Option<C>,
    reload_tx: ReloadSender,
    reload_rx: Option<ReloadReceiver>,
    stop_tx: Option<StopSender>,
    stop_rx: Option<StopReceiver>,
    has_been_spawned: bool,
}

impl<C> Instance<C> {
    /// Spawn has taken the slots.
    pub closed spec fn spawned(self) -> bool {
        self.has_been_spawned
    }

    /// The stop sender has not been taken yet.
    pub closed spec fn stop_sender_present(self) -> bool {
        self.stop_tx is Some
    }

    /// The client slot, full until spawn takes it.
    pub closed spec fn client_slot(self) -> Option<C> {
        self.client
    }

    /// The slots transition together: the spawned flag is set exactly when
    /// the client and both receivers are gone, and the stop sender survives
    /// at least until spawn.
    pub closed spec fn wf(self) -> bool {
        &&& (self.has_been_spawned <==> self.reload_rx is None)
        &&& (self.has_been_spawned <==> self.stop_rx is None)
        &&& (self.has_been_spawned <==> self.client is None)
        &&& (!self.has_been_spawned ==> self.stop_tx is Some)
    }

    /// Builds an idle instance around the client handle, with fresh reload
    /// and stop channels and the spawned flag clear.
    pub fn new(client: C) -> (r: Instance<C>)
        ensures
            r.wf(),
            !r.spawned(),
            r.stop_sender_present(),
            r.client_slot() == Some(client),
    {
        let (reload_tx, reload_rx) = reload_channel();
        let (stop_tx, stop_rx) = stop_channel();
        Instance {
            client: Some(client),
            reload_tx,
            reload_rx: Some(reload_rx),
            stop_tx: Some(stop_tx),
            stop_rx: Some(stop_rx),
            has_been_spawned: false,
        }
    }

    /// Whether spawn has already taken the slots.
    pub fn has_been_spawned(&self) -> (r: bool)
        ensures
            r == self.spawned(),
    {
        self.has_been_spawned
    }

    /// Asks the running client to reload its configuration.
    ///
    /// A no-op before spawn. After spawn it sends one reload signal; the send
    /// fails only when the background run has already exited, and that
    /// failure is reported, never swallowed.
    pub fn reload(&self) -> (r: Result<(), InstanceError>)
        ensures
            !self.spawned() ==> r is Ok,
            r matches Err(e) ==> self.spawned() && e == InstanceError::ReloadNotDelivered,
    {
        if self.has_been_spawned {
            match send_reload_signal(&self.reload_tx) {
                Ok(()) => Ok(()),
                Err(()) => Err(InstanceError::ReloadNotDelivered),
            }
        } else {
            Ok(())
        }
    }

    /// Asks the running client to terminate cleanly.
    ///
    /// A no-op before spawn. After spawn the first call takes the single-use
    /// stop sender and fires it; a second call always fails with
    /// `AlreadyStopped`. A send on a dead receiver (the run finished first)
    /// is reported as `StopNotDelivered`.
    pub fn stop(&mut self) -> (r: Result<(), InstanceError>)
        requires
            old(self).wf(),
        ensures
            final(self).wf(),
            final(self).spawned() == old(self).spawned(),
            final(self).client_slot() == old(self).client_slot(),
            !old(self).spawned() ==> r is Ok && final(self).stop_sender_present()
                == old(self).stop_sender_present(),
            old(self).spawned() && !old(self).stop_sender_present() ==> (r matches Err(e)
                && e == InstanceError::AlreadyStopped),
            old(self).spawned() && old(self).stop_sender_present()
                ==> !final(self).stop_sender_present() && (r is Ok || (r matches Err(e)
                && e == InstanceError::StopNotDelivered)),
            r is Err ==> old(self).spawned(),
    {
        if self.has_been_spawned {
            match self.stop_tx.take() {
                None => Err(InstanceError::AlreadyStopped),
                Some(tx) => match send_stop_signal(tx) {
                    Ok(()) => Ok(()),
                    Err(()) => Err(InstanceError::StopNotDelivered),
                },
            }
        } else {
            Ok(())
        }
    }

    /// Takes exclusive ownership of the client and both receivers, exactly
    /// once, and sets the spawned flag; the caller launches the background
    /// run with what comes back. Any later call fails with `AlreadySpawned`
    /// and changes nothing.
    pub fn spawn(&mut self) -> (r: Result<SpawnHandles<C>, InstanceError>)
        requires
            old(self).wf(),
        ensures
            final(self).wf(),
            r is Ok <==> !old(self).spawned(),
            old(self).spawned() ==> (r matches Err(e) && e == InstanceError::AlreadySpawned)
                && *final(self) == *old(self),
            !old(self).spawned() ==> final(self).spawned() && (r matches Ok(h) && Some(h.client)
                == old(self).client_slot()),
            final(self).stop_sender_present() == old(self).stop_sender_present(),
    {
        let reload_rx = match self.reload_rx.take() {
            None => {
                return Err(InstanceError::AlreadySpawned);
            },
            Some(rx) => rx,
        };
        let stop_rx = match self.stop_rx.take() {
            None => {
                return Err(InstanceError::AlreadySpawned);
            },
            Some(rx) => rx,
        };
        let client = match self.client.take() {
            None => {
                return Err(InstanceError::CannotStartStopped);
            },
            Some(c) => c,
        };
        let reload_tx = clone_reload_sender(&self.reload_tx);
        self.has_been_spawned = true;
        Ok(SpawnHandles { client, reload_tx, reload_rx, stop_rx })
    }
}

} // verus!
