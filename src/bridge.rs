//! The bridge state: a single slot that holds the worker, if one is
//! managed, and the checks a request goes through before it is written.

use vstd::prelude::*;

verus! {

/// Why a request could not be delivered to the worker.
#[derive(Clone, Copy, Debug, PartialEq, Eq, Structural)]
pub enum BridgeError {
    /// No worker is managed: not started yet, or already taken down.
    BridgeUnavailable,
    /// The worker is managed but its input stream is not at hand.
    StreamUnavailable,
    /// Writing the request to the worker's input failed.
    WriteFailed,
}

/// A running worker: its process handle `P` and, while it is open, the
/// writable end `I` of its input stream.
pub struct Worker<P, I> {
    pub process: P,
    pub input: Option<I>,
}

/// The bridge state. It manages at most one worker at a time.
pub struct Bridge<P, I> {
    slot: Option<Worker<P, I>>,
}

impl<P, I> Bridge<P, I> {
    /// The worker that the bridge manages, if any.
    pub closed spec fn worker(&self) -> Option<Worker<P, I>> {
        self.slot
    }

    /// The outcome of the checks that a request goes through before it is
    /// written.
    pub open spec fn send_check(&self) -> Result<(), BridgeError> {
        match self.worker() {
            None => Err(BridgeError::BridgeUnavailable),
            Some(w) => if w.input is None {
                Err(BridgeError::StreamUnavailable)
            } else {
                Ok(())
            },
        }
    }

    /// A bridge that manages no worker yet.
    pub fn new() -> (b: Self)
        ensures
            b.worker() is None,
    {
        Bridge { slot: None }
    }

    /// True when a worker is managed.
    pub fn is_running(&self) -> (r: bool)
        ensures
            r == self.worker() is Some,
    {
        self.slot.is_some()
    }

    /// Puts `worker` under the bridge's management. When a worker is managed
    /// already, the bridge is left as it was and `worker` is handed back.
    pub fn install(&mut self, worker: Worker<P, I>) -> (r: Option<Worker<P, I>>)
        ensures
            old(self).worker() is None ==> final(self).worker() == Some(worker) && r is None,
            old(self).worker() is Some ==> final(self).worker() == old(self).worker() && r
                == Some(worker),
    {
        if self.slot.is_some() {
            Some(worker)
        } else {
            self.slot = Some(worker);
            None
        }
    }

    /// Takes the worker out of the bridge, leaving the slot empty.
    pub fn take_worker(&mut self) -> (r: Option<Worker<P, I>>)
        ensures
            r == old(self).worker(),
            final(self).worker() is None,
    {
        self.slot.take()
    }

    /// The worker's input stream, to write one request to; or why there is
    /// none to write to.
    pub fn input_for_send(&mut self) -> (r: Result<&mut I, BridgeError>)
        ensures
            r is Err <==> old(self).send_check() is Err,
            r is Err ==> old(self).send_check() == Err::<(), BridgeError>(r->Err_0),
            r is Err ==> final(self).worker() == old(self).worker(),
            r matches Ok(input) ==> old(self).worker() matches Some(w) && w.input == Some(*input)
                && final(self).worker() == Some(
                (Worker { process: w.process, input: Some(*final(input)) }),
            ),
    {
        match &mut self.slot {
            None => Err(BridgeError::BridgeUnavailable),
            Some(worker) => match &mut worker.input {
                None => Err(BridgeError::StreamUnavailable),
                Some(input) => Ok(input),
            },
        }
    }
}

/// A request made while no worker is managed, before one was started or
/// after it was taken down, fails with `BridgeUnavailable`.
pub proof fn lemma_send_without_worker_unavailable<P, I>(b: Bridge<P, I>)
    requires
        b.worker() is None,
    ensures
        b.send_check() == Err::<(), BridgeError>(BridgeError::BridgeUnavailable),
{
}

} // verus!
