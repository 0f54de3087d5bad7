use vstd::prelude::*;

use crate::queue::{ThreadSafeQueue, ThreadSafeQueueError};
use crate::signal::Signal;

verus! {

/// What went wrong on a channel endpoint.
#[derive(Debug, Clone, Copy, PartialEq, Eq, Structural)]
pub enum IpcError {
    /// An item could not be put into a queue.
    SendError,
    /// The pump behind the operation has finished.
    ThreadFinished,
    /// The pump behind the operation is not running.
    ThreadNotRunning,
    /// A queue's state was poisoned.
    MutexPoisoned,
    /// A queue was signalled to stop.
    Signalled,
    /// The outbound side is closed.
    PipeClosed,
}

impl IpcError {
    pub open spec fn spec_from_queue(e: ThreadSafeQueueError) -> IpcError {
        match e {
            ThreadSafeQueueError::MutexPoison => IpcError::MutexPoisoned,
            ThreadSafeQueueError::StatusNotOk => IpcError::Signalled,
        }
    }

    pub fn message(&self) -> (r: &'static str)
        ensures
            *self == IpcError::SendError ==> r@ == "Failed to send data into queue. Receive channel likely hung up"@,
            *self == IpcError::ThreadFinished ==> r@ == "Thread was finished"@,
            *self == IpcError::ThreadNotRunning ==> r@ == "Thread not running"@,
            *self == IpcError::MutexPoisoned ==> r@ == "Ipc Queue Mutex was poisoned"@,
            *self == IpcError::Signalled ==> r@ == "Ipc Queue signal set"@,
            *self == IpcError::PipeClosed ==> r@ == "Named pipe was closed"@,
    {
        match self {
            IpcError::SendError => "Failed to send data into queue. Receive channel likely hung up",
            IpcError::ThreadFinished => "Thread was finished",
            IpcError::ThreadNotRunning => "Thread not running",
            IpcError::MutexPoisoned => "Ipc Queue Mutex was poisoned",
            IpcError::Signalled => "Ipc Queue signal set",
            IpcError::PipeClosed => "Named pipe was closed",
        }
    }
}

impl From<ThreadSafeQueueError> for IpcError {
    fn from(e: ThreadSafeQueueError) -> (r: IpcError) {
        match e {
            ThreadSafeQueueError::MutexPoison => IpcError::MutexPoisoned,
            ThreadSafeQueueError::StatusNotOk => IpcError::Signalled,
        }
    }
}

impl vstd::std_specs::convert::FromSpecImpl<ThreadSafeQueueError> for IpcError {
    open spec fn obeys_from_spec() -> bool {
        true
    }

    open spec fn from_spec(e: ThreadSafeQueueError) -> IpcError {
        IpcError::spec_from_queue(e)
    }
}

/// Maps a queue error to the endpoint's error.
pub fn queue_error(e: ThreadSafeQueueError) -> (r: IpcError)
    ensures
        r == IpcError::spec_from_queue(e),
{
    IpcError::from(e)
}

/// Whether a background pump of an endpoint runs, has finished by itself, or
/// has been joined when the endpoint was closed.
#[derive(Debug, Clone, Copy, PartialEq, Eq, Structural)]
pub enum PumpState {
    Running,
    Finished,
    Joined,
}

/// Where the sender pump is: forwarding queued items until the outbound queue
/// is signalled, then draining what is left until `deadline`, then stopped.
#[derive(Debug, Clone, Copy, PartialEq, Eq, Structural)]
pub enum SenderPhase {
    Forwarding,
    Grace { deadline: u64 },
    Stopped,
}

/// What the sender pump does next.
#[derive(Debug, Clone, PartialEq, Eq)]
pub enum SenderAction<S> {
    /// Hand this item to the raw sender.
    Send(S),
    /// Wait for the outbound queue to change (in the grace phase: until the
    /// deadline at most), then ask again.
    Wait,
    /// The pump is done.
    Stop,
}

/// What one bounded receive on the raw transport gave.
#[derive(Debug, Clone, PartialEq, Eq)]
pub enum RecvEvent<R> {
    Received(R),
    TimedOut,
    Failed,
}

/// The default bound, in milliseconds, on one receive and on the grace period.
pub const DEFAULT_TIMEOUT_MS: u64 = 5000;

/// The bound used by `new_with_timeout` where none is given, in milliseconds.
pub const FALLBACK_TIMEOUT_MS: u64 = 15000;

/// One end of a duplex channel: an outbound queue drained by a sender pump and
/// an inbound queue filled by a receiver pump. The pumps themselves run
/// elsewhere; the decisions they take are the methods here.
pub struct IpcEnd<S, R> {
    send_queue: ThreadSafeQueue<S>,
    recv_queue: ThreadSafeQueue<R>,
    sender: PumpState,
    receiver: PumpState,
    recv_timeout_ms: u64,
    send_cleanup_ms: u64,
}

impl<S, R> IpcEnd<S, R> {
    pub closed spec fn outbound(&self) -> ThreadSafeQueue<S> {
        self.send_queue
    }

    pub closed spec fn inbound(&self) -> ThreadSafeQueue<R> {
        self.recv_queue
    }

    pub closed spec fn sender_state(&self) -> PumpState {
        self.sender
    }

    pub closed spec fn receiver_state(&self) -> PumpState {
        self.receiver
    }

    pub closed spec fn recv_timeout(&self) -> u64 {
        self.recv_timeout_ms
    }

    pub closed spec fn send_cleanup(&self) -> u64 {
        self.send_cleanup_ms
    }

    /// Both queues healthy and empty, both pumps running.
    pub open spec fn is_fresh(&self) -> bool {
        &&& self.outbound().items().len() == 0
        &&& self.inbound().items().len() == 0
        &&& !self.outbound().signalled() && !self.outbound().poisoned()
        &&& !self.inbound().signalled() && !self.inbound().poisoned()
        &&& self.sender_state() == PumpState::Running
        &&& self.receiver_state() == PumpState::Running
    }

    /// An endpoint with both bounds at five seconds.
    pub fn new() -> (r: Self)
        ensures
            r.is_fresh(),
            r.recv_timeout() == DEFAULT_TIMEOUT_MS,
            r.send_cleanup() == DEFAULT_TIMEOUT_MS,
    {
        Self::new_with_timeout(Some(DEFAULT_TIMEOUT_MS), Some(DEFAULT_TIMEOUT_MS))
    }

    /// An endpoint with the given receive bound and grace period, in
    /// milliseconds; fifteen seconds for each one not given.
    pub fn new_with_timeout(recv_timeout: Option<u64>, send_cleanup: Option<u64>) -> (r: Self)
        ensures
            r.is_fresh(),
            r.recv_timeout() == (match recv_timeout {
                Some(t) => t,
                None => FALLBACK_TIMEOUT_MS,
            }),
            r.send_cleanup() == (match send_cleanup {
                Some(t) => t,
                None => FALLBACK_TIMEOUT_MS,
            }),
    {
        let recv_timeout_ms = match recv_timeout {
            Some(t) => t,
            None => FALLBACK_TIMEOUT_MS,
        };
        let send_cleanup_ms = match send_cleanup {
            Some(t) => t,
            None => FALLBACK_TIMEOUT_MS,
        };
        IpcEnd {
            send_queue: ThreadSafeQueue::new(),
            recv_queue: ThreadSafeQueue::new(),
            sender: PumpState::Running,
            receiver: PumpState::Running,
            recv_timeout_ms,
            send_cleanup_ms,
        }
    }

    pub fn recv_timeout_ms(&self) -> (r: u64)
        ensures
            r == self.recv_timeout(),
    {
        self.recv_timeout_ms
    }

    pub fn send_cleanup_ms(&self) -> (r: u64)
        ensures
            r == self.send_cleanup(),
    {
        self.send_cleanup_ms
    }

    /// Queues `data` for the peer. Fails, without queueing, once the sender
    /// pump no longer runs; otherwise always succeeds.
    pub fn send(&mut self, data: S) -> (r: Result<(), ()>)
        requires
            !old(self).outbound().poisoned(),
        ensures
            final(self).send_cleanup() == old(self).send_cleanup(),
            final(self).recv_timeout() == old(self).recv_timeout(),
            final(self).inbound() == old(self).inbound(),
            final(self).sender_state() == old(self).sender_state(),
            final(self).receiver_state() == old(self).receiver_state(),
            final(self).outbound().signalled() == old(self).outbound().signalled(),
            !final(self).outbound().poisoned(),
            old(self).sender_state() == PumpState::Running ==> r == Ok::<(), ()>(())
                && final(self).outbound().items() == old(self).outbound().items().push(data),
            old(self).sender_state() != PumpState::Running ==> r == Err::<(), ()>(())
                && final(self).outbound().items() == old(self).outbound().items(),
    {
        match self.sender {
            PumpState::Running => {
                let _ = self.send_queue.enqueue(data);
                Ok(())
            },
            _ => Err(()),
        }
    }

    /// Whether the sender pump, while forwarding, must wait for the outbound
    /// queue to change.
    pub fn send_must_wait(&self) -> (r: bool)
        ensures
            r == self.outbound().waits(),
    {
        self.send_queue.must_wait()
    }

    /// Whether the sender pump is running.
    pub fn sender_running(&self) -> (r: bool)
        ensures
            r == (self.sender_state() == PumpState::Running),
    {
        match self.sender {
            PumpState::Running => true,
            _ => false,
        }
    }

    /// Whether the outbound queue is poisoned.
    pub fn outbound_poisoned(&self) -> (r: bool)
        ensures
            r == self.outbound().poisoned(),
    {
        self.send_queue.is_poisoned()
    }

    /// The number of items queued outbound; 0 when that queue is poisoned.
    pub fn outbound_len(&self) -> (r: usize)
        ensures
            !self.outbound().poisoned() ==> r == self.outbound().items().len(),
            self.outbound().poisoned() ==> r == 0,
    {
        self.send_queue.elements()
    }

    /// Whether a blocking `recv` must wait before it can decide.
    pub fn recv_must_wait(&self) -> (r: bool)
        ensures
            r == self.inbound().waits(),
    {
        self.recv_queue.must_wait()
    }

    /// Takes the next inbound item; refuses once the inbound queue is
    /// signalled. An empty inbound queue with a clear flag would wait for the
    /// receiver pump, and is excluded.
    pub fn recv(&mut self) -> (r: Result<R, IpcError>)
        requires
            !old(self).inbound().waits(),
        ensures
            final(self).send_cleanup() == old(self).send_cleanup(),
            final(self).recv_timeout() == old(self).recv_timeout(),
            final(self).outbound() == old(self).outbound(),
            final(self).sender_state() == old(self).sender_state(),
            final(self).receiver_state() == old(self).receiver_state(),
            final(self).inbound().signalled() == old(self).inbound().signalled(),
            final(self).inbound().poisoned() == old(self).inbound().poisoned(),
            match old(self).inbound().dequeue_outcome() {
                Ok(item) => r == Ok::<R, IpcError>(item) && final(self).inbound().items()
                    == old(self).inbound().items().drop_first(),
                Err(e) => r == Err::<R, IpcError>(IpcError::spec_from_queue(e))
                    && final(self).inbound().items() == old(self).inbound().items(),
            },
    {
        match self.recv_queue.dequeue() {
            Ok(item) => Ok(item),
            Err(e) => Err(queue_error(e)),
        }
    }

    /// Takes the next inbound item without waiting. Fails with
    /// `ThreadNotRunning` once the endpoint is closed and `ThreadFinished` once
    /// the receiver pump has stopped by itself.
    pub fn try_recv(&mut self) -> (r: Result<Option<R>, IpcError>)
        ensures
            final(self).send_cleanup() == old(self).send_cleanup(),
            final(self).recv_timeout() == old(self).recv_timeout(),
            final(self).outbound() == old(self).outbound(),
            final(self).sender_state() == old(self).sender_state(),
            final(self).receiver_state() == old(self).receiver_state(),
            final(self).inbound().signalled() == old(self).inbound().signalled(),
            final(self).inbound().poisoned() == old(self).inbound().poisoned(),
            old(self).receiver_state() == PumpState::Joined ==> r == Err::<Option<R>, IpcError>(
                IpcError::ThreadNotRunning,
            ) && final(self).inbound().items() == old(self).inbound().items(),
            old(self).receiver_state() == PumpState::Finished ==> r == Err::<Option<R>, IpcError>(
                IpcError::ThreadFinished,
            ) && final(self).inbound().items() == old(self).inbound().items(),
            old(self).receiver_state() == PumpState::Running ==> {
                if old(self).inbound().poisoned() || old(self).inbound().items().len() == 0 {
                    r == Ok::<Option<R>, IpcError>(None) && final(self).inbound().items()
                        == old(self).inbound().items()
                } else {
                    r == Ok::<Option<R>, IpcError>(Some(old(self).inbound().items()[0]))
                        && final(self).inbound().items() == old(self).inbound().items().drop_first()
                }
            },
    {
        match self.receiver {
            PumpState::Joined => Err(IpcError::ThreadNotRunning),
            PumpState::Finished => Err(IpcError::ThreadFinished),
            PumpState::Running => Ok(self.recv_queue.try_dequeue()),
        }
    }

    /// Takes the next inbound item, waiting at most `dur`; fails as
    /// `try_recv` does once the receiver pump no longer runs, and otherwise as
    /// `ThreadSafeQueue::try_dequeue_timeout` does.
    pub fn try_recv_timeout(&mut self, dur: std::time::Duration) -> (r: Result<Option<R>, IpcError>)
        ensures
            final(self).send_cleanup() == old(self).send_cleanup(),
            final(self).recv_timeout() == old(self).recv_timeout(),
            final(self).outbound() == old(self).outbound(),
            final(self).sender_state() == old(self).sender_state(),
            final(self).receiver_state() == old(self).receiver_state(),
            final(self).inbound().signalled() == old(self).inbound().signalled(),
            final(self).inbound().poisoned() == old(self).inbound().poisoned(),
            old(self).receiver_state() == PumpState::Joined ==> r == Err::<Option<R>, IpcError>(
                IpcError::ThreadNotRunning,
            ) && final(self).inbound().items() == old(self).inbound().items(),
            old(self).receiver_state() == PumpState::Finished ==> r == Err::<Option<R>, IpcError>(
                IpcError::ThreadFinished,
            ) && final(self).inbound().items() == old(self).inbound().items(),
            old(self).receiver_state() == PumpState::Running ==> {
                if old(self).inbound().poisoned() {
                    r == Err::<Option<R>, IpcError>(IpcError::MutexPoisoned)
                        && final(self).inbound().items() == old(self).inbound().items()
                } else if old(self).inbound().items().len() == 0 {
                    r == Ok::<Option<R>, IpcError>(None) && final(self).inbound().items()
                        == old(self).inbound().items()
                } else {
                    r == Ok::<Option<R>, IpcError>(Some(old(self).inbound().items()[0]))
                        && final(self).inbound().items() == old(self).inbound().items().drop_first()
                }
            },
    {
        match self.receiver {
            PumpState::Joined => Err(IpcError::ThreadNotRunning),
            PumpState::Finished => Err(IpcError::ThreadFinished),
            PumpState::Running => match self.recv_queue.try_dequeue_timeout(dur) {
                Ok(item) => Ok(item),
                Err(e) => Err(queue_error(e)),
            },
        }
    }

    /// The sender pump's state after it stops by itself.
    pub open spec fn stopped_state(s: PumpState) -> PumpState {
        if s == PumpState::Running {
            PumpState::Finished
        } else {
            s
        }
    }

    /// The deadline of a grace period that starts at `now`.
    pub open spec fn grace_deadline(&self, now: u64) -> u64 {
        if now as int + self.send_cleanup() > u64::MAX {
            u64::MAX
        } else {
            (now + self.send_cleanup()) as u64
        }
    }

    /// The sender pump's next step at time `now` (milliseconds) in `phase`.
    ///
    /// While forwarding it hands on each dequeued item and waits on an empty
    /// queue. Once the outbound queue refuses (signalled or poisoned), the
    /// grace period starts: until its deadline each item still queued is
    /// handed on, and an empty queue is waited on until the deadline. At the
    /// deadline, or on a poisoned queue, the pump stops.
    pub fn sender_next(&mut self, phase: SenderPhase, now: u64) -> (r: (SenderPhase, SenderAction<S>))
        ensures
            final(self).inbound() == old(self).inbound(),
            final(self).receiver_state() == old(self).receiver_state(),
            final(self).send_cleanup() == old(self).send_cleanup(),
            final(self).recv_timeout() == old(self).recv_timeout(),
            final(self).outbound().signalled() == old(self).outbound().signalled(),
            final(self).outbound().poisoned() == old(self).outbound().poisoned(),
            ({
                let q = old(self).outbound();
                let deadline = match phase {
                    SenderPhase::Grace { deadline } => deadline,
                    _ => old(self).grace_deadline(now),
                };
                if phase == SenderPhase::Stopped {
                    r == (SenderPhase::Stopped, SenderAction::<S>::Stop)
                        && final(self).outbound().items() == q.items()
                        && final(self).sender_state() == Self::stopped_state(old(self).sender_state())
                } else if phase == SenderPhase::Forwarding && q.waits() {
                    r == (SenderPhase::Forwarding, SenderAction::<S>::Wait)
                        && final(self).outbound().items() == q.items()
                        && final(self).sender_state() == old(self).sender_state()
                } else if phase == SenderPhase::Forwarding && !q.signalled() && !q.poisoned() {
                    r == (SenderPhase::Forwarding, SenderAction::Send(q.items()[0]))
                        && final(self).outbound().items() == q.items().drop_first()
                        && final(self).sender_state() == old(self).sender_state()
                } else if now >= deadline || q.poisoned() {
                    r == (SenderPhase::Stopped, SenderAction::<S>::Stop)
                        && final(self).outbound().items() == q.items()
                        && final(self).sender_state() == Self::stopped_state(old(self).sender_state())
                } else if q.items().len() > 0 {
                    r == (SenderPhase::Grace { deadline }, SenderAction::Send(q.items()[0]))
                        && final(self).outbound().items() == q.items().drop_first()
                        && final(self).sender_state() == old(self).sender_state()
                } else {
                    r == (SenderPhase::Grace { deadline }, SenderAction::<S>::Wait)
                        && final(self).outbound().items() == q.items()
                        && final(self).sender_state() == old(self).sender_state()
                }
            }),
    {
        match phase {
            SenderPhase::Stopped => {
                self.stop_sender();
                (SenderPhase::Stopped, SenderAction::Stop)
            },
            SenderPhase::Forwarding => {
                if self.send_queue.must_wait() {
                    return (SenderPhase::Forwarding, SenderAction::Wait);
                }
                match self.send_queue.dequeue() {
                    Ok(item) => (SenderPhase::Forwarding, SenderAction::Send(item)),
                    Err(_) => {
                        let c = self.send_cleanup_ms;
                        let deadline = if now > u64::MAX - c {
                            u64::MAX
                        } else {
                            now + c
                        };
                        self.grace_step(deadline, now)
                    },
                }
            },
            SenderPhase::Grace { deadline } => self.grace_step(deadline, now),
        }
    }

    fn stop_sender(&mut self)
        ensures
            final(self).outbound() == old(self).outbound(),
            final(self).inbound() == old(self).inbound(),
            final(self).receiver_state() == old(self).receiver_state(),
            final(self).send_cleanup() == old(self).send_cleanup(),
            final(self).recv_timeout() == old(self).recv_timeout(),
            final(self).sender_state() == Self::stopped_state(old(self).sender_state()),
    {
        if let PumpState::Running = self.sender {
            self.sender = PumpState::Finished;
        }
    }

    fn grace_step(&mut self, deadline: u64, now: u64) -> (r: (SenderPhase, SenderAction<S>))
        ensures
            final(self).inbound() == old(self).inbound(),
            final(self).receiver_state() == old(self).receiver_state(),
            final(self).send_cleanup() == old(self).send_cleanup(),
            final(self).recv_timeout() == old(self).recv_timeout(),
            final(self).outbound().signalled() == old(self).outbound().signalled(),
            final(self).outbound().poisoned() == old(self).outbound().poisoned(),
            ({
                let q = old(self).outbound();
                if now >= deadline || q.poisoned() {
                    r == (SenderPhase::Stopped, SenderAction::<S>::Stop)
                        && final(self).outbound().items() == q.items()
                        && final(self).sender_state() == Self::stopped_state(old(self).sender_state())
                } else if q.items().len() > 0 {
                    r == (SenderPhase::Grace { deadline }, SenderAction::Send(q.items()[0]))
                        && final(self).outbound().items() == q.items().drop_first()
                        && final(self).sender_state() == old(self).sender_state()
                } else {
                    r == (SenderPhase::Grace { deadline }, SenderAction::<S>::Wait)
                        && final(self).outbound().items() == q.items()
                        && final(self).sender_state() == old(self).sender_state()
                }
            }),
    {
        if now >= deadline {
            self.stop_sender();
            return (SenderPhase::Stopped, SenderAction::Stop);
        }
        if self.send_queue.is_poisoned() {
            self.stop_sender();
            return (SenderPhase::Stopped, SenderAction::Stop);
        }
        match self.send_queue.try_dequeue() {
            Some(item) => (SenderPhase::Grace { deadline }, SenderAction::Send(item)),
            None => (SenderPhase::Grace { deadline }, SenderAction::Wait),
        }
    }

    /// The raw sender failed: the outbound queue is signalled and the sender
    /// pump stops.
    pub fn sender_failed(&mut self)
        ensures
            final(self).send_cleanup() == old(self).send_cleanup(),
            final(self).recv_timeout() == old(self).recv_timeout(),
            final(self).inbound() == old(self).inbound(),
            final(self).receiver_state() == old(self).receiver_state(),
            final(self).outbound().signalled(),
            final(self).outbound().items() == old(self).outbound().items(),
            final(self).outbound().poisoned() == old(self).outbound().poisoned(),
            final(self).sender_state() == Self::stopped_state(old(self).sender_state()),
    {
        self.send_queue.set_signal(true);
        self.stop_sender();
    }

    /// The receiver pump's handling of one bounded receive. An item is queued
    /// inbound; a timeout is no error; a transport failure signals the inbound
    /// queue. The result says whether the pump goes on: it stops on failure,
    /// and once the inbound queue is signalled or poisoned.
    pub fn receiver_event(&mut self, event: RecvEvent<R>) -> (r: bool)
        ensures
            final(self).send_cleanup() == old(self).send_cleanup(),
            final(self).recv_timeout() == old(self).recv_timeout(),
            final(self).outbound() == old(self).outbound(),
            final(self).sender_state() == old(self).sender_state(),
            final(self).inbound().poisoned() == old(self).inbound().poisoned(),
            final(self).inbound().signalled() == (old(self).inbound().signalled()
                || event == RecvEvent::<R>::Failed),
            (match event {
                RecvEvent::Received(item) => if old(self).inbound().poisoned() {
                    final(self).inbound().items() == old(self).inbound().items()
                } else {
                    final(self).inbound().items() == old(self).inbound().items().push(item)
                },
                _ => final(self).inbound().items() == old(self).inbound().items(),
            }),
            r == (event != RecvEvent::<R>::Failed && !old(self).inbound().signalled()
                && !old(self).inbound().poisoned()),
            r ==> final(self).receiver_state() == old(self).receiver_state(),
            !r ==> final(self).receiver_state() == Self::stopped_state(old(self).receiver_state()),
    {
        let go_on = match event {
            RecvEvent::Received(item) => {
                let _ = self.recv_queue.enqueue(item);
                true
            },
            RecvEvent::TimedOut => true,
            RecvEvent::Failed => {
                self.recv_queue.set_signal(true);
                false
            },
        };
        let r = go_on && !self.recv_queue.is_signalled() && !self.recv_queue.is_poisoned();
        if !r {
            if let PumpState::Running = self.receiver {
                self.receiver = PumpState::Finished;
            }
        }
        r
    }

    /// Closes the endpoint: both queues are signalled, and both pumps count as
    /// joined. What is still queued outbound is left for the sender pump's
    /// grace period.
    pub fn close(&mut self)
        ensures
            final(self).outbound().signalled(),
            final(self).inbound().signalled(),
            final(self).outbound().items() == old(self).outbound().items(),
            final(self).inbound().items() == old(self).inbound().items(),
            final(self).outbound().poisoned() == old(self).outbound().poisoned(),
            final(self).inbound().poisoned() == old(self).inbound().poisoned(),
            final(self).sender_state() == PumpState::Joined,
            final(self).receiver_state() == PumpState::Joined,
            final(self).send_cleanup() == old(self).send_cleanup(),
            final(self).recv_timeout() == old(self).recv_timeout(),
    {
        self.send_queue.set_signal(true);
        self.recv_queue.set_signal(true);
        self.sender = PumpState::Joined;
        self.receiver = PumpState::Joined;
    }
}

} // verus!
