use vstd::prelude::*;

use crate::client_state::{has_id, lemma_index_of, ClientState};
use crate::command::{CommandHandle, PendingCommandInternal};
use crate::endpoint::{IpcEnd, IpcError, PumpState};
use crate::messages::{Command, CommandID, DataMessage, Instruction, LogMessage, Message};
use crate::signal::{Signal, SignallableData};

verus! {

/// What the controller made of one message from the worker.
#[derive(Debug, Clone, PartialEq, Eq)]
pub enum Dispatched {
    /// The worker announced it is ready.
    Ready,
    /// A pending command was acknowledged; `alive` tells whether its caller
    /// still held it.
    Acknowledged { instruction: Instruction, alive: bool },
    /// An acknowledgment for an id that is not pending.
    UnknownAck(CommandID),
    /// The worker announced it is exiting.
    Exiting,
    /// A log record from the worker.
    Log(LogMessage),
    /// A result for the caller.
    Data(DataMessage),
}

impl Dispatched {
    /// The result this carries for the caller, if any.
    pub open spec fn data(&self) -> Option<DataMessage> {
        match self {
            Dispatched::Data(d) => Some(*d),
            _ => None,
        }
    }
}

/// The tracker after handling `message`, as far as its lists go.
pub open spec fn handles_message(before: ClientState, after: ClientState, message: Message, r: Dispatched) -> bool {
    &&& after.wf()
    &&& after.next() == before.next()
    &&& match message {
        Message::Ready => {
            &&& r == Dispatched::Ready
            &&& after.is_ready()
            &&& after.pending() == before.pending()
            &&& after.in_progress() == before.in_progress()
            &&& after.commands() == before.commands()
        },
        Message::Ack(id) => if has_id(before.pending(), id) {
            &&& r matches Dispatched::Acknowledged { instruction, alive }
            &&& instruction.id == id
            &&& alive == before.commands().alive(id)
            &&& !has_id(after.pending(), id)
            &&& has_id(after.in_progress(), id)
            &&& after.is_ready() == before.is_ready()
            &&& after.commands().is_update_of(
                before.commands(),
                id,
                PendingCommandInternal { started: true, ..before.commands().record(id).state() },
            )
        } else {
            &&& r == Dispatched::UnknownAck(id)
            &&& after == before
        },
        Message::Exiting => r == Dispatched::Exiting && after == before,
        Message::Log(l) => r == Dispatched::Log(l) && after == before,
        Message::DataMessage(d) => r == Dispatched::Data(d) && after == before,
    }
}

/// Handles one message from the worker: readiness is recorded, an
/// acknowledgment moves its command from pending to acknowledged and marks it
/// started, and everything else passes through.
pub fn handle_message(state: &mut ClientState, message: Message) -> (r: Dispatched)
    requires
        old(state).wf(),
    ensures
        handles_message(*old(state), *final(state), message, r),
{
    match message {
        Message::Ready => {
            state.set_ready();
            Dispatched::Ready
        },
        Message::Ack(id) => {
            proof {
                lemma_index_of(old(state).pending(), id);
            }
            let (inst, alive) = state.acknowledge_instruction(id);
            match inst {
                Some(instruction) => {
                    proof {
                        assert(state.in_progress()[state.in_progress().len() - 1].id == id);
                    }
                    Dispatched::Acknowledged { instruction, alive }
                },
                None => Dispatched::UnknownAck(id),
            }
        },
        Message::Exiting => Dispatched::Exiting,
        Message::Log(l) => Dispatched::Log(l),
        Message::DataMessage(d) => Dispatched::Data(d),
    }
}

/// The controller: an endpoint towards the worker and the session, which is
/// the command tracker guarded together with the session's shutdown flag.
pub struct Master {
    ipc: IpcEnd<Instruction, Message>,
    state: SignallableData<ClientState>,
}

impl Master {
    pub closed spec fn ipc(&self) -> IpcEnd<Instruction, Message> {
        self.ipc
    }

    pub closed spec fn session(&self) -> SignallableData<ClientState> {
        self.state
    }

    /// The tracker is well formed and the state behind both is healthy.
    pub open spec fn wf(&self) -> bool {
        &&& self.session().value().wf()
        &&& !self.session().poisoned()
        &&& !self.ipc().outbound().poisoned()
    }

    /// A controller whose endpoint receives with the fifteen-second bound and
    /// drains for five seconds on shutdown.
    pub fn new() -> (r: Self)
        ensures
            r.wf(),
            r.ipc().is_fresh(),
            r.session().value().next() == 0,
            r.session().value().pending().len() == 0,
            r.session().value().in_progress().len() == 0,
            !r.session().signalled(),
    {
        Master {
            ipc: IpcEnd::new_with_timeout(None, Some(5000)),
            state: SignallableData::new(ClientState::new()),
        }
    }

    /// Read access to the session.
    pub fn state(&self) -> (r: &SignallableData<ClientState>)
        ensures
            *r == self.session(),
    {
        &self.state
    }

    /// Whether another command id can be handed out.
    pub fn can_issue(&self) -> (r: bool)
        ensures
            r == (self.session().value().next() < usize::MAX),
    {
        self.state.value_ref().next_available() < usize::MAX
    }

    /// Read access to the endpoint.
    pub fn endpoint(&self) -> (r: &IpcEnd<Instruction, Message>)
        ensures
            *r == self.ipc(),
    {
        &self.ipc
    }

    /// The endpoint, for the pumps that serve it.
    pub fn ipc_mut(&mut self) -> (r: &mut IpcEnd<Instruction, Message>)
        ensures
            *r == old(self).ipc(),
            final(self).ipc() == *final(r),
            final(self).session() == old(self).session(),
    {
        &mut self.ipc
    }

    /// The session, for callers that wait on their commands.
    pub fn session_mut(&mut self) -> (r: &mut SignallableData<ClientState>)
        ensures
            *r == old(self).session(),
            final(self).session() == *final(r),
            final(self).ipc() == old(self).ipc(),
    {
        &mut self.state
    }

    /// Issues `command`: tracks it as pending and queues its instruction for
    /// the worker. The owning handle is given back even when the endpoint no
    /// longer sends, with `PipeClosed` as the second part.
    pub fn send(&mut self, command: Command) -> (r: (CommandHandle, Result<(), IpcError>))
        requires
            old(self).wf(),
            old(self).session().value().next() < usize::MAX,
        ensures
            final(self).wf(),
            ({
                let id = old(self).session().value().next() as CommandID;
                let inst = Instruction { id, command };
                &&& r.0.spec_id() == id
                &&& final(self).session().value().next() == id + 1
                &&& final(self).session().value().pending() == old(self).session().value().pending().push(
                    crate::command::PendingInstruction { id, variant: command },
                )
                &&& final(self).session().value().in_progress() == old(self).session().value().in_progress()
                &&& final(self).session().value().commands().alive(id)
                &&& final(self).session().value().commands().record(id).owners() == 1
                &&& final(self).session().value().commands().record(id).state() == (PendingCommandInternal {
                    started: false,
                    completed: false,
                    data: None,
                })
                &&& final(self).session().signalled() == old(self).session().signalled()
                &&& final(self).ipc().inbound() == old(self).ipc().inbound()
                &&& final(self).ipc().sender_state() == old(self).ipc().sender_state()
                &&& final(self).ipc().receiver_state() == old(self).ipc().receiver_state()
                &&& final(self).ipc().outbound().signalled() == old(self).ipc().outbound().signalled()
                &&& if old(self).ipc().sender_state() == PumpState::Running {
                    &&& r.1 == Ok::<(), IpcError>(())
                    &&& final(self).ipc().outbound().items() == old(self).ipc().outbound().items().push(inst)
                } else {
                    &&& r.1 == Err::<(), IpcError>(IpcError::PipeClosed)
                    &&& final(self).ipc().outbound().items() == old(self).ipc().outbound().items()
                }
            }),
    {
        let (inst, handle) = match self.state.lock() {
            Ok(g) => g.data.issue(command),
            Err(_) => {
                assert(false);
                self.state.lock_ignore_poison().data.issue(command)
            },
        };
        let sent = match self.ipc.send(inst) {
            Ok(()) => Ok(()),
            Err(()) => Err(IpcError::PipeClosed),
        };
        (handle, sent)
    }

    /// Ends the session: a final `Quit` is queued for the worker (its handle
    /// dropped at once) and the session's flag is set, releasing every wait.
    pub fn terminate(&mut self)
        requires
            old(self).wf(),
            old(self).session().value().next() < usize::MAX,
        ensures
            final(self).wf(),
            final(self).session().signalled(),
            ({
                let id = old(self).session().value().next() as CommandID;
                &&& final(self).session().value().next() == id + 1
                &&& final(self).session().value().pending() == old(self).session().value().pending().push(
                    crate::command::PendingInstruction { id, variant: Command::Quit },
                )
                &&& !final(self).session().value().commands().alive(id)
                &&& old(self).ipc().sender_state() == PumpState::Running ==> final(self).ipc().outbound().items()
                    == old(self).ipc().outbound().items().push(Instruction { id, command: Command::Quit })
                &&& old(self).ipc().sender_state() != PumpState::Running ==> final(self).ipc().outbound().items()
                    == old(self).ipc().outbound().items()
            }),
            final(self).ipc().inbound() == old(self).ipc().inbound(),
            final(self).ipc().receiver_state() == old(self).ipc().receiver_state(),
            final(self).ipc().sender_state() == old(self).ipc().sender_state(),
    {
        let (handle, _) = self.send(Command::Quit);
        match self.state.lock() {
            Ok(g) => {
                let _ = g.data.release_handle(handle);
            },
            Err(_) => {},
        }
        self.state.set_signal(true);
    }

    /// Whether `try_recv_one` must wait for the receiver pump first.
    pub fn recv_must_wait(&self) -> (r: bool)
        ensures
            r == self.ipc().inbound().waits(),
    {
        self.ipc.recv_must_wait()
    }

    /// Takes one message from the worker and handles it; gives the result it
    /// carries, if any. A failed receive ends the session (see `terminate`)
    /// and is returned.
    pub fn try_recv_one(&mut self) -> (r: Result<Option<DataMessage>, IpcError>)
        requires
            old(self).wf(),
            !old(self).ipc().inbound().waits(),
            old(self).session().value().next() < usize::MAX,
        ensures
            final(self).wf(),
            match old(self).ipc().inbound().dequeue_outcome() {
                Ok(message) => {
                    &&& final(self).ipc().inbound().items() == old(self).ipc().inbound().items().drop_first()
                    &&& final(self).ipc().inbound().signalled() == old(self).ipc().inbound().signalled()
                    &&& final(self).ipc().inbound().poisoned() == old(self).ipc().inbound().poisoned()
                    &&& final(self).ipc().sender_state() == old(self).ipc().sender_state()
                    &&& final(self).ipc().receiver_state() == old(self).ipc().receiver_state()
                    &&& final(self).ipc().outbound() == old(self).ipc().outbound()
                    &&& final(self).session().signalled() == old(self).session().signalled()
                    &&& exists|d: Dispatched|
                        handles_message(old(self).session().value(), final(self).session().value(), message, d)
                            && r == Ok::<Option<DataMessage>, IpcError>(d.data())
                },
                Err(e) => {
                    &&& r == Err::<Option<DataMessage>, IpcError>(IpcError::spec_from_queue(e))
                    &&& final(self).session().signalled()
                },
            },
    {
        match self.ipc.recv() {
            Err(e) => {
                self.terminate();
                Err(e)
            },
            Ok(message) => {
                let d = match self.state.lock() {
                    Ok(g) => handle_message(g.data, message),
                    Err(_) => {
                        assert(false);
                        Dispatched::Exiting
                    },
                };
                match d {
                    Dispatched::Data(data) => Ok(Some(data)),
                    _ => Ok(None),
                }
            },
        }
    }
}

/// The messages the worker sends for `inst`, given the result of carrying it
/// out (`None` where that failed, or for `Quit`, which has none): the
/// acknowledgment first, then the result if there is one.
pub open spec fn replies(inst: Instruction, outcome: Option<DataMessage>) -> Seq<Message> {
    match (inst.command, outcome) {
        (Command::Quit, _) => seq![Message::Ack(inst.id)],
        (_, Some(d)) => seq![Message::Ack(inst.id), Message::DataMessage(d)],
        (_, None) => seq![Message::Ack(inst.id)],
    }
}

/// The worker: an endpoint towards the controller.
pub struct Slave {
    ipc: IpcEnd<Message, Instruction>,
}

impl Slave {
    pub closed spec fn ipc(&self) -> IpcEnd<Message, Instruction> {
        self.ipc
    }

    /// A worker whose endpoint uses the five-second bounds.
    pub fn new() -> (r: Self)
        ensures
            r.ipc().is_fresh(),
    {
        Slave { ipc: IpcEnd::new() }
    }

    /// Read access to the endpoint.
    pub fn endpoint(&self) -> (r: &IpcEnd<Message, Instruction>)
        ensures
            *r == self.ipc(),
    {
        &self.ipc
    }

    /// The endpoint, for the pumps that serve it.
    pub fn ipc_mut(&mut self) -> (r: &mut IpcEnd<Message, Instruction>)
        ensures
            *r == old(self).ipc(),
            final(self).ipc() == *final(r),
    {
        &mut self.ipc
    }

    /// Whether `recv` must wait for the receiver pump first.
    pub fn recv_must_wait(&self) -> (r: bool)
        ensures
            r == self.ipc().inbound().waits(),
    {
        self.ipc.recv_must_wait()
    }

    /// Whether the sender pump is still running, so that answers can be queued.
    pub fn can_send(&self) -> (r: bool)
        ensures
            r == (self.ipc().sender_state() == PumpState::Running && !self.ipc().outbound().poisoned()),
    {
        self.ipc.sender_running() && !self.ipc.outbound_poisoned()
    }

    /// Queues `msg` for the controller; `SendError` once the sender pump no
    /// longer runs.
    pub fn send(&mut self, msg: Message) -> (r: Result<(), IpcError>)
        requires
            !old(self).ipc().outbound().poisoned(),
        ensures
            final(self).ipc().inbound() == old(self).ipc().inbound(),
            final(self).ipc().sender_state() == old(self).ipc().sender_state(),
            final(self).ipc().receiver_state() == old(self).ipc().receiver_state(),
            final(self).ipc().outbound().signalled() == old(self).ipc().outbound().signalled(),
            !final(self).ipc().outbound().poisoned(),
            old(self).ipc().sender_state() == PumpState::Running ==> r == Ok::<(), IpcError>(())
                && final(self).ipc().outbound().items() == old(self).ipc().outbound().items().push(msg),
            old(self).ipc().sender_state() != PumpState::Running ==> r == Err::<(), IpcError>(
                IpcError::SendError,
            ) && final(self).ipc().outbound().items() == old(self).ipc().outbound().items(),
    {
        match self.ipc.send(msg) {
            Ok(()) => Ok(()),
            Err(()) => Err(IpcError::SendError),
        }
    }

    /// Takes the next instruction; see `IpcEnd::recv`.
    pub fn recv(&mut self) -> (r: Result<Instruction, IpcError>)
        requires
            !old(self).ipc().inbound().waits(),
        ensures
            final(self).ipc().outbound() == old(self).ipc().outbound(),
            final(self).ipc().sender_state() == old(self).ipc().sender_state(),
            final(self).ipc().receiver_state() == old(self).ipc().receiver_state(),
            final(self).ipc().inbound().signalled() == old(self).ipc().inbound().signalled(),
            final(self).ipc().inbound().poisoned() == old(self).ipc().inbound().poisoned(),
            match old(self).ipc().inbound().dequeue_outcome() {
                Ok(item) => r == Ok::<Instruction, IpcError>(item) && final(self).ipc().inbound().items()
                    == old(self).ipc().inbound().items().drop_first(),
                Err(e) => r == Err::<Instruction, IpcError>(IpcError::spec_from_queue(e))
                    && final(self).ipc().inbound().items() == old(self).ipc().inbound().items(),
            },
    {
        self.ipc.recv()
    }

    /// Answers `inst`, where `outcome` is what carrying it out gave: the
    /// acknowledgment is queued before anything else, then the result if there
    /// is one. Gives whether the worker goes on: not after `Quit`.
    pub fn handle_instruction(&mut self, inst: &Instruction, outcome: Option<DataMessage>) -> (r:
        Result<bool, IpcError>)
        requires
            !old(self).ipc().outbound().poisoned(),
            old(self).ipc().sender_state() == PumpState::Running,
        ensures
            r == Ok::<bool, IpcError>(inst.command != Command::Quit),
            final(self).ipc().outbound().items() == old(self).ipc().outbound().items() + replies(
                *inst,
                outcome,
            ),
            final(self).ipc().sender_state() == PumpState::Running,
            !final(self).ipc().outbound().poisoned(),
            final(self).ipc().outbound().signalled() == old(self).ipc().outbound().signalled(),
            final(self).ipc().inbound() == old(self).ipc().inbound(),
    {
        let ghost before = self.ipc().outbound().items();
        let _ = self.send(Message::Ack(inst.id));
        match inst.command {
            Command::Quit => {
                assert(self.ipc().outbound().items() =~= before + replies(*inst, outcome));
                Ok(false)
            },
            _ => {
                match outcome {
                    Some(d) => {
                        let _ = self.send(Message::DataMessage(d));
                        assert(self.ipc().outbound().items() =~= before + replies(*inst, Some(d)));
                    },
                    None => {
                        assert(self.ipc().outbound().items() =~= before + replies(*inst, None));
                    },
                }
                Ok(true)
            },
        }
    }
}

/// What the worker sends for a run of instructions, each answered in turn.
pub open spec fn transcript(insts: Seq<Instruction>, outcomes: Seq<Option<DataMessage>>) -> Seq<
    Message,
>
    decreases insts.len(),
{
    if insts.len() == 0 || outcomes.len() == 0 {
        Seq::empty()
    } else {
        transcript(insts.drop_last(), outcomes.drop_last()) + replies(insts.last(), outcomes.last())
    }
}

/// The ids of the acknowledgments in `ms`, in order.
pub open spec fn ack_ids(ms: Seq<Message>) -> Seq<CommandID>
    decreases ms.len(),
{
    if ms.len() == 0 {
        Seq::empty()
    } else {
        ack_ids(ms.drop_last()) + match ms.last() {
            Message::Ack(id) => seq![id],
            _ => Seq::empty(),
        }
    }
}

proof fn lemma_ack_ids_concat(a: Seq<Message>, b: Seq<Message>)
    ensures
        ack_ids(a + b) == ack_ids(a) + ack_ids(b),
    decreases b.len(),
{
    if b.len() == 0 {
        assert(a + b =~= a);
        assert(ack_ids(a) + ack_ids(b) =~= ack_ids(a));
    } else {
        lemma_ack_ids_concat(a, b.drop_last());
        assert((a + b).drop_last() =~= a + b.drop_last());
        assert((a + b).last() == b.last());
        assert(ack_ids(a + b) =~= ack_ids(a) + ack_ids(b));
    }
}

/// Each answer opens with the acknowledgment of its instruction's id, and
/// holds no other acknowledgment.
pub proof fn lemma_reply_acks_first(inst: Instruction, outcome: Option<DataMessage>)
    ensures
        replies(inst, outcome).len() >= 1,
        replies(inst, outcome)[0] == Message::Ack(inst.id),
        ack_ids(replies(inst, outcome)) == seq![inst.id],
{
    reveal_with_fuel(ack_ids, 3);
    let r = replies(inst, outcome);
    if r.len() == 2 {
        assert(r.drop_last() =~= seq![Message::Ack(inst.id)]);
        assert(r.drop_last().drop_last() =~= Seq::<Message>::empty());
    } else {
        assert(r.drop_last() =~= Seq::<Message>::empty());
    }
    assert(ack_ids(r) =~= seq![inst.id]);
}

/// The transcript of the first `k + 1` instructions extends that of the first
/// `k` by the answer to instruction `k`.
proof fn lemma_transcript_step(insts: Seq<Instruction>, outcomes: Seq<Option<DataMessage>>, k: int)
    requires
        insts.len() == outcomes.len(),
        0 <= k < insts.len(),
    ensures
        transcript(insts.take(k + 1), outcomes.take(k + 1)) == transcript(
            insts.take(k),
            outcomes.take(k),
        ) + replies(insts[k], outcomes[k]),
{
    assert(insts.take(k + 1).drop_last() =~= insts.take(k));
    assert(outcomes.take(k + 1).drop_last() =~= outcomes.take(k));
    assert(insts.take(k + 1).last() == insts[k]);
    assert(outcomes.take(k + 1).last() == outcomes[k]);
}

/// The acknowledgments in a transcript carry the instructions' ids in order.
proof fn lemma_ack_ids_of_transcript(insts: Seq<Instruction>, outcomes: Seq<Option<DataMessage>>)
    requires
        insts.len() == outcomes.len(),
    ensures
        ack_ids(transcript(insts, outcomes)) == insts.map_values(|i: Instruction| i.id),
    decreases insts.len(),
{
    if insts.len() > 0 {
        lemma_ack_ids_of_transcript(insts.drop_last(), outcomes.drop_last());
        lemma_ack_ids_concat(
            transcript(insts.drop_last(), outcomes.drop_last()),
            replies(insts.last(), outcomes.last()),
        );
        lemma_reply_acks_first(insts.last(), outcomes.last());
        assert(insts.map_values(|i: Instruction| i.id) =~= insts.drop_last().map_values(
            |i: Instruction| i.id,
        ) + seq![insts.last().id]);
    } else {
        assert(insts.map_values(|i: Instruction| i.id) =~= Seq::<CommandID>::empty());
    }
}

/// For any run of instructions answered by the worker, the acknowledgments it
/// sends are exactly one per instruction, with that instruction's id, in the
/// order the instructions came; and each instruction's acknowledgment opens
/// its answer, ahead of the result sent for it.
pub proof fn lemma_one_ack_per_instruction(
    insts: Seq<Instruction>,
    outcomes: Seq<Option<DataMessage>>,
)
    requires
        insts.len() == outcomes.len(),
    ensures
        ack_ids(transcript(insts, outcomes)) == insts.map_values(|i: Instruction| i.id),
        forall|k: int|
            0 <= k < insts.len() ==> transcript(insts.take(k + 1), outcomes.take(k + 1)) == transcript(
                insts.take(k),
                outcomes.take(k),
            ) + replies(insts[k], outcomes[k]) && (#[trigger] replies(insts[k], outcomes[k]))[0]
                == Message::Ack(insts[k].id),
{
    lemma_ack_ids_of_transcript(insts, outcomes);
    assert forall|k: int| 0 <= k < insts.len() implies transcript(insts.take(k + 1), outcomes.take(k + 1))
        == transcript(insts.take(k), outcomes.take(k)) + replies(insts[k], outcomes[k]) && (
    #[trigger] replies(insts[k], outcomes[k]))[0] == Message::Ack(insts[k].id) by {
        lemma_transcript_step(insts, outcomes, k);
        lemma_reply_acks_first(insts[k], outcomes[k]);
    }
}

} // verus!
