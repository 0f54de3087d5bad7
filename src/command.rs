use vstd::prelude::*;

use crate::client_state::ClientState;
use crate::messages::{Command, CommandID, DataMessage, Instruction};
use crate::signal::{Signal, SignallableData};

verus! {

/// The lifecycle of one issued command. It moves from not started to started
/// to completed and never back; `data` is the result once completed.
#[derive(Debug, Clone, PartialEq, Eq)]
pub struct PendingCommandInternal {
    pub started: bool,
    pub completed: bool,
    pub data: Option<DataMessage>,
}

/// The shared record of one issued command, with the number of owning handles
/// that keep it alive.
pub struct PendingCommand {
    internal: PendingCommandInternal,
    owners: usize,
}

/// Why extracting a command's result failed.
#[derive(Debug, Clone, Copy, PartialEq, Eq, Structural)]
pub enum PendingCommandError {
    /// The session was signalled before the command completed.
    Signalled,
    /// Another owning handle of the same command still exists.
    StrongReference,
    /// The session state was poisoned.
    Poisoned,
}

impl PendingCommandError {
    pub fn message(&self) -> (r: &'static str)
        ensures
            *self == PendingCommandError::Signalled ==> r@ == "The command was signalled"@,
            *self == PendingCommandError::StrongReference ==> r@ == "More than 1 strong reference"@,
            *self == PendingCommandError::Poisoned ==> r@ == "The internal mutex was poisoned"@,
    {
        match self {
            PendingCommandError::Signalled => "The command was signalled",
            PendingCommandError::StrongReference => "More than 1 strong reference",
            PendingCommandError::Poisoned => "The internal mutex was poisoned",
        }
    }
}

/// An owning handle to the record of the command with id `id`. It is not
/// `Clone`: further handles come from `CommandSlots::share`, which counts them,
/// and a handle gives up its ownership through `CommandSlots::release_handle`
/// (or `PendingCommand::wait_for_complete`). A handle dropped without either
/// keeps its record alive.
#[derive(Debug)]
pub struct CommandHandle {
    id: CommandID,
}

impl CommandHandle {
    pub closed spec fn spec_id(&self) -> CommandID {
        self.id
    }

    pub fn id(&self) -> (r: CommandID)
        ensures
            r == self.spec_id(),
    {
        self.id
    }
}

impl PendingCommand {
    pub closed spec fn state(&self) -> PendingCommandInternal {
        self.internal
    }

    pub closed spec fn owners(&self) -> nat {
        self.owners as nat
    }

    /// A fresh record: not started, with one owner.
    pub fn fresh() -> (r: Self)
        ensures
            r.state() == (PendingCommandInternal { started: false, completed: false, data: None }),
            r.owners() == 1,
    {
        PendingCommand {
            internal: PendingCommandInternal { started: false, completed: false, data: None },
            owners: 1,
        }
    }

    /// Waits until the worker has acknowledged the command, or the session is
    /// signalled or poisoned. Within one party nothing else could bring either
    /// about, so they are required to hold already.
    pub fn wait_for_start(session: &SignallableData<ClientState>, handle: &CommandHandle)
        requires
            session.value().commands().holds(handle),
            session.value().commands().record(handle.spec_id()).state().started
                || session.signalled() || session.poisoned(),
    {
    }

    /// Consumes an owning handle and gives back the command's result.
    ///
    /// Fails with `Poisoned` on a poisoned session, else with `Signalled` on a
    /// signalled one, else with `StrongReference` while another owner remains;
    /// otherwise gives the result. The handle is released in every case, so the
    /// record is freed on success and a result is extracted at most once.
    pub fn wait_for_complete(session: &mut SignallableData<ClientState>, handle: CommandHandle) -> (r:
        Result<Option<DataMessage>, PendingCommandError>)
        requires
            old(session).value().wf(),
            old(session).value().commands().holds(&handle),
            old(session).value().commands().record(handle.spec_id()).state().completed
                || old(session).signalled() || old(session).poisoned(),
        ensures
            final(session).value().wf(),
            final(session).signalled() == old(session).signalled(),
            final(session).poisoned() == old(session).poisoned(),
            final(session).value().commands().is_release_of(
                old(session).value().commands(),
                handle.spec_id(),
            ),
            final(session).value().same_tracking(old(session).value()),
            r == PendingCommand::complete_outcome(&*old(session), handle.spec_id()),
    {
        let signalled = session.is_signalled();
        let poisoned = session.is_poisoned();
        let g = session.lock_ignore_poison();
        let owners = g.data.release_handle(handle);
        if poisoned {
            Err(PendingCommandError::Poisoned)
        } else if signalled {
            Err(PendingCommandError::Signalled)
        } else {
            match owners {
                Ok(data) => Ok(data),
                Err(_) => Err(PendingCommandError::StrongReference),
            }
        }
    }

    /// What `wait_for_complete` gives back for the handle of command `id`.
    pub open spec fn complete_outcome(session: &SignallableData<ClientState>, id: CommandID) -> Result<
        Option<DataMessage>,
        PendingCommandError,
    > {
        let rec = session.value().commands().record(id);
        if session.poisoned() {
            Err(PendingCommandError::Poisoned)
        } else if session.signalled() {
            Err(PendingCommandError::Signalled)
        } else if rec.owners() > 1 {
            Err(PendingCommandError::StrongReference)
        } else {
            Ok(rec.state().data)
        }
    }
}

/// The records of a session's commands, indexed by command id. A slot holds
/// `None` once every owning handle of its command is gone (or before its
/// record is installed): the table never keeps a record alive by itself.
pub struct CommandSlots {
    slots: Vec<Option<PendingCommand>>,
}

impl CommandSlots {
    pub closed spec fn records(&self) -> Seq<Option<PendingCommand>> {
        self.slots@
    }

    /// Every live record has at least one owner.
    pub open spec fn wf(&self) -> bool {
        forall|i: int|
            0 <= i < self.records().len() && (#[trigger] self.records()[i]) is Some
                ==> self.records()[i]->0.owners() >= 1
    }

    pub open spec fn alive(&self, id: CommandID) -> bool {
        id < self.records().len() && self.records()[id as int] is Some
    }

    pub open spec fn record(&self, id: CommandID) -> PendingCommand {
        self.records()[id as int]->0
    }

    pub open spec fn holds(&self, handle: &CommandHandle) -> bool {
        self.alive(handle.spec_id())
    }

    /// `self` is `before` with one owner of record `id` gone, the record freed
    /// if it was the last.
    pub open spec fn is_release_of(&self, before: CommandSlots, id: CommandID) -> bool {
        &&& self.records().len() == before.records().len()
        &&& forall|j: int|
            0 <= j < self.records().len() && j != id ==> #[trigger] self.records()[j]
                == before.records()[j]
        &&& before.record(id).owners() > 1 ==> self.alive(id) && self.record(id).state()
            == before.record(id).state() && self.record(id).owners() == before.record(id).owners()
            - 1
        &&& before.record(id).owners() <= 1 ==> !self.alive(id)
    }

    /// `self` is `before` with record `id`, if alive, changed to `state`.
    pub open spec fn is_update_of(
        &self,
        before: CommandSlots,
        id: CommandID,
        state: PendingCommandInternal,
    ) -> bool {
        &&& self.records().len() == before.records().len()
        &&& forall|j: int|
            0 <= j < self.records().len() && j != id ==> #[trigger] self.records()[j]
                == before.records()[j]
        &&& before.alive(id) ==> self.alive(id) && self.record(id).state() == state
            && self.record(id).owners() == before.record(id).owners()
        &&& !before.alive(id) ==> self.records() == before.records()
    }

    pub fn new() -> (r: Self)
        ensures
            r.records().len() == 0,
            r.wf(),
    {
        CommandSlots { slots: Vec::new() }
    }

    pub fn len(&self) -> (r: usize)
        ensures
            r == self.records().len(),
    {
        self.slots.len()
    }

    /// Appends an empty slot.
    pub fn push_empty(&mut self)
        requires
            old(self).wf(),
        ensures
            final(self).wf(),
            final(self).records() == old(self).records().push(None),
    {
        self.slots.push(None);
    }

    /// Puts a fresh record into the empty slot `id` and gives its one owning handle.
    pub fn install(&mut self, id: CommandID, cmd: PendingCommand) -> (h: CommandHandle)
        requires
            old(self).wf(),
            id < old(self).records().len(),
            !old(self).alive(id),
            cmd.owners() == 1,
        ensures
            final(self).wf(),
            final(self).records() == old(self).records().update(id as int, Some(cmd)),
            h.spec_id() == id,
    {
        self.slots[id] = Some(cmd);
        CommandHandle { id }
    }

    /// Whether the record of `id` is alive.
    pub fn is_alive(&self, id: CommandID) -> (r: bool)
        ensures
            r == self.alive(id),
    {
        id < self.slots.len() && self.slots[id].is_some()
    }

    /// The state of the live record `id`.
    pub fn state_of(&self, id: CommandID) -> (r: &PendingCommandInternal)
        requires
            self.alive(id),
        ensures
            *r == self.record(id).state(),
    {
        match &self.slots[id] {
            Some(rec) => &rec.internal,
            None => {
                assert(false);
                &self.slots[id].as_ref().unwrap().internal
            },
        }
    }

    /// A further owning handle to the record `handle` names.
    pub fn share(&mut self, handle: &CommandHandle) -> (r: CommandHandle)
        requires
            old(self).wf(),
            old(self).holds(handle),
            old(self).record(handle.spec_id()).owners() < usize::MAX,
        ensures
            final(self).wf(),
            r.spec_id() == handle.spec_id(),
            final(self).records().len() == old(self).records().len(),
            forall|j: int|
                0 <= j < old(self).records().len() && j != handle.spec_id() ==> #[trigger] final(self).records()[j] == old(self).records()[j],
            final(self).alive(handle.spec_id()),
            final(self).record(handle.spec_id()).state() == old(self).record(
                handle.spec_id(),
            ).state(),
            final(self).record(handle.spec_id()).owners() == old(self).record(
                handle.spec_id(),
            ).owners() + 1,
    {
        let id = handle.id;
        let slot = &mut self.slots[id];
        match slot {
            Some(rec) => {
                rec.owners = rec.owners + 1;
            },
            None => {},
        }
        CommandHandle { id }
    }

    /// Gives up an owning handle. When it was the last, the record is freed
    /// and its result handed back as `Ok`; otherwise `Err` with the number of
    /// owners that remain.
    pub fn release_handle(&mut self, handle: CommandHandle) -> (r: Result<Option<DataMessage>, usize>)
        requires
            old(self).wf(),
            old(self).holds(&handle),
        ensures
            final(self).wf(),
            final(self).is_release_of(*old(self), handle.spec_id()),
            old(self).record(handle.spec_id()).owners() <= 1 ==> r == Ok::<
                Option<DataMessage>,
                usize,
            >(old(self).record(handle.spec_id()).state().data),
            old(self).record(handle.spec_id()).owners() > 1 ==> r == Err::<
                Option<DataMessage>,
                usize,
            >((old(self).record(handle.spec_id()).owners() - 1) as usize),
    {
        let id = handle.id;
        let mut taken: Option<PendingCommand> = None;
        self.slots.set_and_swap(id, &mut taken);
        match taken {
            Some(mut rec) => {
                if rec.owners > 1 {
                    rec.owners = rec.owners - 1;
                    let left = rec.owners;
                    self.slots.set(id, Some(rec));
                    Err(left)
                } else {
                    Ok(rec.internal.data)
                }
            },
            None => Ok(None),
        }
    }

    /// Marks the live record `id` started. `false`, with nothing changed, when
    /// every owner of it is gone.
    pub fn mark_started(&mut self, id: CommandID) -> (r: bool)
        requires
            old(self).wf(),
        ensures
            final(self).wf(),
            r == old(self).alive(id),
            final(self).is_update_of(
                *old(self),
                id,
                PendingCommandInternal { started: true, ..old(self).record(id).state() },
            ),
    {
        if id >= self.slots.len() {
            return false;
        }
        let mut taken: Option<PendingCommand> = None;
        self.slots.set_and_swap(id, &mut taken);
        match taken {
            Some(mut rec) => {
                rec.internal.started = true;
                self.slots.set(id, Some(rec));
                true
            },
            None => {
                assert(self.slots@ =~= old(self).slots@);
                false
            },
        }
    }

    /// Marks the live record `id` completed with `data`. `false`, with nothing
    /// changed, when every owner of it is gone.
    pub fn mark_completed(&mut self, id: CommandID, data: DataMessage) -> (r: bool)
        requires
            old(self).wf(),
        ensures
            final(self).wf(),
            r == old(self).alive(id),
            final(self).is_update_of(
                *old(self),
                id,
                PendingCommandInternal {
                    completed: true,
                    data: Some(data),
                    ..old(self).record(id).state()
                },
            ),
    {
        if id >= self.slots.len() {
            return false;
        }
        let mut taken: Option<PendingCommand> = None;
        self.slots.set_and_swap(id, &mut taken);
        match taken {
            Some(mut rec) => {
                rec.internal.completed = true;
                rec.internal.data = Some(data);
                self.slots.set(id, Some(rec));
                true
            },
            None => {
                assert(self.slots@ =~= old(self).slots@);
                false
            },
        }
    }
}

/// The tracker's record of an issued command. It names the command's record
/// by id and does not keep it alive.
#[derive(Debug, Clone, Copy, PartialEq, Eq, Structural)]
pub struct PendingInstruction {
    pub id: CommandID,
    pub variant: Command,
}

impl PendingInstruction {
    /// The tracker's record of command `id`, and that command's fresh shared record.
    pub fn new(id: CommandID, variant: Command) -> (r: (Self, PendingCommand))
        ensures
            r.0 == (PendingInstruction { id, variant }),
            r.1.state() == (PendingCommandInternal { started: false, completed: false, data: None }),
            r.1.owners() == 1,
    {
        (PendingInstruction { id, variant }, PendingCommand::fresh())
    }

    /// The instruction this record was made for.
    pub fn instruction(&self) -> (r: Instruction)
        ensures
            r == (Instruction { id: self.id, command: self.variant }),
    {
        Instruction { id: self.id, command: self.variant }
    }

    /// Marks this command started, if any owner of it remains. Returns whether
    /// one did; abandonment is expected, not an error.
    pub fn mark_started(&self, commands: &mut CommandSlots) -> (r: bool)
        requires
            old(commands).wf(),
        ensures
            final(commands).wf(),
            r == old(commands).alive(self.id),
            final(commands).is_update_of(
                *old(commands),
                self.id,
                PendingCommandInternal { started: true, ..old(commands).record(self.id).state() },
            ),
    {
        commands.mark_started(self.id)
    }

    /// Marks this command completed with `data`, if any owner of it remains.
    /// Returns whether one did.
    pub fn mark_completed(&self, commands: &mut CommandSlots, data: DataMessage) -> (r: bool)
        requires
            old(commands).wf(),
        ensures
            final(commands).wf(),
            r == old(commands).alive(self.id),
            final(commands).is_update_of(
                *old(commands),
                self.id,
                PendingCommandInternal {
                    completed: true,
                    data: Some(data),
                    ..old(commands).record(self.id).state()
                },
            ),
    {
        commands.mark_completed(self.id, data)
    }
}

impl Instruction {
    /// The instruction for command `id`, the tracker's record of it, and the
    /// command's fresh shared record.
    pub fn new(id: CommandID, command: Command) -> (r: (Instruction, PendingInstruction, PendingCommand))
        ensures
            r.0 == (Instruction { id, command }),
            r.1 == (PendingInstruction { id, variant: command }),
            r.2.state() == (PendingCommandInternal { started: false, completed: false, data: None }),
            r.2.owners() == 1,
    {
        let (pending, cmd) = PendingInstruction::new(id, command);
        (Instruction { id, command }, pending, cmd)
    }
}

/// Abandonment: once the last owning handle of a command is released, its
/// record is freed, and marking it started or completed afterwards changes
/// nothing and reports that no owner remains.
pub proof fn lemma_abandoned_marks_are_no_ops(
    before: CommandSlots,
    after: CommandSlots,
    id: CommandID,
    marked: CommandSlots,
    state: PendingCommandInternal,
)
    requires
        before.wf(),
        before.alive(id),
        before.record(id).owners() == 1,
        after.is_release_of(before, id),
        marked.is_update_of(after, id, state),
    ensures
        !after.alive(id),
        after.records()[id as int] is None,
        marked.records() == after.records(),
{
}

/// One result per command: with another owner left, extraction fails with
/// `StrongReference`; with the caller as sole owner of a completed command it
/// gives the result, and the record is then freed, so no handle to it remains
/// to extract it again.
pub proof fn lemma_single_extraction(
    session: SignallableData<ClientState>,
    id: CommandID,
    after: CommandSlots,
)
    requires
        session.value().wf(),
        session.value().commands().alive(id),
        session.value().commands().record(id).state().completed,
        !session.signalled(),
        !session.poisoned(),
        after.is_release_of(session.value().commands(), id),
    ensures
        session.value().commands().record(id).owners() > 1 ==> PendingCommand::complete_outcome(
            &session,
            id,
        ) == Err::<Option<DataMessage>, PendingCommandError>(PendingCommandError::StrongReference)
            && after.alive(id),
        session.value().commands().record(id).owners() == 1 ==> PendingCommand::complete_outcome(
            &session,
            id,
        ) == Ok::<Option<DataMessage>, PendingCommandError>(
            session.value().commands().record(id).state().data,
        ) && !after.alive(id),
{
}

} // verus!
