use vstd::prelude::*;

use crate::command::{
    CommandHandle, CommandSlots, PendingCommand, PendingCommandInternal, PendingInstruction,
};
use crate::messages::{Command, CommandID, DataMessage, Instruction};

verus! {

/// No id occurs twice in `s`.
pub open spec fn unique_ids(s: Seq<PendingInstruction>) -> bool {
    forall|i: int, j: int| 0 <= i < j < s.len() ==> (#[trigger] s[i]).id != (#[trigger] s[j]).id
}

/// No id occurs in both `a` and `b`.
pub open spec fn disjoint_ids(a: Seq<PendingInstruction>, b: Seq<PendingInstruction>) -> bool {
    forall|i: int, j: int| 0 <= i < a.len() && 0 <= j < b.len() ==> (#[trigger] a[i]).id != (
    #[trigger] b[j]).id
}

/// Whether some entry of `s` has id `id`.
pub open spec fn has_id(s: Seq<PendingInstruction>, id: CommandID) -> bool {
    exists|i: int| 0 <= i < s.len() && (#[trigger] s[i]).id == id
}

/// The index of the first entry of `s` with id `id`; `s.len()` when none has it.
pub open spec fn index_of(s: Seq<PendingInstruction>, id: CommandID) -> int
    decreases s.len(),
{
    if s.len() == 0 {
        0
    } else if s[0].id == id {
        0
    } else {
        1 + index_of(s.drop_first(), id)
    }
}

/// `index_of` finds an entry exactly when one has the id, and the first one.
pub proof fn lemma_index_of(s: Seq<PendingInstruction>, id: CommandID)
    ensures
        0 <= index_of(s, id) <= s.len(),
        index_of(s, id) < s.len() <==> has_id(s, id),
        index_of(s, id) < s.len() ==> s[index_of(s, id)].id == id,
        forall|j: int| 0 <= j < index_of(s, id) ==> (#[trigger] s[j]).id != id,
    decreases s.len(),
{
    if s.len() > 0 {
        lemma_index_of(s.drop_first(), id);
        if s[0].id != id {
            assert forall|j: int| 0 <= j < index_of(s, id) implies (#[trigger] s[j]).id != id by {
                if j > 0 {
                    assert(s[j] == s.drop_first()[j - 1]);
                }
            }
            if has_id(s, id) {
                let k = choose|k: int| 0 <= k < s.len() && (#[trigger] s[k]).id == id;
                assert(s.drop_first()[k - 1] == s[k]);
            }
            if has_id(s.drop_first(), id) {
                let k = choose|k: int| 0 <= k < s.drop_first().len() && (#[trigger] s.drop_first()[k]).id == id;
                assert(s[k + 1] == s.drop_first()[k]);
            }
        } else {
            assert(s[0].id == id);
        }
    } else {
        assert(!has_id(s, id));
    }
}

/// The controller's table of in-flight commands: the next id to hand out, the
/// commands sent but not yet acknowledged, those acknowledged, and the shared
/// records of the commands, by id.
pub struct ClientState {
    next_available_id: CommandID,
    pending_instructions: Vec<PendingInstruction>,
    inprogres_instructions: Vec<PendingInstruction>,
    ready: bool,
    commands: CommandSlots,
}

impl ClientState {
    pub closed spec fn next(&self) -> nat {
        self.next_available_id as nat
    }

    pub closed spec fn pending(&self) -> Seq<PendingInstruction> {
        self.pending_instructions@
    }

    pub closed spec fn in_progress(&self) -> Seq<PendingInstruction> {
        self.inprogres_instructions@
    }

    pub closed spec fn commands(&self) -> CommandSlots {
        self.commands
    }

    /// Whether the worker has announced that it is ready.
    pub closed spec fn is_ready(&self) -> bool {
        self.ready
    }

    pub fn ready(&self) -> (r: bool)
        ensures
            r == self.is_ready(),
    {
        self.ready
    }

    /// Records that the worker announced it is ready.
    pub fn set_ready(&mut self)
        ensures
            final(self).is_ready(),
            final(self).next() == old(self).next(),
            final(self).pending() == old(self).pending(),
            final(self).in_progress() == old(self).in_progress(),
            final(self).commands() == old(self).commands(),
    {
        self.ready = true;
    }

    /// Ids are handed out below `next`, one slot each; an id is tracked at most
    /// once, in at most one of the two lists.
    pub open spec fn wf(&self) -> bool {
        &&& self.commands().wf()
        &&& self.commands().records().len() == self.next()
        &&& forall|i: int| 0 <= i < self.pending().len() ==> (#[trigger] self.pending()[i]).id < self.next()
        &&& forall|i: int|
            0 <= i < self.in_progress().len() ==> (#[trigger] self.in_progress()[i]).id < self.next()
        &&& unique_ids(self.pending())
        &&& unique_ids(self.in_progress())
        &&& disjoint_ids(self.pending(), self.in_progress())
    }

    /// `self` and `other` agree on everything but the command records.
    pub open spec fn same_tracking(&self, other: ClientState) -> bool {
        &&& self.next() == other.next()
        &&& self.pending() == other.pending()
        &&& self.in_progress() == other.in_progress()
        &&& self.is_ready() == other.is_ready()
    }

    pub fn new() -> (r: Self)
        ensures
            r.wf(),
            r.next() == 0,
            r.pending().len() == 0,
            r.in_progress().len() == 0,
            r.commands().records().len() == 0,
            !r.is_ready(),
    {
        ClientState {
            next_available_id: 0,
            pending_instructions: Vec::new(),
            inprogres_instructions: Vec::new(),
            ready: false,
            commands: CommandSlots::new(),
        }
    }

    /// The id the next command will get.
    pub fn next_available(&self) -> (r: CommandID)
        ensures
            r == self.next(),
    {
        self.next_available_id
    }

    /// Hands out the next id, with an empty slot for its record.
    pub fn next_id(&mut self) -> (r: CommandID)
        requires
            old(self).wf(),
            old(self).next() < usize::MAX,
        ensures
            final(self).wf(),
            r == old(self).next(),
            final(self).next() == old(self).next() + 1,
            final(self).pending() == old(self).pending(),
            final(self).in_progress() == old(self).in_progress(),
            final(self).is_ready() == old(self).is_ready(),
            final(self).commands().records() == old(self).commands().records().push(None),
    {
        let next_id = self.next_available_id;
        self.next_available_id = self.next_available_id + 1;
        self.commands.push_empty();
        next_id
    }

    /// Starts tracking `inst` as sent and not yet acknowledged, with `cmd` as
    /// its shared record; gives the one owning handle of that record.
    pub fn add_pending_inst(&mut self, inst: PendingInstruction, cmd: PendingCommand) -> (h:
        CommandHandle)
        requires
            old(self).wf(),
            inst.id < old(self).next(),
            !has_id(old(self).pending(), inst.id),
            !has_id(old(self).in_progress(), inst.id),
            !old(self).commands().alive(inst.id),
            cmd.owners() == 1,
        ensures
            final(self).wf(),
            h.spec_id() == inst.id,
            final(self).next() == old(self).next(),
            final(self).pending() == old(self).pending().push(inst),
            final(self).in_progress() == old(self).in_progress(),
            final(self).is_ready() == old(self).is_ready(),
            final(self).commands().records() == old(self).commands().records().update(
                inst.id as int,
                Some(cmd),
            ),
    {
        let id = inst.id;
        self.pending_instructions.push(inst);
        let h = self.commands.install(id, cmd);
        proof {
            assert forall|i: int, j: int|
                0 <= i < j < self.pending().len() implies (#[trigger] self.pending()[i]).id != (
                #[trigger] self.pending()[j]).id by {
                if j == self.pending().len() - 1 {
                    assert(old(self).pending()[i] == self.pending()[i]);
                }
            }
        }
        h
    }

    /// Issues `command`: hands out its id, tracks it as pending and creates its
    /// record. Gives the instruction to transmit and the one owning handle.
    pub fn issue(&mut self, command: Command) -> (r: (Instruction, CommandHandle))
        requires
            old(self).wf(),
            old(self).next() < usize::MAX,
        ensures
            final(self).wf(),
            r.0 == (Instruction { id: old(self).next() as CommandID, command }),
            r.1.spec_id() == old(self).next(),
            final(self).next() == old(self).next() + 1,
            final(self).pending() == old(self).pending().push(
                PendingInstruction { id: old(self).next() as CommandID, variant: command },
            ),
            final(self).in_progress() == old(self).in_progress(),
            final(self).is_ready() == old(self).is_ready(),
            final(self).commands().records().len() == old(self).commands().records().len() + 1,
            forall|j: int|
                0 <= j < old(self).commands().records().len() ==> #[trigger] final(self).commands().records()[j] == old(self).commands().records()[j],
            final(self).commands().alive(r.1.spec_id()),
            final(self).commands().record(r.1.spec_id()).owners() == 1,
            final(self).commands().record(r.1.spec_id()).state() == (PendingCommandInternal {
                started: false,
                completed: false,
                data: None,
            }),
    {
        let id = self.next_id();
        let (inst, pending, cmd) = Instruction::new(id, command);
        proof {
            if has_id(self.pending(), id) {
                let i = choose|i: int| 0 <= i < self.pending().len() && (#[trigger] self.pending()[i]).id == id;
                assert(self.pending()[i].id < old(self).next());
            }
            if has_id(self.in_progress(), id) {
                let i = choose|i: int|
                    0 <= i < self.in_progress().len() && (#[trigger] self.in_progress()[i]).id == id;
                assert(self.in_progress()[i].id < old(self).next());
            }
        }
        let h = self.add_pending_inst(pending, cmd);
        (inst, h)
    }

    /// Gives up an owning handle; see `CommandSlots::release_handle`.
    pub fn release_handle(&mut self, handle: CommandHandle) -> (r: Result<Option<DataMessage>, usize>)
        requires
            old(self).wf(),
            old(self).commands().holds(&handle),
        ensures
            final(self).wf(),
            final(self).same_tracking(*old(self)),
            final(self).commands().is_release_of(old(self).commands(), handle.spec_id()),
            old(self).commands().record(handle.spec_id()).owners() <= 1 ==> r == Ok::<
                Option<DataMessage>,
                usize,
            >(old(self).commands().record(handle.spec_id()).state().data),
            old(self).commands().record(handle.spec_id()).owners() > 1 ==> r == Err::<
                Option<DataMessage>,
                usize,
            >((old(self).commands().record(handle.spec_id()).owners() - 1) as usize),
    {
        self.commands.release_handle(handle)
    }

    /// A further owning handle to the record `handle` names.
    pub fn share_handle(&mut self, handle: &CommandHandle) -> (r: CommandHandle)
        requires
            old(self).wf(),
            old(self).commands().holds(handle),
            old(self).commands().record(handle.spec_id()).owners() < usize::MAX,
        ensures
            final(self).wf(),
            final(self).same_tracking(*old(self)),
            r.spec_id() == handle.spec_id(),
            final(self).commands().records().len() == old(self).commands().records().len(),
            forall|j: int|
                0 <= j < old(self).commands().records().len() && j != handle.spec_id()
                    ==> #[trigger] final(self).commands().records()[j] == old(self).commands().records()[j],
            final(self).commands().alive(handle.spec_id()),
            final(self).commands().record(handle.spec_id()).state() == old(self).commands().record(
                handle.spec_id(),
            ).state(),
            final(self).commands().record(handle.spec_id()).owners() == old(self).commands().record(
                handle.spec_id(),
            ).owners() + 1,
    {
        self.commands.share(handle)
    }

    /// The state of the record `handle` names.
    pub fn command_state(&self, handle: &CommandHandle) -> (r: &PendingCommandInternal)
        requires
            self.commands().holds(handle),
        ensures
            *r == self.commands().record(handle.spec_id()).state(),
    {
        self.commands.state_of(handle.id())
    }

    /// Whether the record of command `id` is alive, that is, still owned.
    pub fn record_alive(&self, id: CommandID) -> (r: bool)
        ensures
            r == self.commands().alive(id),
    {
        self.commands.is_alive(id)
    }

    /// Whether the record of command `id` is alive and completed.
    pub fn record_completed(&self, id: CommandID) -> (r: bool)
        ensures
            r == (self.commands().alive(id) && self.commands().record(id).state().completed),
    {
        if self.commands.is_alive(id) {
            self.commands.state_of(id).completed
        } else {
            false
        }
    }

    /// Whether command `id` is sent and not yet acknowledged.
    pub fn is_pending(&self, id: CommandID) -> (r: bool)
        ensures
            r == has_id(self.pending(), id),
    {
        position_of(&self.pending_instructions, id).is_some()
    }

    /// Whether command `id` is acknowledged and still tracked.
    pub fn is_in_progress(&self, id: CommandID) -> (r: bool)
        ensures
            r == has_id(self.in_progress(), id),
    {
        position_of(&self.inprogres_instructions, id).is_some()
    }

    /// Handles the acknowledgment of command `id`. When it is pending, it moves
    /// to the acknowledged list, its record (if any owner remains) is marked
    /// started, and the result is its instruction with whether an owner
    /// remained. An unknown id gives `(None, false)` and changes nothing.
    pub fn acknowledge_instruction(&mut self, id: CommandID) -> (r: (Option<Instruction>, bool))
        requires
            old(self).wf(),
        ensures
            final(self).wf(),
            final(self).next() == old(self).next(),
            final(self).is_ready() == old(self).is_ready(),
            !has_id(old(self).pending(), id) ==> r == (None::<Instruction>, false) && *final(self)
                == *old(self),
            ({
                let i = index_of(old(self).pending(), id);
                i < old(self).pending().len() ==> {
                    &&& r.0 == Some(Instruction { id, command: old(self).pending()[i].variant })
                    &&& final(self).pending() == old(self).pending().remove(i)
                    &&& final(self).in_progress() == old(self).in_progress().push(old(self).pending()[i])
                }
            }),
            index_of(old(self).pending(), id) == old(self).pending().len() ==> r == (None::<
                Instruction,
            >, false) && *final(self) == *old(self),
            has_id(old(self).pending(), id) ==> r.1 == old(self).commands().alive(id)
                && final(self).commands().is_update_of(
                old(self).commands(),
                id,
                PendingCommandInternal { started: true, ..old(self).commands().record(id).state() },
            ),
            !has_id(final(self).pending(), id),
    {
        match position_of(&self.pending_instructions, id) {
            None => (None, false),
            Some(pos) => {
                let ghost old_pending = self.pending();
                let ghost old_progress = self.in_progress();
                let inst = self.pending_instructions.remove(pos);
                let alive = inst.mark_started(&mut self.commands);
                self.inprogres_instructions.push(inst);
                proof {
                    lemma_remove_keeps(old_pending, pos as int, self.next());
                    assert forall|i: int, j: int|
                        0 <= i < j < self.in_progress().len() implies (#[trigger] self.in_progress()[i]).id
                        != (#[trigger] self.in_progress()[j]).id by {
                        if j == self.in_progress().len() - 1 {
                            assert(old_progress[i] == self.in_progress()[i]);
                        }
                    }
                    assert forall|i: int, j: int|
                        0 <= i < self.pending().len() && 0 <= j < self.in_progress().len() implies (
                        #[trigger] self.pending()[i]).id != (#[trigger] self.in_progress()[j]).id by {
                        if i < pos {
                            assert(self.pending()[i] == old_pending[i]);
                        } else {
                            assert(self.pending()[i] == old_pending[i + 1]);
                        }
                        if j < old_progress.len() {
                            assert(self.in_progress()[j] == old_progress[j]);
                        }
                    }
                    assert forall|i: int| 0 <= i < self.in_progress().len() implies (
                    #[trigger] self.in_progress()[i]).id < self.next() by {
                        if i < old_progress.len() {
                            assert(self.in_progress()[i] == old_progress[i]);
                        }
                    }
                    assert(!has_id(self.pending(), id)) by {
                        if has_id(self.pending(), id) {
                            let k = choose|k: int| 0 <= k < self.pending().len() && (#[trigger] self.pending()[k]).id == id;
                            if k < pos {
                                assert(self.pending()[k] == old_pending[k]);
                            } else {
                                assert(self.pending()[k] == old_pending[k + 1]);
                            }
                        }
                    }
                }
                (Some(inst.instruction()), alive)
            },
        }
    }

    /// Handles the completion of command `id` with `data`. When it is
    /// acknowledged, it leaves the table, its record (if any owner remains) is
    /// marked completed, and the result is its instruction with whether an
    /// owner remained. An unknown id gives `(None, false)` and changes nothing.
    pub fn complete_instructions(&mut self, id: CommandID, data: DataMessage) -> (r: (
        Option<Instruction>,
        bool,
    ))
        requires
            old(self).wf(),
        ensures
            final(self).wf(),
            final(self).next() == old(self).next(),
            final(self).is_ready() == old(self).is_ready(),
            final(self).pending() == old(self).pending(),
            !has_id(old(self).in_progress(), id) ==> r == (None::<Instruction>, false) && *final(self)
                == *old(self),
            ({
                let i = index_of(old(self).in_progress(), id);
                i < old(self).in_progress().len() ==> {
                    &&& r.0 == Some(Instruction { id, command: old(self).in_progress()[i].variant })
                    &&& final(self).in_progress() == old(self).in_progress().remove(i)
                }
            }),
            index_of(old(self).in_progress(), id) == old(self).in_progress().len() ==> r == (None::<
                Instruction,
            >, false) && *final(self) == *old(self),
            has_id(old(self).in_progress(), id) ==> r.1 == old(self).commands().alive(id)
                && final(self).commands().is_update_of(
                old(self).commands(),
                id,
                PendingCommandInternal {
                    completed: true,
                    data: Some(data),
                    ..old(self).commands().record(id).state()
                },
            ),
            !has_id(final(self).in_progress(), id),
    {
        match position_of(&self.inprogres_instructions, id) {
            None => (None, false),
            Some(pos) => {
                let ghost old_progress = self.in_progress();
                let inst = self.inprogres_instructions.remove(pos);
                let alive = inst.mark_completed(&mut self.commands, data);
                proof {
                    lemma_remove_keeps(old_progress, pos as int, self.next());
                    assert forall|i: int, j: int|
                        0 <= i < self.pending().len() && 0 <= j < self.in_progress().len() implies (
                        #[trigger] self.pending()[i]).id != (#[trigger] self.in_progress()[j]).id by {
                        if j < pos {
                            assert(self.in_progress()[j] == old_progress[j]);
                        } else {
                            assert(self.in_progress()[j] == old_progress[j + 1]);
                        }
                    }
                    assert(!has_id(self.in_progress(), id)) by {
                        if has_id(self.in_progress(), id) {
                            let k = choose|k: int| 0 <= k < self.in_progress().len() && (#[trigger] self.in_progress()[k]).id == id;
                            if k < pos {
                                assert(self.in_progress()[k] == old_progress[k]);
                            } else {
                                assert(self.in_progress()[k] == old_progress[k + 1]);
                            }
                        }
                    }
                }
                (Some(inst.instruction()), alive)
            },
        }
    }
}

/// Removing an entry keeps ids unique and below `bound`.
proof fn lemma_remove_keeps(s: Seq<PendingInstruction>, pos: int, bound: nat)
    requires
        0 <= pos < s.len(),
        unique_ids(s),
        forall|i: int| 0 <= i < s.len() ==> (#[trigger] s[i]).id < bound,
    ensures
        unique_ids(s.remove(pos)),
        forall|i: int| 0 <= i < s.remove(pos).len() ==> (#[trigger] s.remove(pos)[i]).id < bound,
{
    let t = s.remove(pos);
    assert forall|i: int, j: int| 0 <= i < j < t.len() implies (#[trigger] t[i]).id != (
    #[trigger] t[j]).id by {
        let a = if i < pos { i } else { i + 1 };
        let b = if j < pos { j } else { j + 1 };
        assert(t[i] == s[a]);
        assert(t[j] == s[b]);
    }
    assert forall|i: int| 0 <= i < t.len() implies (#[trigger] t[i]).id < bound by {
        let a = if i < pos { i } else { i + 1 };
        assert(t[i] == s[a]);
    }
}

/// The index of the entry with id `id`, if any.
fn position_of(v: &Vec<PendingInstruction>, id: CommandID) -> (r: Option<usize>)
    ensures
        r is None <==> !has_id(v@, id),
        r matches Some(p) ==> p < v@.len() && v@[p as int].id == id && p == index_of(v@, id),
        r is None ==> index_of(v@, id) == v@.len(),
{
    proof {
        lemma_index_of(v@, id);
    }
    let mut i: usize = 0;
    while i < v.len()
        invariant
            i <= v@.len(),
            forall|k: int| 0 <= k < i ==> (#[trigger] v@[k]).id != id,
        decreases v@.len() - i,
    {
        if v[i].id == id {
            proof {
                lemma_index_of(v@, id);
                let k = index_of(v@, id);
                if k < i {
                    assert(v@[k].id != id);
                }
                if k > i {
                    assert(v@[i as int].id != id);
                }
            }
            return Some(i);
        }
        i = i + 1;
    }
    None
}

} // verus!
