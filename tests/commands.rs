use command_channel::client_state::ClientState;
use command_channel::command::{PendingCommand, PendingCommandError, PendingInstruction};
use command_channel::messages::{Command, DataMessage, Instruction};
use command_channel::signal::{Signal, SignallableData};

fn session() -> SignallableData<ClientState> {
    SignallableData::new(ClientState::new())
}

#[test]
fn ids_are_handed_out_in_order() {
    let mut state = ClientState::new();
    assert_eq!(state.next_id(), 0);
    assert_eq!(state.next_id(), 1);
    let (inst, h) = state.issue(Command::GetThreadId);
    assert_eq!(inst, Instruction { id: 2, command: Command::GetThreadId });
    assert_eq!(h.id(), 2);
    assert!(state.is_pending(2));
    assert!(!state.is_pending(0));
}

#[test]
fn add_pending_inst_tracks_and_returns_handle() {
    let mut state = ClientState::new();
    let id = state.next_id();
    let (inst, pending, cmd) = Instruction::new(id, Command::FindJSON);
    assert_eq!(inst, Instruction { id: 0, command: Command::FindJSON });
    assert_eq!(pending, PendingInstruction { id: 0, variant: Command::FindJSON });
    let h = state.add_pending_inst(pending, cmd);
    assert_eq!(h.id(), 0);
    assert!(state.is_pending(0));
    assert!(state.record_alive(0));
    let s = state.command_state(&h);
    assert!(!s.started && !s.completed && s.data.is_none());
}

#[test]
fn acknowledgment_moves_pending_to_in_progress() {
    let mut state = ClientState::new();
    let (_, h) = state.issue(Command::GetProcessId);
    let (inst, alive) = state.acknowledge_instruction(0);
    assert_eq!(inst, Some(Instruction { id: 0, command: Command::GetProcessId }));
    assert!(alive);
    assert!(!state.is_pending(0));
    assert!(state.is_in_progress(0));
    assert!(state.command_state(&h).started);
    assert_eq!(state.acknowledge_instruction(0), (None, false));
    assert_eq!(state.acknowledge_instruction(7), (None, false));
}

#[test]
fn completion_stores_result() {
    let mut state = ClientState::new();
    let (_, h) = state.issue(Command::GetThreadId);
    assert_eq!(state.complete_instructions(0, DataMessage::ThreadId(3)), (None, false));
    state.acknowledge_instruction(0);
    let (inst, alive) = state.complete_instructions(0, DataMessage::ThreadId(3));
    assert_eq!(inst, Some(Instruction { id: 0, command: Command::GetThreadId }));
    assert!(alive);
    assert!(!state.is_in_progress(0));
    let s = state.command_state(&h);
    assert!(s.started && s.completed);
    assert_eq!(s.data, Some(DataMessage::ThreadId(3)));
}

#[test]
fn abandoned_command_marks_report_not_alive() {
    let mut state = ClientState::new();
    let (_, h) = state.issue(Command::GetProcessId);
    assert_eq!(state.release_handle(h), Ok(None));
    assert!(!state.record_alive(0));
    let (inst, alive) = state.acknowledge_instruction(0);
    assert!(inst.is_some());
    assert!(!alive);
    let (inst, alive) = state.complete_instructions(0, DataMessage::ProcessId(1));
    assert!(inst.is_some());
    assert!(!alive);
    assert!(!state.record_alive(0));
}

#[test]
fn pending_instruction_marks_directly() {
    let mut state = ClientState::new();
    let (_, h) = state.issue(Command::GetProcessId);
    let pending = PendingInstruction { id: 0, variant: Command::GetProcessId };
    assert_eq!(pending.instruction(), Instruction { id: 0, command: Command::GetProcessId });
    let (p, cmd) = PendingInstruction::new(5, Command::Quit);
    assert_eq!(p, PendingInstruction { id: 5, variant: Command::Quit });
    drop(cmd);
    assert!(state.share_handle(&h).id() == 0);
    assert_eq!(state.release_handle(h), Err(1));
}

#[test]
fn second_owner_blocks_extraction_then_sole_owner_succeeds_once() {
    let mut s = session();
    let (_, h1) = s.lock().unwrap().data.issue(Command::GetThreadId);
    let h2 = s.lock().unwrap().data.share_handle(&h1);
    s.lock().unwrap().data.acknowledge_instruction(0);
    s.lock().unwrap().data.complete_instructions(0, DataMessage::ThreadId(77));
    assert_eq!(
        PendingCommand::wait_for_complete(&mut s, h1),
        Err(PendingCommandError::StrongReference)
    );
    assert!(s.value_ref().record_alive(0));
    assert_eq!(
        PendingCommand::wait_for_complete(&mut s, h2),
        Ok(Some(DataMessage::ThreadId(77)))
    );
    assert!(!s.value_ref().record_alive(0));
}

#[test]
fn signalled_session_fails_wait_for_complete() {
    let mut s = session();
    let (_, h) = s.lock().unwrap().data.issue(Command::FindJSON);
    s.set_signal(true);
    PendingCommand::wait_for_start(&s, &h);
    assert_eq!(PendingCommand::wait_for_complete(&mut s, h), Err(PendingCommandError::Signalled));
    assert!(!s.value_ref().record_alive(0));
}

#[test]
fn poisoned_session_fails_wait_for_complete() {
    let mut s = session();
    let (_, h) = s.lock().unwrap().data.issue(Command::FindJSON);
    s.mark_poisoned();
    assert_eq!(PendingCommand::wait_for_complete(&mut s, h), Err(PendingCommandError::Poisoned));
}

#[test]
fn started_transitions_follow_acknowledgment_order() {
    let mut state = ClientState::new();
    let (_, h0) = state.issue(Command::GetProcessId);
    let (_, h1) = state.issue(Command::GetThreadId);
    let (_, h2) = state.issue(Command::FindJSON);
    let started = |st: &ClientState| {
        [
            st.command_state(&h0).started,
            st.command_state(&h1).started,
            st.command_state(&h2).started,
        ]
    };
    assert_eq!(started(&state), [false, false, false]);
    state.acknowledge_instruction(0);
    assert_eq!(started(&state), [true, false, false]);
    state.acknowledge_instruction(1);
    assert_eq!(started(&state), [true, true, false]);
    state.acknowledge_instruction(2);
    assert_eq!(started(&state), [true, true, true]);
}

#[test]
fn pending_command_error_messages() {
    assert_eq!(PendingCommandError::Signalled.message(), "The command was signalled");
    assert_eq!(PendingCommandError::StrongReference.message(), "More than 1 strong reference");
    assert_eq!(PendingCommandError::Poisoned.message(), "The internal mutex was poisoned");
}
