use command_channel::endpoint::{IpcEnd, IpcError, RecvEvent, SenderAction, SenderPhase};
use command_channel::messages::{Command, DataMessage, Instruction, LogMessage, LogSeverity, Message};
use command_channel::protocol::{handle_message, Dispatched, Master, Slave};
use command_channel::client_state::ClientState;
use command_channel::command::PendingCommand;
use command_channel::command::PendingCommandError;
use command_channel::signal::Signal;

fn pump_to_worker(master: &mut Master, slave: &mut Slave) -> usize {
    let mut n = 0;
    while let (_, SenderAction::Send(inst)) = master.ipc_mut().sender_next(SenderPhase::Forwarding, 0) {
        assert!(slave.ipc_mut().receiver_event(RecvEvent::Received(inst)));
        n += 1;
    }
    n
}

fn pump_to_controller(slave: &mut Slave, master: &mut Master) -> usize {
    let mut n = 0;
    while let (_, SenderAction::Send(msg)) = slave.ipc_mut().sender_next(SenderPhase::Forwarding, 0) {
        assert!(master.ipc_mut().receiver_event(RecvEvent::Received(msg)));
        n += 1;
    }
    n
}

#[test]
fn process_id_round_trip() {
    let mut master = Master::new();
    let mut slave = Slave::new();
    let (h, sent) = master.send(Command::GetProcessId);
    assert_eq!(sent, Ok(()));
    assert_eq!(h.id(), 0);
    assert_eq!(pump_to_worker(&mut master, &mut slave), 1);
    let inst = slave.recv().unwrap();
    assert_eq!(inst, Instruction { id: 0, command: Command::GetProcessId });
    assert_eq!(slave.handle_instruction(&inst, Some(DataMessage::ProcessId(4242))), Ok(true));
    assert_eq!(pump_to_controller(&mut slave, &mut master), 2);
    assert_eq!(master.try_recv_one(), Ok(None));
    assert!(!master.session_mut().value_ref().is_pending(0));
    assert!(master.session_mut().value_ref().is_in_progress(0));
    assert_eq!(master.try_recv_one(), Ok(Some(DataMessage::ProcessId(4242))));
}

#[test]
fn every_command_is_acknowledged_once_before_its_result() {
    let mut master = Master::new();
    let mut slave = Slave::new();
    let commands = [Command::GetProcessId, Command::GetThreadId, Command::FindJSON];
    for c in commands {
        master.send(c).1.unwrap();
    }
    assert_eq!(pump_to_worker(&mut master, &mut slave), 3);
    for k in 0..3u32 {
        let inst = slave.recv().unwrap();
        let outcome = match inst.command {
            Command::FindJSON => Some(DataMessage::Json(vec![String::from("{}")])),
            Command::GetThreadId => Some(DataMessage::ThreadId(k)),
            _ => Some(DataMessage::ProcessId(k)),
        };
        assert_eq!(slave.handle_instruction(&inst, outcome), Ok(true));
    }
    let mut seen = Vec::new();
    while let (_, SenderAction::Send(msg)) = slave.ipc_mut().sender_next(SenderPhase::Forwarding, 0) {
        seen.push(msg);
    }
    assert_eq!(seen.len(), 6);
    for k in 0..3usize {
        assert_eq!(seen[2 * k], Message::Ack(k));
        assert!(matches!(seen[2 * k + 1], Message::DataMessage(_)));
    }
}

#[test]
fn quit_stops_the_worker_after_its_ack() {
    let mut slave = Slave::new();
    let inst = Instruction { id: 9, command: Command::Quit };
    assert_eq!(slave.handle_instruction(&inst, None), Ok(false));
    assert!(matches!(
        slave.ipc_mut().sender_next(SenderPhase::Forwarding, 0).1,
        SenderAction::Send(Message::Ack(9))
    ));
    assert!(matches!(slave.ipc_mut().sender_next(SenderPhase::Forwarding, 0).1, SenderAction::Wait));
}

#[test]
fn failed_capability_sends_only_the_ack() {
    let mut slave = Slave::new();
    let inst = Instruction { id: 4, command: Command::FindJSON };
    assert_eq!(slave.handle_instruction(&inst, None), Ok(true));
    assert!(matches!(
        slave.ipc_mut().sender_next(SenderPhase::Forwarding, 0).1,
        SenderAction::Send(Message::Ack(4))
    ));
    assert!(matches!(slave.ipc_mut().sender_next(SenderPhase::Forwarding, 0).1, SenderAction::Wait));
}

#[test]
fn worker_send_after_shutdown_fails() {
    let mut slave = Slave::new();
    slave.ipc_mut().close();
    assert_eq!(slave.send(Message::Ready), Err(IpcError::SendError));
}

#[test]
fn dispatch_of_each_message() {
    let mut state = ClientState::new();
    assert_eq!(handle_message(&mut state, Message::Ready), Dispatched::Ready);
    assert!(state.ready());
    assert_eq!(handle_message(&mut state, Message::Ack(3)), Dispatched::UnknownAck(3));
    assert_eq!(handle_message(&mut state, Message::Exiting), Dispatched::Exiting);
    let log = LogMessage::new(5, LogSeverity::Warning, String::from("w"));
    assert_eq!(handle_message(&mut state, Message::Log(log.clone())), Dispatched::Log(log));
    assert_eq!(
        handle_message(&mut state, Message::DataMessage(DataMessage::ThreadId(2))),
        Dispatched::Data(DataMessage::ThreadId(2))
    );
    let (_, h) = state.issue(Command::GetThreadId);
    assert_eq!(
        handle_message(&mut state, Message::Ack(0)),
        Dispatched::Acknowledged {
            instruction: Instruction { id: 0, command: Command::GetThreadId },
            alive: true
        }
    );
    assert!(state.command_state(&h).started);
}

#[test]
fn signal_releases_waiting_caller() {
    let mut master = Master::new();
    let (h, _) = master.send(Command::FindJSON);
    master.session_mut().set_signal(true);
    assert_eq!(
        PendingCommand::wait_for_complete(master.session_mut(), h),
        Err(PendingCommandError::Signalled)
    );
}

#[test]
fn receive_failure_terminates_session() {
    let mut master = Master::new();
    assert!(!master.ipc_mut().receiver_event(RecvEvent::Failed));
    assert!(!master.recv_must_wait());
    assert_eq!(master.try_recv_one(), Err(IpcError::Signalled));
    assert!(master.session_mut().is_signalled());
    assert!(matches!(
        master.ipc_mut().sender_next(SenderPhase::Forwarding, 0).1,
        SenderAction::Send(Instruction { id: 0, command: Command::Quit })
    ));
}

#[test]
fn send_after_close_reports_pipe_closed() {
    let mut master = Master::new();
    master.ipc_mut().close();
    let (h, sent) = master.send(Command::GetThreadId);
    assert_eq!(sent, Err(IpcError::PipeClosed));
    assert_eq!(h.id(), 0);
}

#[test]
fn grace_period_flushes_then_drops() {
    let mut end: IpcEnd<String, String> = IpcEnd::new();
    assert_eq!(end.send(String::from("a")), Ok(()));
    assert_eq!(end.send(String::from("b")), Ok(()));
    end.close();
    let (p, a) = end.sender_next(SenderPhase::Forwarding, 1000);
    assert_eq!(p, SenderPhase::Grace { deadline: 6000 });
    assert_eq!(a, SenderAction::Send(String::from("a")));
    let (p, a) = end.sender_next(p, 2000);
    assert_eq!(a, SenderAction::Send(String::from("b")));
    let (p, a) = end.sender_next(p, 3000);
    assert_eq!(a, SenderAction::Wait);
    let (p, a) = end.sender_next(p, 6000);
    assert_eq!((p, a), (SenderPhase::Stopped, SenderAction::Stop));
    assert_eq!(end.send(String::from("c")), Err(()));
}

#[test]
fn endpoint_timeouts_and_receive_states() {
    let end: IpcEnd<u8, u8> = IpcEnd::new();
    assert_eq!(end.recv_timeout_ms(), 5000);
    assert_eq!(end.send_cleanup_ms(), 5000);
    let mut end: IpcEnd<u8, u8> = IpcEnd::new_with_timeout(None, Some(7));
    assert_eq!(end.recv_timeout_ms(), 15000);
    assert_eq!(end.send_cleanup_ms(), 7);
    assert_eq!(end.try_recv(), Ok(None));
    assert_eq!(end.try_recv_timeout(std::time::Duration::from_millis(1)), Ok(None));
    assert!(end.receiver_event(RecvEvent::Received(4)));
    assert!(end.receiver_event(RecvEvent::TimedOut));
    assert_eq!(end.try_recv(), Ok(Some(4)));
    assert!(!end.receiver_event(RecvEvent::Failed));
    assert_eq!(end.try_recv(), Err(IpcError::ThreadFinished));
    assert_eq!(end.recv(), Err(IpcError::Signalled));
    end.close();
    assert_eq!(end.try_recv(), Err(IpcError::ThreadNotRunning));
    assert_eq!(
        end.try_recv_timeout(std::time::Duration::from_millis(1)),
        Err(IpcError::ThreadNotRunning)
    );
}

#[test]
fn sender_failure_stops_the_pump() {
    let mut end: IpcEnd<u8, u8> = IpcEnd::new();
    end.send(1).unwrap();
    end.sender_failed();
    assert_eq!(end.send(2), Err(()));
    let (p, a) = end.sender_next(SenderPhase::Stopped, 0);
    assert_eq!((p, a), (SenderPhase::Stopped, SenderAction::Stop));
}

#[test]
fn severity_labels_and_filter() {
    assert_eq!(LogSeverity::Warning.label(), "Warn");
    assert_eq!(LogSeverity::Verbose.label(), "Verbose");
    assert!(LogSeverity::Error.within(&LogSeverity::Info));
    assert!(!LogSeverity::Debug.within(&LogSeverity::Info));
    assert!(LogSeverity::Info.within(&LogSeverity::Info));
    assert_eq!(Command::GetProcessId.name(), "GetProcessId");
    assert_eq!(IpcError::PipeClosed.message(), "Named pipe was closed");
}
