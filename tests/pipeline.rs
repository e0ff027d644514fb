use rawconv::{
    create_channel, worker_step, BridgeAction, DispatchBridge, NextWorkloadOrStop,
    ParallelizationInfo, PrefetchCursor, PrefetchStep, ProtocolViolation, ShutdownStep,
    WorkerAction, WorkerState,
};
use std::sync::mpsc::TrySendError;

fn stop() -> NextWorkloadOrStop<Vec<u8>> {
    NextWorkloadOrStop::Stop
}

fn item(b: u8) -> NextWorkloadOrStop<Vec<u8>> {
    NextWorkloadOrStop::Workload(vec![b])
}

#[test]
fn prefetch_reads_in_order_then_stops_once() {
    let mut c = PrefetchCursor::new(3);
    assert_eq!(c.next_step(), PrefetchStep::Read(0));
    assert_eq!(c.next_step(), PrefetchStep::Read(1));
    assert_eq!(c.next_step(), PrefetchStep::Read(2));
    assert_eq!(c.next_step(), PrefetchStep::SendStop);
    assert_eq!(c.next_step(), PrefetchStep::Finished);
    assert_eq!(c.next_step(), PrefetchStep::Finished);
}

#[test]
fn prefetch_of_no_jobs_only_stops() {
    let mut c = PrefetchCursor::new(0);
    assert_eq!(c.next_step(), PrefetchStep::SendStop);
    assert_eq!(c.next_step(), PrefetchStep::Finished);
}

#[test]
fn worker_processes_until_stop() {
    assert_eq!(
        worker_step(WorkerState::Running, &item(1)),
        Ok((WorkerState::Running, WorkerAction::Process))
    );
    assert_eq!(
        worker_step(WorkerState::Running, &stop()),
        Ok((WorkerState::Stopped, WorkerAction::Exit))
    );
}

#[test]
fn worker_after_stop_is_protocol_violation() {
    assert_eq!(worker_step(WorkerState::Stopped, &item(1)), Err(ProtocolViolation));
    assert_eq!(worker_step(WorkerState::Stopped, &stop()), Err(ProtocolViolation));
}

#[test]
fn bridge_with_three_jobs_stops_and_joins_three_workers() {
    let info = ParallelizationInfo::new(3, Some(8));
    assert_eq!(info.worker_count(), 3);
    let mut b = DispatchBridge::new(&info);
    assert_eq!(b.on_input(&item(0)), Ok(BridgeAction::Forward));
    assert_eq!(b.on_input(&item(1)), Ok(BridgeAction::Forward));
    assert_eq!(b.on_input(&item(2)), Ok(BridgeAction::Forward));
    assert_eq!(b.on_input(&stop()), Ok(BridgeAction::BeginShutdown));
    let mut steps = Vec::new();
    loop {
        let s = b.next_shutdown_step();
        if s == ShutdownStep::Done {
            break;
        }
        steps.push(s);
    }
    assert_eq!(
        steps,
        vec![
            ShutdownStep::SendStop,
            ShutdownStep::SendStop,
            ShutdownStep::SendStop,
            ShutdownStep::Join(0),
            ShutdownStep::Join(1),
            ShutdownStep::Join(2),
        ]
    );
    assert_eq!(b.next_shutdown_step(), ShutdownStep::Done);
}

#[test]
fn bridge_rejects_input_after_stop() {
    let info = ParallelizationInfo::new(2, Some(4));
    let mut b = DispatchBridge::new(&info);
    assert_eq!(b.on_input(&stop()), Ok(BridgeAction::BeginShutdown));
    assert_eq!(b.on_input(&item(5)), Err(ProtocolViolation));
    assert_eq!(b.on_input(&stop()), Err(ProtocolViolation));
}

#[test]
fn channel_holds_at_most_one_envelope_per_worker() {
    let info = ParallelizationInfo::new(100, Some(2));
    assert_eq!(info.worker_count(), 2);
    let (sender, receiver) = create_channel(&info);
    assert!(sender.try_send(item(0)).is_ok());
    assert!(sender.try_send(item(1)).is_ok());
    assert!(matches!(sender.try_send(item(2)), Err(TrySendError::Full(_))));
    let first = receiver.lock().unwrap().recv().unwrap();
    assert!(matches!(first, NextWorkloadOrStop::Workload(ref v) if v == &vec![0u8]));
    assert!(sender.try_send(item(2)).is_ok());
}

#[test]
fn envelope_kind() {
    assert!(stop().is_stop());
    assert!(!item(3).is_stop());
}

#[test]
fn bridge_shutdown_of_two_workers_after_forwarding() {
    let info = ParallelizationInfo::new(100, Some(2));
    let mut b = DispatchBridge::new(&info);
    for k in 0..100u8 {
        assert_eq!(b.on_input(&item(k)), Ok(BridgeAction::Forward));
    }
    assert_eq!(b.forwarded(), 100);
    assert_eq!(b.on_input(&stop()), Ok(BridgeAction::BeginShutdown));
    assert_eq!(b.forwarded(), 100);
    assert_eq!(b.next_shutdown_step(), ShutdownStep::SendStop);
    assert_eq!(b.next_shutdown_step(), ShutdownStep::SendStop);
    assert_eq!(b.next_shutdown_step(), ShutdownStep::Join(0));
    assert_eq!(b.next_shutdown_step(), ShutdownStep::Join(1));
    assert_eq!(b.next_shutdown_step(), ShutdownStep::Done);
}
