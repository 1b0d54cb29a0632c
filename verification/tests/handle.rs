use easycontainer::process::orchestrator::{create_handles, create_runners};
use easycontainer::process::service::{broadcast_kill, ServiceRunner};
use easycontainer::process::Service;
use tokio::sync::mpsc::error::TryRecvError;

fn service(command: &str) -> Service {
    Service::new(command.to_string(), Vec::new())
}

#[test]
fn send_kill_reaches_the_runner() {
    let (runner, mut receiver) = ServiceRunner::new(service("sleep"));
    assert_eq!(receiver.try_recv(), Err(TryRecvError::Empty));
    let mut handle = runner.create_handle();
    handle.send_kill();
    assert_eq!(receiver.try_recv(), Ok(()));
    assert_eq!(receiver.try_recv(), Err(TryRecvError::Empty));
}

#[test]
fn send_kill_may_be_repeated() {
    let (runner, mut receiver) = ServiceRunner::new(service("sleep"));
    let mut handle = runner.create_handle();
    handle.send_kill();
    handle.send_kill();
    handle.send_kill();
    assert_eq!(receiver.try_recv(), Ok(()));
    assert_eq!(handle.service().command(), "sleep");
}

#[test]
fn cloned_handle_addresses_the_same_runner() {
    let (runner, mut receiver) = ServiceRunner::new(service("sleep"));
    let handle = runner.create_handle();
    let mut copy = handle.clone();
    assert_eq!(copy.service().command(), "sleep");
    copy.send_kill();
    assert_eq!(receiver.try_recv(), Ok(()));
}

#[test]
fn handles_of_different_runners_are_independent() {
    let (first, mut first_receiver) = ServiceRunner::new(service("a"));
    let (second, mut second_receiver) = ServiceRunner::new(service("b"));
    let mut handle = second.create_handle();
    let _other = first.create_handle();
    handle.send_kill();
    assert_eq!(first_receiver.try_recv(), Err(TryRecvError::Empty));
    assert_eq!(second_receiver.try_recv(), Ok(()));
}

#[test]
fn send_kill_to_a_runner_that_is_gone_is_harmless() {
    let (runner, receiver) = ServiceRunner::new(service("true"));
    let mut handle = runner.create_handle();
    drop(receiver);
    drop(runner);
    handle.send_kill();
    handle.send_kill();
    assert_eq!(handle.service().command(), "true");
}

#[test]
fn broadcast_kill_reaches_every_runner() {
    let services = vec![service("a"), service("b"), service("c")];
    let mut runners = create_runners(&services);
    assert_eq!(runners.len(), 3);
    let mut handles = create_handles(&runners);
    assert_eq!(handles.len(), 3);
    assert_eq!(handles[0].service().command(), "a");
    assert_eq!(handles[1].service().command(), "b");
    assert_eq!(handles[2].service().command(), "c");
    assert_eq!(broadcast_kill(&mut handles), 3);
    for (_, receiver) in runners.iter_mut() {
        assert_eq!(receiver.try_recv(), Ok(()));
        assert_eq!(receiver.try_recv(), Err(TryRecvError::Empty));
    }
    assert_eq!(handles.len(), 3);
}

#[test]
fn broadcast_kill_over_no_handles_sends_nothing() {
    let mut handles = Vec::new();
    assert_eq!(broadcast_kill(&mut handles), 0);
}

#[test]
fn create_runners_makes_one_starting_runner_per_service() {
    let services = vec![service("x"), service("y")];
    let runners = create_runners(&services);
    assert_eq!(runners.len(), 2);
    assert_eq!(runners[0].0.service().command(), "x");
    assert_eq!(runners[1].0.service().command(), "y");
    assert!(!runners[0].0.is_finished());
    assert!(create_runners(&Vec::new()).is_empty());
}
