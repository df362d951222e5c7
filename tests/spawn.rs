use sync_channels::spawn::{AdapterPhase, SpawnState};
use sync_channels::Async;

#[test]
fn forgotten_computation_runs_to_completion() {
    let mut s: SpawnState<u32, String, u32> = SpawnState::new();
    let mut side_effect: u32 = 0;
    assert_eq!(s.forget(), None);
    for step in 0..5u32 {
        assert!(s.adapter_turn(1));
        side_effect += step;
    }
    s.adapter_complete(Ok(side_effect));
    assert_eq!(s.adapter, AdapterPhase::Completed);
    assert_eq!(s.adapter_drop(), None);
    assert_eq!(side_effect, 10);
    assert!(s.channel.complete);
}

#[test]
fn dropped_handle_aborts_computation() {
    let mut s: SpawnState<u32, String, u32> = SpawnState::new();
    assert!(s.adapter_turn(1));
    assert_eq!(s.drop_handle(), Some(1));
    assert!(!s.adapter_turn(1));
    assert_eq!(s.adapter, AdapterPhase::Aborted);
    assert_eq!(s.adapter_drop(), None);
}

#[test]
fn handle_sees_value_after_adapter_finishes() {
    let mut s: SpawnState<u32, String, u32> = SpawnState::new();
    assert_eq!(s.poll_handle(9), Some(Ok(Async::NotReady)));
    assert!(s.adapter_turn(1));
    s.adapter_complete(Ok(17));
    assert_eq!(s.poll_handle(9), Some(Ok(Async::NotReady)));
    assert_eq!(s.adapter_drop(), Some(9));
    assert_eq!(s.poll_handle(9), Some(Ok(Async::Ready(17))));
}

#[test]
fn handle_sees_error_of_computation() {
    let mut s: SpawnState<u32, String, u32> = SpawnState::new();
    s.adapter_complete(Err(String::from("boom")));
    assert_eq!(s.adapter_drop(), None);
    assert_eq!(s.poll_handle(9), Some(Err(String::from("boom"))));
}

#[test]
fn adapter_gone_without_result_is_reported() {
    let mut s: SpawnState<u32, String, u32> = SpawnState::new();
    assert_eq!(s.adapter_drop(), None);
    assert_eq!(s.poll_handle(9), None);
}
