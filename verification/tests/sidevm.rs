use pink_drink::js::JsValue;
use pink_extension::chain_extension::JsValue as Outside;
use pink_drink::sidevm_runner::{
    conclude, is_over, run, start, OutgoingRequest, RunError, RunEvent, RunState,
    EVENT_CHANNEL_CAPACITY, MAX_MEMORY_PAGES, TIMEOUT_SECS, VITAL_CAPACITY,
};

fn output(bytes: &[u8]) -> RunEvent {
    RunEvent::Received(OutgoingRequest::Output(bytes.to_vec()))
}

fn other() -> RunEvent {
    RunEvent::Received(OutgoingRequest::Other)
}

fn run_all(events: Vec<RunEvent>) -> RunState {
    let mut state = start();
    for event in events {
        state = run(state, event);
    }
    state
}

fn encoded(value: Outside) -> Vec<u8> {
    parity_scale_codec::Encode::encode(&value)
}

#[test]
fn the_limits_of_the_sidecar() {
    assert_eq!(VITAL_CAPACITY, 100_000_000_000);
    assert_eq!(MAX_MEMORY_PAGES, 256);
    assert_eq!(TIMEOUT_SECS, 10);
    assert_eq!(EVENT_CHANNEL_CAPACITY, 1);
}

#[test]
fn a_run_starts_racing() {
    assert_eq!(start(), RunState::Racing);
    assert!(!is_over(&start()));
}

#[test]
fn an_output_during_the_race_ends_the_run() {
    assert_eq!(run_all(vec![output(&[1, 2])]), RunState::Finished(Some(vec![1, 2])));
    assert_eq!(run_all(vec![other(), other(), output(&[3])]), RunState::Finished(Some(vec![3])));
    assert!(is_over(&run_all(vec![output(&[])])));
}

#[test]
fn the_exit_of_the_instance_opens_the_drain() {
    assert_eq!(run_all(vec![RunEvent::Exited]), RunState::Draining);
    assert_eq!(run_all(vec![other(), RunEvent::Exited]), RunState::Draining);
    assert_eq!(run_all(vec![RunEvent::Exhausted]), RunState::Draining);
    assert!(!is_over(&RunState::Draining));
}

#[test]
fn a_late_output_is_found_in_the_queue() {
    assert_eq!(
        run_all(vec![RunEvent::Exited, output(&[9])]),
        RunState::Finished(Some(vec![9]))
    );
    assert_eq!(
        run_all(vec![RunEvent::Exited, other(), other(), output(&[9])]),
        RunState::Finished(Some(vec![9]))
    );
}

#[test]
fn an_empty_queue_ends_the_run_without_output() {
    assert_eq!(run_all(vec![RunEvent::Exited, RunEvent::Exhausted]), RunState::Finished(None));
    assert_eq!(run_all(vec![RunEvent::Exhausted, RunEvent::Exhausted]), RunState::Finished(None));
    assert_eq!(
        run_all(vec![other(), RunEvent::Exited, other(), RunEvent::Exhausted]),
        RunState::Finished(None)
    );
    assert_eq!(run_all(vec![RunEvent::Exited, RunEvent::Exited]), RunState::Draining);
}

#[test]
fn the_first_output_wins() {
    assert_eq!(
        run_all(vec![other(), output(&[1]), output(&[2]), RunEvent::Exited, output(&[3])]),
        RunState::Finished(Some(vec![1]))
    );
    assert_eq!(
        run_all(vec![RunEvent::Exited, RunEvent::Exhausted, output(&[3])]),
        RunState::Finished(None)
    );
}

#[test]
fn a_run_without_output_concludes_with_no_output() {
    assert_eq!(conclude(None), Err(RunError::NoOutput));
    assert_eq!(RunError::NoOutput.render(), "No output");
    assert_eq!(RunError::Decode("x".to_string()).render(), "x");
    assert_eq!(RunError::Compile("y".to_string()).render(), "y");
    assert_eq!(RunError::Start("z".to_string()).render(), "z");
}

#[test]
fn an_output_concludes_with_the_value_it_encodes() {
    assert_eq!(conclude(Some(encoded(Outside::Undefined))), Ok(JsValue::Undefined));
    assert_eq!(conclude(Some(encoded(Outside::Null))), Ok(JsValue::Null));
    assert_eq!(
        conclude(Some(encoded(Outside::String("héllo".to_string())))),
        Ok(JsValue::String("héllo".to_string()))
    );
    assert_eq!(
        conclude(Some(encoded(Outside::Bytes(vec![1, 2, 3])))),
        Ok(JsValue::Bytes(vec![1, 2, 3]))
    );
    assert_eq!(
        conclude(Some(encoded(Outside::Other("42".to_string())))),
        Ok(JsValue::Other("42".to_string()))
    );
    assert_eq!(
        conclude(Some(encoded(Outside::Exception("boom".to_string())))),
        Ok(JsValue::Exception("boom".to_string()))
    );
    assert_eq!(conclude(Some(vec![0])), Ok(JsValue::Undefined));
    assert_eq!(conclude(Some(vec![1])), Ok(JsValue::Null));
    assert_eq!(conclude(Some(vec![2, 8, b'h', b'i'])), Ok(JsValue::String("hi".to_string())));
    assert_eq!(conclude(Some(vec![3, 4, 7])), Ok(JsValue::Bytes(vec![7])));
}

#[test]
fn an_output_that_does_not_decode_is_a_decoding_failure() {
    assert!(matches!(conclude(Some(vec![])), Err(RunError::Decode(_))));
    assert!(matches!(conclude(Some(vec![6])), Err(RunError::Decode(_))));
    assert!(matches!(conclude(Some(vec![2, 8, b'h'])), Err(RunError::Decode(_))));
    assert!(matches!(conclude(Some(vec![2, 4, 0xff])), Err(RunError::Decode(_))));
}

#[test]
fn a_finished_run_can_be_concluded() {
    let state = run_all(vec![other(), output(&[5, 12, b'a', b'b', b'c'])]);
    let value = match state {
        RunState::Finished(found) => conclude(found),
        _ => panic!("the run should be over"),
    };
    assert_eq!(value, Ok(JsValue::Exception("abc".to_string())));
}
