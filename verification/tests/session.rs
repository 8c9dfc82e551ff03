//! The per-call protocol: capture, length queries, bounded copies, result
//! delivery, and outcome classification.

use quickjs_sandbox::errors::{ExecutionError, ResourceLimitError};
use quickjs_sandbox::memory::MemoryTracker;
use quickjs_sandbox::time::arm_time_budget;
use quickjs_sandbox::{GuestRegion, RunStatus, Session, TimeLimit};

fn completed() -> RunStatus {
    RunStatus {
        completed: true,
        time_exhausted: false,
        memory_refused: false,
        trap_message: String::new(),
    }
}

fn trapped(message: &str) -> RunStatus {
    RunStatus {
        completed: false,
        time_exhausted: false,
        memory_refused: false,
        trap_message: message.to_string(),
    }
}

#[test]
fn session_sizes() {
    let mut session = Session::new("'a' + 'b'", None).unwrap();
    assert_eq!(session.script_size(), 9);
    assert_eq!(session.data_size(), 0);
    assert_eq!(session.script_bytes().as_slice(), b"'a' + 'b'");
    assert!(session.data_bytes().is_empty());
}

#[test]
fn successful_delivery_yields_result_text() {
    // The protocol shape of evaluating "'a' + 'b'": the guest computes and
    // delivers the JSON string "ab"; the caller sees exactly that text.
    let mut session = Session::new("'a' + 'b'", None).unwrap();
    assert!(session.deliver(b"\"ab\"".to_vec(), false).is_ok());
    let result = session.collect(&completed());
    assert_eq!(result, Ok(Some("\"ab\"".to_string())));
}

#[test]
fn data_payload_is_captured_and_counted() {
    // The protocol shape of "'a' + data.input" with {"input":"b"}: the
    // payload crosses the boundary verbatim and the outcome is the guest's
    // delivered JSON string "ab".
    let data = r#"{"input": "b"}"#;
    let mut session = Session::new("'a' + data.input", Some(data)).unwrap();
    assert_eq!(session.data_size(), 14);
    assert_eq!(session.data_bytes().as_slice(), data.as_bytes());
    assert!(session.deliver(b"\"ab\"".to_vec(), false).is_ok());
    assert_eq!(session.collect(&completed()), Ok(Some("\"ab\"".to_string())));
}

#[test]
fn invalid_json_payload_rejected() {
    let result = Session::new("'a'", Some("{not json"));
    assert!(matches!(result, Err(ExecutionError::Transcoding(_))));
}

#[test]
fn valid_json_payload_accepted() {
    assert!(Session::new("'a'", Some("[1, 2, null]")).is_ok());
    assert!(Session::new("'a'", Some("\"just a string\"")).is_ok());
}

#[test]
fn error_delivery_becomes_script_error() {
    // The protocol shape of "throw new Error('x')": the guest delivers its
    // own description with the error flag set; the caller sees a script
    // error carrying that description.
    let mut session = Session::new("throw new Error('x')", None).unwrap();
    assert!(session.deliver(b"Uncaught Error: x".to_vec(), true).is_ok());
    match session.collect(&completed()) {
        Err(ExecutionError::Script(message)) => assert!(message.contains("x")),
        other => panic!("expected a script error, got {:?}", other),
    }
}

#[test]
fn empty_delivery_is_no_output() {
    let mut session = Session::new("1;", None).unwrap();
    assert!(session.deliver(Vec::new(), false).is_ok());
    assert_eq!(session.collect(&completed()), Ok(None));
}

#[test]
fn second_delivery_is_refused_and_faults_the_call() {
    let mut session = Session::new("'a'", None).unwrap();
    assert!(session.deliver(b"\"a\"".to_vec(), false).is_ok());
    let second = session.deliver(b"\"b\"".to_vec(), false);
    assert!(matches!(second, Err(ExecutionError::GuestFault(_))));
    // The recorded fault takes precedence over the first outcome.
    match session.collect(&completed()) {
        Err(ExecutionError::GuestFault(message)) => {
            assert!(message.contains("more than once"));
        }
        other => panic!("expected a guest fault, got {:?}", other),
    }
}

#[test]
fn invalid_utf8_delivery_is_a_transcoding_error() {
    let mut session = Session::new("'a'", None).unwrap();
    let reply = session.deliver(vec![0xff, 0xfe, 0x01], false);
    assert!(matches!(reply, Err(ExecutionError::Transcoding(_))));
    assert!(matches!(
        session.collect(&completed()),
        Err(ExecutionError::Transcoding(_))
    ));
}

#[test]
fn completion_without_delivery_is_a_guest_fault() {
    let session = Session::new("'a'", None).unwrap();
    match session.collect(&completed()) {
        Err(ExecutionError::GuestFault(message)) => {
            assert!(message.contains("without delivering"));
        }
        other => panic!("expected a guest fault, got {:?}", other),
    }
}

#[test]
fn trap_without_cause_is_a_guest_fault_with_the_trap_message() {
    let session = Session::new("'a'", None).unwrap();
    match session.collect(&trapped("unreachable instruction")) {
        Err(ExecutionError::GuestFault(message)) => {
            assert_eq!(message, "unreachable instruction");
        }
        other => panic!("expected a guest fault, got {:?}", other),
    }
}

#[test]
fn refused_growth_classifies_as_out_of_memory() {
    // A low ceiling: a growth request above it is refused, and the aborted
    // call is classified as out of memory — structurally, not by message.
    let mut tracker = MemoryTracker::new(Some(4194304));
    assert!(tracker.on_grow(4194304));
    assert!(!tracker.on_grow(4194305));
    assert!(tracker.was_refused());

    let session = Session::new("grow forever", None).unwrap();
    let status = RunStatus {
        completed: false,
        time_exhausted: false,
        memory_refused: tracker.was_refused(),
        trap_message: "out of memory".to_string(),
    };
    assert_eq!(
        session.collect(&status),
        Err(ExecutionError::ResourceLimit(ResourceLimitError::OutOfMemory))
    );
}

#[test]
fn high_ceiling_allows_growth_and_success() {
    // The same growth under a high ceiling is allowed and the call
    // completes normally.
    let mut tracker = MemoryTracker::new(Some(u32::MAX));
    assert!(tracker.on_grow(4194305));
    assert!(!tracker.was_refused());

    let mut session = Session::new("grow a little", None).unwrap();
    assert!(session.deliver(b"\"done\"".to_vec(), false).is_ok());
    let status = RunStatus {
        completed: true,
        time_exhausted: false,
        memory_refused: tracker.was_refused(),
        trap_message: String::new(),
    };
    assert_eq!(session.collect(&status), Ok(Some("\"done\"".to_string())));
}

#[test]
fn unlimited_tracker_never_refuses() {
    let mut tracker = MemoryTracker::new(None);
    assert!(tracker.on_grow(u64::MAX));
    assert!(!tracker.was_refused());
}

#[test]
fn exhausted_budget_classifies_as_time_limit_exceeded() {
    // A 2 s ceiling polled every 100 ms affords 20 ticks; the 21st
    // checkpoint aborts the call, and the abort is classified as a time
    // limit, structurally.
    let limit = TimeLimit::new(2_000_000).with_evaluation_interval(100_000);
    let mut budget = arm_time_budget(&limit).unwrap();
    for _ in 0..20 {
        assert_eq!(budget.on_deadline(), Ok(1));
    }
    assert_eq!(
        budget.on_deadline(),
        Err(ExecutionError::ResourceLimit(ResourceLimitError::TimeLimitExceeded))
    );
    assert!(budget.was_exhausted());

    let session = Session::new("busy wait", None).unwrap();
    let status = RunStatus {
        completed: false,
        time_exhausted: budget.was_exhausted(),
        memory_refused: false,
        trap_message: "epoch deadline reached".to_string(),
    };
    assert_eq!(
        session.collect(&status),
        Err(ExecutionError::ResourceLimit(ResourceLimitError::TimeLimitExceeded))
    );
}

#[test]
fn ample_budget_outlives_a_short_run() {
    // A ceiling longer than the run: fewer checkpoints than ticks, so the
    // budget survives and the call completes.
    let limit = TimeLimit::new(2_000_000).with_evaluation_interval(100_000);
    let mut budget = arm_time_budget(&limit).unwrap();
    for _ in 0..5 {
        assert_eq!(budget.on_deadline(), Ok(1));
    }
    assert!(!budget.was_exhausted());

    let mut session = Session::new("quick script", None).unwrap();
    assert!(session.deliver(b"\"ok\"".to_vec(), false).is_ok());
    assert_eq!(session.collect(&completed()), Ok(Some("\"ok\"".to_string())));
}

#[test]
fn identical_calls_produce_identical_outcomes() {
    // Idempotence: two sessions from the same script and data, driven by
    // the same guest behaviour, end in the same outcome — no state leaks
    // from the first call into the second.
    let script = "'a' + data.input";
    let data = r#"{"input": "b"}"#;

    let mut first = Session::new(script, Some(data)).unwrap();
    assert!(first.deliver(b"\"ab\"".to_vec(), false).is_ok());
    let first_outcome = first.collect(&completed());

    let mut second = Session::new(script, Some(data)).unwrap();
    assert!(second.deliver(b"\"ab\"".to_vec(), false).is_ok());
    let second_outcome = second.collect(&completed());

    assert_eq!(first_outcome, second_outcome);
    assert_eq!(first_outcome, Ok(Some("\"ab\"".to_string())));
}

#[test]
fn script_copy_lands_at_the_guest_offset() {
    let mut session = Session::new("'a' + 'b'", None).unwrap();
    let mut region = GuestRegion::new(64);
    assert!(session.copy_script_to(&mut region, 16).is_ok());
    let copied = region.read_at(16, 9).unwrap();
    assert_eq!(copied.as_slice(), b"'a' + 'b'");
    // Bytes outside the written window are untouched.
    assert_eq!(region.read_at(0, 16).unwrap(), vec![0u8; 16]);
}

#[test]
fn data_copy_lands_at_the_guest_offset() {
    let data = r#"{"input": "b"}"#;
    let mut session = Session::new("'a' + data.input", Some(data)).unwrap();
    let mut region = GuestRegion::new(32);
    assert!(session.copy_data_to(&mut region, 4).is_ok());
    assert_eq!(region.read_at(4, 14).unwrap().as_slice(), data.as_bytes());
}

#[test]
fn entry_point_after_delivery_faults_the_call() {
    // Result delivery must be the last host interaction of a call: a later
    // entry point is a contract violation that supersedes the outcome.
    let mut session = Session::new("'a'", None).unwrap();
    assert!(session.deliver(b"\"a\"".to_vec(), false).is_ok());
    assert_eq!(session.script_size(), 3);
    match session.collect(&completed()) {
        Err(ExecutionError::GuestFault(message)) => {
            assert!(message.contains("after result delivery"));
        }
        other => panic!("expected a guest fault, got {:?}", other),
    }
}

#[test]
fn copy_after_delivery_is_refused() {
    let mut session = Session::new("'a' + 'b'", None).unwrap();
    assert!(session.deliver(b"\"ab\"".to_vec(), false).is_ok());
    let mut region = GuestRegion::new(64);
    assert!(matches!(
        session.copy_script_to(&mut region, 0),
        Err(ExecutionError::GuestFault(_))
    ));
    // The region is untouched by the refused copy.
    assert_eq!(region.read_at(0, 64).unwrap(), vec![0u8; 64]);
}

#[test]
fn script_copy_past_capacity_fails_cleanly() {
    let mut session = Session::new("'a' + 'b'", None).unwrap();
    let mut region = GuestRegion::new(8);
    // Nine bytes cannot land at offset zero of an eight-byte region.
    assert!(session.copy_script_to(&mut region, 0).is_err());
    // The region is unchanged.
    assert_eq!(region.read_at(0, 8).unwrap(), vec![0u8; 8]);
}
