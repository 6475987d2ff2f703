use thetadatadx_ffi_core::batches::{
    batches_open_params, dropped_count, next_ipc_result, schema_ipc_result, Backpressure, BatchReaderParams,
    PullOutcome, THETADATADX_BACKPRESSURE_BLOCK, THETADATADX_BACKPRESSURE_DROP_OLDEST,
};
use thetadatadx_ffi_core::codes::THETADATADX_ERR_STREAM;
use thetadatadx_ffi_core::error_slot::LastError;
use thetadatadx_ffi_core::sdk_error::{SdkError, SdkErrorKind, StreamErrorKind};

fn last_error(slot: &LastError) -> Option<String> {
    slot.message().map(|m| String::from_utf8(m.clone()).unwrap())
}

#[test]
fn null_handle_is_a_safe_no_op_on_every_entry_point() {
    let mut slot = LastError::new();
    assert_eq!(dropped_count(&mut slot, None), 0);
    assert_eq!(next_ipc_result(&mut slot, true, false, PullOutcome::End), (-1, None));
    assert_eq!(schema_ipc_result(&mut slot, true, false, Ok(vec![1])), (-1, None));
    assert_eq!(last_error(&slot).as_deref(), Some("stream handle is null"));
    assert_eq!(next_ipc_result(&mut slot, false, false, PullOutcome::End), (-1, None));
    assert_eq!(last_error(&slot).as_deref(), Some("out pointer is null"));
}

#[test]
fn open_clamps_sizes_and_checks_the_selector() {
    let mut slot = LastError::new();
    assert_eq!(
        batches_open_params(&mut slot, true, 0, 250, THETADATADX_BACKPRESSURE_BLOCK, 0),
        Some(BatchReaderParams { batch_size: 1, linger_ms: 250, backpressure: Backpressure::Block })
    );
    assert_eq!(
        batches_open_params(&mut slot, true, 512, 10, THETADATADX_BACKPRESSURE_DROP_OLDEST, 0),
        Some(BatchReaderParams { batch_size: 512, linger_ms: 10, backpressure: Backpressure::DropOldest { capacity: 1 } })
    );
    assert!(last_error(&slot).is_none());
    assert!(batches_open_params(&mut slot, true, 512, 10, 7, 4).is_none());
    assert_eq!(last_error(&slot).as_deref(), Some("unknown backpressure value 7; expected 0 (block) or 1 (drop-oldest)"));
    assert!(batches_open_params(&mut slot, true, 512, 10, -2, 4).is_none());
    assert_eq!(last_error(&slot).as_deref(), Some("unknown backpressure value -2; expected 0 (block) or 1 (drop-oldest)"));
    assert!(batches_open_params(&mut slot, false, 512, 10, 0, 4).is_none());
    assert_eq!(last_error(&slot).as_deref(), Some("client handle is null"));
}

#[test]
fn pulls_report_batches_end_and_failures() {
    let mut slot = LastError::new();
    assert_eq!(next_ipc_result(&mut slot, true, true, PullOutcome::Batch(Ok(vec![9, 9]))), (0, Some(vec![9, 9])));
    assert_eq!(next_ipc_result(&mut slot, true, true, PullOutcome::End), (1, None));
    assert!(last_error(&slot).is_none());
    assert_eq!(next_ipc_result(&mut slot, true, true, PullOutcome::Batch(Err(b"ipc write failed".to_vec()))), (-1, None));
    assert_eq!(last_error(&slot).as_deref(), Some("ipc write failed"));
    let e = SdkError { kind: SdkErrorKind::Stream(StreamErrorKind::ProtocolError), message: b"bad frame".to_vec(), retry_after_ms: None };
    assert_eq!(next_ipc_result(&mut slot, true, true, PullOutcome::Failed(e)), (-1, None));
    assert_eq!(slot.code(), THETADATADX_ERR_STREAM);
    assert_eq!(schema_ipc_result(&mut slot, true, true, Ok(vec![4])), (0, Some(vec![4])));
    assert_eq!(dropped_count(&mut slot, Some(3)), 3);
}
