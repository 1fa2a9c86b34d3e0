use databricks_zerobus_ingest_sdk::ZerobusError;
use std::cell::RefCell;
use std::rc::Rc;
use zerobus_ffi::acks::{AckPoll, AckRegistry, NO_ACK_ID};
use zerobus_ffi::client::{descriptor_from_bytes, poll_task, resolve_joined};
use zerobus_ffi::config::record_type_for;
use zerobus_ffi::headers::{
    collect_headers, guard_entry, headers_or_error, CHeader, CHeaders, CallbackHeadersProvider,
};
use zerobus_ffi::intern::{intern_header_key, HeaderKeyCache};
use zerobus_ffi::outcome::{
    await_outcome, await_reply, has_nul, poll_reply, status_reply, submit_reply,
    write_error_result, CResult, IngestError, AWAIT_FAILED, POLL_FAILED, POLL_PENDING,
};
use databricks_zerobus_ingest_sdk::databricks::zerobus::RecordType;

#[test]
fn ids_start_at_one_and_increase() {
    let mut reg: AckRegistry<i64> = AckRegistry::new();
    let a = reg.submit(10);
    let b = reg.submit(20);
    assert_eq!(reg.take(a), Some(10));
    let c = reg.submit(30);
    assert_eq!((a, b, c), (1, 2, 3));
    assert_ne!(a, NO_ACK_ID);
    assert!(reg.can_issue());
}

#[test]
fn three_submissions_awaited_out_of_order() {
    let mut reg: AckRegistry<i64> = AckRegistry::new();
    let ids = [reg.submit(100), reg.submit(200), reg.submit(300)];
    assert_eq!(ids, [1, 2, 3]);
    let second = await_outcome(reg.take(2).map(Ok));
    assert!(matches!(second, Ok(200)));
    let again = await_outcome(reg.take(2).map(Ok));
    assert!(matches!(again, Err(IngestError::InvalidAckId)));
    assert!(matches!(await_outcome(reg.take(1).map(Ok)), Ok(100)));
    assert!(matches!(await_outcome(reg.take(3).map(Ok)), Ok(300)));
}

#[test]
fn unissued_id_is_invalid_every_time() {
    let mut reg: AckRegistry<i64> = AckRegistry::new();
    reg.submit(5);
    for _ in 0..3 {
        assert!(reg.take(0).is_none());
        assert!(reg.take(7).is_none());
        assert!(matches!(reg.try_poll(7, |_| true), AckPoll::Invalid));
    }
    assert!(reg.contains(1));
}

#[test]
fn poll_leaves_pending_entry_in_place() {
    let mut reg: AckRegistry<i64> = AckRegistry::new();
    let id = reg.submit(42);
    assert!(matches!(reg.try_poll(id, |_| false), AckPoll::Pending));
    assert!(reg.contains(id));
    assert!(matches!(reg.try_poll(id, |_| false), AckPoll::Pending));
    assert_eq!(reg.take(id), Some(42));
}

#[test]
fn poll_of_finished_entry_removes_it() {
    let mut reg: AckRegistry<i64> = AckRegistry::new();
    let id = reg.submit(42);
    assert!(matches!(reg.try_poll(id, |_| true), AckPoll::Ready(42)));
    assert!(!reg.contains(id));
    assert!(matches!(reg.try_poll(id, |_| true), AckPoll::Invalid));
}

#[test]
fn interning_distinct_names_keeps_both() {
    let mut cache = HeaderKeyCache::new();
    let a = intern_header_key(&mut cache, "A".to_string());
    let b = intern_header_key(&mut cache, "B".to_string());
    let a2 = intern_header_key(&mut cache, "A".to_string());
    assert_eq!(a.as_ptr(), a2.as_ptr());
    assert_ne!(a.as_ptr(), b.as_ptr());
    assert_eq!(cache.len(), 2);
}

#[test]
fn overlapping_headers_call_is_rejected() {
    let slot: Rc<RefCell<Option<Rc<CallbackHeadersProvider<Box<dyn Fn() -> CHeaders>>>>>> =
        Rc::new(RefCell::new(None));
    let inner: Rc<RefCell<Option<bool>>> = Rc::new(RefCell::new(None));
    let (slot2, inner2) = (slot.clone(), inner.clone());
    let callback: Box<dyn Fn() -> CHeaders> = Box::new(move || {
        let provider = slot2.borrow().clone();
        if let Some(p) = provider {
            let nested = p.invoke();
            *inner2.borrow_mut() =
                Some(matches!(nested, Err(IngestError::ConcurrentCallbackInvocation)));
        }
        CHeaders { headers: Vec::new(), error_message: None }
    });
    let provider = Rc::new(CallbackHeadersProvider::new(callback));
    *slot.borrow_mut() = Some(provider.clone());
    assert!(provider.invoke().is_ok());
    assert_eq!(*inner.borrow(), Some(true));
    *slot.borrow_mut() = None;
    assert!(provider.invoke().is_ok());
}

#[test]
fn guard_rejects_when_held() {
    assert!(matches!(guard_entry(true), Err(IngestError::ConcurrentCallbackInvocation)));
    assert!(guard_entry(false).is_ok());
}

#[test]
fn callback_error_becomes_headers_provider_error() {
    let raw = CHeaders { headers: Vec::new(), error_message: Some("no token".to_string()) };
    let err = headers_or_error(raw).unwrap_err();
    assert_eq!(err.message(), "Headers provider error: no token");
    assert!(!err.is_retryable());
}

#[test]
fn empty_header_set_is_not_an_error() {
    let raw = CHeaders { headers: Vec::new(), error_message: None };
    assert_eq!(headers_or_error(raw).unwrap().len(), 0);
}

#[test]
fn headers_skip_null_parts_and_keep_last_value() {
    let raw = vec![
        CHeader { key: Some("a".to_string()), value: Some("1".to_string()) },
        CHeader { key: None, value: Some("x".to_string()) },
        CHeader { key: Some("b".to_string()), value: None },
        CHeader { key: Some("a".to_string()), value: Some("2".to_string()) },
        CHeader { key: Some("c".to_string()), value: Some("3".to_string()) },
    ];
    let mut cache = HeaderKeyCache::new();
    let out = collect_headers(&mut cache, &raw);
    let pairs: Vec<(&str, &str)> = out.iter().map(|(k, v)| (*k, v.as_str())).collect();
    assert_eq!(pairs, vec![("a", "2"), ("c", "3")]);
    assert_eq!(cache.len(), 2);
}

#[test]
fn error_messages_and_retryability() {
    assert_eq!(IngestError::InvalidAckId.message(), "Invalid ack ID");
    assert_eq!(IngestError::TaskFailed.message(), "Task panicked");
    assert_eq!(IngestError::DecodeError("bad".to_string()).message(), "bad");
    let t = IngestError::Transport { message: "down".to_string(), retryable: true };
    assert!(t.is_retryable());
    assert!(!IngestError::InvalidArgument("x".to_string()).is_retryable());
}

#[test]
fn nul_in_message_is_replaced() {
    assert!(has_nul("a\0b"));
    assert!(!has_nul("ab"));
    let mut r = CResult::success();
    write_error_result(&mut r, "bad\0message", false);
    assert_eq!(r.error_message.as_deref(), Some("Error message contains null byte"));
    let mut e = CResult::error(IngestError::InvalidArgument("x\0y".to_string()));
    assert_eq!(e.take_error_message().as_deref(), Some("Unknown error"));
}

#[test]
fn replies_use_their_sentinels() {
    let (id, r) = submit_reply(Ok(7));
    assert_eq!(id, 7);
    assert!(r.success);
    let (id, r) = submit_reply(Err(IngestError::InvalidArgument("Invalid data pointer".to_string())));
    assert_eq!(id, 0);
    assert_eq!(r.error_message.as_deref(), Some("Invalid data pointer"));
    let (offset, r) = await_reply(Ok(12));
    assert_eq!(offset, 12);
    assert!(r.success);
    let (offset, r) = await_reply(Err(IngestError::InvalidAckId));
    assert_eq!(offset, AWAIT_FAILED);
    assert_eq!(r.error_message.as_deref(), Some("Invalid ack ID"));
    let (ok, r) = status_reply(Err(IngestError::Transport { message: "t".to_string(), retryable: true }));
    assert!(!ok);
    assert!(r.is_retryable);
    assert!(status_reply(Ok(())).0);
}

#[test]
fn poll_reply_cases() {
    let (o, ready, r) = poll_reply(AckPoll::Pending);
    assert_eq!((o, ready, r.success), (POLL_PENDING, false, true));
    let (o, ready, r) = poll_reply(AckPoll::Ready(Ok(9)));
    assert_eq!((o, ready, r.success), (9, true, true));
    let (o, ready, r) = poll_reply(AckPoll::Ready(Err(IngestError::TaskFailed)));
    assert_eq!((o, ready, r.success), (POLL_FAILED, true, false));
    assert_eq!(r.error_message.as_deref(), Some("Task panicked"));
    let (o, ready, r) = poll_reply(AckPoll::Invalid);
    assert_eq!((o, ready, r.success), (POLL_FAILED, false, false));
    assert_eq!(r.error_message.as_deref(), Some("Invalid ack ID"));
}

#[test]
fn record_type_codes() {
    assert_eq!(record_type_for(1), RecordType::Proto);
    assert_eq!(record_type_for(2), RecordType::Json);
    assert_eq!(record_type_for(0), RecordType::Unspecified);
    assert_eq!(record_type_for(-3), RecordType::Unspecified);
}

#[test]
fn descriptor_bytes() {
    assert!(matches!(descriptor_from_bytes(&[]), Ok(None)));
    // field 1 (name), length 3, "Row"
    let ok = descriptor_from_bytes(&[0x0a, 0x03, b'R', b'o', b'w']);
    assert!(matches!(ok, Ok(Some(_))));
    let bad = descriptor_from_bytes(&[0x0a, 0x09, b'R']);
    assert!(matches!(bad, Err(IngestError::DecodeError(_))));
}

#[test]
fn client_error_keeps_text_and_class() {
    let e = IngestError::from_zerobus(&ZerobusError::InvalidArgument("Test error".to_string()));
    assert_eq!(e.message(), "Invalid argument: Test error.");
    assert!(!e.is_retryable());
    let c = IngestError::from_zerobus(&ZerobusError::ChannelCreationError("x".to_string()));
    assert!(c.is_retryable());
}

#[test]
fn joined_tasks_resolve() {
    let rt = tokio::runtime::Runtime::new().unwrap();
    let mut reg = AckRegistry::new();
    let ok = reg.submit(rt.spawn(async { Ok::<i64, ZerobusError>(17) }));
    let failed = reg.submit(rt.spawn(async {
        Err::<i64, ZerobusError>(ZerobusError::InvalidArgument("late".to_string()))
    }));
    let panicked = reg.submit(rt.spawn(async {
        if true {
            panic!("task failure");
        }
        Ok::<i64, ZerobusError>(0)
    }));
    let join = |id: u64, reg: &mut AckRegistry<_>| {
        let handle = reg.take(id).unwrap();
        resolve_joined(rt.block_on(handle))
    };
    assert!(matches!(join(ok, &mut reg), Ok(17)));
    assert!(matches!(join(failed, &mut reg), Err(IngestError::Transport { .. })));
    assert!(matches!(join(panicked, &mut reg), Err(IngestError::TaskFailed)));
}

#[test]
fn finished_task_is_polled_ready() {
    let rt = tokio::runtime::Runtime::new().unwrap();
    let mut reg = AckRegistry::new();
    let id = reg.submit(rt.spawn(async { Ok::<i64, ZerobusError>(5) }));
    let mut polled = poll_task(&mut reg, id);
    let mut spins: u32 = 0;
    while matches!(polled, AckPoll::Pending) && spins < 1_000_000 {
        rt.block_on(tokio::task::yield_now());
        polled = poll_task(&mut reg, id);
        spins += 1;
    }
    match polled {
        AckPoll::Ready(handle) => assert!(matches!(resolve_joined(rt.block_on(handle)), Ok(5))),
        _ => panic!("task did not finish"),
    }
    assert!(matches!(poll_task(&mut reg, id), AckPoll::Invalid));
}

#[test]
fn default_config_values() {
    let c = zerobus_ffi::config::zerobus_get_default_config();
    assert_eq!(c.max_inflight_requests, 1_000_000);
    assert!(c.recovery);
    assert_eq!(c.recovery_timeout_ms, 15_000);
    assert_eq!(c.recovery_backoff_ms, 2_000);
    assert_eq!(c.recovery_retries, 4);
    assert_eq!(c.server_lack_of_ack_timeout_ms, 60_000);
    assert_eq!(c.flush_timeout_ms, 300_000);
    assert_eq!(c.record_type, 1);
}

#[test]
fn failed_ack_keeps_client_error_text() {
    let joined = Ok(Err(ZerobusError::InvalidArgument("late".to_string())));
    match resolve_joined(joined) {
        Err(IngestError::Transport { message, retryable }) => {
            assert_eq!(message, "Invalid argument: late.");
            assert!(!retryable);
        }
        _ => panic!("expected a client error"),
    }
}
