use hub::classify::{is_ipc_not_ready_error, should_retry_on_error, MAX_RETRIES};
use hub::forward::{internal_get_outcome, Method, RequestSession, SendFailure};
use hub::gate::MutationGate;
use hub::pool::{peek_means_alive, PeekOutcome};
use hub::pool::{ConnectionPool, IDLE_TIMEOUT_MS, MAX_POOL_SIZE};
use hub::signals::{
    IpcDeleteRequest, IpcGetRequest, IpcLogData, IpcPatchRequest, IpcPostRequest, IpcPutRequest,
    IpcResponse, IpcTrafficData, StreamResult,
};
use hub::stream::{cleanup_all_network_resources, StreamKind, StreamRegistry};
use hub::text::{contains_text, decimal_text};

fn alive(_: &u32) -> bool {
    true
}

#[test]
fn substring_search() {
    assert!(contains_text("abc os error 111 xyz", "os error 111"));
    assert!(contains_text("abc", ""));
    assert!(!contains_text("ab", "abc"));
    assert!(!contains_text("Broken pip", "Broken pipe"));
    assert!(contains_text("拒绝连接 (x)", "拒绝连接"));
}

#[test]
fn decimal_formatting() {
    assert_eq!(decimal_text(0), "0");
    assert_eq!(decimal_text(7), "7");
    assert_eq!(decimal_text(404), "404");
    assert_eq!(decimal_text(18446744073709551615), "18446744073709551615");
}

#[test]
fn not_ready_signatures() {
    assert!(is_ipc_not_ready_error("Connection refused (os error 111)"));
    assert!(is_ipc_not_ready_error("系统找不到指定的文件。 (os error 2)"));
    assert!(is_ipc_not_ready_error("os error 61"));
    assert!(is_ipc_not_ready_error("拒绝连接"));
    assert!(!is_ipc_not_ready_error("Broken pipe (os error 32)"));
    assert!(!is_ipc_not_ready_error("timed out"));
}

#[test]
fn retry_classification() {
    assert!(should_retry_on_error("Broken pipe (os error 32)", 0, MAX_RETRIES));
    assert!(should_retry_on_error("os error 104", 1, MAX_RETRIES));
    assert!(!should_retry_on_error("os error 104", 2, MAX_RETRIES));
    assert!(!should_retry_on_error("Connection refused (os error 111)", 0, MAX_RETRIES));
    assert!(!should_retry_on_error("malformed reply", 0, MAX_RETRIES));
}

#[test]
fn pool_reuses_front_first() {
    let mut pool: ConnectionPool<u32> = ConnectionPool::new();
    assert!(pool.release(1, 1000));
    assert!(pool.release(2, 1000));
    assert_eq!(pool.acquire(1100, &alive), Some(1));
    assert_eq!(pool.len(), 1);
    assert_eq!(pool.acquire(1100, &alive), Some(2));
    assert_eq!(pool.acquire(1100, &alive), None);
}

#[test]
fn pool_never_exceeds_capacity() {
    let mut pool: ConnectionPool<u32> = ConnectionPool::new();
    for i in 0..(MAX_POOL_SIZE as u32) {
        assert!(pool.release(i, 0));
    }
    assert_eq!(pool.len(), MAX_POOL_SIZE);
    assert!(!pool.release(9999, 0));
    assert_eq!(pool.len(), MAX_POOL_SIZE);
    assert_eq!(pool.acquire(10, &alive), Some(0));
    assert!(pool.release(7777, 10));
    assert_eq!(pool.len(), MAX_POOL_SIZE);
}

#[test]
fn stale_connection_is_not_reused() {
    let mut pool: ConnectionPool<u32> = ConnectionPool::new();
    pool.release(1, 0);
    pool.release(2, 400);
    // at 500 ms the first entry has reached the idle threshold
    assert_eq!(pool.acquire(IDLE_TIMEOUT_MS, &alive), Some(2));
    assert_eq!(pool.len(), 0);
    pool.release(3, 0);
    assert_eq!(pool.acquire(10_000, &alive), None);
    assert_eq!(pool.len(), 0);
}

#[test]
fn dead_connection_is_skipped() {
    let mut pool: ConnectionPool<u32> = ConnectionPool::new();
    pool.release(1, 0);
    pool.release(2, 0);
    pool.release(3, 0);
    let odd = |c: &u32| *c % 2 == 1;
    assert_eq!(pool.acquire(5, &odd), Some(1));
    let not_two = |c: &u32| *c != 2;
    assert_eq!(pool.acquire(5, &not_two), Some(3));
    assert_eq!(pool.len(), 0);
}

#[test]
fn sweep_keeps_fresh_live_entries_in_order() {
    let mut pool: ConnectionPool<u32> = ConnectionPool::new();
    pool.release(1, 0);
    pool.release(2, 300);
    pool.release(3, 300);
    pool.release(4, 300);
    let not_three = |c: &u32| *c != 3;
    assert_eq!(pool.sweep(600, &not_three), 2);
    assert_eq!(pool.len(), 2);
    assert_eq!(pool.acquire(600, &alive), Some(2));
    assert_eq!(pool.acquire(600, &alive), Some(4));
}

#[test]
fn not_ready_gives_one_attempt() {
    let mut pool: ConnectionPool<u32> = ConnectionPool::new();
    pool.release(5, 0);
    let mut gate = MutationGate::new();
    let mut s = RequestSession::begin(9, Method::Get, 1, &mut gate).unwrap();
    match s.on_send_failed("Connection refused (os error 111)", &mut pool, &mut gate) {
        SendFailure::Done(r) => {
            assert_eq!(r.request_id, 9);
            assert!(!r.success);
            assert_eq!(r.status_code, 0);
            assert_eq!(r.error_message.unwrap(), "IPC 请求失败：Connection refused (os error 111)");
        }
        SendFailure::Retry => panic!("a not-ready error is not retried"),
    }
    assert!(s.finished);
    assert_eq!(s.attempt, 0);
    assert_eq!(pool.len(), 1);
}

#[test]
fn transient_error_gives_three_attempts() {
    let mut pool: ConnectionPool<u32> = ConnectionPool::new();
    let mut gate = MutationGate::new();
    let mut s = RequestSession::begin(3, Method::Post, 1, &mut gate).unwrap();
    let mut attempts = 0;
    let mut flushes = 0;
    loop {
        attempts += 1;
        pool.release(attempts, 0);
        match s.on_send_failed("Broken pipe (os error 32)", &mut pool, &mut gate) {
            SendFailure::Retry => {
                assert_eq!(pool.len(), 0);
                flushes += 1;
            }
            SendFailure::Done(r) => {
                assert!(!r.success);
                break;
            }
        }
    }
    assert_eq!(attempts, 3);
    assert_eq!(flushes, 2);
    assert_eq!(pool.len(), 1);
}

#[test]
fn acquire_failure_ends_request() {
    let mut gate = MutationGate::new();
    let mut s = RequestSession::begin(4, Method::Delete, 1, &mut gate).unwrap();
    let r = s.on_acquire_failed("Broken pipe", &mut gate);
    assert!(s.finished);
    assert_eq!(r.error_message.unwrap(), "获取连接失败：Broken pipe");
    assert_eq!(r.body, "");
}

#[test]
fn get_version_round_trip() {
    let mut pool: ConnectionPool<u32> = ConnectionPool::new();
    let mut gate = MutationGate::new();
    let mut s = RequestSession::begin(42, Method::Get, 1, &mut gate).unwrap();
    let conn = pool.acquire(0, &alive).unwrap_or(100);
    let body = String::from("{\"version\":\"v1.19.0\"}");
    let r: IpcResponse = s.on_reply(200, body.clone(), conn, &mut pool, 0, &mut gate);
    assert_eq!(r.request_id, 42);
    assert_eq!(r.status_code, 200);
    assert_eq!(r.body, body);
    assert!(r.success);
    assert!(r.error_message.is_none());
    assert_eq!(pool.len(), 1);
}

#[test]
fn method_names_and_mutation() {
    assert_eq!(Method::Get.as_str(), "GET");
    assert_eq!(Method::Patch.as_str(), "PATCH");
    assert!(Method::Put.is_mutating());
    assert!(!Method::Post.is_mutating());
    assert!(!Method::Delete.is_mutating());
}

#[test]
fn internal_get_maps_status() {
    assert_eq!(internal_get_outcome(204, "x".to_string()), Ok("x".to_string()));
    assert_eq!(internal_get_outcome(503, "x".to_string()), Err("HTTP 503".to_string()));
    assert_eq!(internal_get_outcome(199, String::new()), Err("HTTP 199".to_string()));
}

#[test]
fn permit_is_exclusive() {
    let mut g = MutationGate::new();
    assert!(g.try_enter(1));
    assert!(!g.try_enter(2));
    assert!(!g.leave(2));
    assert!(!g.try_enter(2));
    assert!(g.leave(1));
    assert!(g.try_enter(2));
    assert_eq!(g.holder, Some(2));
}

#[test]
fn second_start_overwrites_handle() {
    let mut reg = StreamRegistry::new();
    assert!(reg.ensure_client_initialized());
    assert_eq!(reg.record_started(StreamKind::Traffic, 1), None);
    assert!(!reg.ensure_client_initialized());
    assert_eq!(reg.record_started(StreamKind::Traffic, 2), Some(1));
    assert_eq!(reg.traffic, Some(2));
    assert_eq!(reg.stop(StreamKind::Traffic), Some(2));
    assert_eq!(reg.stop(StreamKind::Traffic), None);
}

#[test]
fn failed_start_reports_message() {
    let mut reg = StreamRegistry::new();
    reg.ensure_client_initialized();
    let (r, replaced): (StreamResult, Option<u32>) = reg.finish_start(StreamKind::Logs, Err("refused".to_string()));
    assert_eq!(replaced, None);
    assert!(!r.success);
    assert_eq!(r.error_message, Some("refused".to_string()));
    assert_eq!(reg.logs, None);
    let (r, replaced) = reg.finish_start(StreamKind::Logs, Ok(8));
    assert!(r.success);
    assert_eq!(replaced, None);
    assert_eq!(reg.logs, Some(8));
    let (_, replaced) = reg.finish_start(StreamKind::Logs, Ok(9));
    assert_eq!(replaced, Some(8));
    assert_eq!(reg.logs, Some(9));
    assert_eq!(StreamKind::Logs.path(), "/logs?level=info");
    assert_eq!(StreamKind::Traffic.path(), "/traffic");
}

#[test]
fn cleanup_flushes_pool_and_client() {
    let mut pool: ConnectionPool<u32> = ConnectionPool::new();
    pool.release(1, 0);
    pool.release(2, 0);
    pool.release(3, 0);
    let mut reg = StreamRegistry::new();
    reg.ensure_client_initialized();
    reg.record_started(StreamKind::Traffic, 11);
    assert!(cleanup_all_network_resources(&mut reg, &mut pool));
    assert_eq!(pool.len(), 0);
    assert!(!reg.client_ready);
    assert_eq!(reg.stop(StreamKind::Traffic), None);
}

#[test]
fn stream_messages_decode_with_defaults() {
    let t = IpcTrafficData::from_fields(Some(10), None);
    assert_eq!(t.upload, 10);
    assert_eq!(t.download, 0);
    let l = IpcLogData::from_fields(None, Some("hello".to_string()));
    assert_eq!(l.log_type, "info");
    assert_eq!(l.payload, "hello");
    let l = IpcLogData::from_fields(Some("warning".to_string()), None);
    assert_eq!(l.log_type, "warning");
    assert_eq!(l.payload, "");
}

#[test]
fn requests_become_calls() {
    let c = IpcGetRequest { request_id: 1, path: "/version".to_string() }.into_call();
    assert!(c.request_id == 1 && c.method == Method::Get && c.path == "/version" && c.body.is_none());
    let c = IpcPutRequest { request_id: 2, path: "/configs".to_string(), body: Some("{}".to_string()) }.into_call();
    assert!(c.method == Method::Put && c.body == Some("{}".to_string()));
    let c = IpcPostRequest { request_id: 3, path: "/p".to_string(), body: None }.into_call();
    assert!(c.method == Method::Post && c.request_id == 3);
    let c = IpcPatchRequest { request_id: 4, path: "/q".to_string(), body: Some("x".to_string()) }.into_call();
    assert!(c.method == Method::Patch && c.path == "/q");
    let c = IpcDeleteRequest { request_id: 5, path: "/r".to_string() }.into_call();
    assert!(c.method == Method::Delete && c.body.is_none());
}

#[test]
fn put_holds_permit_across_retries() {
    let mut pool: ConnectionPool<u32> = ConnectionPool::new();
    let mut gate = MutationGate::new();
    let mut a = RequestSession::begin(1, Method::Put, 10, &mut gate).unwrap();
    assert!(a.holds_permit);
    assert_eq!(gate.holder, Some(10));
    assert!(RequestSession::begin(2, Method::Put, 11, &mut gate).is_none());
    assert!(RequestSession::begin(3, Method::Get, 12, &mut gate).is_some());
    match a.on_send_failed("Broken pipe (os error 32)", &mut pool, &mut gate) {
        SendFailure::Retry => {}
        SendFailure::Done(_) => panic!("a transient error is retried"),
    }
    assert!(a.holds_permit);
    assert_eq!(gate.holder, Some(10));
    let r = a.on_reply(200, "ok".to_string(), 5, &mut pool, 0, &mut gate);
    assert!(r.success);
    assert!(!a.holds_permit);
    assert_eq!(gate.holder, None);
    let b = RequestSession::begin(2, Method::Put, 11, &mut gate).unwrap();
    assert!(b.holds_permit);
    assert_eq!(gate.holder, Some(11));
}

#[test]
fn put_gives_permit_back_on_failure() {
    let mut gate = MutationGate::new();
    let mut a = RequestSession::begin(1, Method::Put, 10, &mut gate).unwrap();
    let r = a.on_acquire_failed("os error 2", &mut gate);
    assert_eq!(r.error_message.unwrap(), "获取连接失败：os error 2");
    assert!(!a.holds_permit);
    assert_eq!(gate.holder, None);
}

#[test]
fn peek_outcomes() {
    assert!(!peek_means_alive(PeekOutcome::Read(0)));
    assert!(peek_means_alive(PeekOutcome::Read(1)));
    assert!(peek_means_alive(PeekOutcome::WouldBlock));
    assert!(!peek_means_alive(PeekOutcome::Failed));
}
