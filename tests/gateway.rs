use llm_gateway::errors::{settle_reply, GatewayError};
use llm_gateway::observer::FirstChunkObserver;
use llm_gateway::relay::{
    build_relay_head, decimal_bytes, is_text_header_value,
    relay_head_for, upstream_content_type, RelayHead,
};
use llm_gateway::types::{ChatReq, ErrResp, Message};
use llm_gateway::upstream::completions_url;
use llm_gateway::worker::{InferenceCommand, InferenceWorker, ReplyOutcome, WorkerStep};

fn req(model: &str, stream: bool) -> ChatReq {
    ChatReq {
        model: model.to_string(),
        messages: vec![Message { role: "user".to_string(), content: "hi".to_string() }],
        stream,
        max_tokens: None,
    }
}

fn header<'a>(h: &'a RelayHead, name: &str) -> Option<&'a [u8]> {
    h.headers.iter().find(|f| f.name == name).map(|f| f.value.as_slice())
}

fn names(h: &RelayHead) -> Vec<String> {
    h.headers.iter().map(|f| f.name.clone()).collect()
}

#[test]
fn url_trailing_slash_normalized() {
    assert_eq!(completions_url("http://x/"), "http://x/v1/chat/completions");
    assert_eq!(completions_url("http://x"), "http://x/v1/chat/completions");
}

#[test]
fn url_many_trailing_slashes_and_default_base() {
    assert_eq!(completions_url("http://x///"), "http://x/v1/chat/completions");
    assert_eq!(
        completions_url("http://localhost:11434"),
        "http://localhost:11434/v1/chat/completions"
    );
    assert_eq!(completions_url(""), "/v1/chat/completions");
    assert_eq!(completions_url("/"), "/v1/chat/completions");
}

#[test]
fn decimal_bytes_exact() {
    assert_eq!(decimal_bytes(0), b"0".to_vec());
    assert_eq!(decimal_bytes(7), b"7".to_vec());
    assert_eq!(decimal_bytes(1700000000123), b"1700000000123".to_vec());
    assert_eq!(decimal_bytes(u128::MAX), u128::MAX.to_string().into_bytes());
}

#[test]
fn buffered_relay_keeps_non_2xx_status() {
    let ct = b"application/json".to_vec();
    let h = build_relay_head(429, &ct, false, 1234).ok().unwrap();
    assert_eq!(h.status, 429);
    assert!(!h.streaming);
    assert_eq!(names(&h), vec!["x-rid", "x-gateway", "content-type", "cache-control"]);
    assert_eq!(header(&h, "x-rid"), Some(&b"1234"[..]));
    assert_eq!(header(&h, "x-gateway"), Some(&b"openai-llm-gateway"[..]));
    assert_eq!(header(&h, "content-type"), Some(&b"application/json"[..]));
    assert_eq!(header(&h, "cache-control"), Some(&b"no-cache"[..]));
    assert_eq!(header(&h, "connection"), None);
}

#[test]
fn buffered_relay_status_200_and_500() {
    let ct = b"text/plain".to_vec();
    assert_eq!(build_relay_head(200, &ct, false, 1).ok().unwrap().status, 200);
    assert_eq!(build_relay_head(500, &ct, false, 1).ok().unwrap().status, 500);
}

#[test]
fn streamed_relay_headers() {
    let ct = b"application/json".to_vec();
    let h = build_relay_head(200, &ct, true, 99).ok().unwrap();
    assert!(h.streaming);
    assert_eq!(
        names(&h),
        vec!["x-rid", "x-gateway", "content-type", "cache-control", "connection"]
    );
    assert_eq!(header(&h, "content-type"), Some(&b"text/event-stream"[..]));
    assert_eq!(header(&h, "connection"), Some(&b"keep-alive"[..]));
}

#[test]
fn rid_header_parses_as_integer() {
    for &stream in &[false, true] {
        for &rid in &[0u128, 5, 1_700_000_000_000] {
            let h = build_relay_head(200, &b"a/b".to_vec(), stream, rid).ok().unwrap();
            let v = std::str::from_utf8(header(&h, "x-rid").unwrap()).unwrap();
            assert_eq!(v.parse::<u128>().unwrap(), rid);
        }
    }
}

#[test]
fn invalid_content_type_is_an_error() {
    let ct = vec![b'a', 0x7f, b'b'];
    let r = build_relay_head(200, &ct, false, 1);
    assert!(matches!(r, Err(GatewayError::HeaderConstructionError)));
    let r = build_relay_head(200, &vec![b'x', 10], true, 1);
    assert!(matches!(r, Err(GatewayError::HeaderConstructionError)));
}

#[test]
fn text_header_value_rules() {
    assert!(is_text_header_value(&b"text/html; charset=utf-8".to_vec()));
    assert!(!is_text_header_value(&vec![b'a', 13]));
    assert!(!is_text_header_value(&vec![b'a', 0x7f]));
    assert!(is_text_header_value(&vec![b'a', 9, b' ']));
    assert!(!is_text_header_value(&vec![b'a', 0xe9]));
}

#[test]
fn non_ascii_content_type_is_an_error() {
    let r = relay_head_for(200, Some(vec![b't', 0xe9]), false, 42);
    assert!(matches!(r, Err(GatewayError::HeaderConstructionError)));
    let r = relay_head_for(200, Some(vec![0xff]), true, 42);
    assert!(matches!(r, Err(GatewayError::HeaderConstructionError)));
    let r = build_relay_head(200, &vec![b'a', 0xe9], false, 1);
    assert!(matches!(r, Err(GatewayError::HeaderConstructionError)));
}

#[test]
fn content_type_defaults_to_json() {
    assert_eq!(upstream_content_type(None), b"application/json".to_vec());
    assert_eq!(upstream_content_type(Some(vec![0xff, b'x'])), vec![0xff, b'x']);
    assert_eq!(upstream_content_type(Some(b"text/plain".to_vec())), b"text/plain".to_vec());
}

#[test]
fn relay_head_for_upstream_answer() {
    let h = relay_head_for(404, Some(b"text/plain".to_vec()), false, 42).ok().unwrap();
    assert_eq!(h.status, 404);
    assert_eq!(header(&h, "content-type"), Some(&b"text/plain"[..]));
    let h = relay_head_for(200, None, false, 42).ok().unwrap();
    assert_eq!(header(&h, "content-type"), Some(&b"application/json"[..]));
    let h = relay_head_for(200, Some(b"text/plain".to_vec()), true, 42).ok().unwrap();
    assert_eq!(header(&h, "content-type"), Some(&b"text/event-stream"[..]));
}

fn records(chunks: usize) -> usize {
    let mut obs = FirstChunkObserver::new(7);
    let mut n = 0;
    for i in 0..chunks {
        if obs.observe(i + 1, i as u128).is_some() {
            n += 1;
        }
    }
    n
}

#[test]
fn ttft_fires_once_per_stream() {
    assert_eq!(records(0), 0);
    assert_eq!(records(1), 1);
    assert_eq!(records(50), 1);
}

#[test]
fn ttft_record_holds_first_chunk() {
    let mut obs = FirstChunkObserver::new(31);
    assert!(!obs.has_fired());
    let e = obs.observe(12, 340).unwrap();
    assert_eq!((e.rid, e.ttft_ms, e.first_chunk_bytes), (31, 340, 12));
    assert!(obs.has_fired());
    assert!(obs.observe(99, 400).is_none());
}

#[test]
fn worker_forwards_in_submission_order() {
    let mut w = InferenceWorker::new("http://up/".to_string());
    let mut seen = Vec::new();
    for (i, m) in ["a", "b", "c"].iter().enumerate() {
        match w.next_step(Some(InferenceCommand::Chat { req: req(m, false), response_tx: i })) {
            WorkerStep::Forward(job) => {
                assert_eq!(job.url, "http://up/v1/chat/completions");
                assert_eq!(job.response_tx, i);
                seen.push(job.req.model.clone());
            }
            WorkerStep::Stop => panic!("worker stopped"),
        }
        assert!(matches!(w.finish(true), ReplyOutcome::Delivered));
    }
    assert_eq!(seen, vec!["a", "b", "c"]);
    assert!(w.is_running());
}

#[test]
fn worker_stops_on_shutdown_leaving_queue() {
    let mut queue: std::collections::VecDeque<InferenceCommand<u8>> =
        std::collections::VecDeque::new();
    queue.push_back(InferenceCommand::Chat { req: req("a", false), response_tx: 0 });
    queue.push_back(InferenceCommand::Shutdown);
    queue.push_back(InferenceCommand::Chat { req: req("b", false), response_tx: 1 });
    let mut w = InferenceWorker::new("http://up".to_string());
    let mut forwarded = Vec::new();
    while w.is_running() {
        match w.next_step(queue.pop_front()) {
            WorkerStep::Forward(job) => {
                forwarded.push(job.req.model.clone());
                w.finish(true);
            }
            WorkerStep::Stop => {}
        }
    }
    assert_eq!(forwarded, vec!["a"]);
    assert_eq!(queue.len(), 1);
}

#[test]
fn worker_stops_when_queue_closes() {
    let mut w = InferenceWorker::new("http://up".to_string());
    assert!(matches!(w.next_step::<u8>(None), WorkerStep::Stop));
    assert!(!w.is_running());
}

#[test]
fn worker_goes_on_after_caller_gone() {
    let mut w = InferenceWorker::new("http://up".to_string());
    let step = w.next_step(Some(InferenceCommand::Chat { req: req("a", true), response_tx: () }));
    assert!(matches!(step, WorkerStep::Forward(_)));
    assert!(matches!(w.finish(false), ReplyOutcome::CallerGone));
    assert!(w.is_running());
    let step = w.next_step(Some(InferenceCommand::Chat { req: req("b", true), response_tx: () }));
    match step {
        WorkerStep::Forward(job) => assert_eq!(job.req.model, "b"),
        WorkerStep::Stop => panic!("worker stopped"),
    }
}

#[test]
fn error_messages_and_status() {
    let e = GatewayError::UpstreamUnreachable("connection refused".to_string());
    assert_eq!(
        e.message(),
        "Worker failed to handle request: Upstream request failed: connection refused"
    );
    assert_eq!(e.status(), 500);
    let e = GatewayError::QueueUnavailable("channel closed".to_string());
    assert_eq!(e.message(), "Failed to send command to worker: channel closed");
    assert_eq!(GatewayError::WorkerUnreachable.message(), "Worker response channel closed");
    let e = GatewayError::UpstreamBodyReadError("eof".to_string());
    assert_eq!(
        e.message(),
        "Worker failed to handle request: Failed to read response bytes: eof"
    );
    assert_eq!(
        GatewayError::HeaderConstructionError.message(),
        "Worker failed to handle request: invalid header value"
    );
    let body = ErrResp::from_error(&GatewayError::WorkerUnreachable);
    assert_eq!(body.error, "Worker response channel closed");
}

#[test]
fn reply_channel_outcomes() {
    assert!(matches!(settle_reply::<u8>(None), Err(GatewayError::WorkerUnreachable)));
    assert!(matches!(settle_reply::<u8>(Some(Ok(3))), Ok(3)));
    assert!(matches!(
        settle_reply::<u8>(Some(Err(GatewayError::HeaderConstructionError))),
        Err(GatewayError::HeaderConstructionError)
    ));
}
