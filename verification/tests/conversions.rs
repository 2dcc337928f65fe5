use fory_core::{Config, ReadContext, Reader, TypeResolver, WriteContext};
use fory_envelope::clock::Clock;
use fory_envelope::context::{Context, Instant};
use fory_envelope::envelope::{
    ForyClientMessage, ForyRequest, ForyResponse, ForyResult, ForyServerError, ForyTraceContext,
};
use fory_envelope::error_kind::ErrorKind;
use fory_envelope::message::{ClientMessage, Request, Response, ServerError};
use fory_envelope::trace::{self, SamplingDecision, SpanId, TraceId};
use fory_envelope::wire::WireValue;

fn trace_context() -> trace::Context {
    trace::Context {
        trace_id: TraceId(u128::MAX - 1),
        span_id: SpanId(77),
        sampling_decision: SamplingDecision::Sampled,
    }
}

fn request(deadline: u128) -> Request<String> {
    Request {
        context: Context {
            deadline: Instant { nanos: deadline },
            trace_context: trace_context(),
        },
        id: 7,
        message: "ping".to_string(),
    }
}

fn at(nanos: u128) -> Instant {
    Instant { nanos }
}

#[test]
fn identifiers_are_their_bits() {
    assert_eq!(u128::from(TraceId::from(5u128)), 5);
    assert_eq!(u64::from(SpanId::from(6u64)), 6);
    assert_eq!(TraceId::from(5u128), TraceId(5));
    assert_eq!(SpanId::from(6u64), SpanId(6));
}

#[test]
fn sampling_decisions_are_bytes() {
    assert_eq!(u8::from(SamplingDecision::Sampled), 1);
    assert_eq!(u8::from(SamplingDecision::Unsampled), 0);
    assert_eq!(SamplingDecision::from(1u8), SamplingDecision::Sampled);
    for b in [0u8, 2, 3, 255] {
        assert_eq!(SamplingDecision::from(b), SamplingDecision::Unsampled);
    }
}

#[test]
fn trace_contexts_survive() {
    let packed = ForyTraceContext::from(&trace_context());
    assert_eq!((packed.trace_id, packed.span_id, packed.sampling), (u128::MAX - 1, 77, 1));
    assert_eq!(trace::Context::from(packed), trace_context());
    let unsampled =
        trace::Context { sampling_decision: SamplingDecision::Unsampled, ..trace_context() };
    assert_eq!(ForyTraceContext::from(&unsampled).sampling, 0);
    assert_eq!(trace::Context::from(ForyTraceContext::from(&unsampled)), unsampled);
}

#[test]
fn a_strange_sampling_byte_becomes_zero() {
    let strange = ForyTraceContext { trace_id: 1, span_id: 2, sampling: 9 };
    let tc = trace::Context::from(strange);
    assert_eq!(tc.sampling_decision, SamplingDecision::Unsampled);
    let again = ForyTraceContext::from(&tc);
    assert_eq!((again.trace_id, again.span_id, again.sampling), (1, 2, 0));
}

#[test]
fn server_errors_survive() {
    let e = ServerError { kind: ErrorKind::TimedOut, detail: "late".to_string() };
    let packed = ForyServerError::from(&e);
    assert_eq!((packed.kind, packed.detail.as_str()), (13, "late"));
    let back = ServerError::from(packed);
    assert_eq!((back.kind, back.detail.as_str()), (ErrorKind::TimedOut, "late"));
}

#[test]
fn an_unlisted_kind_comes_back_as_other() {
    let e = ServerError { kind: ErrorKind::Unlisted, detail: "odd".to_string() };
    let back = ServerError::from(ForyServerError::from(&e));
    assert_eq!((back.kind, back.detail.as_str()), (ErrorKind::Other, "odd"));
    let result: Result<u32, ServerError> = Err(e.clone());
    let back = Result::<u32, ServerError>::from(ForyResult::from(result)).unwrap_err();
    assert_eq!((back.kind, back.detail.as_str()), (ErrorKind::Other, "odd"));
    let resp: Response<u32> = Response { request_id: 3, message: Err(e) };
    let back = Response::from(ForyResponse::from(&resp)).message.unwrap_err();
    assert_eq!((back.kind, back.detail.as_str()), (ErrorKind::Other, "odd"));
}

#[test]
fn results_survive() {
    let ok: Result<u32, ServerError> = Ok(5);
    let packed = ForyResult::from(ok);
    assert!(matches!(packed, ForyResult::Success(5)));
    assert!(matches!(Result::<u32, ServerError>::from(packed), Ok(5)));
    let err: Result<u32, ServerError> =
        Err(ServerError { kind: ErrorKind::BrokenPipe, detail: "gone".to_string() });
    let packed = ForyResult::from(err);
    assert!(matches!(&packed, ForyResult::Failure(e) if e.kind == 8 && e.detail == "gone"));
    let back = Result::<u32, ServerError>::from(packed).unwrap_err();
    assert_eq!((back.kind, back.detail.as_str()), (ErrorKind::BrokenPipe, "gone"));
}

#[test]
fn responses_survive() {
    let resp: Response<String> = Response { request_id: 42, message: Ok("pong".to_string()) };
    let packed = ForyResponse::from(&resp);
    assert_eq!(packed.request_id, 42);
    let back = Response::from(packed);
    assert_eq!(back.request_id, 42);
    assert_eq!(back.message.unwrap(), "pong");
    let resp: Response<String> = Response {
        request_id: 43,
        message: Err(ServerError { kind: ErrorKind::NotFound, detail: "what".to_string() }),
    };
    let back = Response::from(ForyResponse::from(&resp));
    assert_eq!(back.request_id, 43);
    let e = back.message.unwrap_err();
    assert_eq!((e.kind, e.detail.as_str()), (ErrorKind::NotFound, "what"));
    // The response itself is left as it was.
    assert!(resp.clone().message.is_err());
}

#[test]
fn a_deadline_travels_as_the_time_that_is_left() {
    assert_eq!(ForyRequest::from_request_at(&request(1000), at(400)).deadline_ns, 600);
    assert_eq!(ForyRequest::from_request_at(&request(1000), at(999)).deadline_ns, 1);
    assert_eq!(ForyRequest::from_request_at(&request(1000), at(1000)).deadline_ns, 0);
    assert_eq!(ForyRequest::from_request_at(&request(1000), at(5000)).deadline_ns, 0);
}

#[test]
fn a_long_deadline_is_cut_to_its_low_bits() {
    let max = u64::MAX as u128;
    assert_eq!(ForyRequest::from_request_at(&request(max), at(0)).deadline_ns, u64::MAX);
    assert_eq!(ForyRequest::from_request_at(&request(max + 1), at(0)).deadline_ns, 0);
    assert_eq!(ForyRequest::from_request_at(&request(max + 6), at(0)).deadline_ns, 5);
    assert_eq!(ForyRequest::from_request_at(&request(3 * (max + 1) + 9), at(2)).deadline_ns, 7);
    assert_eq!(ForyRequest::from_request_at(&request(u128::MAX), at(0)).deadline_ns, u64::MAX);
    assert_eq!(ForyRequest::from_request_at(&request(max + 1), at(1)).deadline_ns, u64::MAX);
    assert_eq!(ForyRequest::from_request_at(&request(max + 1), at(2)).deadline_ns, u64::MAX - 1);
}

#[test]
fn as_time_goes_on_less_is_left() {
    let deadline = at(100);
    let mut last = u64::MAX;
    for now in 0u128..200 {
        let left = deadline.remaining_at(at(now));
        assert!(left <= last);
        assert_eq!(left == 0, now >= 100);
        last = left;
    }
    assert_eq!(at(30).after(12), at(42));
    assert_eq!(at(30).after(12).remaining_at(at(30)), 12);
}

#[test]
fn requests_survive_with_the_time_that_is_left() {
    let packed = ForyRequest::from_request_at(&request(1000), at(400));
    assert_eq!((packed.id, packed.message.as_str()), (7, "ping"));
    // The receiver's clock has nothing to do with the sender's.
    let back = packed.into_request_at(at(1_000_000));
    assert_eq!(back.context.deadline, at(1_000_600));
    assert_eq!(back.context.trace_context, trace_context());
    assert_eq!((back.id, back.message.as_str()), (7, "ping"));
    // Without a delay and on one clock the deadline is the same.
    let back = ForyRequest::from_request_at(&request(1000), at(400)).into_request_at(at(400));
    assert_eq!(back.context.deadline, at(1000));
    // An expired request is due when it is taken in.
    let back = ForyRequest::from_request_at(&request(1000), at(2000)).into_request_at(at(9));
    assert_eq!(back.context.deadline, at(9));
}

#[test]
fn client_messages_survive() {
    let msg = ClientMessage::Request(request(1000));
    match ForyClientMessage::from_message_at(&msg, at(1)).into_message_at(at(1)) {
        ClientMessage::Request(r) => {
            assert_eq!(r.context.deadline, at(1000));
            assert_eq!((r.id, r.message.as_str()), (7, "ping"));
        }
        other => panic!("{:?}", other),
    }
    let msg: ClientMessage<String> =
        ClientMessage::Cancel { trace_context: trace_context(), request_id: 99 };
    let packed = ForyClientMessage::from_message_at(&msg, at(1));
    assert!(matches!(
        packed.clone(),
        ForyClientMessage::Cancel { trace, request_id: 99 } if trace.span_id == 77
    ));
    match packed.into_message_at(at(u128::MAX)) {
        ClientMessage::Cancel { trace_context: tc, request_id } => {
            assert_eq!(tc, trace_context());
            assert_eq!(request_id, 99);
        }
        other => panic!("{:?}", other),
    }
}

#[test]
fn the_clock_gives_the_time_of_writing_and_reading() {
    let clock = Clock::start();
    let first = clock.now();
    let second = clock.now();
    assert!(first.nanos <= second.nanos);
    // A minute away.
    let minute: u64 = 60_000_000_000;
    let req = request(clock.now().nanos + minute as u128);
    let packed = ForyRequest::from_request(&req, &clock);
    assert!(packed.deadline_ns <= minute);
    assert!(packed.deadline_ns > minute / 2);
    let before = clock.now();
    let back = packed.clone().into_request(&clock);
    let after = clock.now();
    assert!(back.context.deadline.nanos >= before.nanos + packed.deadline_ns as u128);
    assert!(back.context.deadline.nanos <= after.nanos + packed.deadline_ns as u128);
    // Long gone.
    let packed = ForyClientMessage::from_message(&ClientMessage::Request(request(0)), &clock);
    match packed {
        ForyClientMessage::Request(r) => assert_eq!(r.deadline_ns, 0),
        other => panic!("{:?}", other),
    }
    let packed: ForyClientMessage<String> = ForyClientMessage::Request(ForyRequest {
        id: 1,
        trace: ForyTraceContext::from(&trace_context()),
        deadline_ns: u64::MAX,
        message: "".to_string(),
    });
    match packed.into_message(&clock) {
        ClientMessage::Request(r) => assert!(r.context.deadline.nanos >= u64::MAX as u128),
        other => panic!("{:?}", other),
    }
}

#[test]
fn a_request_arrives_as_it_was_sent() {
    let msg = ClientMessage::Request(request(1000));
    let mut out = WriteContext::new(TypeResolver::default(), Config::default());
    ForyClientMessage::from_message_at(&msg, at(400)).fory_write_data(&mut out).unwrap();
    let bytes = out.writer.dump();
    let mut context = ReadContext::new(TypeResolver::default(), Config::default());
    context.attach_reader(Reader::new(&bytes));
    let read = ForyClientMessage::<String>::fory_read_data(&mut context).unwrap();
    assert_eq!(context.reader.get_cursor(), bytes.len());
    match read.into_message_at(at(50)) {
        ClientMessage::Request(r) => {
            assert_eq!((r.id, r.message.as_str()), (7, "ping"));
            assert_eq!(r.context.deadline, at(650));
            assert_eq!(r.context.trace_context, trace_context());
        }
        other => panic!("{:?}", other),
    }
}

#[test]
fn a_response_arrives_as_it_was_sent() {
    let resp: Response<String> = Response {
        request_id: 7,
        message: Err(ServerError { kind: ErrorKind::WouldBlock, detail: "busy".to_string() }),
    };
    let mut out = WriteContext::new(TypeResolver::default(), Config::default());
    ForyResponse::from(&resp).fory_write_data(&mut out).unwrap();
    let bytes = out.writer.dump();
    assert_eq!(bytes, vec![7, 1, 10, 18, b'b', b'u', b's', b'y']);
    let mut context = ReadContext::new(TypeResolver::default(), Config::default());
    context.attach_reader(Reader::new(&bytes));
    let read = ForyResponse::<String>::fory_read_data(&mut context).unwrap();
    let back = Response::from(read);
    assert_eq!(back.request_id, 7);
    let e = back.message.unwrap_err();
    assert_eq!((e.kind, e.detail.as_str()), (ErrorKind::WouldBlock, "busy"));
}
