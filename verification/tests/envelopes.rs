use fory_core::{Config, Error, ReadContext, Reader, TypeResolver, WriteContext};
use fory_envelope::envelope::{
    ForyClientMessage, ForyRequest, ForyResponse, ForyResult, ForyServerError, ForyTraceContext,
};
use fory_envelope::registration::EnvelopeType;
use fory_envelope::wire::{WireError, WireValue};

fn bytes_of<T: WireValue>(value: &T) -> Vec<u8> {
    let mut context = WriteContext::new(TypeResolver::default(), Config::default());
    value.fory_write_data(&mut context).unwrap();
    context.writer.dump()
}

/// What is written for cross-language use, and whether all of the value is.
fn cross_language_bytes_of<T: WireValue>(value: &T) -> (Vec<u8>, bool) {
    let mut config = Config::default();
    config.xlang = true;
    let mut context = WriteContext::new(TypeResolver::default(), config);
    let result = value.fory_write_data(&mut context);
    (context.writer.dump(), result.is_ok())
}

/// The value read from `bytes`, and the count of bytes taken.
fn read<T: WireValue>(bytes: &[u8]) -> (Result<T, WireError>, usize) {
    let mut context = ReadContext::new(TypeResolver::default(), Config::default());
    context.attach_reader(Reader::new(bytes));
    let result = T::fory_read_data(&mut context);
    (result, context.reader.get_cursor())
}

/// The value read from the bytes of `value`, which must all be taken, though
/// others follow.
fn round_trip<T: WireValue>(value: &T) -> T {
    let mut bytes = bytes_of(value);
    let len = bytes.len();
    bytes.extend_from_slice(&[0xee; 10]);
    let (result, taken) = read::<T>(&bytes);
    assert_eq!(taken, len);
    match result {
        Ok(v) => v,
        Err(e) => panic!("{:?}", e),
    }
}

fn trace() -> ForyTraceContext {
    ForyTraceContext { trace_id: 0x0102, span_id: 300, sampling: 1 }
}

/// The bytes of `trace()`.
fn trace_bytes() -> Vec<u8> {
    vec![0x02, 0x01, 0, 0, 0, 0, 0, 0, 0, 0, 0, 0, 0, 0, 0, 0, 0xac, 0x02, 1]
}

fn request() -> ForyRequest<String> {
    ForyRequest { id: 7, trace: trace(), deadline_ns: 128, message: "ping".to_string() }
}

fn request_bytes() -> Vec<u8> {
    let mut bytes = vec![7];
    bytes.extend(trace_bytes());
    bytes.extend_from_slice(&[0x80, 0x01, 18, b'p', b'i', b'n', b'g']);
    bytes
}

#[test]
fn trace_context_bytes() {
    assert_eq!(bytes_of(&trace()), trace_bytes());
    let back = round_trip(&trace());
    assert_eq!((back.trace_id, back.span_id, back.sampling), (0x0102, 300, 1));
    let largest = ForyTraceContext { trace_id: u128::MAX, span_id: u64::MAX, sampling: 255 };
    let back = round_trip(&largest);
    assert_eq!((back.trace_id, back.span_id, back.sampling), (u128::MAX, u64::MAX, 255));
}

#[test]
fn a_cut_trace_context_is_refused() {
    let bytes = trace_bytes();
    for n in 0..bytes.len() {
        let (result, taken) = read::<ForyTraceContext>(&bytes[..n]);
        assert!(matches!(result, Err(WireError::Fory(Error::BufferOutOfBound(_, _, _)))));
        // What was read before the part that fails has been taken.
        assert_eq!(taken, if n < 16 { 0 } else if n < 18 { 16 } else { 18 });
    }
}

#[test]
fn server_error_bytes() {
    let e = ForyServerError { kind: 300, detail: "no".to_string() };
    assert_eq!(bytes_of(&e), vec![0xac, 0x02, 10, b'n', b'o']);
    let back = round_trip(&e);
    assert_eq!((back.kind, back.detail.as_str()), (300, "no"));
}

#[test]
fn server_error_detail_of_a_padded_length_does_not_come_back() {
    let e = ForyServerError { kind: 1, detail: "x".repeat(4096) };
    let bytes = bytes_of(&e);
    let (result, taken) = read::<ForyServerError>(&bytes);
    assert_eq!(taken, bytes.len() - 1);
    assert_eq!(result.unwrap().detail, format!("\0{}", "x".repeat(4095)));
    let e = ForyServerError { kind: 1, detail: "x".repeat(4095) };
    assert_eq!(round_trip(&e).detail, e.detail);
}

#[test]
fn result_bytes() {
    let ok: ForyResult<u32> = ForyResult::Success(300);
    assert_eq!(bytes_of(&ok), vec![0, 0xac, 0x02]);
    assert!(matches!(round_trip(&ok), ForyResult::Success(300)));
    let err: ForyResult<u32> =
        ForyResult::Failure(ForyServerError { kind: 13, detail: "late".to_string() });
    assert_eq!(bytes_of(&err), vec![1, 13, 18, b'l', b'a', b't', b'e']);
    match round_trip(&err) {
        ForyResult::Failure(e) => assert_eq!((e.kind, e.detail.as_str()), (13, "late")),
        other => panic!("{:?}", other),
    }
}

#[test]
fn a_result_with_an_unknown_discriminant_is_refused() {
    for d in [2u8, 7, 10, 99, 100, 255] {
        let (result, taken) = read::<ForyResult<u32>>(&[d, 1, 2, 3]);
        assert_eq!(taken, 1);
        match result {
            Err(WireError::UnknownDiscriminant { envelope, discriminant }) => {
                assert_eq!(envelope, EnvelopeType::Result);
                assert_eq!(discriminant, d);
            }
            other => panic!("{:?}", other),
        }
    }
    let (result, _) = read::<ForyResult<u32>>(&[7]);
    match result.unwrap_err().into_fory() {
        Error::InvalidData(text) => assert_eq!(text, "ForyResult: unknown discriminant 7"),
        other => panic!("{:?}", other),
    }
    let (result, taken) = read::<ForyResult<u32>>(&[]);
    assert!(matches!(result, Err(WireError::Fory(Error::BufferOutOfBound(0, 0, 0)))));
    assert_eq!(taken, 0);
}

#[test]
fn request_bytes_are_its_parts_in_order() {
    assert_eq!(bytes_of(&request()), request_bytes());
    let back = round_trip(&request());
    assert_eq!((back.id, back.deadline_ns, back.message.as_str()), (7, 128, "ping"));
    assert_eq!((back.trace.trace_id, back.trace.span_id, back.trace.sampling), (0x0102, 300, 1));
}

#[test]
fn a_cut_request_is_refused() {
    // The body's last byte counts too.
    let bytes = request_bytes();
    for n in 0..bytes.len() {
        if n == 22 {
            // Everything but the body: an empty rest reads as a string without text.
            assert_eq!(read::<ForyRequest<String>>(&bytes[..n]).0.unwrap().message, "");
        } else {
            assert!(read::<ForyRequest<String>>(&bytes[..n]).0.is_err());
        }
    }
}

#[test]
fn response_bytes() {
    let resp: ForyResponse<String> =
        ForyResponse { request_id: 42, message: ForyResult::Success("pong".to_string()) };
    assert_eq!(bytes_of(&resp), vec![42, 0, 18, b'p', b'o', b'n', b'g']);
    let back = round_trip(&resp);
    assert_eq!(back.request_id, 42);
    assert!(matches!(back.message, ForyResult::Success(s) if s == "pong"));
    let resp: ForyResponse<String> = ForyResponse {
        request_id: u64::MAX,
        message: ForyResult::Failure(ForyServerError { kind: 0, detail: "".to_string() }),
    };
    let back = round_trip(&resp);
    assert_eq!(back.request_id, u64::MAX);
    assert!(matches!(back.message, ForyResult::Failure(e) if e.kind == 0 && e.detail.is_empty()));
}

#[test]
fn client_message_bytes() {
    let msg = ForyClientMessage::Request(request());
    let mut bytes = vec![0];
    bytes.extend(request_bytes());
    assert_eq!(bytes_of(&msg), bytes);
    assert!(matches!(round_trip(&msg), ForyClientMessage::Request(r) if r.message == "ping"));
    let msg: ForyClientMessage<String> =
        ForyClientMessage::Cancel { trace: trace(), request_id: 200 };
    let mut bytes = vec![1];
    bytes.extend(trace_bytes());
    bytes.extend_from_slice(&[0xc8, 0x01]);
    assert_eq!(bytes_of(&msg), bytes);
    match round_trip(&msg) {
        ForyClientMessage::Cancel { trace, request_id } => {
            assert_eq!((trace.trace_id, request_id), (0x0102, 200));
        }
        other => panic!("{:?}", other),
    }
}

#[test]
fn a_client_message_with_an_unknown_discriminant_is_refused() {
    let (result, taken) = read::<ForyClientMessage<String>>(&[2, 0, 0]);
    assert_eq!(taken, 1);
    let error = result.unwrap_err();
    assert!(matches!(
        error,
        WireError::UnknownDiscriminant { envelope: EnvelopeType::ClientMessage, discriminant: 2 }
    ));
    match error.into_fory() {
        Error::InvalidData(text) => assert_eq!(text, "ForyClientMessage: unknown discriminant 2"),
        other => panic!("{:?}", other),
    }
}

#[test]
fn discriminants_are_told_in_decimal() {
    for d in 2u8..=255 {
        let error = WireError::UnknownDiscriminant {
            envelope: EnvelopeType::ClientMessage,
            discriminant: d,
        };
        match error.into_fory() {
            Error::InvalidData(text) => {
                assert_eq!(text, format!("ForyClientMessage: unknown discriminant {}", d));
            }
            other => panic!("{:?}", other),
        }
    }
}

#[test]
fn an_error_of_fory_stays_as_it_is() {
    let error = WireError::Fory(Error::invalid_ref("a"));
    assert!(matches!(error.into_fory(), Error::InvalidRef(text) if text == "a"));
}

#[test]
fn what_carries_a_trace_has_no_cross_language_form() {
    assert_eq!(cross_language_bytes_of(&trace()), (vec![], false));
    // What comes before the trace has been written.
    assert_eq!(cross_language_bytes_of(&request()), (vec![7], false));
    let msg = ForyClientMessage::Request(request());
    assert_eq!(cross_language_bytes_of(&msg), (vec![0, 7], false));
    let cancel: ForyClientMessage<String> =
        ForyClientMessage::Cancel { trace: trace(), request_id: 200 };
    assert_eq!(cross_language_bytes_of(&cancel), (vec![1], false));
    let resp: ForyResponse<u8> = ForyResponse { request_id: 42, message: ForyResult::Success(9) };
    assert_eq!(cross_language_bytes_of(&resp), (vec![42, 0, 9], true));
}

#[test]
fn values_follow_one_another() {
    let mut context = WriteContext::new(TypeResolver::default(), Config::default());
    trace().fory_write_data(&mut context).unwrap();
    ForyClientMessage::Request(request()).fory_write_data(&mut context).unwrap();
    trace().fory_write_data(&mut context).unwrap();
    let bytes = context.writer.dump();
    let mut context = ReadContext::new(TypeResolver::default(), Config::default());
    context.attach_reader(Reader::new(&bytes));
    assert_eq!(ForyTraceContext::fory_read_data(&mut context).unwrap().span_id, 300);
    assert!(matches!(
        ForyClientMessage::<String>::fory_read_data(&mut context).unwrap(),
        ForyClientMessage::Request(r) if r.id == 7
    ));
    assert_eq!(ForyTraceContext::fory_read_data(&mut context).unwrap().trace_id, 0x0102);
    assert_eq!(context.reader.get_cursor(), bytes.len());
}

#[test]
fn default_envelopes() {
    let trace = ForyTraceContext::fory_default();
    assert_eq!((trace.trace_id, trace.span_id, trace.sampling), (0, 0, 0));
    let error = ForyServerError::fory_default();
    assert_eq!((error.kind, error.detail.as_str()), (0, ""));
    assert!(matches!(ForyResult::<u32>::fory_default(), ForyResult::Success(0)));
    let resp = ForyResponse::<String>::fory_default();
    assert_eq!(resp.request_id, 0);
    assert!(matches!(resp.message, ForyResult::Success(s) if s.is_empty()));
    match ForyClientMessage::<u64>::fory_default() {
        ForyClientMessage::Request(r) => {
            assert_eq!((r.id, r.deadline_ns, r.message, r.trace.trace_id), (0, 0, 0, 0));
        }
        other => panic!("{:?}", other),
    }
}

#[test]
fn envelopes_nest() {
    let inner: ForyResult<u8> = ForyResult::Success(3);
    let outer: ForyResult<ForyResult<u8>> = ForyResult::Success(inner);
    assert_eq!(bytes_of(&outer), vec![0, 0, 3]);
    assert!(matches!(round_trip(&outer), ForyResult::Success(ForyResult::Success(3))));
}

#[test]
fn different_values_have_different_bytes() {
    let values = [
        ForyServerError { kind: 0, detail: "".to_string() },
        ForyServerError { kind: 0, detail: "0".to_string() },
        ForyServerError { kind: 1, detail: "".to_string() },
        ForyServerError { kind: 128, detail: "".to_string() },
        ForyServerError { kind: 128, detail: "\u{0}".to_string() },
        ForyServerError { kind: 16384, detail: "x".repeat(32) },
    ];
    for (i, a) in values.iter().enumerate() {
        for (j, b) in values.iter().enumerate() {
            assert_eq!(bytes_of(a) == bytes_of(b), i == j);
        }
    }
}

/// A payload whose format the library does not know: a byte, and on 0 an error
/// after it.
#[derive(Debug)]
struct Undescribed(u8);

impl WireValue for Undescribed {
    type Model = ();

    fn fory_default() -> Self {
        Undescribed(1)
    }

    fn fory_write_data(&self, context: &mut WriteContext) -> Result<(), WireError> {
        context.writer.write_u8(self.0);
        if self.0 == 0 {
            Err(WireError::Fory(Error::unsupported("zero")))
        } else {
            Ok(())
        }
    }

    fn fory_read_data(context: &mut ReadContext) -> Result<Self, WireError> {
        match context.reader.read_u8() {
            Ok(0) => Err(WireError::Fory(Error::unsupported("zero"))),
            Ok(b) => Ok(Undescribed(b)),
            Err(e) => Err(WireError::Fory(e)),
        }
    }
}

#[test]
fn an_undescribed_payload_follows_the_parts_before_it() {
    let msg = ForyClientMessage::Request(ForyRequest {
        id: 7,
        trace: trace(),
        deadline_ns: 128,
        message: Undescribed(9),
    });
    let mut bytes = vec![0, 7];
    bytes.extend(trace_bytes());
    bytes.extend_from_slice(&[0x80, 0x01, 9]);
    assert_eq!(bytes_of(&msg), bytes);
    match round_trip(&msg) {
        ForyClientMessage::Request(r) => {
            assert_eq!((r.id, r.trace.span_id, r.deadline_ns, r.message.0), (7, 300, 128, 9));
        }
        other => panic!("{:?}", other),
    }
    let resp = ForyResponse { request_id: 5, message: ForyResult::Success(Undescribed(9)) };
    assert_eq!(bytes_of(&resp), vec![5, 0, 9]);
    assert!(matches!(round_trip(&resp).message, ForyResult::Success(Undescribed(9))));
}

#[test]
fn an_error_of_a_payload_comes_back_as_it_is() {
    let resp = ForyResponse { request_id: 5, message: ForyResult::Success(Undescribed(0)) };
    let mut context = WriteContext::new(TypeResolver::default(), Config::default());
    let result = resp.fory_write_data(&mut context);
    assert!(matches!(result, Err(WireError::Fory(Error::Unsupported(text))) if text == "zero"));
    assert_eq!(context.writer.dump(), vec![5, 0, 0]);
    let (result, taken) = read::<ForyResponse<Undescribed>>(&[5, 0, 0, 1]);
    assert!(matches!(result, Err(WireError::Fory(Error::Unsupported(text))) if text == "zero"));
    assert_eq!(taken, 3);
}
