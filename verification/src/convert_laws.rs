//! What each conversion does to each field, in each direction by itself.
use vstd::pervasive::cloned;
use vstd::prelude::*;

use crate::clock::Clock;
use crate::context::Instant;
use crate::envelope::{
    ForyClientMessage, ForyRequest, ForyResponse, ForyResult, ForyServerError, ForyTraceContext,
};
use crate::error_kind::{code_of, kind_of, law_the_table};
use crate::message::{ClientMessage, Request, Response, ServerError};
use crate::trace;
use crate::trace::{SamplingDecision, SpanId, TraceId};

verus! {

/// A trace's identifier is its raw bits.
pub proof fn law_trace_id_is_its_bits(bits: u128, id: TraceId)
    ensures
        call_ensures(<TraceId as From<u128>>::from, (bits,), id) ==> id.0 == bits,
        call_ensures(<u128 as From<TraceId>>::from, (id,), bits) ==> bits == id.0,
{
}

/// A span's identifier is its raw bits.
pub proof fn law_span_id_is_its_bits(bits: u64, id: SpanId)
    ensures
        call_ensures(<SpanId as From<u64>>::from, (bits,), id) ==> id.0 == bits,
        call_ensures(<u64 as From<SpanId>>::from, (id,), bits) ==> bits == id.0,
{
}

/// A trace that is recorded is 1 and another is 0; 1 is a trace that is recorded,
/// and every other byte is one that is not.
pub proof fn law_sampling_bytes(decision: SamplingDecision, byte: u8)
    ensures
        call_ensures(<u8 as From<SamplingDecision>>::from, (decision,), byte) ==> {
            &&& decision is Sampled ==> byte == 1
            &&& decision is Unsampled ==> byte == 0
        },
        call_ensures(<SamplingDecision as From<u8>>::from, (byte,), decision) ==> {
            &&& byte == 1 ==> decision is Sampled
            &&& byte != 1 ==> decision is Unsampled
        },
{
}

/// A trace context travels with its own identifiers and decision.
pub proof fn law_packed_trace_fields(tc: &trace::Context, packed: ForyTraceContext)
    requires
        call_ensures(<ForyTraceContext as From<&trace::Context>>::from, (tc,), packed),
    ensures
        packed.trace_id == tc.trace_id.0,
        packed.span_id == tc.span_id.0,
        tc.sampling_decision is Sampled ==> packed.sampling == 1,
        tc.sampling_decision is Unsampled ==> packed.sampling == 0,
{
}

/// A trace context that has travelled has the identifiers and the decision that
/// travelled.
pub proof fn law_unpacked_trace_fields(packed: ForyTraceContext, tc: trace::Context)
    requires
        call_ensures(<trace::Context as From<ForyTraceContext>>::from, (packed,), tc),
    ensures
        tc.trace_id.0 == packed.trace_id,
        tc.span_id.0 == packed.span_id,
        packed.sampling == 1 ==> tc.sampling_decision is Sampled,
        packed.sampling != 1 ==> tc.sampling_decision is Unsampled,
{
}

/// A server's error travels with its own detail and the code of its kind.
pub proof fn law_packed_error_fields(error: &ServerError, packed: ForyServerError)
    requires
        call_ensures(<ForyServerError as From<&ServerError>>::from, (error,), packed),
    ensures
        packed.detail == error.detail,
        error.kind is NotFound ==> packed.kind == 0,
        error.kind is PermissionDenied ==> packed.kind == 1,
        error.kind is ConnectionRefused ==> packed.kind == 2,
        error.kind is ConnectionReset ==> packed.kind == 3,
        error.kind is ConnectionAborted ==> packed.kind == 4,
        error.kind is NotConnected ==> packed.kind == 5,
        error.kind is AddrInUse ==> packed.kind == 6,
        error.kind is AddrNotAvailable ==> packed.kind == 7,
        error.kind is BrokenPipe ==> packed.kind == 8,
        error.kind is AlreadyExists ==> packed.kind == 9,
        error.kind is WouldBlock ==> packed.kind == 10,
        error.kind is InvalidInput ==> packed.kind == 11,
        error.kind is InvalidData ==> packed.kind == 12,
        error.kind is TimedOut ==> packed.kind == 13,
        error.kind is WriteZero ==> packed.kind == 14,
        error.kind is Interrupted ==> packed.kind == 15,
        error.kind is Other ==> packed.kind == 16,
        error.kind is UnexpectedEof ==> packed.kind == 17,
        error.kind is Unlisted ==> packed.kind == 16,
{
    law_the_table(error.kind, packed.kind);
}

/// A server's error that has travelled has the detail that travelled and the kind
/// of the code that did.
pub proof fn law_unpacked_error_fields(packed: ForyServerError, error: ServerError)
    requires
        call_ensures(<ServerError as From<ForyServerError>>::from, (packed,), error),
    ensures
        error.detail == packed.detail,
        packed.kind == 0 ==> error.kind is NotFound,
        packed.kind == 1 ==> error.kind is PermissionDenied,
        packed.kind == 2 ==> error.kind is ConnectionRefused,
        packed.kind == 3 ==> error.kind is ConnectionReset,
        packed.kind == 4 ==> error.kind is ConnectionAborted,
        packed.kind == 5 ==> error.kind is NotConnected,
        packed.kind == 6 ==> error.kind is AddrInUse,
        packed.kind == 7 ==> error.kind is AddrNotAvailable,
        packed.kind == 8 ==> error.kind is BrokenPipe,
        packed.kind == 9 ==> error.kind is AlreadyExists,
        packed.kind == 10 ==> error.kind is WouldBlock,
        packed.kind == 11 ==> error.kind is InvalidInput,
        packed.kind == 12 ==> error.kind is InvalidData,
        packed.kind == 13 ==> error.kind is TimedOut,
        packed.kind == 14 ==> error.kind is WriteZero,
        packed.kind == 15 ==> error.kind is Interrupted,
        packed.kind == 16 ==> error.kind is Other,
        packed.kind == 17 ==> error.kind is UnexpectedEof,
        packed.kind > 17 ==> error.kind is Other,
{
    law_the_table(error.kind, packed.kind);
}

/// A result travels as a success with its own payload, or as a failure with the
/// detail and the code of its error.
pub proof fn law_packed_result_fields<T>(result: Result<T, ServerError>, packed: ForyResult<T>)
    requires
        call_ensures(<ForyResult<T> as From<Result<T, ServerError>>>::from, (result,), packed),
    ensures
        match result {
            Ok(v) => packed == ForyResult::<T>::Success(v),
            Err(e) => packed matches ForyResult::Failure(p) && p.kind == code_of(e.kind)
                && p.detail == e.detail,
        },
{
}

/// A success that has travelled is its payload, and a failure is an error with the
/// detail that travelled and the kind of the code that did.
pub proof fn law_unpacked_result_fields<T>(packed: ForyResult<T>, result: Result<T, ServerError>)
    requires
        call_ensures(<Result<T, ServerError> as From<ForyResult<T>>>::from, (packed,), result),
    ensures
        match packed {
            ForyResult::Success(v) => result == Ok::<T, ServerError>(v),
            ForyResult::Failure(p) => result matches Err(e) && e.kind == kind_of(p.kind)
                && e.detail == p.detail,
        },
{
}

/// A response travels under the identifier of the request that it answers, with a
/// clone of its payload, or the detail and the code of its error.
pub proof fn law_packed_response_fields<T: Clone>(response: &Response<T>, packed: ForyResponse<T>)
    requires
        call_ensures(<ForyResponse<T> as From<&Response<T>>>::from, (response,), packed),
    ensures
        packed.request_id == response.request_id,
        match response.message {
            Ok(v) => packed.message matches ForyResult::Success(c) && cloned(v, c),
            Err(e) => packed.message matches ForyResult::Failure(p) && p.kind == code_of(e.kind)
                && p.detail == e.detail,
        },
{
}

/// A response that has travelled answers the request that it names, with the
/// payload that travelled, or an error of the detail and the code that did.
pub proof fn law_unpacked_response_fields<T>(packed: ForyResponse<T>, response: Response<T>)
    requires
        call_ensures(<Response<T> as From<ForyResponse<T>>>::from, (packed,), response),
    ensures
        response.request_id == packed.request_id,
        match packed.message {
            ForyResult::Success(v) => response.message == Ok::<T, ServerError>(v),
            ForyResult::Failure(p) => response.message matches Err(e) && e.kind == kind_of(p.kind)
                && e.detail == p.detail,
        },
{
}

/// A request travels under its own identifier, with its own trace, a clone of its
/// body and the nanoseconds from `now` to its deadline, in 64 bits.
pub proof fn law_packed_request_fields<T: Clone>(
    request: &Request<T>,
    now: Instant,
    packed: ForyRequest<T>,
)
    requires
        call_ensures(ForyRequest::<T>::from_request_at, (request, now), packed),
    ensures
        packed.id == request.id,
        packed.trace.trace_id == request.context.trace_context.trace_id.0,
        packed.trace.span_id == request.context.trace_context.span_id.0,
        packed.trace.sampling == if request.context.trace_context.sampling_decision is Sampled {
            1u8
        } else {
            0u8
        },
        request.context.deadline.nanos <= now.nanos ==> packed.deadline_ns == 0,
        request.context.deadline.nanos > now.nanos ==> packed.deadline_ns == (
        request.context.deadline.nanos - now.nanos) % 0x1_0000_0000_0000_0000,
        cloned(request.message, packed.message),
{
}

/// A request that has travelled has the identifier, the trace and the body that
/// travelled, and a deadline as many nanoseconds after `now` as travelled.
pub proof fn law_unpacked_request_fields<T>(
    packed: ForyRequest<T>,
    now: Instant,
    request: Request<T>,
)
    requires
        call_ensures(ForyRequest::<T>::into_request_at, (packed, now), request),
    ensures
        request.id == packed.id,
        request.context.trace_context.trace_id.0 == packed.trace.trace_id,
        request.context.trace_context.span_id.0 == packed.trace.span_id,
        request.context.trace_context.sampling_decision is Sampled <==> packed.trace.sampling == 1,
        request.context.deadline.nanos == now.nanos + packed.deadline_ns,
        request.message == packed.message,
{
}

/// A request that is packed now is packed at a time that the clock shows, and at
/// that time as many nanoseconds are left as travel.
pub proof fn law_request_packed_now<T: Clone>(
    request: &Request<T>,
    clock: &Clock,
    packed: ForyRequest<T>,
)
    requires
        call_ensures(ForyRequest::<T>::from_request, (request, clock), packed),
    ensures
        packed.id == request.id,
        packed.trace.trace_id == request.context.trace_context.trace_id.0,
        packed.trace.span_id == request.context.trace_context.span_id.0,
        packed.trace.sampling == if request.context.trace_context.sampling_decision is Sampled {
            1u8
        } else {
            0u8
        },
        cloned(request.message, packed.message),
        exists|now: Instant| #[trigger]
            call_ensures(Clock::now, (clock,), now) && packed.deadline_ns == if now.nanos
                >= request.context.deadline.nanos {
                0
            } else {
                (request.context.deadline.nanos - now.nanos) % 0x1_0000_0000_0000_0000
            },
{
}

/// A request that is taken in now is due as many nanoseconds as travelled after a
/// time that the clock shows.
pub proof fn law_request_taken_in_now<T>(packed: ForyRequest<T>, clock: &Clock, request: Request<T>)
    requires
        call_ensures(ForyRequest::<T>::into_request, (packed, clock), request),
    ensures
        request.id == packed.id,
        request.context.trace_context.trace_id.0 == packed.trace.trace_id,
        request.context.trace_context.span_id.0 == packed.trace.span_id,
        request.context.trace_context.sampling_decision is Sampled <==> packed.trace.sampling == 1,
        request.message == packed.message,
        exists|now: Instant| #[trigger]
            call_ensures(Clock::now, (clock,), now) && request.context.deadline.nanos == now.nanos
                + packed.deadline_ns,
{
}

/// A client's message travels as what it is: a request with its own fields, or a
/// cancellation of the request that it names, with its own trace.
pub proof fn law_packed_message_fields<T: Clone>(
    message: &ClientMessage<T>,
    now: Instant,
    packed: ForyClientMessage<T>,
)
    requires
        call_ensures(ForyClientMessage::<T>::from_message_at, (message, now), packed),
    ensures
        match *message {
            ClientMessage::Request(req) => {
                &&& packed matches ForyClientMessage::Request(p)
                &&& p.id == req.id
                &&& p.trace.trace_id == req.context.trace_context.trace_id.0
                &&& p.trace.span_id == req.context.trace_context.span_id.0
                &&& p.trace.sampling == if req.context.trace_context.sampling_decision is Sampled {
                    1u8
                } else {
                    0u8
                }
                &&& p.deadline_ns == if req.context.deadline.nanos <= now.nanos {
                    0
                } else {
                    (req.context.deadline.nanos - now.nanos) % 0x1_0000_0000_0000_0000
                }
                &&& cloned(req.message, p.message)
            },
            ClientMessage::Cancel { trace_context, request_id } => {
                &&& packed matches ForyClientMessage::Cancel { trace, request_id: packed_id }
                &&& packed_id == request_id
                &&& trace.trace_id == trace_context.trace_id.0
                &&& trace.span_id == trace_context.span_id.0
                &&& trace.sampling == if trace_context.sampling_decision is Sampled {
                    1u8
                } else {
                    0u8
                }
            },
        },
{
}

/// A client's message that has travelled is what travelled: a request with those
/// fields, or a cancellation of that request, with that trace.
pub proof fn law_unpacked_message_fields<T>(
    packed: ForyClientMessage<T>,
    now: Instant,
    message: ClientMessage<T>,
)
    requires
        call_ensures(ForyClientMessage::<T>::into_message_at, (packed, now), message),
    ensures
        match packed {
            ForyClientMessage::Request(p) => {
                &&& message matches ClientMessage::Request(req)
                &&& req.id == p.id
                &&& req.context.trace_context.trace_id.0 == p.trace.trace_id
                &&& req.context.trace_context.span_id.0 == p.trace.span_id
                &&& (req.context.trace_context.sampling_decision is Sampled <==> p.trace.sampling
                    == 1)
                &&& req.context.deadline.nanos == now.nanos + p.deadline_ns
                &&& req.message == p.message
            },
            ForyClientMessage::Cancel { trace, request_id } => {
                &&& message matches ClientMessage::Cancel { trace_context, request_id: id }
                &&& id == request_id
                &&& trace_context.trace_id.0 == trace.trace_id
                &&& trace_context.span_id.0 == trace.span_id
                &&& (trace_context.sampling_decision is Sampled <==> trace.sampling == 1)
            },
        },
{
}

/// A message that is packed now is packed at a time that the clock shows.
pub proof fn law_message_packed_now<T: Clone>(
    message: &ClientMessage<T>,
    clock: &Clock,
    packed: ForyClientMessage<T>,
)
    requires
        call_ensures(ForyClientMessage::<T>::from_message, (message, clock), packed),
    ensures
        match *message {
            ClientMessage::Request(req) => {
                &&& packed matches ForyClientMessage::Request(p)
                &&& p.id == req.id
                &&& p.trace.trace_id == req.context.trace_context.trace_id.0
                &&& p.trace.span_id == req.context.trace_context.span_id.0
                &&& p.trace.sampling == if req.context.trace_context.sampling_decision is Sampled {
                    1u8
                } else {
                    0u8
                }
                &&& cloned(req.message, p.message)
                &&& exists|now: Instant| #[trigger]
                    call_ensures(Clock::now, (clock,), now) && p.deadline_ns == if now.nanos
                        >= req.context.deadline.nanos {
                        0
                    } else {
                        (req.context.deadline.nanos - now.nanos) % 0x1_0000_0000_0000_0000
                    }
            },
            ClientMessage::Cancel { trace_context, request_id } => {
                &&& packed matches ForyClientMessage::Cancel { trace, request_id: packed_id }
                &&& packed_id == request_id
                &&& trace.trace_id == trace_context.trace_id.0
                &&& trace.span_id == trace_context.span_id.0
                &&& trace.sampling == if trace_context.sampling_decision is Sampled {
                    1u8
                } else {
                    0u8
                }
            },
        },
{
}

/// A message that is taken in now is taken in at a time that the clock shows.
pub proof fn law_message_taken_in_now<T>(
    packed: ForyClientMessage<T>,
    clock: &Clock,
    message: ClientMessage<T>,
)
    requires
        call_ensures(ForyClientMessage::<T>::into_message, (packed, clock), message),
    ensures
        match packed {
            ForyClientMessage::Request(p) => {
                &&& message matches ClientMessage::Request(req)
                &&& req.id == p.id
                &&& req.context.trace_context.trace_id.0 == p.trace.trace_id
                &&& req.context.trace_context.span_id.0 == p.trace.span_id
                &&& (req.context.trace_context.sampling_decision is Sampled <==> p.trace.sampling
                    == 1)
                &&& req.message == p.message
                &&& exists|now: Instant| #[trigger]
                    call_ensures(Clock::now, (clock,), now) && req.context.deadline.nanos
                        == now.nanos + p.deadline_ns
            },
            ForyClientMessage::Cancel { trace, request_id } => {
                &&& message matches ClientMessage::Cancel { trace_context, request_id: id }
                &&& id == request_id
                &&& trace_context.trace_id.0 == trace.trace_id
                &&& trace_context.span_id.0 == trace.span_id
                &&& (trace_context.sampling_decision is Sampled <==> trace.sampling == 1)
            },
        },
{
}

} // verus!
