//! Between the messages as the program holds them and as they travel.
use vstd::pervasive::cloned;
use vstd::prelude::*;
use vstd::std_specs::convert::FromSpecImpl;

use crate::clock::Clock;
use crate::context;
use crate::context::Instant;
use crate::envelope::{
    ForyClientMessage, ForyRequest, ForyResponse, ForyResult, ForyServerError, ForyTraceContext,
};
use crate::error_kind::{code_of, error_kind_to_u32, kind_of, u32_to_error_kind};
use crate::message::{ClientMessage, Request, Response, ServerError};
use crate::trace;
use crate::trace::{SamplingDecision, SpanId, TraceId};

verus! {

/// A trace context as it travels.
pub open spec fn packed_trace(tc: trace::Context) -> ForyTraceContext {
    ForyTraceContext {
        trace_id: tc.trace_id.0,
        span_id: tc.span_id.0,
        sampling: if tc.sampling_decision is Sampled {
            1
        } else {
            0
        },
    }
}

/// A trace context that has travelled. Every sampling byte but 1 stands for a
/// trace that is not recorded.
pub open spec fn unpacked_trace(ftc: ForyTraceContext) -> trace::Context {
    trace::Context {
        trace_id: TraceId(ftc.trace_id),
        span_id: SpanId(ftc.span_id),
        sampling_decision: if ftc.sampling == 1 {
            SamplingDecision::Sampled
        } else {
            SamplingDecision::Unsampled
        },
    }
}

impl FromSpecImpl<&trace::Context> for ForyTraceContext {
    open spec fn obeys_from_spec() -> bool {
        true
    }

    open spec fn from_spec(tc: &trace::Context) -> ForyTraceContext {
        packed_trace(*tc)
    }
}

impl From<&trace::Context> for ForyTraceContext {
    fn from(tc: &trace::Context) -> (r: ForyTraceContext) {
        ForyTraceContext {
            trace_id: u128::from(tc.trace_id),
            span_id: u64::from(tc.span_id),
            sampling: u8::from(tc.sampling_decision),
        }
    }
}

impl FromSpecImpl<ForyTraceContext> for trace::Context {
    open spec fn obeys_from_spec() -> bool {
        true
    }

    open spec fn from_spec(ftc: ForyTraceContext) -> trace::Context {
        unpacked_trace(ftc)
    }
}

impl From<ForyTraceContext> for trace::Context {
    fn from(ftc: ForyTraceContext) -> (r: trace::Context) {
        trace::Context {
            trace_id: TraceId::from(ftc.trace_id),
            span_id: SpanId::from(ftc.span_id),
            sampling_decision: SamplingDecision::from(ftc.sampling),
        }
    }
}

/// A server's error as it travels.
pub open spec fn packed_error(error: ServerError) -> ForyServerError {
    ForyServerError { kind: code_of(error.kind), detail: error.detail }
}

/// A server's error that has travelled.
pub open spec fn unpacked_error(packed: ForyServerError) -> ServerError {
    ServerError { kind: kind_of(packed.kind), detail: packed.detail }
}

impl FromSpecImpl<&ServerError> for ForyServerError {
    open spec fn obeys_from_spec() -> bool {
        true
    }

    open spec fn from_spec(se: &ServerError) -> ForyServerError {
        packed_error(*se)
    }
}

impl From<&ServerError> for ForyServerError {
    fn from(se: &ServerError) -> (r: ForyServerError) {
        ForyServerError { kind: error_kind_to_u32(se.kind), detail: se.detail.clone() }
    }
}

impl FromSpecImpl<ForyServerError> for ServerError {
    open spec fn obeys_from_spec() -> bool {
        true
    }

    open spec fn from_spec(fse: ForyServerError) -> ServerError {
        unpacked_error(fse)
    }
}

impl From<ForyServerError> for ServerError {
    fn from(fse: ForyServerError) -> (r: ServerError) {
        ServerError { kind: u32_to_error_kind(fse.kind), detail: fse.detail }
    }
}

/// A result as it travels.
pub open spec fn packed_result<T>(result: Result<T, ServerError>) -> ForyResult<T> {
    match result {
        Ok(v) => ForyResult::Success(v),
        Err(e) => ForyResult::Failure(packed_error(e)),
    }
}

/// A result that has travelled.
pub open spec fn unpacked_result<T>(packed: ForyResult<T>) -> Result<T, ServerError> {
    match packed {
        ForyResult::Success(v) => Ok(v),
        ForyResult::Failure(e) => Err(unpacked_error(e)),
    }
}

impl<T> FromSpecImpl<Result<T, ServerError>> for ForyResult<T> {
    open spec fn obeys_from_spec() -> bool {
        true
    }

    open spec fn from_spec(r: Result<T, ServerError>) -> ForyResult<T> {
        packed_result(r)
    }
}

impl<T> From<Result<T, ServerError>> for ForyResult<T> {
    fn from(result: Result<T, ServerError>) -> (r: ForyResult<T>) {
        match result {
            Ok(v) => ForyResult::Success(v),
            Err(e) => ForyResult::Failure(ForyServerError::from(&e)),
        }
    }
}

impl<T> FromSpecImpl<ForyResult<T>> for Result<T, ServerError> {
    open spec fn obeys_from_spec() -> bool {
        true
    }

    open spec fn from_spec(fr: ForyResult<T>) -> Result<T, ServerError> {
        unpacked_result(fr)
    }
}

impl<T> From<ForyResult<T>> for Result<T, ServerError> {
    fn from(fr: ForyResult<T>) -> (r: Result<T, ServerError>) {
        match fr {
            ForyResult::Success(v) => Ok(v),
            ForyResult::Failure(e) => Err(ServerError::from(e)),
        }
    }
}

/// `packed` is `response` as it travels, with a clone of the payload.
pub open spec fn packs_response<T: Clone>(response: Response<T>, packed: ForyResponse<T>) -> bool {
    &&& packed.request_id == response.request_id
    &&& match response.message {
        Ok(v) => packed.message matches ForyResult::Success(c) && cloned(v, c),
        Err(e) => packed.message == ForyResult::<T>::Failure(packed_error(e)),
    }
}

/// A response that has travelled.
pub open spec fn unpacked_response<T>(packed: ForyResponse<T>) -> Response<T> {
    Response { request_id: packed.request_id, message: unpacked_result(packed.message) }
}

impl<T: Clone> FromSpecImpl<&Response<T>> for ForyResponse<T> {
    open spec fn obeys_from_spec() -> bool {
        false
    }

    open spec fn from_spec(resp: &Response<T>) -> ForyResponse<T> {
        arbitrary()
    }
}

impl<T: Clone> From<&Response<T>> for ForyResponse<T> {
    fn from(resp: &Response<T>) -> (r: ForyResponse<T>)
        ensures
            packs_response(*resp, r),
    {
        let copy = resp.clone();
        ForyResponse { request_id: copy.request_id, message: ForyResult::from(copy.message) }
    }
}

impl<T> FromSpecImpl<ForyResponse<T>> for Response<T> {
    open spec fn obeys_from_spec() -> bool {
        true
    }

    open spec fn from_spec(fr: ForyResponse<T>) -> Response<T> {
        unpacked_response(fr)
    }
}

impl<T> From<ForyResponse<T>> for Response<T> {
    fn from(fr: ForyResponse<T>) -> (r: Response<T>) {
        Response { request_id: fr.request_id, message: Result::from(fr.message) }
    }
}

/// `packed` is `request` as it travels when it is written at `now`, with a clone
/// of the body.
pub open spec fn packs_request<T: Clone>(
    request: Request<T>,
    now: Instant,
    packed: ForyRequest<T>,
) -> bool {
    &&& packed.id == request.id
    &&& packed.trace == packed_trace(request.context.trace_context)
    &&& packed.deadline_ns == request.context.deadline.nanos_after(now)
    &&& cloned(request.message, packed.message)
}

/// `request` is a request that has travelled, as it is taken in at `now`.
pub open spec fn unpacks_request<T>(
    packed: ForyRequest<T>,
    now: Instant,
    request: Request<T>,
) -> bool {
    &&& request.id == packed.id
    &&& request.context.trace_context == unpacked_trace(packed.trace)
    &&& request.context.deadline.nanos == now.nanos + packed.deadline_ns
    &&& request.message == packed.message
}

impl<T: Clone> ForyRequest<T> {
    /// The request as it travels when it is written at `now`.
    pub fn from_request_at(req: &Request<T>, now: Instant) -> (r: ForyRequest<T>)
        ensures
            packs_request(*req, now, r),
    {
        ForyRequest {
            id: req.id,
            trace: ForyTraceContext::from(&req.context.trace_context),
            deadline_ns: req.context.deadline.remaining_at(now),
            message: req.message.clone(),
        }
    }

    /// The request as it travels when it is written now. The deadline is a time
    /// on `clock`.
    pub fn from_request(req: &Request<T>, clock: &Clock) -> (r: ForyRequest<T>)
        ensures
            exists|now: Instant| #[trigger]
                packs_request(*req, now, r) && call_ensures(Clock::now, (clock,), now),
    {
        let now = clock.now();
        ForyRequest::from_request_at(req, now)
    }
}

impl<T> ForyRequest<T> {
    /// The request that has travelled, as it is taken in at `now`.
    pub fn into_request_at(self, now: Instant) -> (r: Request<T>)
        requires
            now.nanos + self.deadline_ns <= u128::MAX,
        ensures
            unpacks_request(self, now, r),
    {
        Request {
            context: context::Context {
                deadline: now.after(self.deadline_ns),
                trace_context: trace::Context::from(self.trace),
            },
            id: self.id,
            message: self.message,
        }
    }

    /// The request that has travelled, as it is taken in now. The deadline is a
    /// time on `clock`.
    pub fn into_request(self, clock: &Clock) -> (r: Request<T>)
        ensures
            exists|now: Instant| #[trigger]
                unpacks_request(self, now, r) && call_ensures(Clock::now, (clock,), now),
    {
        let now = clock.now();
        self.into_request_at(now)
    }
}

/// `packed` is `message` as it travels when it is written at `now`.
pub open spec fn packs_message<T: Clone>(
    message: ClientMessage<T>,
    now: Instant,
    packed: ForyClientMessage<T>,
) -> bool {
    match message {
        ClientMessage::Request(req) => packed matches ForyClientMessage::Request(p)
            && packs_request(req, now, p),
        ClientMessage::Cancel { trace_context, request_id } => packed
            == ForyClientMessage::<T>::Cancel { trace: packed_trace(trace_context), request_id },
    }
}

/// `message` is a client's message that has travelled, as it is taken in at
/// `now`.
pub open spec fn unpacks_message<T>(
    packed: ForyClientMessage<T>,
    now: Instant,
    message: ClientMessage<T>,
) -> bool {
    match packed {
        ForyClientMessage::Request(p) => message matches ClientMessage::Request(req)
            && unpacks_request(p, now, req),
        ForyClientMessage::Cancel { trace, request_id } => message == ClientMessage::<T>::Cancel {
            trace_context: unpacked_trace(trace),
            request_id,
        },
    }
}

impl<T: Clone> ForyClientMessage<T> {
    /// The message as it travels when it is written at `now`.
    pub fn from_message_at(msg: &ClientMessage<T>, now: Instant) -> (r: ForyClientMessage<T>)
        ensures
            packs_message(*msg, now, r),
    {
        match msg {
            ClientMessage::Request(req) => {
                ForyClientMessage::Request(ForyRequest::from_request_at(req, now))
            },
            ClientMessage::Cancel { trace_context, request_id } => ForyClientMessage::Cancel {
                trace: ForyTraceContext::from(trace_context),
                request_id: *request_id,
            },
        }
    }

    /// The message as it travels when it is written now. A deadline is a time on
    /// `clock`.
    pub fn from_message(msg: &ClientMessage<T>, clock: &Clock) -> (r: ForyClientMessage<T>)
        ensures
            exists|now: Instant| #[trigger]
                packs_message(*msg, now, r) && call_ensures(Clock::now, (clock,), now),
    {
        let now = clock.now();
        ForyClientMessage::from_message_at(msg, now)
    }
}

impl<T> ForyClientMessage<T> {
    /// The message that has travelled, as it is taken in at `now`.
    pub fn into_message_at(self, now: Instant) -> (r: ClientMessage<T>)
        requires
            self matches ForyClientMessage::Request(p) ==> now.nanos + p.deadline_ns <= u128::MAX,
        ensures
            unpacks_message(self, now, r),
    {
        match self {
            ForyClientMessage::Request(fr) => ClientMessage::Request(fr.into_request_at(now)),
            ForyClientMessage::Cancel { trace, request_id } => ClientMessage::Cancel {
                trace_context: trace::Context::from(trace),
                request_id,
            },
        }
    }

    /// The message that has travelled, as it is taken in now. A deadline is a
    /// time on `clock`.
    pub fn into_message(self, clock: &Clock) -> (r: ClientMessage<T>)
        ensures
            exists|now: Instant| #[trigger]
                unpacks_message(self, now, r) && call_ensures(Clock::now, (clock,), now),
    {
        let now = clock.now();
        self.into_message_at(now)
    }
}

} // verus!
