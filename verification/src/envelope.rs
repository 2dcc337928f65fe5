//! The envelope types: what a client sends and what a server answers, in the
//! form in which they travel.
use fory_core::{ReadContext, WriteContext};
use vstd::prelude::*;

use crate::codec::{byte_error, read_discriminant, write_discriminant};
use crate::encoding::u8_at;
use crate::registration::EnvelopeType;
use crate::wire::{
    chain, followed_by, lemma_appended, lemma_two_writes, may_chain, may_follow, reading_gives,
    writing_gives, Fault, Reading, RoundTrip, WireError, WireValue, Writing,
};

verus! {

/// What the leading byte of an enum reads as.
pub open spec fn discriminant_reading(s: Seq<u8>, at: nat) -> Reading<u8> {
    match u8_at(s, at) {
        Some(v) => (1, Ok(v)),
        None => (0, Err(Fault::Refused(byte_error(s, at)))),
    }
}

/// What is written for the leading byte of an enum.
pub open spec fn discriminant_writing(discriminant: u8) -> Writing {
    Writing::Complete(seq![discriminant])
}

/// A trace context, as it travels.
#[derive(Debug, Clone)]
pub struct ForyTraceContext {
    /// Raw bits of the trace's identifier.
    pub trace_id: u128,
    /// Raw bits of the span's identifier.
    pub span_id: u64,
    /// Sampling decision: 0 = unsampled, 1 = sampled.
    pub sampling: u8,
}

impl WireValue for ForyTraceContext {
    type Model = ForyTraceContext;

    open spec fn model(&self) -> ForyTraceContext {
        *self
    }

    open spec fn default_model() -> ForyTraceContext {
        ForyTraceContext { trace_id: 0, span_id: 0, sampling: 0 }
    }

    open spec fn writable(v: ForyTraceContext) -> bool {
        true
    }

    open spec fn writing(v: ForyTraceContext, cross_language: bool) -> Writing {
        followed_by(
            u128::writing(v.trace_id, cross_language),
            followed_by(
                u64::writing(v.span_id, cross_language),
                u8::writing(v.sampling, cross_language),
            ),
        )
    }

    open spec fn reading(s: Seq<u8>, at: nat) -> Reading<ForyTraceContext> {
        chain(
            u128::reading(s, at),
            |trace_id: u128, n: nat|
                chain(
                    u64::reading(s, at + n),
                    |span_id: u64, m: nat|
                        chain(
                            u8::reading(s, at + n + m),
                            |sampling: u8, k: nat|
                                (0, Ok(ForyTraceContext { trace_id, span_id, sampling })),
                        ),
                ),
        )
    }

    fn fory_default() -> (r: ForyTraceContext) {
        ForyTraceContext { trace_id: 0, span_id: 0, sampling: 0 }
    }

    fn fory_write_data(&self, context: &mut WriteContext) -> (r: Result<(), WireError>) {
        broadcast use lemma_appended, lemma_two_writes;

        self.trace_id.fory_write_data(context)?;
        self.span_id.fory_write_data(context)?;
        self.sampling.fory_write_data(context)?;
        Ok(())
    }

    fn fory_read_data(context: &mut ReadContext) -> (r: Result<ForyTraceContext, WireError>) {
        let trace_id: u128 = u128::fory_read_data(context)?;
        let span_id: u64 = u64::fory_read_data(context)?;
        let sampling: u8 = u8::fory_read_data(context)?;
        Ok(ForyTraceContext { trace_id, span_id, sampling })
    }
}

impl RoundTrip for ForyTraceContext {
    open spec fn faithful(v: ForyTraceContext) -> bool {
        true
    }

    proof fn reading_is_bounded(s: Seq<u8>, at: nat) {
        u128::reading_is_bounded(s, at);
        let n = u128::reading(s, at).0;
        u64::reading_is_bounded(s, at + n);
        let m = u64::reading(s, at + n).0;
        u8::reading_is_bounded(s, at + n + m);
    }

    proof fn reading_inverts_writing(
        v: ForyTraceContext,
        cross_language: bool,
        bytes: Seq<u8>,
        before: Seq<u8>,
        rest: Seq<u8>,
    ) {
        let a = u128::writing(v.trace_id, cross_language)->Complete_0;
        let b = u64::writing(v.span_id, cross_language)->Complete_0;
        let c = u8::writing(v.sampling, cross_language)->Complete_0;
        let s = before + bytes + rest;
        assert(s =~= before + a + (b + c + rest));
        u128::reading_inverts_writing(v.trace_id, cross_language, a, before, b + c + rest);
        assert(s =~= (before + a) + b + (c + rest));
        u64::reading_inverts_writing(v.span_id, cross_language, b, before + a, c + rest);
        assert(s =~= (before + a + b) + c + rest);
        u8::reading_inverts_writing(v.sampling, cross_language, c, before + a + b, rest);
    }
}

/// A server's error, as it travels.
#[derive(Debug, Clone)]
pub struct ForyServerError {
    /// The code of the error's kind (see [`crate::error_kind`]).
    pub kind: u32,
    /// Human-readable error detail.
    pub detail: String,
}

/// A [`ForyServerError`] as mathematics.
pub struct ServerErrorModel {
    pub kind: u32,
    pub detail: Seq<char>,
}

impl WireValue for ForyServerError {
    type Model = ServerErrorModel;

    open spec fn model(&self) -> ServerErrorModel {
        ServerErrorModel { kind: self.kind, detail: self.detail@ }
    }

    open spec fn default_model() -> ServerErrorModel {
        ServerErrorModel { kind: 0, detail: seq![] }
    }

    open spec fn writable(v: ServerErrorModel) -> bool {
        String::writable(v.detail)
    }

    open spec fn writing(v: ServerErrorModel, cross_language: bool) -> Writing {
        followed_by(
            u32::writing(v.kind, cross_language),
            String::writing(v.detail, cross_language),
        )
    }

    open spec fn reading(s: Seq<u8>, at: nat) -> Reading<ServerErrorModel> {
        chain(
            u32::reading(s, at),
            |kind: u32, n: nat|
                chain(
                    String::reading(s, at + n),
                    |detail: Seq<char>, m: nat| (0, Ok(ServerErrorModel { kind, detail })),
                ),
        )
    }

    open spec fn may_read(
        s: Seq<u8>,
        at: nat,
        end: nat,
        r: Result<ServerErrorModel, WireError>,
    ) -> bool {
        may_chain(
            u32::reading(s, at),
            |kind: u32, after: nat|
                match r {
                    Ok(error) => {
                        &&& error.kind == kind
                        &&& String::may_read(s, after, end, Ok(error.detail))
                    },
                    Err(e) => String::may_read(s, after, end, Err(e)),
                },
            at,
            end,
            r,
        )
    }

    fn fory_default() -> (r: ForyServerError) {
        ForyServerError { kind: 0, detail: String::new() }
    }

    fn fory_write_data(&self, context: &mut WriteContext) -> (r: Result<(), WireError>) {
        broadcast use lemma_appended, lemma_two_writes;

        self.kind.fory_write_data(context)?;
        self.detail.fory_write_data(context)?;
        Ok(())
    }

    fn fory_read_data(context: &mut ReadContext) -> (r: Result<ForyServerError, WireError>) {
        let kind: u32 = u32::fory_read_data(context)?;
        let detail: String = String::fory_read_data(context)?;
        Ok(ForyServerError { kind, detail })
    }
}

impl RoundTrip for ForyServerError {
    open spec fn faithful(v: ServerErrorModel) -> bool {
        String::faithful(v.detail)
    }

    proof fn reading_is_bounded(s: Seq<u8>, at: nat) {
        u32::reading_is_bounded(s, at);
        String::reading_is_bounded(s, at + u32::reading(s, at).0);
    }

    proof fn reading_inverts_writing(
        v: ServerErrorModel,
        cross_language: bool,
        bytes: Seq<u8>,
        before: Seq<u8>,
        rest: Seq<u8>,
    ) {
        let a = u32::writing(v.kind, cross_language)->Complete_0;
        let b = String::writing(v.detail, cross_language)->Complete_0;
        let s = before + bytes + rest;
        assert(s =~= before + a + (b + rest));
        u32::reading_inverts_writing(v.kind, cross_language, a, before, b + rest);
        assert(s =~= (before + a) + b + rest);
        String::reading_inverts_writing(v.detail, cross_language, b, before + a, rest);
    }
}

/// What a server answers: a payload or an error.
///
/// On the wire: one byte (0 = `Success`, 1 = `Failure`), then the payload or the error.
#[derive(Debug, Clone)]
pub enum ForyResult<T> {
    /// Successful response payload.
    Success(T),
    /// Server-side error.
    Failure(ForyServerError),
}

impl<T: WireValue> WireValue for ForyResult<T> {
    type Model = Result<T::Model, ServerErrorModel>;

    open spec fn model(&self) -> Result<T::Model, ServerErrorModel> {
        match self {
            ForyResult::Success(v) => Ok(v.model()),
            ForyResult::Failure(e) => Err(e.model()),
        }
    }

    open spec fn default_model() -> Result<T::Model, ServerErrorModel> {
        Ok(T::default_model())
    }

    open spec fn writable(v: Result<T::Model, ServerErrorModel>) -> bool {
        match v {
            Ok(payload) => T::writable(payload),
            Err(e) => ForyServerError::writable(e),
        }
    }

    open spec fn writing(v: Result<T::Model, ServerErrorModel>, cross_language: bool) -> Writing {
        match v {
            Ok(payload) => followed_by(
                discriminant_writing(0),
                T::writing(payload, cross_language),
            ),
            Err(e) => followed_by(
                discriminant_writing(1),
                ForyServerError::writing(e, cross_language),
            ),
        }
    }

    open spec fn reading(s: Seq<u8>, at: nat) -> Reading<Result<T::Model, ServerErrorModel>> {
        chain(
            discriminant_reading(s, at),
            |discriminant: u8, n: nat|
                if discriminant == 0 {
                    chain(T::reading(s, at + 1), |v: T::Model, m: nat| (0, Ok(Ok(v))))
                } else if discriminant == 1 {
                    chain(
                        ForyServerError::reading(s, at + 1),
                        |e: ServerErrorModel, m: nat| (0, Ok(Err(e))),
                    )
                } else {
                    (
                        0,
                        Err(
                            Fault::UnknownDiscriminant {
                                envelope: EnvelopeType::Result,
                                discriminant,
                            },
                        ),
                    )
                },
        )
    }

    open spec fn may_write(
        v: Result<T::Model, ServerErrorModel>,
        cross_language: bool,
        bytes: Seq<u8>,
        r: Result<(), WireError>,
    ) -> bool {
        match v {
            Ok(payload) => may_follow(
                discriminant_writing(0),
                |b: Seq<u8>, q: Result<(), WireError>|
                    T::may_write(payload, cross_language, b, q),
                bytes,
                r,
            ),
            Err(e) => writing_gives(Self::writing(v, cross_language), bytes, r),
        }
    }

    open spec fn may_read(
        s: Seq<u8>,
        at: nat,
        end: nat,
        r: Result<Result<T::Model, ServerErrorModel>, WireError>,
    ) -> bool {
        may_chain(
            discriminant_reading(s, at),
            |discriminant: u8, after: nat|
                if discriminant == 0 {
                    match r {
                        Ok(Ok(v)) => T::may_read(s, after, end, Ok(v)),
                        Ok(Err(_)) => false,
                        Err(e) => T::may_read(s, after, end, Err(e)),
                    }
                } else if discriminant == 1 {
                    match r {
                        Ok(Ok(_)) => false,
                        Ok(Err(error)) => ForyServerError::may_read(s, after, end, Ok(error)),
                        Err(e) => ForyServerError::may_read(s, after, end, Err(e)),
                    }
                } else {
                    reading_gives(Self::reading(s, at), at, end, r)
                },
            at,
            end,
            r,
        )
    }

    fn fory_default() -> (r: ForyResult<T>) {
        ForyResult::Success(T::fory_default())
    }

    fn fory_write_data(&self, context: &mut WriteContext) -> (r: Result<(), WireError>) {
        broadcast use lemma_appended, lemma_two_writes;

        match self {
            ForyResult::Success(v) => {
                write_discriminant(context, 0);
                v.fory_write_data(context)?;
            },
            ForyResult::Failure(e) => {
                write_discriminant(context, 1);
                e.fory_write_data(context)?;
            },
        }
        Ok(())
    }

    fn fory_read_data(context: &mut ReadContext) -> (r: Result<ForyResult<T>, WireError>) {
        let discriminant: u8 = match read_discriminant(context) {
            Ok(d) => d,
            Err(e) => return Err(WireError::Fory(e)),
        };
        match discriminant {
            0 => {
                let v = T::fory_read_data(context)?;
                Ok(ForyResult::Success(v))
            },
            1 => {
                let e = ForyServerError::fory_read_data(context)?;
                Ok(ForyResult::Failure(e))
            },
            _ => Err(
                WireError::UnknownDiscriminant { envelope: EnvelopeType::Result, discriminant },
            ),
        }
    }
}

impl<T: RoundTrip> RoundTrip for ForyResult<T> {
    open spec fn faithful(v: Result<T::Model, ServerErrorModel>) -> bool {
        match v {
            Ok(payload) => T::faithful(payload),
            Err(e) => ForyServerError::faithful(e),
        }
    }

    proof fn reading_is_bounded(s: Seq<u8>, at: nat) {
        if at < s.len() {
            T::reading_is_bounded(s, at + 1);
            ForyServerError::reading_is_bounded(s, at + 1);
        }
    }

    proof fn reading_inverts_writing(
        v: Result<T::Model, ServerErrorModel>,
        cross_language: bool,
        bytes: Seq<u8>,
        before: Seq<u8>,
        rest: Seq<u8>,
    ) {
        let s = before + bytes + rest;
        match v {
            Ok(payload) => {
                let a = T::writing(payload, cross_language)->Complete_0;
                assert(s =~= before.push(0) + a + rest);
                T::reading_inverts_writing(payload, cross_language, a, before.push(0), rest);
            },
            Err(e) => {
                let a = ForyServerError::writing(e, cross_language)->Complete_0;
                assert(s =~= before.push(1) + a + rest);
                ForyServerError::reading_inverts_writing(
                    e,
                    cross_language,
                    a,
                    before.push(1),
                    rest,
                );
            },
        }
    }
}

/// A request, as it travels.
#[derive(Debug, Clone)]
pub struct ForyRequest<T> {
    /// Request identifier, unique within a channel.
    pub id: u64,
    /// Trace context of the request.
    pub trace: ForyTraceContext,
    /// Nanoseconds that were left when the request was written, in 64 bits.
    /// 0 = expired or no deadline.
    pub deadline_ns: u64,
    /// Request body.
    pub message: T,
}

/// A [`ForyRequest`] as mathematics.
pub struct RequestModel<M> {
    pub id: u64,
    pub trace: ForyTraceContext,
    pub deadline_ns: u64,
    pub message: M,
}

/// What is written for a request before its body.
pub open spec fn head_writing(
    id: u64,
    trace: ForyTraceContext,
    deadline_ns: u64,
    cross_language: bool,
) -> Writing {
    followed_by(
        u64::writing(id, cross_language),
        followed_by(
            ForyTraceContext::writing(trace, cross_language),
            u64::writing(deadline_ns, cross_language),
        ),
    )
}

/// What the parts of a request before its body read as: its identifier, its trace
/// context and its deadline.
pub open spec fn head_reading(s: Seq<u8>, at: nat) -> Reading<(u64, ForyTraceContext, u64)> {
    chain(
        u64::reading(s, at),
        |id: u64, n: nat|
            chain(
                ForyTraceContext::reading(s, at + n),
                |trace: ForyTraceContext, m: nat|
                    chain(
                        u64::reading(s, at + n + m),
                        |deadline_ns: u64, k: nat| (0, Ok((id, trace, deadline_ns))),
                    ),
            ),
    )
}

impl<T: WireValue> WireValue for ForyRequest<T> {
    type Model = RequestModel<T::Model>;

    open spec fn model(&self) -> RequestModel<T::Model> {
        RequestModel {
            id: self.id,
            trace: self.trace,
            deadline_ns: self.deadline_ns,
            message: self.message.model(),
        }
    }

    open spec fn default_model() -> RequestModel<T::Model> {
        RequestModel {
            id: 0,
            trace: ForyTraceContext::default_model(),
            deadline_ns: 0,
            message: T::default_model(),
        }
    }

    open spec fn writable(v: RequestModel<T::Model>) -> bool {
        T::writable(v.message)
    }

    open spec fn writing(v: RequestModel<T::Model>, cross_language: bool) -> Writing {
        followed_by(
            u64::writing(v.id, cross_language),
            followed_by(
                ForyTraceContext::writing(v.trace, cross_language),
                followed_by(
                    u64::writing(v.deadline_ns, cross_language),
                    T::writing(v.message, cross_language),
                ),
            ),
        )
    }

    open spec fn reading(s: Seq<u8>, at: nat) -> Reading<RequestModel<T::Model>> {
        chain(
            u64::reading(s, at),
            |id: u64, n: nat|
                chain(
                    ForyTraceContext::reading(s, at + n),
                    |trace: ForyTraceContext, m: nat|
                        chain(
                            u64::reading(s, at + n + m),
                            |deadline_ns: u64, k: nat|
                                chain(
                                    T::reading(s, at + n + m + k),
                                    |message: T::Model, l: nat|
                                        (0, Ok(RequestModel { id, trace, deadline_ns, message })),
                                ),
                        ),
                ),
        )
    }

    open spec fn may_write(
        v: RequestModel<T::Model>,
        cross_language: bool,
        bytes: Seq<u8>,
        r: Result<(), WireError>,
    ) -> bool {
        may_follow(
            head_writing(v.id, v.trace, v.deadline_ns, cross_language),
            |b: Seq<u8>, q: Result<(), WireError>| T::may_write(v.message, cross_language, b, q),
            bytes,
            r,
        )
    }

    open spec fn may_read(
        s: Seq<u8>,
        at: nat,
        end: nat,
        r: Result<RequestModel<T::Model>, WireError>,
    ) -> bool {
        may_chain(
            head_reading(s, at),
            |head: (u64, ForyTraceContext, u64), after: nat|
                match r {
                    Ok(req) => {
                        &&& (req.id, req.trace, req.deadline_ns) == head
                        &&& T::may_read(s, after, end, Ok(req.message))
                    },
                    Err(e) => T::may_read(s, after, end, Err(e)),
                },
            at,
            end,
            r,
        )
    }

    fn fory_default() -> (r: ForyRequest<T>) {
        ForyRequest {
            id: 0,
            trace: ForyTraceContext::fory_default(),
            deadline_ns: 0,
            message: T::fory_default(),
        }
    }

    fn fory_write_data(&self, context: &mut WriteContext) -> (r: Result<(), WireError>) {
        broadcast use lemma_appended, lemma_two_writes;

        self.id.fory_write_data(context)?;
        self.trace.fory_write_data(context)?;
        self.deadline_ns.fory_write_data(context)?;
        self.message.fory_write_data(context)?;
        Ok(())
    }

    fn fory_read_data(context: &mut ReadContext) -> (r: Result<ForyRequest<T>, WireError>) {
        let id: u64 = u64::fory_read_data(context)?;
        let trace = ForyTraceContext::fory_read_data(context)?;
        let deadline_ns: u64 = u64::fory_read_data(context)?;
        let message = T::fory_read_data(context)?;
        Ok(ForyRequest { id, trace, deadline_ns, message })
    }
}

impl<T: RoundTrip> RoundTrip for ForyRequest<T> {
    open spec fn faithful(v: RequestModel<T::Model>) -> bool {
        T::faithful(v.message)
    }

    proof fn reading_is_bounded(s: Seq<u8>, at: nat) {
        u64::reading_is_bounded(s, at);
        let n = u64::reading(s, at).0;
        ForyTraceContext::reading_is_bounded(s, at + n);
        let m = ForyTraceContext::reading(s, at + n).0;
        u64::reading_is_bounded(s, at + n + m);
        let k = u64::reading(s, at + n + m).0;
        T::reading_is_bounded(s, at + n + m + k);
    }

    proof fn reading_inverts_writing(
        v: RequestModel<T::Model>,
        cross_language: bool,
        bytes: Seq<u8>,
        before: Seq<u8>,
        rest: Seq<u8>,
    ) {
        let a = u64::writing(v.id, cross_language)->Complete_0;
        let b = ForyTraceContext::writing(v.trace, cross_language)->Complete_0;
        let c = u64::writing(v.deadline_ns, cross_language)->Complete_0;
        let d = T::writing(v.message, cross_language)->Complete_0;
        let s = before + bytes + rest;
        assert(s =~= before + a + (b + c + d + rest));
        u64::reading_inverts_writing(v.id, cross_language, a, before, b + c + d + rest);
        assert(s =~= (before + a) + b + (c + d + rest));
        ForyTraceContext::reading_inverts_writing(
            v.trace,
            cross_language,
            b,
            before + a,
            c + d + rest,
        );
        assert(s =~= (before + a + b) + c + (d + rest));
        u64::reading_inverts_writing(v.deadline_ns, cross_language, c, before + a + b, d + rest);
        assert(s =~= (before + a + b + c) + d + rest);
        T::reading_inverts_writing(v.message, cross_language, d, before + a + b + c, rest);
    }
}

/// A response, as it travels.
#[derive(Debug, Clone)]
pub struct ForyResponse<T> {
    /// Identifier of the request that is answered.
    pub request_id: u64,
    /// Response body or server error.
    pub message: ForyResult<T>,
}

/// A [`ForyResponse`] as mathematics.
pub struct ResponseModel<M> {
    pub request_id: u64,
    pub message: Result<M, ServerErrorModel>,
}

impl<T: WireValue> WireValue for ForyResponse<T> {
    type Model = ResponseModel<T::Model>;

    open spec fn model(&self) -> ResponseModel<T::Model> {
        ResponseModel { request_id: self.request_id, message: self.message.model() }
    }

    open spec fn default_model() -> ResponseModel<T::Model> {
        ResponseModel { request_id: 0, message: ForyResult::<T>::default_model() }
    }

    open spec fn writable(v: ResponseModel<T::Model>) -> bool {
        ForyResult::<T>::writable(v.message)
    }

    open spec fn writing(v: ResponseModel<T::Model>, cross_language: bool) -> Writing {
        followed_by(
            u64::writing(v.request_id, cross_language),
            ForyResult::<T>::writing(v.message, cross_language),
        )
    }

    open spec fn reading(s: Seq<u8>, at: nat) -> Reading<ResponseModel<T::Model>> {
        chain(
            u64::reading(s, at),
            |request_id: u64, n: nat|
                chain(
                    ForyResult::<T>::reading(s, at + n),
                    |message: Result<T::Model, ServerErrorModel>, m: nat|
                        (0, Ok(ResponseModel { request_id, message })),
                ),
        )
    }

    open spec fn may_write(
        v: ResponseModel<T::Model>,
        cross_language: bool,
        bytes: Seq<u8>,
        r: Result<(), WireError>,
    ) -> bool {
        may_follow(
            u64::writing(v.request_id, cross_language),
            |b: Seq<u8>, q: Result<(), WireError>|
                ForyResult::<T>::may_write(v.message, cross_language, b, q),
            bytes,
            r,
        )
    }

    open spec fn may_read(
        s: Seq<u8>,
        at: nat,
        end: nat,
        r: Result<ResponseModel<T::Model>, WireError>,
    ) -> bool {
        may_chain(
            u64::reading(s, at),
            |request_id: u64, after: nat|
                match r {
                    Ok(resp) => {
                        &&& resp.request_id == request_id
                        &&& ForyResult::<T>::may_read(s, after, end, Ok(resp.message))
                    },
                    Err(e) => ForyResult::<T>::may_read(s, after, end, Err(e)),
                },
            at,
            end,
            r,
        )
    }

    fn fory_default() -> (r: ForyResponse<T>) {
        ForyResponse { request_id: 0, message: ForyResult::fory_default() }
    }

    fn fory_write_data(&self, context: &mut WriteContext) -> (r: Result<(), WireError>) {
        broadcast use lemma_appended, lemma_two_writes;

        self.request_id.fory_write_data(context)?;
        self.message.fory_write_data(context)?;
        Ok(())
    }

    fn fory_read_data(context: &mut ReadContext) -> (r: Result<ForyResponse<T>, WireError>) {
        let request_id: u64 = u64::fory_read_data(context)?;
        let message = ForyResult::<T>::fory_read_data(context)?;
        Ok(ForyResponse { request_id, message })
    }
}

impl<T: RoundTrip> RoundTrip for ForyResponse<T> {
    open spec fn faithful(v: ResponseModel<T::Model>) -> bool {
        ForyResult::<T>::faithful(v.message)
    }

    proof fn reading_is_bounded(s: Seq<u8>, at: nat) {
        u64::reading_is_bounded(s, at);
        ForyResult::<T>::reading_is_bounded(s, at + u64::reading(s, at).0);
    }

    proof fn reading_inverts_writing(
        v: ResponseModel<T::Model>,
        cross_language: bool,
        bytes: Seq<u8>,
        before: Seq<u8>,
        rest: Seq<u8>,
    ) {
        let a = u64::writing(v.request_id, cross_language)->Complete_0;
        let b = ForyResult::<T>::writing(v.message, cross_language)->Complete_0;
        let s = before + bytes + rest;
        assert(s =~= before + a + (b + rest));
        u64::reading_inverts_writing(v.request_id, cross_language, a, before, b + rest);
        assert(s =~= (before + a) + b + rest);
        ForyResult::<T>::reading_inverts_writing(v.message, cross_language, b, before + a, rest);
    }
}

/// A client's message, as it travels.
///
/// On the wire: one byte (0 = `Request`, 1 = `Cancel`), then the variant's parts.
#[derive(Debug, Clone)]
pub enum ForyClientMessage<T> {
    /// A new request from the client.
    Request(ForyRequest<T>),
    /// Cancellation of a request in flight.
    Cancel {
        /// Trace context of the request to cancel.
        trace: ForyTraceContext,
        /// Identifier of the request to cancel.
        request_id: u64,
    },
}

/// A [`ForyClientMessage`] as mathematics.
pub enum ClientMessageModel<M> {
    Request(RequestModel<M>),
    Cancel { trace: ForyTraceContext, request_id: u64 },
}

impl<T: WireValue> WireValue for ForyClientMessage<T> {
    type Model = ClientMessageModel<T::Model>;

    open spec fn model(&self) -> ClientMessageModel<T::Model> {
        match self {
            ForyClientMessage::Request(req) => ClientMessageModel::Request(req.model()),
            ForyClientMessage::Cancel { trace, request_id } => ClientMessageModel::Cancel {
                trace: *trace,
                request_id: *request_id,
            },
        }
    }

    open spec fn default_model() -> ClientMessageModel<T::Model> {
        ClientMessageModel::Request(ForyRequest::<T>::default_model())
    }

    open spec fn writable(v: ClientMessageModel<T::Model>) -> bool {
        match v {
            ClientMessageModel::Request(req) => ForyRequest::<T>::writable(req),
            ClientMessageModel::Cancel { .. } => true,
        }
    }

    open spec fn writing(v: ClientMessageModel<T::Model>, cross_language: bool) -> Writing {
        match v {
            ClientMessageModel::Request(req) => followed_by(
                discriminant_writing(0),
                ForyRequest::<T>::writing(req, cross_language),
            ),
            ClientMessageModel::Cancel { trace, request_id } => followed_by(
                discriminant_writing(1),
                followed_by(
                    ForyTraceContext::writing(trace, cross_language),
                    u64::writing(request_id, cross_language),
                ),
            ),
        }
    }

    open spec fn reading(s: Seq<u8>, at: nat) -> Reading<ClientMessageModel<T::Model>> {
        chain(
            discriminant_reading(s, at),
            |discriminant: u8, n: nat|
                if discriminant == 0 {
                    chain(
                        ForyRequest::<T>::reading(s, at + 1),
                        |req: RequestModel<T::Model>, m: nat|
                            (0, Ok(ClientMessageModel::Request(req))),
                    )
                } else if discriminant == 1 {
                    chain(
                        ForyTraceContext::reading(s, at + 1),
                        |trace: ForyTraceContext, m: nat|
                            chain(
                                u64::reading(s, at + 1 + m),
                                |request_id: u64, k: nat|
                                    (0, Ok(ClientMessageModel::Cancel { trace, request_id })),
                            ),
                    )
                } else {
                    (
                        0,
                        Err(
                            Fault::UnknownDiscriminant {
                                envelope: EnvelopeType::ClientMessage,
                                discriminant,
                            },
                        ),
                    )
                },
        )
    }

    open spec fn may_write(
        v: ClientMessageModel<T::Model>,
        cross_language: bool,
        bytes: Seq<u8>,
        r: Result<(), WireError>,
    ) -> bool {
        match v {
            ClientMessageModel::Request(req) => may_follow(
                discriminant_writing(0),
                |b: Seq<u8>, q: Result<(), WireError>|
                    ForyRequest::<T>::may_write(req, cross_language, b, q),
                bytes,
                r,
            ),
            ClientMessageModel::Cancel { .. } => writing_gives(
                Self::writing(v, cross_language),
                bytes,
                r,
            ),
        }
    }

    open spec fn may_read(
        s: Seq<u8>,
        at: nat,
        end: nat,
        r: Result<ClientMessageModel<T::Model>, WireError>,
    ) -> bool {
        may_chain(
            discriminant_reading(s, at),
            |discriminant: u8, after: nat|
                if discriminant == 0 {
                    match r {
                        Ok(ClientMessageModel::Request(req)) => ForyRequest::<T>::may_read(
                            s,
                            after,
                            end,
                            Ok(req),
                        ),
                        Ok(ClientMessageModel::Cancel { .. }) => false,
                        Err(e) => ForyRequest::<T>::may_read(s, after, end, Err(e)),
                    }
                } else {
                    reading_gives(Self::reading(s, at), at, end, r)
                },
            at,
            end,
            r,
        )
    }

    fn fory_default() -> (r: ForyClientMessage<T>) {
        ForyClientMessage::Request(ForyRequest::fory_default())
    }

    fn fory_write_data(&self, context: &mut WriteContext) -> (r: Result<(), WireError>) {
        broadcast use lemma_appended, lemma_two_writes;

        match self {
            ForyClientMessage::Request(req) => {
                write_discriminant(context, 0);
                req.fory_write_data(context)?;
            },
            ForyClientMessage::Cancel { trace, request_id } => {
                write_discriminant(context, 1);
                trace.fory_write_data(context)?;
                request_id.fory_write_data(context)?;
            },
        }
        Ok(())
    }

    fn fory_read_data(context: &mut ReadContext) -> (r: Result<ForyClientMessage<T>, WireError>) {
        let discriminant: u8 = match read_discriminant(context) {
            Ok(d) => d,
            Err(e) => return Err(WireError::Fory(e)),
        };
        match discriminant {
            0 => {
                let req = ForyRequest::<T>::fory_read_data(context)?;
                Ok(ForyClientMessage::Request(req))
            },
            1 => {
                let trace = ForyTraceContext::fory_read_data(context)?;
                let request_id: u64 = u64::fory_read_data(context)?;
                Ok(ForyClientMessage::Cancel { trace, request_id })
            },
            _ => Err(
                WireError::UnknownDiscriminant {
                    envelope: EnvelopeType::ClientMessage,
                    discriminant,
                },
            ),
        }
    }
}

impl<T: RoundTrip> RoundTrip for ForyClientMessage<T> {
    open spec fn faithful(v: ClientMessageModel<T::Model>) -> bool {
        match v {
            ClientMessageModel::Request(req) => ForyRequest::<T>::faithful(req),
            ClientMessageModel::Cancel { .. } => true,
        }
    }

    proof fn reading_is_bounded(s: Seq<u8>, at: nat) {
        if at < s.len() {
            ForyRequest::<T>::reading_is_bounded(s, at + 1);
            ForyTraceContext::reading_is_bounded(s, at + 1);
            let m = ForyTraceContext::reading(s, at + 1).0;
            u64::reading_is_bounded(s, at + 1 + m);
        }
    }

    proof fn reading_inverts_writing(
        v: ClientMessageModel<T::Model>,
        cross_language: bool,
        bytes: Seq<u8>,
        before: Seq<u8>,
        rest: Seq<u8>,
    ) {
        let s = before + bytes + rest;
        match v {
            ClientMessageModel::Request(req) => {
                let a = ForyRequest::<T>::writing(req, cross_language)->Complete_0;
                assert(s =~= before.push(0) + a + rest);
                ForyRequest::<T>::reading_inverts_writing(
                    req,
                    cross_language,
                    a,
                    before.push(0),
                    rest,
                );
            },
            ClientMessageModel::Cancel { trace, request_id } => {
                let a = ForyTraceContext::writing(trace, cross_language)->Complete_0;
                let b = u64::writing(request_id, cross_language)->Complete_0;
                assert(s =~= before.push(1) + a + (b + rest));
                ForyTraceContext::reading_inverts_writing(
                    trace,
                    cross_language,
                    a,
                    before.push(1),
                    b + rest,
                );
                assert(s =~= (before.push(1) + a) + b + rest);
                u64::reading_inverts_writing(
                    request_id,
                    cross_language,
                    b,
                    before.push(1) + a,
                    rest,
                );
            },
        }
    }
}

} // verus!
