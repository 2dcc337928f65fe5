//! Which value a read gives, for every input, and which bytes it takes.
use fory_core::ReadContext;
use vstd::prelude::*;
use vstd::utf8::{decode_utf8, valid_utf8};

use crate::codec::{
    byte_error, input, position, string_error, u128_error, u32_error, u64_error, u8_error,
};
use crate::encoding::{
    latin1_text, le_bytes, lemma_u128_round_trip, lemma_u64_round_trip,
    string_at, u128_at, u32_at, u64_at, u8_at, utf16_text, utf16_units, var_bytes, StringFrame,
};
use crate::envelope::{
    ForyClientMessage, ForyRequest, ForyResponse, ForyResult, ForyServerError, ForyTraceContext,
};
use crate::registration::EnvelopeType;
use crate::wire::{Fault, WireError, WireValue};

verus! {

/// A `u8` is read as the byte at the reader's place. Where there is none, nothing
/// is taken.
pub proof fn law_u8_is_read(context: &mut ReadContext, r: Result<u8, WireError>)
    requires
        call_ensures(<u8 as WireValue>::fory_read_data, (context,), r),
    ensures
        input(*final(context)) == input(*old(context)),
        match u8_at(input(*old(context)), position(*old(context))) {
            Some(v) => r == Ok::<u8, WireError>(v) && position(*final(context)) == position(
                *old(context),
            ) + 1,
            None => r == Err::<u8, WireError>(
                WireError::Fory(u8_error(input(*old(context)), position(*old(context)))),
            ) && position(*final(context)) == position(*old(context)),
        },
{
}

/// A `u32` is read as the number at the reader's place. Where there is none,
/// nothing is taken.
pub proof fn law_u32_is_read(context: &mut ReadContext, r: Result<u32, WireError>)
    requires
        call_ensures(<u32 as WireValue>::fory_read_data, (context,), r),
    ensures
        input(*final(context)) == input(*old(context)),
        match u32_at(input(*old(context)), position(*old(context))) {
            Some((v, n)) => r == Ok::<u32, WireError>(v) && position(*final(context)) == position(
                *old(context),
            ) + n,
            None => r == Err::<u32, WireError>(
                WireError::Fory(u32_error(input(*old(context)), position(*old(context)))),
            ) && position(*final(context)) == position(*old(context)),
        },
{
}

/// A `u64` is read as the number at the reader's place. Where there is none,
/// nothing is taken.
pub proof fn law_u64_is_read(context: &mut ReadContext, r: Result<u64, WireError>)
    requires
        call_ensures(<u64 as WireValue>::fory_read_data, (context,), r),
    ensures
        input(*final(context)) == input(*old(context)),
        match u64_at(input(*old(context)), position(*old(context))) {
            Some((v, n)) => r == Ok::<u64, WireError>(v) && position(*final(context)) == position(
                *old(context),
            ) + n,
            None => r == Err::<u64, WireError>(
                WireError::Fory(u64_error(input(*old(context)), position(*old(context)))),
            ) && position(*final(context)) == position(*old(context)),
        },
{
}

/// A `u128` is read as the sixteen bytes at the reader's place. Where there are
/// fewer, nothing is taken.
pub proof fn law_u128_is_read(context: &mut ReadContext, r: Result<u128, WireError>)
    requires
        call_ensures(<u128 as WireValue>::fory_read_data, (context,), r),
    ensures
        input(*final(context)) == input(*old(context)),
        match u128_at(input(*old(context)), position(*old(context))) {
            Some(v) => r == Ok::<u128, WireError>(v) && position(*final(context)) == position(
                *old(context),
            ) + 16,
            None => r == Err::<u128, WireError>(
                WireError::Fory(u128_error(input(*old(context)), position(*old(context)))),
            ) && position(*final(context)) == position(*old(context)),
        },
{
}

/// A string is read as the text in the body at the reader's place, by its mark.
pub proof fn law_string_is_read(context: &mut ReadContext, r: Result<String, WireError>)
    requires
        call_ensures(<String as WireValue>::fory_read_data, (context,), r),
    ensures
        input(*final(context)) == input(*old(context)),
        ({
            let (n, frame) = string_at(input(*old(context)), position(*old(context)));
            &&& frame !is TooLong ==> position(*final(context)) == position(*old(context)) + n
            &&& match frame {
                StringFrame::Body { mark, body } => {
                    &&& mark == 0 ==> (r matches Ok(text) && text@ == latin1_text(body))
                    &&& mark == 1 ==> (r matches Ok(text) && text@ == utf16_text(
                        utf16_units(body),
                    ))
                    &&& mark > 1 && valid_utf8(body) ==> (r matches Ok(text) && text@
                        == decode_utf8(body))
                },
                StringFrame::Nothing => r == Err::<String, WireError>(
                    WireError::Fory(
                        string_error(input(*old(context)), position(*old(context))),
                    ),
                ),
                StringFrame::TooLong => true,
            }
        }),
{
}

/// A trace context is read as the three numbers that stand one after the other.
pub proof fn law_trace_context_is_read(
    context: &mut ReadContext,
    r: Result<ForyTraceContext, WireError>,
    trace_id: u128,
    span_id: u64,
    m: nat,
    sampling: u8,
)
    requires
        call_ensures(<ForyTraceContext as WireValue>::fory_read_data, (context,), r),
        u128_at(input(*old(context)), position(*old(context))) == Some(trace_id),
        u64_at(input(*old(context)), position(*old(context)) + 16) == Some((span_id, m)),
        u8_at(input(*old(context)), position(*old(context)) + 16 + m) == Some(sampling),
    ensures
        r matches Ok(v) && v.trace_id == trace_id && v.span_id == span_id && v.sampling == sampling,
        position(*final(context)) == position(*old(context)) + 17 + m,
{
}

/// A trace context is refused at the first of its numbers that is not there, with
/// the bytes before it taken.
pub proof fn law_trace_context_needs_its_parts(
    context: &mut ReadContext,
    r: Result<ForyTraceContext, WireError>,
)
    requires
        call_ensures(<ForyTraceContext as WireValue>::fory_read_data, (context,), r),
    ensures
        ({
            let s = input(*old(context));
            let at = position(*old(context));
            match u128_at(s, at) {
                None => {
                    &&& r matches Err(WireError::Fory(e)) && e == u128_error(s, at)
                    &&& position(*final(context)) == at
                },
                Some(_) => match u64_at(s, at + 16) {
                    None => {
                        &&& r matches Err(WireError::Fory(e)) && e == u64_error(s, at + 16)
                        &&& position(*final(context)) == at + 16
                    },
                    Some((_, m)) => u8_at(s, at + 16 + m) is None ==> {
                        &&& r matches Err(WireError::Fory(e)) && e == u8_error(s, at + 16 + m)
                        &&& position(*final(context)) == at + 16 + m
                    },
                },
            }
        }),
{
}

/// A server's error is read as a code and a detail that stand one after the other.
/// Where one is not there, it is refused with the bytes before it taken.
pub proof fn law_server_error_is_read(
    context: &mut ReadContext,
    r: Result<ForyServerError, WireError>,
)
    requires
        call_ensures(<ForyServerError as WireValue>::fory_read_data, (context,), r),
    ensures
        ({
            let s = input(*old(context));
            let at = position(*old(context));
            match u32_at(s, at) {
                None => {
                    &&& r matches Err(WireError::Fory(e)) && e == u32_error(s, at)
                    &&& position(*final(context)) == at
                },
                Some((kind, n)) => {
                    &&& r matches Ok(v) ==> v.kind == kind
                    &&& match String::reading(s, at + n) {
                        (l, Ok(detail)) => {
                            &&& r matches Ok(v) && v.detail@ == detail
                            &&& position(*final(context)) == at + n + l
                        },
                        (l, Err(Fault::Refused(error))) => {
                            &&& r matches Err(WireError::Fory(e)) && e == error
                            &&& position(*final(context)) == at + n + l
                        },
                        _ => true,
                    }
                },
            }
        }),
{
}

/// 0 is read as a success with the payload that follows, 1 as a failure with the
/// code and the detail that follow, and nothing else as a result.
pub proof fn law_result_is_read<T: WireValue>(
    context: &mut ReadContext,
    r: Result<ForyResult<T>, WireError>,
)
    requires
        call_ensures(<ForyResult<T> as WireValue>::fory_read_data, (context,), r),
    ensures
        ({
            let s = input(*old(context));
            let at = position(*old(context));
            let end = position(*final(context));
            match u8_at(s, at) {
                None => r matches Err(WireError::Fory(e)) && e == byte_error(s, at) && end == at,
                Some(discriminant) => {
                    &&& discriminant == 0 ==> {
                        &&& r matches Ok(v) ==> v is Success
                        &&& T::reading(s, at + 1) matches (l, Ok(payload)) ==> {
                            &&& r matches Ok(ForyResult::Success(p)) && p.model() == payload
                            &&& end == at + 1 + l
                        }
                        &&& T::reading(s, at + 1) matches (l, Err(Fault::Refused(error))) ==> {
                            &&& r matches Err(WireError::Fory(e)) && e == error
                            &&& end == at + 1 + l
                        }
                        &&& T::reading(s, at + 1) matches (
                            l,
                            Err(Fault::UnknownDiscriminant { envelope, discriminant }),
                        ) ==> {
                            &&& r == Err::<ForyResult<T>, WireError>(
                                WireError::UnknownDiscriminant { envelope, discriminant },
                            )
                            &&& end == at + 1 + l
                        }
                        &&& r matches Ok(ForyResult::Success(p)) ==> T::may_read(
                            s,
                            at + 1,
                            end,
                            Ok(p.model()),
                        )
                        &&& r matches Err(e) ==> T::may_read(s, at + 1, end, Err(e))
                    }
                    &&& discriminant == 1 ==> match u32_at(s, at + 1) {
                        None => {
                            &&& r matches Err(WireError::Fory(e)) && e == u32_error(s, at + 1)
                            &&& end == at + 1
                        },
                        Some((kind, n)) => {
                            &&& r matches Ok(v) ==> v matches ForyResult::Failure(f) && f.kind
                                == kind
                            &&& String::reading(s, at + 1 + n) matches (l, Ok(detail)) ==> {
                                &&& r matches Ok(ForyResult::Failure(f)) && f.detail@ == detail
                                &&& end == at + 1 + n + l
                            }
                            &&& String::reading(s, at + 1 + n) matches (
                                l,
                                Err(Fault::Refused(error)),
                            ) ==> {
                                &&& r matches Err(WireError::Fory(e)) && e == error
                                &&& end == at + 1 + n + l
                            }
                        },
                    }
                    &&& discriminant > 1 ==> {
                        &&& r == Err::<ForyResult<T>, WireError>(
                            WireError::UnknownDiscriminant {
                                envelope: EnvelopeType::Result,
                                discriminant,
                            },
                        )
                        &&& end == at + 1
                    }
                },
            }
        }),
{
}

/// A request is read as the numbers that stand one after the other, each in its
/// field, and the body that follows them.
pub proof fn law_request_is_read<T: WireValue>(
    context: &mut ReadContext,
    r: Result<ForyRequest<T>, WireError>,
    id: u64,
    n: nat,
    trace_id: u128,
    span_id: u64,
    m: nat,
    sampling: u8,
    deadline_ns: u64,
    k: nat,
)
    requires
        call_ensures(<ForyRequest<T> as WireValue>::fory_read_data, (context,), r),
        u64_at(input(*old(context)), position(*old(context))) == Some((id, n)),
        u128_at(input(*old(context)), position(*old(context)) + n) == Some(trace_id),
        u64_at(input(*old(context)), position(*old(context)) + n + 16) == Some((span_id, m)),
        u8_at(input(*old(context)), position(*old(context)) + n + 16 + m) == Some(sampling),
        u64_at(input(*old(context)), position(*old(context)) + n + 17 + m) == Some(
            (deadline_ns, k),
        ),
    ensures
        r matches Ok(v) ==> {
            &&& v.id == id
            &&& v.trace.trace_id == trace_id
            &&& v.trace.span_id == span_id
            &&& v.trace.sampling == sampling
            &&& v.deadline_ns == deadline_ns
        },
        ({
            let s = input(*old(context));
            let at = position(*old(context)) + n + 17 + m + k;
            let end = position(*final(context));
            &&& T::reading(s, at) matches (l, Ok(message)) ==> {
                &&& r matches Ok(v) && v.message.model() == message
                &&& end == at + l
            }
            &&& T::reading(s, at) matches (l, Err(Fault::Refused(error))) ==> {
                &&& r matches Err(WireError::Fory(e)) && e == error
                &&& end == at + l
            }
            &&& T::reading(s, at) matches (
                l,
                Err(Fault::UnknownDiscriminant { envelope, discriminant }),
            ) ==> {
                &&& r == Err::<ForyRequest<T>, WireError>(
                    WireError::UnknownDiscriminant { envelope, discriminant },
                )
                &&& end == at + l
            }
            &&& r matches Ok(v) ==> T::may_read(s, at, end, Ok(v.message.model()))
            &&& r matches Err(e) ==> T::may_read(s, at, end, Err(e))
        }),
{
}

/// A request is refused at the first of its numbers that is not there, with the
/// bytes before it taken.
pub proof fn law_request_needs_its_parts<T: WireValue>(
    context: &mut ReadContext,
    r: Result<ForyRequest<T>, WireError>,
)
    requires
        call_ensures(<ForyRequest<T> as WireValue>::fory_read_data, (context,), r),
    ensures
        ({
            let s = input(*old(context));
            let at = position(*old(context));
            let end = position(*final(context));
            match u64_at(s, at) {
                None => r matches Err(WireError::Fory(e)) && e == u64_error(s, at) && end == at,
                Some((_, n)) => match u128_at(s, at + n) {
                    None => r matches Err(WireError::Fory(e)) && e == u128_error(s, at + n) && end
                        == at + n,
                    Some(_) => match u64_at(s, at + n + 16) {
                        None => r matches Err(WireError::Fory(e)) && e == u64_error(s, at + n + 16)
                            && end == at + n + 16,
                        Some((_, m)) => match u8_at(s, at + n + 16 + m) {
                            None => r matches Err(WireError::Fory(e)) && e == u8_error(
                                s,
                                at + n + 16 + m,
                            ) && end == at + n + 16 + m,
                            Some(_) => u64_at(s, at + n + 17 + m) is None ==> (
                            r matches Err(WireError::Fory(e)) && e == u64_error(s, at + n + 17 + m)
                                && end == at + n + 17 + m),
                        },
                    },
                },
            }
        }),
{
}

/// Where the bytes of a request's fields stand one after the other, reading there
/// gives a request with those very fields.
pub proof fn law_request_bytes_are_read<T: WireValue>(
    context: &mut ReadContext,
    r: Result<ForyRequest<T>, WireError>,
    before: Seq<u8>,
    id: u64,
    trace_id: u128,
    span_id: u64,
    sampling: u8,
    deadline_ns: u64,
    body: Seq<u8>,
)
    requires
        call_ensures(<ForyRequest<T> as WireValue>::fory_read_data, (context,), r),
        input(*old(context)) == before + var_bytes(id as nat, 8) + le_bytes(trace_id as nat, 16)
            + var_bytes(span_id as nat, 8) + seq![sampling] + var_bytes(deadline_ns as nat, 8)
            + body,
        position(*old(context)) == before.len(),
        T::reading(input(*old(context)), (input(*old(context)).len() - body.len()) as nat).1 is Ok,
    ensures
        r matches Ok(v) && {
            &&& v.id == id
            &&& v.trace.trace_id == trace_id
            &&& v.trace.span_id == span_id
            &&& v.trace.sampling == sampling
            &&& v.deadline_ns == deadline_ns
            &&& T::reading(
                input(*old(context)),
                (input(*old(context)).len() - body.len()) as nat,
            ).1 == Ok::<T::Model, Fault>(v.message.model())
        },
{
    let s = input(*old(context));
    let a = var_bytes(id as nat, 8);
    let b = le_bytes(trace_id as nat, 16);
    let c = var_bytes(span_id as nat, 8);
    let d = seq![sampling];
    let e = var_bytes(deadline_ns as nat, 8);
    lemma_u128_round_trip(trace_id, before + a, c + d + e + body);
    lemma_u64_round_trip(id, before, b + c + d + e + body);
    lemma_u64_round_trip(span_id, before + a + b, d + e + body);
    lemma_u64_round_trip(deadline_ns, before + a + b + c + d, body);
    assert(s =~= before + a + (b + c + d + e + body));
    assert(s =~= (before + a) + b + (c + d + e + body));
    assert(s =~= (before + a + b) + c + (d + e + body));
    assert(s =~= (before + a + b + c + d) + e + body);
    law_request_is_read::<T>(
        context,
        r,
        id,
        a.len(),
        trace_id,
        span_id,
        c.len(),
        sampling,
        deadline_ns,
        e.len(),
    );
}

/// A response is read as the identifier of its request and the result that
/// follows: 0 and a payload, or 1, a code and a detail.
pub proof fn law_response_is_read<T: WireValue>(
    context: &mut ReadContext,
    r: Result<ForyResponse<T>, WireError>,
)
    requires
        call_ensures(<ForyResponse<T> as WireValue>::fory_read_data, (context,), r),
    ensures
        ({
            let s = input(*old(context));
            let at = position(*old(context));
            let end = position(*final(context));
            match u64_at(s, at) {
                None => r matches Err(WireError::Fory(e)) && e == u64_error(s, at) && end == at,
                Some((request_id, n)) => {
                    &&& r matches Ok(v) ==> v.request_id == request_id
                    &&& match u8_at(s, at + n) {
                        None => r matches Err(WireError::Fory(e)) && e == byte_error(s, at + n)
                            && end == at + n,
                        Some(discriminant) => {
                            &&& discriminant == 0 ==> {
                                &&& r matches Ok(v) ==> v.message is Success
                                &&& T::reading(s, at + n + 1) matches (l, Ok(payload)) ==> {
                                    &&& r matches Ok(v) && v.message->Success_0.model() == payload
                                    &&& end == at + n + 1 + l
                                }
                                &&& T::reading(s, at + n + 1) matches (
                                    l,
                                    Err(Fault::Refused(error)),
                                ) ==> {
                                    &&& r matches Err(WireError::Fory(e)) && e == error
                                    &&& end == at + n + 1 + l
                                }
                                &&& T::reading(s, at + n + 1) matches (
                                    l,
                                    Err(Fault::UnknownDiscriminant { envelope, discriminant }),
                                ) ==> {
                                    &&& r == Err::<ForyResponse<T>, WireError>(
                                        WireError::UnknownDiscriminant { envelope, discriminant },
                                    )
                                    &&& end == at + n + 1 + l
                                }
                                &&& r matches Ok(v) ==> T::may_read(
                                    s,
                                    at + n + 1,
                                    end,
                                    Ok(v.message->Success_0.model()),
                                )
                                &&& r matches Err(e) ==> T::may_read(s, at + n + 1, end, Err(e))
                            }
                            &&& discriminant == 1 ==> match u32_at(s, at + n + 1) {
                                None => {
                                    &&& r matches Err(WireError::Fory(e)) && e == u32_error(
                                        s,
                                        at + n + 1,
                                    )
                                    &&& end == at + n + 1
                                },
                                Some((kind, m)) => {
                                    &&& r matches Ok(v) ==> v.message matches ForyResult::Failure(f)
                                        && f.kind == kind
                                    &&& String::reading(s, at + n + 1 + m) matches (l, Ok(detail))
                                        ==> {
                                        &&& r matches Ok(v) && v.message->Failure_0.detail@
                                            == detail
                                        &&& end == at + n + 1 + m + l
                                    }
                                    &&& String::reading(s, at + n + 1 + m) matches (
                                        l,
                                        Err(Fault::Refused(error)),
                                    ) ==> {
                                        &&& r matches Err(WireError::Fory(e)) && e == error
                                        &&& end == at + n + 1 + m + l
                                    }
                                },
                            }
                            &&& discriminant > 1 ==> {
                                &&& r == Err::<ForyResponse<T>, WireError>(
                                    WireError::UnknownDiscriminant {
                                        envelope: EnvelopeType::Result,
                                        discriminant,
                                    },
                                )
                                &&& end == at + n + 1
                            }
                        },
                    }
                },
            }
        }),
{
}

/// A client's message is read by its leading byte: nothing but 0 is a request,
/// nothing but 1 a cancellation, and nothing else a message.
pub proof fn law_client_message_is_read_by_its_leading_byte<T: WireValue>(
    context: &mut ReadContext,
    r: Result<ForyClientMessage<T>, WireError>,
)
    requires
        call_ensures(<ForyClientMessage<T> as WireValue>::fory_read_data, (context,), r),
    ensures
        ({
            let s = input(*old(context));
            let at = position(*old(context));
            let end = position(*final(context));
            match u8_at(s, at) {
                None => r matches Err(WireError::Fory(e)) && e == byte_error(s, at) && end == at,
                Some(discriminant) => {
                    &&& discriminant == 0 ==> (r matches Ok(v) ==> v is Request)
                    &&& discriminant == 1 ==> (r matches Ok(v) ==> v is Cancel)
                    &&& discriminant > 1 ==> {
                        &&& r == Err::<ForyClientMessage<T>, WireError>(
                            WireError::UnknownDiscriminant {
                                envelope: EnvelopeType::ClientMessage,
                                discriminant,
                            },
                        )
                        &&& end == at + 1
                    }
                },
            }
        }),
{
}

/// 0 is read as a request with the numbers that follow, each in its field, and the
/// body that follows them.
pub proof fn law_client_request_is_read<T: WireValue>(
    context: &mut ReadContext,
    r: Result<ForyClientMessage<T>, WireError>,
    id: u64,
    n: nat,
    trace_id: u128,
    span_id: u64,
    m: nat,
    sampling: u8,
    deadline_ns: u64,
    k: nat,
)
    requires
        call_ensures(<ForyClientMessage<T> as WireValue>::fory_read_data, (context,), r),
        u8_at(input(*old(context)), position(*old(context))) == Some(0u8),
        u64_at(input(*old(context)), position(*old(context)) + 1) == Some((id, n)),
        u128_at(input(*old(context)), position(*old(context)) + 1 + n) == Some(trace_id),
        u64_at(input(*old(context)), position(*old(context)) + n + 17) == Some((span_id, m)),
        u8_at(input(*old(context)), position(*old(context)) + n + 17 + m) == Some(sampling),
        u64_at(input(*old(context)), position(*old(context)) + n + 18 + m) == Some(
            (deadline_ns, k),
        ),
    ensures
        r matches Ok(v) ==> v matches ForyClientMessage::Request(req) && {
            &&& req.id == id
            &&& req.trace.trace_id == trace_id
            &&& req.trace.span_id == span_id
            &&& req.trace.sampling == sampling
            &&& req.deadline_ns == deadline_ns
        },
        ({
            let s = input(*old(context));
            let at = position(*old(context)) + n + 18 + m + k;
            let end = position(*final(context));
            &&& T::reading(s, at) matches (l, Ok(message)) ==> {
                &&& r matches Ok(v) && v->Request_0.message.model() == message
                &&& end == at + l
            }
            &&& T::reading(s, at) matches (l, Err(Fault::Refused(error))) ==> {
                &&& r matches Err(WireError::Fory(e)) && e == error
                &&& end == at + l
            }
            &&& T::reading(s, at) matches (
                l,
                Err(Fault::UnknownDiscriminant { envelope, discriminant }),
            ) ==> {
                &&& r == Err::<ForyClientMessage<T>, WireError>(
                    WireError::UnknownDiscriminant { envelope, discriminant },
                )
                &&& end == at + l
            }
            &&& r matches Ok(v) ==> T::may_read(s, at, end, Ok(v->Request_0.message.model()))
            &&& r matches Err(e) ==> T::may_read(s, at, end, Err(e))
        }),
{
}

/// Where 0 and the bytes of a request's fields stand one after the other, reading
/// there gives a request with those very fields.
pub proof fn law_client_request_bytes_are_read<T: WireValue>(
    context: &mut ReadContext,
    r: Result<ForyClientMessage<T>, WireError>,
    before: Seq<u8>,
    id: u64,
    trace_id: u128,
    span_id: u64,
    sampling: u8,
    deadline_ns: u64,
    body: Seq<u8>,
)
    requires
        call_ensures(<ForyClientMessage<T> as WireValue>::fory_read_data, (context,), r),
        input(*old(context)) == before + seq![0u8] + var_bytes(id as nat, 8) + le_bytes(
            trace_id as nat,
            16,
        ) + var_bytes(span_id as nat, 8) + seq![sampling] + var_bytes(deadline_ns as nat, 8)
            + body,
        position(*old(context)) == before.len(),
        T::reading(input(*old(context)), (input(*old(context)).len() - body.len()) as nat).1 is Ok,
    ensures
        r matches Ok(ForyClientMessage::Request(v)) && {
            &&& v.id == id
            &&& v.trace.trace_id == trace_id
            &&& v.trace.span_id == span_id
            &&& v.trace.sampling == sampling
            &&& v.deadline_ns == deadline_ns
            &&& T::reading(
                input(*old(context)),
                (input(*old(context)).len() - body.len()) as nat,
            ).1 == Ok::<T::Model, Fault>(v.message.model())
        },
{
    let s = input(*old(context));
    let start = before + seq![0u8];
    let a = var_bytes(id as nat, 8);
    let b = le_bytes(trace_id as nat, 16);
    let c = var_bytes(span_id as nat, 8);
    let d = seq![sampling];
    let e = var_bytes(deadline_ns as nat, 8);
    lemma_u128_round_trip(trace_id, start + a, c + d + e + body);
    lemma_u64_round_trip(id, start, b + c + d + e + body);
    lemma_u64_round_trip(span_id, start + a + b, d + e + body);
    lemma_u64_round_trip(deadline_ns, start + a + b + c + d, body);
    assert(s =~= start + a + (b + c + d + e + body));
    assert(s =~= (start + a) + b + (c + d + e + body));
    assert(s =~= (start + a + b) + c + (d + e + body));
    assert(s =~= (start + a + b + c + d) + e + body);
    law_client_request_is_read::<T>(
        context,
        r,
        id,
        a.len(),
        trace_id,
        span_id,
        c.len(),
        sampling,
        deadline_ns,
        e.len(),
    );
}

/// Where 1 and the bytes of a cancellation's fields stand one after the other,
/// reading there gives a cancellation with those very fields.
pub proof fn law_cancellation_bytes_are_read<T: WireValue>(
    context: &mut ReadContext,
    r: Result<ForyClientMessage<T>, WireError>,
    before: Seq<u8>,
    trace_id: u128,
    span_id: u64,
    sampling: u8,
    request_id: u64,
    rest: Seq<u8>,
)
    requires
        call_ensures(<ForyClientMessage<T> as WireValue>::fory_read_data, (context,), r),
        input(*old(context)) == before + seq![1u8] + le_bytes(trace_id as nat, 16) + var_bytes(
            span_id as nat,
            8,
        ) + seq![sampling] + var_bytes(request_id as nat, 8) + rest,
        position(*old(context)) == before.len(),
    ensures
        r matches Ok(ForyClientMessage::Cancel { trace, request_id: id }) && {
            &&& id == request_id
            &&& trace.trace_id == trace_id
            &&& trace.span_id == span_id
            &&& trace.sampling == sampling
        },
        position(*final(context)) + rest.len() == input(*old(context)).len(),
{
    let s = input(*old(context));
    let start = before + seq![1u8];
    let b = le_bytes(trace_id as nat, 16);
    let c = var_bytes(span_id as nat, 8);
    let d = seq![sampling];
    let e = var_bytes(request_id as nat, 8);
    lemma_u128_round_trip(trace_id, start, c + d + e + rest);
    lemma_u64_round_trip(span_id, start + b, d + e + rest);
    lemma_u64_round_trip(request_id, start + b + c + d, rest);
    assert(s =~= start + b + (c + d + e + rest));
    assert(s =~= (start + b) + c + (d + e + rest));
    assert(s =~= (start + b + c + d) + e + rest);
    law_cancellation_is_read::<T>(
        context,
        r,
        trace_id,
        span_id,
        c.len(),
        sampling,
        request_id,
        e.len(),
    );
}

/// 1 is read as a cancellation with the numbers that follow, each in its field.
pub proof fn law_cancellation_is_read<T: WireValue>(
    context: &mut ReadContext,
    r: Result<ForyClientMessage<T>, WireError>,
    trace_id: u128,
    span_id: u64,
    m: nat,
    sampling: u8,
    request_id: u64,
    k: nat,
)
    requires
        call_ensures(<ForyClientMessage<T> as WireValue>::fory_read_data, (context,), r),
        u8_at(input(*old(context)), position(*old(context))) == Some(1u8),
        u128_at(input(*old(context)), position(*old(context)) + 1) == Some(trace_id),
        u64_at(input(*old(context)), position(*old(context)) + 17) == Some((span_id, m)),
        u8_at(input(*old(context)), position(*old(context)) + 17 + m) == Some(sampling),
        u64_at(input(*old(context)), position(*old(context)) + 18 + m) == Some((request_id, k)),
    ensures
        r matches Ok(ForyClientMessage::Cancel { trace, request_id: id }) && {
            &&& id == request_id
            &&& trace.trace_id == trace_id
            &&& trace.span_id == span_id
            &&& trace.sampling == sampling
        },
        position(*final(context)) == position(*old(context)) + 18 + m + k,
{
}

/// A client's message is refused at the first of its numbers that is not there,
/// with the bytes before it taken.
pub proof fn law_client_message_needs_its_parts<T: WireValue>(
    context: &mut ReadContext,
    r: Result<ForyClientMessage<T>, WireError>,
)
    requires
        call_ensures(<ForyClientMessage<T> as WireValue>::fory_read_data, (context,), r),
    ensures
        ({
            let s = input(*old(context));
            let at = position(*old(context)) + 1;
            let end = position(*final(context));
            &&& u8_at(s, position(*old(context))) == Some(0u8) ==> match u64_at(s, at) {
                None => r matches Err(WireError::Fory(e)) && e == u64_error(s, at) && end == at,
                Some((_, n)) => match u128_at(s, at + n) {
                    None => r matches Err(WireError::Fory(e)) && e == u128_error(s, at + n) && end
                        == at + n,
                    Some(_) => match u64_at(s, at + n + 16) {
                        None => r matches Err(WireError::Fory(e)) && e == u64_error(s, at + n + 16)
                            && end == at + n + 16,
                        Some((_, m)) => match u8_at(s, at + n + 16 + m) {
                            None => r matches Err(WireError::Fory(e)) && e == u8_error(
                                s,
                                at + n + 16 + m,
                            ) && end == at + n + 16 + m,
                            Some(_) => u64_at(s, at + n + 17 + m) is None ==> (
                            r matches Err(WireError::Fory(e)) && e == u64_error(s, at + n + 17 + m)
                                && end == at + n + 17 + m),
                        },
                    },
                },
            }
            &&& u8_at(s, position(*old(context))) == Some(1u8) ==> match u128_at(s, at) {
                None => r matches Err(WireError::Fory(e)) && e == u128_error(s, at) && end == at,
                Some(_) => match u64_at(s, at + 16) {
                    None => r matches Err(WireError::Fory(e)) && e == u64_error(s, at + 16) && end
                        == at + 16,
                    Some((_, m)) => match u8_at(s, at + 16 + m) {
                        None => r matches Err(WireError::Fory(e)) && e == u8_error(s, at + 16 + m)
                            && end == at + 16 + m,
                        Some(_) => u64_at(s, at + 17 + m) is None ==> (
                        r matches Err(WireError::Fory(e)) && e == u64_error(s, at + 17 + m) && end
                            == at + 17 + m),
                    },
                },
            }
        }),
{
}

} // verus!
