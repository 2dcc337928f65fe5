//! Which bytes a write adds, for every value, and which results it gives.
use fory_core::{Error, WriteContext};
use vstd::prelude::*;
use vstd::utf8::encode_utf8;

use crate::codec::{cross_language, u128_refusal, written};
use crate::encoding::{le_bytes, lemma_var_length, var_bytes};
use crate::envelope::{
    ForyClientMessage, ForyRequest, ForyResponse, ForyResult, ForyServerError, ForyTraceContext,
};
use crate::wire::{WireError, WireValue, Writing};

verus! {

/// What was added is what stands after the old bytes.
proof fn lemma_added(before: Seq<u8>, after: Seq<u8>)
    requires
        before.is_prefix_of(after),
    ensures
        after == before + after.skip(before.len() as int),
{
    assert(before =~= after.take(before.len() as int));
    assert(after =~= before + after.skip(before.len() as int));
}

/// A `u8` is written as that byte.
pub proof fn law_u8_is_written(v: &u8, context: &mut WriteContext, r: Result<(), WireError>)
    requires
        call_ensures(<u8 as WireValue>::fory_write_data, (v, context), r),
    ensures
        r is Ok,
        written(*final(context)) == written(*old(context)) + seq![*v],
{
    lemma_added(written(*old(context)), written(*final(context)));
}

/// A `u32` is written in groups of seven bits, the fifth and last of four bits.
pub proof fn law_u32_is_written(v: &u32, context: &mut WriteContext, r: Result<(), WireError>)
    requires
        call_ensures(<u32 as WireValue>::fory_write_data, (v, context), r),
    ensures
        r is Ok,
        written(*final(context)) == written(*old(context)) + var_bytes(*v as nat, 4),
{
    lemma_added(written(*old(context)), written(*final(context)));
}

/// A `u64` is written in groups of seven bits, the ninth and last of eight bits.
pub proof fn law_u64_is_written(v: &u64, context: &mut WriteContext, r: Result<(), WireError>)
    requires
        call_ensures(<u64 as WireValue>::fory_write_data, (v, context), r),
    ensures
        r is Ok,
        written(*final(context)) == written(*old(context)) + var_bytes(*v as nat, 8),
{
    lemma_added(written(*old(context)), written(*final(context)));
}

/// A `u128` is written as its sixteen bytes, the lowest first, and is refused for
/// cross-language use.
pub proof fn law_u128_is_written(v: &u128, context: &mut WriteContext, r: Result<(), WireError>)
    requires
        call_ensures(<u128 as WireValue>::fory_write_data, (v, context), r),
    ensures
        !cross_language(*old(context)) ==> r is Ok && written(*final(context)) == written(
            *old(context),
        ) + le_bytes(*v as nat, 16),
        cross_language(*old(context)) ==> r == Err::<(), WireError>(
            WireError::Fory(u128_refusal(*v)),
        ) && written(*final(context)) == written(*old(context)),
{
    lemma_added(written(*old(context)), written(*final(context)));
}

/// A string is written as its length in bytes, in 32 bits, with the mark of UTF-8
/// in the two low bits; then zeros, where that takes three bytes or five; then its
/// UTF-8 bytes.
pub proof fn law_string_is_written(
    text: &String,
    context: &mut WriteContext,
    r: Result<(), WireError>,
)
    requires
        call_ensures(<String as WireValue>::fory_write_data, (text, context), r),
    ensures
        r is Ok,
        ({
            let body = encode_utf8(text@);
            let len = body.len() % 0x1_0000_0000;
            let padding = if 4096 <= len < 524288 {
                seq![0u8]
            } else if 67108864 <= len {
                seq![0u8, 0u8, 0u8]
            } else {
                seq![]
            };
            written(*final(context)) == written(*old(context)) + var_bytes(4 * len + 2, 4)
                + padding + body
        }),
{
    let body = encode_utf8(text@);
    let len = body.len() % 0x1_0000_0000;
    lemma_var_length(4 * len + 2);
    lemma_added(written(*old(context)), written(*final(context)));
    let padding = if 4096 <= len < 524288 {
        seq![0u8]
    } else if 67108864 <= len {
        seq![0u8, 0u8, 0u8]
    } else {
        seq![]
    };
    assert(written(*final(context)) =~= written(*old(context)) + var_bytes(4 * len + 2, 4)
        + padding + body);
}

/// A trace context is written as its trace's identifier, its span's identifier and
/// its sampling byte, and is refused for cross-language use.
pub proof fn law_trace_context_is_written(
    v: &ForyTraceContext,
    context: &mut WriteContext,
    r: Result<(), WireError>,
)
    requires
        call_ensures(<ForyTraceContext as WireValue>::fory_write_data, (v, context), r),
    ensures
        !cross_language(*old(context)) ==> r is Ok && written(*final(context)) == written(
            *old(context),
        ) + le_bytes(v.trace_id as nat, 16) + var_bytes(v.span_id as nat, 8) + seq![v.sampling],
        cross_language(*old(context)) ==> r == Err::<(), WireError>(
            WireError::Fory(u128_refusal(v.trace_id)),
        ) && written(*final(context)) == written(*old(context)),
{
    lemma_added(written(*old(context)), written(*final(context)));
    if !cross_language(*old(context)) {
        assert(written(*final(context)) =~= written(*old(context)) + le_bytes(
            v.trace_id as nat,
            16,
        ) + var_bytes(v.span_id as nat, 8) + seq![v.sampling]);
    } else {
        assert(written(*final(context)) =~= written(*old(context)));
    }
}

/// A server's error is written as its code and its detail.
pub proof fn law_server_error_is_written(
    v: &ForyServerError,
    detail: Seq<u8>,
    context: &mut WriteContext,
    r: Result<(), WireError>,
)
    requires
        call_ensures(<ForyServerError as WireValue>::fory_write_data, (v, context), r),
        String::writing(v.detail@, cross_language(*old(context))) == Writing::Complete(detail),
    ensures
        r is Ok,
        written(*final(context)) == written(*old(context)) + var_bytes(v.kind as nat, 4) + detail,
{
    lemma_added(written(*old(context)), written(*final(context)));
    assert(written(*final(context)) =~= written(*old(context)) + var_bytes(v.kind as nat, 4)
        + detail);
}

/// A success is written as 0 and its payload, and a failure as 1, the code and the
/// detail.
pub proof fn law_result_is_written<T: WireValue>(
    v: &ForyResult<T>,
    part: Seq<u8>,
    context: &mut WriteContext,
    r: Result<(), WireError>,
)
    requires
        call_ensures(<ForyResult<T> as WireValue>::fory_write_data, (v, context), r),
        match *v {
            ForyResult::Success(payload) => T::writing(
                payload.model(),
                cross_language(*old(context)),
            ) == Writing::Complete(part),
            ForyResult::Failure(e) => String::writing(e.detail@, cross_language(*old(context)))
                == Writing::Complete(part),
        },
    ensures
        r is Ok,
        match *v {
            ForyResult::Success(_) => written(*final(context)) == written(*old(context)) + seq![0u8]
                + part,
            ForyResult::Failure(e) => written(*final(context)) == written(*old(context))
                + seq![1u8] + var_bytes(e.kind as nat, 4) + part,
        },
{
    lemma_added(written(*old(context)), written(*final(context)));
    match *v {
        ForyResult::Success(_) => {
            assert(written(*final(context)) =~= written(*old(context)) + seq![0u8] + part);
        },
        ForyResult::Failure(e) => {
            assert(written(*final(context)) =~= written(*old(context)) + seq![1u8] + var_bytes(
                e.kind as nat,
                4,
            ) + part);
        },
    }
}

/// A success is written as 0 and then what its payload may add, and gives what its
/// payload gives.
pub proof fn law_success_is_written_before_its_payload<T: WireValue>(
    v: &ForyResult<T>,
    context: &mut WriteContext,
    r: Result<(), WireError>,
)
    requires
        call_ensures(<ForyResult<T> as WireValue>::fory_write_data, (v, context), r),
        v is Success,
    ensures
        exists|part: Seq<u8>| #[trigger]
            T::may_write(v->Success_0.model(), cross_language(*old(context)), part, r) && written(
                *final(context),
            ) == written(*old(context)) + seq![0u8] + part,
{
    lemma_added(written(*old(context)), written(*final(context)));
    let bytes = written(*final(context)).skip(written(*old(context)).len() as int);
    let part = bytes.skip(1);
    assert(seq![0u8] =~= bytes.take(1));
    assert(T::may_write(v->Success_0.model(), cross_language(*old(context)), part, r));
    assert(written(*final(context)) =~= written(*old(context)) + seq![0u8] + part);
}

/// A request is written as its identifier, the three parts of its trace, its
/// deadline and its body, each as it stands in the request.
pub proof fn law_request_is_written<T: WireValue>(
    v: &ForyRequest<T>,
    body: Seq<u8>,
    context: &mut WriteContext,
    r: Result<(), WireError>,
)
    requires
        call_ensures(<ForyRequest<T> as WireValue>::fory_write_data, (v, context), r),
        !cross_language(*old(context)),
        T::writing(v.message.model(), false) == Writing::Complete(body),
    ensures
        r is Ok,
        written(*final(context)) == written(*old(context)) + var_bytes(v.id as nat, 8) + le_bytes(
            v.trace.trace_id as nat,
            16,
        ) + var_bytes(v.trace.span_id as nat, 8) + seq![v.trace.sampling] + var_bytes(
            v.deadline_ns as nat,
            8,
        ) + body,
{
    lemma_added(written(*old(context)), written(*final(context)));
    assert(written(*final(context)) =~= written(*old(context)) + var_bytes(v.id as nat, 8)
        + le_bytes(v.trace.trace_id as nat, 16) + var_bytes(v.trace.span_id as nat, 8)
        + seq![v.trace.sampling] + var_bytes(v.deadline_ns as nat, 8) + body);
}

/// Whatever its body is, a request is written as its identifier, the three parts
/// of its trace and its deadline, and then what its body may add; and it gives
/// what its body gives.
pub proof fn law_request_is_written_before_its_body<T: WireValue>(
    v: &ForyRequest<T>,
    context: &mut WriteContext,
    r: Result<(), WireError>,
)
    requires
        call_ensures(<ForyRequest<T> as WireValue>::fory_write_data, (v, context), r),
        !cross_language(*old(context)),
    ensures
        exists|body: Seq<u8>| #[trigger]
            T::may_write(v.message.model(), false, body, r) && written(*final(context)) == written(
                *old(context),
            ) + var_bytes(v.id as nat, 8) + le_bytes(v.trace.trace_id as nat, 16) + var_bytes(
                v.trace.span_id as nat,
                8,
            ) + seq![v.trace.sampling] + var_bytes(v.deadline_ns as nat, 8) + body,
{
    lemma_added(written(*old(context)), written(*final(context)));
    let bytes = written(*final(context)).skip(written(*old(context)).len() as int);
    let head = var_bytes(v.id as nat, 8) + le_bytes(v.trace.trace_id as nat, 16) + var_bytes(
        v.trace.span_id as nat,
        8,
    ) + seq![v.trace.sampling] + var_bytes(v.deadline_ns as nat, 8);
    assert(head =~= var_bytes(v.id as nat, 8) + ((le_bytes(v.trace.trace_id as nat, 16) + (
    var_bytes(v.trace.span_id as nat, 8) + seq![v.trace.sampling])) + var_bytes(
        v.deadline_ns as nat,
        8,
    )));
    let body = bytes.skip(head.len() as int);
    assert(head.is_prefix_of(bytes));
    assert(head =~= bytes.take(head.len() as int));
    assert(bytes =~= head + body);
    assert(T::may_write(v.message.model(), false, body, r));
    assert(written(*old(context)) + (head + body) =~= written(*old(context)) + head + body);
    assert(written(*final(context)) =~= written(*old(context)) + var_bytes(v.id as nat, 8)
        + le_bytes(v.trace.trace_id as nat, 16) + var_bytes(v.trace.span_id as nat, 8)
        + seq![v.trace.sampling] + var_bytes(v.deadline_ns as nat, 8) + body);
}

/// For cross-language use a request is refused at its trace: only its identifier
/// is written.
pub proof fn law_request_has_no_cross_language_form<T: WireValue>(
    v: &ForyRequest<T>,
    context: &mut WriteContext,
    r: Result<(), WireError>,
)
    requires
        call_ensures(<ForyRequest<T> as WireValue>::fory_write_data, (v, context), r),
        cross_language(*old(context)),
    ensures
        r == Err::<(), WireError>(WireError::Fory(u128_refusal(v.trace.trace_id))),
        written(*final(context)) == written(*old(context)) + var_bytes(v.id as nat, 8),
{
    lemma_added(written(*old(context)), written(*final(context)));
    assert(written(*final(context)) =~= written(*old(context)) + var_bytes(v.id as nat, 8));
}

/// A response is written as the identifier of the request that it answers, and
/// then as its result is.
pub proof fn law_response_is_written<T: WireValue>(
    v: &ForyResponse<T>,
    part: Seq<u8>,
    context: &mut WriteContext,
    r: Result<(), WireError>,
)
    requires
        call_ensures(<ForyResponse<T> as WireValue>::fory_write_data, (v, context), r),
        match v.message {
            ForyResult::Success(payload) => T::writing(
                payload.model(),
                cross_language(*old(context)),
            ) == Writing::Complete(part),
            ForyResult::Failure(e) => String::writing(e.detail@, cross_language(*old(context)))
                == Writing::Complete(part),
        },
    ensures
        r is Ok,
        match v.message {
            ForyResult::Success(_) => written(*final(context)) == written(*old(context))
                + var_bytes(v.request_id as nat, 8) + seq![0u8] + part,
            ForyResult::Failure(e) => written(*final(context)) == written(*old(context))
                + var_bytes(v.request_id as nat, 8) + seq![1u8] + var_bytes(e.kind as nat, 4)
                + part,
        },
{
    lemma_added(written(*old(context)), written(*final(context)));
    match v.message {
        ForyResult::Success(_) => {
            assert(written(*final(context)) =~= written(*old(context)) + var_bytes(
                v.request_id as nat,
                8,
            ) + seq![0u8] + part);
        },
        ForyResult::Failure(e) => {
            assert(written(*final(context)) =~= written(*old(context)) + var_bytes(
                v.request_id as nat,
                8,
            ) + seq![1u8] + var_bytes(e.kind as nat, 4) + part);
        },
    }
}

/// A response with a payload is written as the identifier of its request, 0, and
/// then what its payload may add; and it gives what its payload gives.
pub proof fn law_response_is_written_before_its_payload<T: WireValue>(
    v: &ForyResponse<T>,
    context: &mut WriteContext,
    r: Result<(), WireError>,
)
    requires
        call_ensures(<ForyResponse<T> as WireValue>::fory_write_data, (v, context), r),
        v.message is Success,
    ensures
        exists|part: Seq<u8>| #[trigger]
            T::may_write(v.message->Success_0.model(), cross_language(*old(context)), part, r)
                && written(*final(context)) == written(*old(context)) + var_bytes(
                v.request_id as nat,
                8,
            ) + seq![0u8] + part,
{
    lemma_added(written(*old(context)), written(*final(context)));
    let bytes = written(*final(context)).skip(written(*old(context)).len() as int);
    let head = var_bytes(v.request_id as nat, 8);
    assert(head =~= bytes.take(head.len() as int));
    let tail = bytes.skip(head.len() as int);
    assert(seq![0u8] =~= tail.take(1));
    let part = tail.skip(1);
    assert(T::may_write(v.message->Success_0.model(), cross_language(*old(context)), part, r));
    assert(written(*final(context)) =~= written(*old(context)) + head + seq![0u8] + part);
}

/// A client's request is written as 0 and then as the request is; a cancellation
/// as 1, the three parts of its trace and the identifier of the request.
pub proof fn law_client_message_is_written<T: WireValue>(
    v: &ForyClientMessage<T>,
    body: Seq<u8>,
    context: &mut WriteContext,
    r: Result<(), WireError>,
)
    requires
        call_ensures(<ForyClientMessage<T> as WireValue>::fory_write_data, (v, context), r),
        !cross_language(*old(context)),
        *v matches ForyClientMessage::Request(req) ==> T::writing(req.message.model(), false)
            == Writing::Complete(body),
    ensures
        r is Ok,
        match *v {
            ForyClientMessage::Request(req) => written(*final(context)) == written(*old(context))
                + seq![0u8] + var_bytes(req.id as nat, 8) + le_bytes(req.trace.trace_id as nat, 16)
                + var_bytes(req.trace.span_id as nat, 8) + seq![req.trace.sampling] + var_bytes(
                req.deadline_ns as nat,
                8,
            ) + body,
            ForyClientMessage::Cancel { trace, request_id } => written(*final(context)) == written(
                *old(context),
            ) + seq![1u8] + le_bytes(trace.trace_id as nat, 16) + var_bytes(
                trace.span_id as nat,
                8,
            ) + seq![trace.sampling] + var_bytes(request_id as nat, 8),
        },
{
    lemma_added(written(*old(context)), written(*final(context)));
    match *v {
        ForyClientMessage::Request(req) => {
            assert(written(*final(context)) =~= written(*old(context)) + seq![0u8] + var_bytes(
                req.id as nat,
                8,
            ) + le_bytes(req.trace.trace_id as nat, 16) + var_bytes(req.trace.span_id as nat, 8)
                + seq![req.trace.sampling] + var_bytes(req.deadline_ns as nat, 8) + body);
        },
        ForyClientMessage::Cancel { trace, request_id } => {
            assert(written(*final(context)) =~= written(*old(context)) + seq![1u8] + le_bytes(
                trace.trace_id as nat,
                16,
            ) + var_bytes(trace.span_id as nat, 8) + seq![trace.sampling] + var_bytes(
                request_id as nat,
                8,
            ));
        },
    }
}

/// A client's request is written as 0, its identifier, the three parts of its
/// trace and its deadline, and then what its body may add; and it gives what its
/// body gives.
pub proof fn law_client_request_is_written_before_its_body<T: WireValue>(
    v: &ForyClientMessage<T>,
    context: &mut WriteContext,
    r: Result<(), WireError>,
)
    requires
        call_ensures(<ForyClientMessage<T> as WireValue>::fory_write_data, (v, context), r),
        !cross_language(*old(context)),
        v is Request,
    ensures
        ({
            let req = v->Request_0;
            exists|body: Seq<u8>| #[trigger]
                T::may_write(req.message.model(), false, body, r) && written(*final(context))
                    == written(*old(context)) + seq![0u8] + var_bytes(req.id as nat, 8) + le_bytes(
                    req.trace.trace_id as nat,
                    16,
                ) + var_bytes(req.trace.span_id as nat, 8) + seq![req.trace.sampling] + var_bytes(
                    req.deadline_ns as nat,
                    8,
                ) + body
        }),
{
    let req = v->Request_0;
    lemma_added(written(*old(context)), written(*final(context)));
    let all = written(*final(context)).skip(written(*old(context)).len() as int);
    assert(seq![0u8] =~= all.take(1));
    let bytes = all.skip(1);
    let head = var_bytes(req.id as nat, 8) + le_bytes(req.trace.trace_id as nat, 16) + var_bytes(
        req.trace.span_id as nat,
        8,
    ) + seq![req.trace.sampling] + var_bytes(req.deadline_ns as nat, 8);
    assert(head =~= var_bytes(req.id as nat, 8) + ((le_bytes(req.trace.trace_id as nat, 16) + (
    var_bytes(req.trace.span_id as nat, 8) + seq![req.trace.sampling])) + var_bytes(
        req.deadline_ns as nat,
        8,
    )));
    let body = bytes.skip(head.len() as int);
    assert(head.is_prefix_of(bytes));
    assert(head =~= bytes.take(head.len() as int));
    assert(bytes =~= head + body);
    assert(all =~= seq![0u8] + (head + body));
    assert(T::may_write(req.message.model(), false, body, r));
    assert(written(*old(context)) + (seq![0u8] + (head + body)) =~= written(*old(context))
        + seq![0u8] + head + body);
    assert(written(*final(context)) =~= written(*old(context)) + seq![0u8] + var_bytes(
        req.id as nat,
        8,
    ) + le_bytes(req.trace.trace_id as nat, 16) + var_bytes(req.trace.span_id as nat, 8)
        + seq![req.trace.sampling] + var_bytes(req.deadline_ns as nat, 8) + body);
}

/// For cross-language use a client's message is refused at its trace: only what
/// stands before it is written.
pub proof fn law_client_message_has_no_cross_language_form<T: WireValue>(
    v: &ForyClientMessage<T>,
    context: &mut WriteContext,
    r: Result<(), WireError>,
)
    requires
        call_ensures(<ForyClientMessage<T> as WireValue>::fory_write_data, (v, context), r),
        cross_language(*old(context)),
    ensures
        match *v {
            ForyClientMessage::Request(req) => {
                &&& r == Err::<(), WireError>(WireError::Fory(u128_refusal(req.trace.trace_id)))
                &&& written(*final(context)) == written(*old(context)) + seq![0u8] + var_bytes(
                    req.id as nat,
                    8,
                )
            },
            ForyClientMessage::Cancel { trace, .. } => {
                &&& r == Err::<(), WireError>(WireError::Fory(u128_refusal(trace.trace_id)))
                &&& written(*final(context)) == written(*old(context)) + seq![1u8]
            },
        },
{
    lemma_added(written(*old(context)), written(*final(context)));
    match *v {
        ForyClientMessage::Request(req) => {
            assert(written(*final(context)) =~= written(*old(context)) + seq![0u8] + var_bytes(
                req.id as nat,
                8,
            ));
        },
        ForyClientMessage::Cancel { .. } => {
            assert(written(*final(context)) =~= written(*old(context)) + seq![1u8]);
        },
    }
}

/// Where a payload is refused after some of its bytes, what stands before it has
/// been written, and its error comes back.
pub proof fn law_a_refused_payload_ends_a_result<T: WireValue>(
    v: &ForyResult<T>,
    part: Seq<u8>,
    e: Error,
    context: &mut WriteContext,
    r: Result<(), WireError>,
)
    requires
        call_ensures(<ForyResult<T> as WireValue>::fory_write_data, (v, context), r),
        v is Success,
        T::writing(v->Success_0.model(), cross_language(*old(context))) == Writing::Stopped(
            part,
            e,
        ),
    ensures
        r == Err::<(), WireError>(WireError::Fory(e)),
        written(*final(context)) == written(*old(context)) + seq![0u8] + part,
{
    lemma_added(written(*old(context)), written(*final(context)));
    assert(written(*final(context)) =~= written(*old(context)) + seq![0u8] + part);
}

/// Where a payload is refused after some of its bytes, what stands before it has
/// been written, and its error comes back.
pub proof fn law_a_refused_payload_ends_a_response<T: WireValue>(
    v: &ForyResponse<T>,
    part: Seq<u8>,
    e: Error,
    context: &mut WriteContext,
    r: Result<(), WireError>,
)
    requires
        call_ensures(<ForyResponse<T> as WireValue>::fory_write_data, (v, context), r),
        v.message is Success,
        T::writing(v.message->Success_0.model(), cross_language(*old(context)))
            == Writing::Stopped(part, e),
    ensures
        r == Err::<(), WireError>(WireError::Fory(e)),
        written(*final(context)) == written(*old(context)) + var_bytes(v.request_id as nat, 8)
            + seq![0u8] + part,
{
    lemma_added(written(*old(context)), written(*final(context)));
    assert(written(*final(context)) =~= written(*old(context)) + var_bytes(
        v.request_id as nat,
        8,
    ) + seq![0u8] + part);
}

/// Where a body is refused after some of its bytes, what stands before it has been
/// written, and its error comes back.
pub proof fn law_a_refused_body_ends_a_request<T: WireValue>(
    v: &ForyRequest<T>,
    body: Seq<u8>,
    e: Error,
    context: &mut WriteContext,
    r: Result<(), WireError>,
)
    requires
        call_ensures(<ForyRequest<T> as WireValue>::fory_write_data, (v, context), r),
        !cross_language(*old(context)),
        T::writing(v.message.model(), false) == Writing::Stopped(body, e),
    ensures
        r == Err::<(), WireError>(WireError::Fory(e)),
        written(*final(context)) == written(*old(context)) + var_bytes(v.id as nat, 8) + le_bytes(
            v.trace.trace_id as nat,
            16,
        ) + var_bytes(v.trace.span_id as nat, 8) + seq![v.trace.sampling] + var_bytes(
            v.deadline_ns as nat,
            8,
        ) + body,
{
    lemma_added(written(*old(context)), written(*final(context)));
    assert(written(*final(context)) =~= written(*old(context)) + var_bytes(v.id as nat, 8)
        + le_bytes(v.trace.trace_id as nat, 16) + var_bytes(v.trace.span_id as nat, 8)
        + seq![v.trace.sampling] + var_bytes(v.deadline_ns as nat, 8) + body);
}

/// Where a body is refused after some of its bytes, what stands before it has been
/// written, and its error comes back.
pub proof fn law_a_refused_body_ends_a_client_request<T: WireValue>(
    v: &ForyClientMessage<T>,
    body: Seq<u8>,
    e: Error,
    context: &mut WriteContext,
    r: Result<(), WireError>,
)
    requires
        call_ensures(<ForyClientMessage<T> as WireValue>::fory_write_data, (v, context), r),
        !cross_language(*old(context)),
        v is Request,
        T::writing(v->Request_0.message.model(), false) == Writing::Stopped(body, e),
    ensures
        r == Err::<(), WireError>(WireError::Fory(e)),
        ({
            let req = v->Request_0;
            written(*final(context)) == written(*old(context)) + seq![0u8] + var_bytes(
                req.id as nat,
                8,
            ) + le_bytes(req.trace.trace_id as nat, 16) + var_bytes(req.trace.span_id as nat, 8)
                + seq![req.trace.sampling] + var_bytes(req.deadline_ns as nat, 8) + body
        }),
{
    let req = v->Request_0;
    lemma_added(written(*old(context)), written(*final(context)));
    assert(written(*final(context)) =~= written(*old(context)) + seq![0u8] + var_bytes(
        req.id as nat,
        8,
    ) + le_bytes(req.trace.trace_id as nat, 16) + var_bytes(req.trace.span_id as nat, 8)
        + seq![req.trace.sampling] + var_bytes(req.deadline_ns as nat, 8) + body);
}

} // verus!
