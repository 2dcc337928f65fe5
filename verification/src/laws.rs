//! What holds of the library as a whole: what is sent arrives.
use vstd::pervasive::cloned;
use vstd::prelude::*;
use vstd::utf8::encode_utf8;

use crate::context::{law_remaining_inverts_after, Instant};
use crate::convert::{
    packed_error, packed_result, packed_trace, packs_message, packs_request, packs_response,
    unpacked_error, unpacked_response, unpacked_result, unpacked_trace, unpacks_message,
    unpacks_request,
};
use crate::encoding::{
    header_padding, lemma_var_length, lemma_var_round_trip, string_bytes, string_faithful,
    string_writable, var_bytes,
};
use crate::envelope::{
    ClientMessageModel, ForyClientMessage, ForyRequest, ForyResponse, ForyResult, ForyServerError,
    ForyTraceContext, ResponseModel, ServerErrorModel,
};
use crate::error_kind::{law_kind_survives_coding, ErrorKind};
use crate::message::{ClientMessage, Request, Response, ServerError};
use crate::registration::EnvelopeType;
use crate::trace;
use crate::wire::{Fault, RoundTrip, WireValue, Writing};

verus! {

/// A value that reads back from its bytes is the only such value with those
/// bytes.
pub proof fn law_bytes_identify_the_value<T: RoundTrip>(
    a: T::Model,
    b: T::Model,
    cross_language: bool,
    bytes: Seq<u8>,
)
    requires
        T::faithful(a),
        T::faithful(b),
        T::writing(a, cross_language) == Writing::Complete(bytes),
        T::writing(b, cross_language) == Writing::Complete(bytes),
    ensures
        a == b,
{
    T::reading_inverts_writing(a, cross_language, bytes, seq![], seq![]);
    T::reading_inverts_writing(b, cross_language, bytes, seq![], seq![]);
}

/// Every trace context reads back from its own bytes, wherever they stand.
pub proof fn law_trace_context_reads_back(v: ForyTraceContext, before: Seq<u8>, rest: Seq<u8>)
    ensures
        ForyTraceContext::writing(v, false) matches Writing::Complete(bytes)
            && ForyTraceContext::reading(before + bytes + rest, before.len()) == (
            bytes.len(),
            Ok::<ForyTraceContext, Fault>(v),
        ),
{
    let bytes = ForyTraceContext::writing(v, false)->Complete_0;
    ForyTraceContext::reading_inverts_writing(v, false, bytes, before, rest);
}

/// A string that can be written reads back from its own bytes exactly where its
/// UTF-8 form is shorter than 4096 bytes, or at least 524288 and shorter than
/// 67108864.
pub proof fn law_string_reads_back_iff_unpadded(text: Seq<char>, before: Seq<u8>, rest: Seq<u8>)
    requires
        string_writable(text),
    ensures
        String::reading(before + string_bytes(text) + rest, before.len()) == (
            string_bytes(text).len(),
            Ok::<Seq<char>, Fault>(text),
        ) <==> (encode_utf8(text).len() < 4096 || 524288 <= encode_utf8(text).len() < 67108864),
{
    if string_faithful(text) {
        String::reading_inverts_writing(text, false, string_bytes(text), before, rest);
    } else {
        let body = encode_utf8(text);
        let len = body.len() % 0x1_0000_0000;
        let v = 4 * len + 2;
        let number = var_bytes(v, 4);
        let padding = header_padding(number.len());
        lemma_var_length(v);
        let s = before + string_bytes(text) + rest;
        assert(s.skip(before.len() as int) =~= number + (padding + body + rest));
        lemma_var_round_trip(v, 4, padding + body + rest);
        assert(String::reading(s, before.len()).0 == number.len() + len);
    }
}

/// A server's error reads back from its own bytes where its detail does.
pub proof fn law_server_error_reads_back(
    v: ServerErrorModel,
    cross_language: bool,
    before: Seq<u8>,
    rest: Seq<u8>,
)
    requires
        string_faithful(v.detail),
    ensures
        ForyServerError::writing(v, cross_language) matches Writing::Complete(bytes)
            && ForyServerError::reading(before + bytes + rest, before.len()) == (
            bytes.len(),
            Ok::<ServerErrorModel, Fault>(v),
        ),
{
    let bytes = ForyServerError::writing(v, cross_language)->Complete_0;
    ForyServerError::reading_inverts_writing(v, cross_language, bytes, before, rest);
}

/// A response reads back from its own bytes where its payload or the detail of
/// its error does.
pub proof fn law_response_reads_back<T: RoundTrip>(
    v: ResponseModel<T::Model>,
    cross_language: bool,
    before: Seq<u8>,
    rest: Seq<u8>,
)
    requires
        match v.message {
            Ok(payload) => T::faithful(payload) && T::writing(payload, cross_language) is Complete,
            Err(e) => string_faithful(e.detail),
        },
    ensures
        ForyResponse::<T>::writing(v, cross_language) matches Writing::Complete(bytes)
            && ForyResponse::<T>::reading(before + bytes + rest, before.len()) == (
            bytes.len(),
            Ok::<ResponseModel<T::Model>, Fault>(v),
        ),
{
    let bytes = ForyResponse::<T>::writing(v, cross_language)->Complete_0;
    ForyResponse::<T>::reading_inverts_writing(v, cross_language, bytes, before, rest);
}

/// A client's message reads back from its own bytes where its body does. A
/// cancellation always does.
pub proof fn law_client_message_reads_back<T: RoundTrip>(
    v: ClientMessageModel<T::Model>,
    before: Seq<u8>,
    rest: Seq<u8>,
)
    requires
        v matches ClientMessageModel::Request(req) ==> T::faithful(req.message) && T::writing(
            req.message,
            false,
        ) is Complete,
    ensures
        ForyClientMessage::<T>::writing(v, false) matches Writing::Complete(bytes)
            && ForyClientMessage::<T>::reading(before + bytes + rest, before.len()) == (
            bytes.len(),
            Ok::<ClientMessageModel<T::Model>, Fault>(v),
        ),
{
    let bytes = ForyClientMessage::<T>::writing(v, false)->Complete_0;
    ForyClientMessage::<T>::reading_inverts_writing(v, false, bytes, before, rest);
}

/// A leading byte other than 0 and 1 is refused, whatever follows it, and is the
/// only byte taken.
pub proof fn law_unknown_discriminant_is_refused<T: WireValue>(s: Seq<u8>, at: nat)
    requires
        at < s.len(),
        s[at as int] > 1,
    ensures
        ForyResult::<T>::reading(s, at) == (
            1nat,
            Err::<Result<T::Model, ServerErrorModel>, Fault>(
                Fault::UnknownDiscriminant {
                    envelope: EnvelopeType::Result,
                    discriminant: s[at as int],
                },
            ),
        ),
        ForyClientMessage::<T>::reading(s, at) == (
            1nat,
            Err::<ClientMessageModel<T::Model>, Fault>(
                Fault::UnknownDiscriminant {
                    envelope: EnvelopeType::ClientMessage,
                    discriminant: s[at as int],
                },
            ),
        ),
{
}

/// What carries a trace context cannot be written for cross-language use.
pub proof fn law_cross_language_use_refuses_traces<T: WireValue>(
    trace: ForyTraceContext,
    message: ClientMessageModel<T::Model>,
)
    ensures
        ForyTraceContext::writing(trace, true) is Stopped,
        ForyClientMessage::<T>::writing(message, true) is Stopped,
{
}

/// A trace context comes back from the form in which it travels.
pub proof fn law_trace_context_survives(tc: trace::Context)
    ensures
        unpacked_trace(packed_trace(tc)) == tc,
{
}

/// What a trace context that has travelled stands for is kept when it travels
/// on; only a sampling byte above 1 is brought down to 0.
pub proof fn law_trace_context_is_normalized(ftc: ForyTraceContext)
    ensures
        packed_trace(unpacked_trace(ftc)) == (ForyTraceContext {
            sampling: if ftc.sampling == 1 {
                1
            } else {
                0
            },
            ..ftc
        }),
{
}

/// A server's error comes back from the form in which it travels. A kind that
/// has no code comes back as `Other`.
pub proof fn law_server_error_survives(e: ServerError)
    ensures
        unpacked_error(packed_error(e)).detail == e.detail,
        e.kind !is Unlisted ==> unpacked_error(packed_error(e)) == e,
        e.kind is Unlisted ==> unpacked_error(packed_error(e)).kind == ErrorKind::Other,
{
    law_kind_survives_coding(e.kind);
}

/// A result comes back from the form in which it travels. An error kind that has
/// no code comes back as `Other`, with the detail.
pub proof fn law_result_survives<T>(result: Result<T, ServerError>)
    ensures
        match result {
            Err(e) if e.kind is Unlisted => unpacked_result(packed_result(result)) == Err::<
                T,
                ServerError,
            >(ServerError { kind: ErrorKind::Other, detail: e.detail }),
            _ => unpacked_result(packed_result(result)) == result,
        },
{
    if let Err(e) = result {
        law_server_error_survives(e);
    }
}

/// A response comes back from the form in which it travels, with a clone of its
/// payload. An error kind that has no code comes back as `Other`, with the detail.
pub proof fn law_response_survives<T: Clone>(response: Response<T>, packed: ForyResponse<T>)
    requires
        packs_response(response, packed),
    ensures
        unpacked_response(packed).request_id == response.request_id,
        match response.message {
            Ok(v) => unpacked_response(packed).message matches Ok(c) && cloned(v, c),
            Err(e) => unpacked_response(packed).message == Err::<T, ServerError>(
                if e.kind is Unlisted {
                    ServerError { kind: ErrorKind::Other, detail: e.detail }
                } else {
                    e
                },
            ),
        },
{
    if let Err(e) = response.message {
        law_server_error_survives(e);
    }
}

/// A request comes back from the form in which it travels, with a clone of its
/// body. As much time is left when it is taken in as was left when it was sent,
/// in 64 bits, and without a delay a deadline that is ahead is the same, up to
/// the longest time that these hold.
pub proof fn law_request_survives<T: Clone>(
    request: Request<T>,
    sent: Instant,
    packed: ForyRequest<T>,
    taken: Instant,
    back: Request<T>,
)
    requires
        packs_request(request, sent, packed),
        unpacks_request(packed, taken, back),
    ensures
        back.id == request.id,
        back.context.trace_context == request.context.trace_context,
        cloned(request.message, back.message),
        back.context.deadline.nanos_after(taken) == request.context.deadline.nanos_after(sent),
        taken == sent && sent.nanos <= request.context.deadline.nanos <= sent.nanos + u64::MAX
            ==> back.context.deadline == request.context.deadline,
        request.context.deadline.nanos <= sent.nanos ==> back.context.deadline == taken,
{
    law_trace_context_survives(request.context.trace_context);
}

/// A client's message comes back from the form in which it travels: a
/// cancellation as it was, a request as [`law_request_survives`] says.
pub proof fn law_client_message_survives<T: Clone>(
    message: ClientMessage<T>,
    sent: Instant,
    packed: ForyClientMessage<T>,
    taken: Instant,
    back: ClientMessage<T>,
)
    requires
        packs_message(message, sent, packed),
        unpacks_message(packed, taken, back),
    ensures
        match message {
            ClientMessage::Cancel { .. } => back == message,
            ClientMessage::Request(req) => {
                &&& back matches ClientMessage::Request(b)
                &&& b.id == req.id
                &&& b.context.trace_context == req.context.trace_context
                &&& cloned(req.message, b.message)
                &&& b.context.deadline.nanos_after(taken) == req.context.deadline.nanos_after(sent)
            },
        },
{
    match message {
        ClientMessage::Request(req) => {
            law_request_survives(
                req,
                sent,
                packed->Request_0,
                taken,
                back->Request_0,
            );
        },
        ClientMessage::Cancel { trace_context, .. } => {
            law_trace_context_survives(trace_context);
        },
    }
}

/// A request whose body is a string arrives as it was sent: packed and written
/// by the client, read from the bytes and unpacked by the server.
pub proof fn law_text_request_arrives(
    request: Request<String>,
    sent: Instant,
    packed: ForyClientMessage<String>,
    bytes: Seq<u8>,
    before: Seq<u8>,
    rest: Seq<u8>,
    read: ForyClientMessage<String>,
    taken: Instant,
    back: ClientMessage<String>,
)
    requires
        string_faithful(request.message@),
        packs_message(ClientMessage::Request(request), sent, packed),
        ForyClientMessage::<String>::writing(packed.model(), false) == Writing::Complete(bytes),
        ForyClientMessage::<String>::reading(before + bytes + rest, before.len()).1 == Ok::<
            ClientMessageModel<Seq<char>>,
            Fault,
        >(read.model()),
        unpacks_message(read, taken, back),
    ensures
        back matches ClientMessage::Request(b) && {
            &&& b.id == request.id
            &&& b.context.trace_context == request.context.trace_context
            &&& b.message@ == request.message@
            &&& b.context.deadline.nanos_after(taken) == request.context.deadline.nanos_after(sent)
        },
{
    law_client_message_reads_back::<String>(packed.model(), before, rest);
    assert(read.model() == packed.model());
    law_trace_context_survives(request.context.trace_context);
    law_remaining_inverts_after(
        taken,
        read->Request_0.deadline_ns,
        back->Request_0.context.deadline,
    );
}

/// A response whose payload is a string arrives as it was sent: packed and written
/// by the server, read from the bytes and unpacked by the client. An error kind
/// that has no code arrives as `Other`.
pub proof fn law_text_response_arrives(
    response: Response<String>,
    packed: ForyResponse<String>,
    cross_language: bool,
    bytes: Seq<u8>,
    before: Seq<u8>,
    rest: Seq<u8>,
    read: ForyResponse<String>,
)
    requires
        match response.message {
            Ok(text) => string_faithful(text@),
            Err(e) => string_faithful(e.detail@),
        },
        packs_response(response, packed),
        ForyResponse::<String>::writing(packed.model(), cross_language) == Writing::Complete(bytes),
        ForyResponse::<String>::reading(before + bytes + rest, before.len()).1 == Ok::<
            ResponseModel<Seq<char>>,
            Fault,
        >(read.model()),
    ensures
        unpacked_response(read).request_id == response.request_id,
        match response.message {
            Ok(text) => unpacked_response(read).message matches Ok(t) && t@ == text@,
            Err(e) => unpacked_response(read).message matches Err(b) && b.detail@ == e.detail@
                && b.kind == if e.kind is Unlisted {
                ErrorKind::Other
            } else {
                e.kind
            },
        },
{
    law_response_reads_back::<String>(packed.model(), cross_language, before, rest);
    if let Err(e) = response.message {
        law_kind_survives_coding(e.kind);
    }
}

/// What stands in for a missing number or text.
pub proof fn law_default_scalars(a: u8, b: u32, c: u64, d: u128, e: String)
    ensures
        call_ensures(<u8 as WireValue>::fory_default, (), a) ==> a == 0,
        call_ensures(<u32 as WireValue>::fory_default, (), b) ==> b == 0,
        call_ensures(<u64 as WireValue>::fory_default, (), c) ==> c == 0,
        call_ensures(<u128 as WireValue>::fory_default, (), d) ==> d == 0,
        call_ensures(<String as WireValue>::fory_default, (), e) ==> e@.len() == 0,
{
}

/// What stands in for a missing trace context or server's error: nothing but
/// zeros and no text.
pub proof fn law_default_parts(trace: ForyTraceContext, error: ForyServerError)
    ensures
        call_ensures(<ForyTraceContext as WireValue>::fory_default, (), trace) ==> {
            &&& trace.trace_id == 0
            &&& trace.span_id == 0
            &&& trace.sampling == 0
        },
        call_ensures(<ForyServerError as WireValue>::fory_default, (), error) ==> {
            &&& error.kind == 0
            &&& error.detail@.len() == 0
        },
{
}

/// What stands in for a missing envelope: zeros, around what stands in for a
/// missing payload.
pub proof fn law_default_envelopes<T: WireValue>(
    result: ForyResult<T>,
    request: ForyRequest<T>,
    response: ForyResponse<T>,
    message: ForyClientMessage<T>,
)
    ensures
        call_ensures(<ForyResult<T> as WireValue>::fory_default, (), result) ==> (
        result matches ForyResult::Success(v) && v.model() == T::default_model()),
        call_ensures(<ForyRequest<T> as WireValue>::fory_default, (), request) ==> {
            &&& request.id == 0
            &&& request.trace.trace_id == 0
            &&& request.trace.span_id == 0
            &&& request.trace.sampling == 0
            &&& request.deadline_ns == 0
            &&& request.message.model() == T::default_model()
        },
        call_ensures(<ForyResponse<T> as WireValue>::fory_default, (), response) ==> {
            &&& response.request_id == 0
            &&& response.message matches ForyResult::Success(v) && v.model() == T::default_model()
        },
        call_ensures(<ForyClientMessage<T> as WireValue>::fory_default, (), message) ==> {
            &&& message matches ForyClientMessage::Request(req)
            &&& req.id == 0
            &&& req.trace.trace_id == 0
            &&& req.trace.span_id == 0
            &&& req.trace.sampling == 0
            &&& req.deadline_ns == 0
            &&& req.message.model() == T::default_model()
        },
{
}

/// Which values can be written: those whose strings have a length that is not
/// negative once cut to 32 bits.
pub proof fn law_what_can_be_written<T: WireValue>(
    text: String,
    error: ForyServerError,
    result: ForyResult<T>,
    request: ForyRequest<T>,
    response: ForyResponse<T>,
    message: ForyClientMessage<T>,
)
    ensures
        String::writable(text.model()) <==> encode_utf8(text@).len() % 0x1_0000_0000 < 0x8000_0000,
        ForyServerError::writable(error.model()) <==> encode_utf8(error.detail@).len()
            % 0x1_0000_0000 < 0x8000_0000,
        ForyResult::<T>::writable(result.model()) <==> match result {
            ForyResult::Success(v) => T::writable(v.model()),
            ForyResult::Failure(e) => encode_utf8(e.detail@).len() % 0x1_0000_0000 < 0x8000_0000,
        },
        ForyRequest::<T>::writable(request.model()) <==> T::writable(request.message.model()),
        ForyResponse::<T>::writable(response.model()) <==> match response.message {
            ForyResult::Success(v) => T::writable(v.model()),
            ForyResult::Failure(e) => encode_utf8(e.detail@).len() % 0x1_0000_0000 < 0x8000_0000,
        },
        ForyClientMessage::<T>::writable(message.model()) <==> match message {
            ForyClientMessage::Request(req) => T::writable(req.message.model()),
            ForyClientMessage::Cancel { .. } => true,
        },
{
}

} // verus!
