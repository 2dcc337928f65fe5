//! Fory's buffers: what the contexts hold, and the calls that move bytes in and
//! out of them. The contracts in this file are not proved; each names the
//! outside function that it speaks of. They hold of a Fory that returns its
//! errors; one that is compiled with `FORY_PANIC_ON_ERROR` set panics instead.
use fory_core::{Error, ReadContext, RefMode, Serializer, WriteContext};
use vstd::prelude::*;
use vstd::utf8::{decode_utf8, valid_utf8};

use crate::encoding::{
    latin1_text, le_bytes, string_at, string_bytes, string_writable, u128_at, u32_at, u64_at,
    u8_at, utf16_text, utf16_units, var_bytes, StringFrame,
};

verus! {

/// Fory's error type.
#[verifier::external_type_specification]
#[verifier::external_body]
pub struct ExError(fory_core::Error);

/// Fory's serialization state.
#[verifier::external_type_specification]
#[verifier::external_body]
pub struct ExWriteContext<'a>(fory_core::WriteContext<'a>);

/// Fory's deserialization state.
#[verifier::external_type_specification]
#[verifier::external_body]
pub struct ExReadContext<'a>(fory_core::ReadContext<'a>);

/// The bytes that the context's writer holds.
pub uninterp spec fn written(context: WriteContext) -> Seq<u8>;

/// Whether the context was made for cross-language use.
pub uninterp spec fn cross_language(context: WriteContext) -> bool;

/// The bytes that the context's reader was given.
pub uninterp spec fn input(context: ReadContext) -> Seq<u8>;

/// The place in the input at which the context's reader stands.
pub uninterp spec fn position(context: ReadContext) -> nat;

/// The error that Fory makes of a message about invalid data.
pub uninterp spec fn invalid_data_error(message: Seq<char>) -> Error;

/// The error of `Reader::read_u8` where there is no byte at `position`.
pub uninterp spec fn byte_error(input: Seq<u8>, position: nat) -> Error;

/// The error of `u8::fory_read` where there is no byte at `position`.
pub uninterp spec fn u8_error(input: Seq<u8>, position: nat) -> Error;

/// The error of `u32::fory_read` where no number ends within the input.
pub uninterp spec fn u32_error(input: Seq<u8>, position: nat) -> Error;

/// The error of `u64::fory_read` where no number ends within the input.
pub uninterp spec fn u64_error(input: Seq<u8>, position: nat) -> Error;

/// The error of `u128::fory_read` where sixteen bytes are not left.
pub uninterp spec fn u128_error(input: Seq<u8>, position: nat) -> Error;

/// The error of `String::fory_read` where the bytes at `position` are no string.
pub uninterp spec fn string_error(input: Seq<u8>, position: nat) -> Error;

/// The error of `u128::fory_write` in a context for cross-language use.
pub uninterp spec fn u128_refusal(value: u128) -> Error;

/// `Writer::write_u8` puts one byte at the end of the buffer.
#[verifier::external_body]
pub(crate) fn write_discriminant(context: &mut WriteContext, discriminant: u8)
    ensures
        written(*final(context)) == written(*old(context)) + seq![discriminant],
        cross_language(*final(context)) == cross_language(*old(context)),
{
    context.writer.write_u8(discriminant)
}

/// `Reader::read_u8` takes one byte from the input, and fails where none is left.
#[verifier::external_body]
pub(crate) fn read_discriminant(context: &mut ReadContext) -> (r: Result<u8, Error>)
    ensures
        match u8_at(input(*old(context)), position(*old(context))) {
            Some(v) => {
                &&& r == Ok::<u8, Error>(v)
                &&& position(*final(context)) == position(*old(context)) + 1
            },
            None => {
                &&& r == Err::<u8, Error>(byte_error(input(*old(context)), position(*old(context))))
                &&& position(*final(context)) == position(*old(context))
            },
        },
        input(*final(context)) == input(*old(context)),
{
    context.reader.read_u8()
}

/// `Serializer::fory_write` on a `u8`, without reference flag and type
/// information, puts that byte at the end of the buffer and does not fail.
#[verifier::external_body]
pub(crate) fn write_u8(context: &mut WriteContext, value: u8) -> (r: Result<(), Error>)
    ensures
        r is Ok,
        written(*final(context)) == written(*old(context)) + seq![value],
        cross_language(*final(context)) == cross_language(*old(context)),
{
    value.fory_write(context, RefMode::None, false, false)
}

/// `Serializer::fory_read` on a `u8`, without reference flag and type
/// information, takes one byte, and fails where none is left.
#[verifier::external_body]
pub(crate) fn read_u8(context: &mut ReadContext) -> (r: Result<u8, Error>)
    ensures
        match u8_at(input(*old(context)), position(*old(context))) {
            Some(v) => {
                &&& r == Ok::<u8, Error>(v)
                &&& position(*final(context)) == position(*old(context)) + 1
            },
            None => {
                &&& r == Err::<u8, Error>(u8_error(input(*old(context)), position(*old(context))))
                &&& position(*final(context)) == position(*old(context))
            },
        },
        input(*final(context)) == input(*old(context)),
{
    u8::fory_read(context, RefMode::None, false)
}

/// `Serializer::fory_write` on a `u32`, without reference flag and type
/// information, writes one to five bytes, seven bits to the byte, and does not
/// fail.
#[verifier::external_body]
pub(crate) fn write_u32(context: &mut WriteContext, value: u32) -> (r: Result<(), Error>)
    ensures
        r is Ok,
        written(*final(context)) == written(*old(context)) + var_bytes(value as nat, 4),
        cross_language(*final(context)) == cross_language(*old(context)),
{
    value.fory_write(context, RefMode::None, false, false)
}

/// `Serializer::fory_read` on a `u32`, without reference flag and type
/// information, takes one to five bytes, seven bits to the byte. It fails, and
/// takes none, where the input ends within the number.
#[verifier::external_body]
pub(crate) fn read_u32(context: &mut ReadContext) -> (r: Result<u32, Error>)
    ensures
        match u32_at(input(*old(context)), position(*old(context))) {
            Some((v, n)) => {
                &&& r == Ok::<u32, Error>(v)
                &&& position(*final(context)) == position(*old(context)) + n
            },
            None => {
                &&& r == Err::<u32, Error>(u32_error(input(*old(context)), position(*old(context))))
                &&& position(*final(context)) == position(*old(context))
            },
        },
        input(*final(context)) == input(*old(context)),
{
    u32::fory_read(context, RefMode::None, false)
}

/// `Serializer::fory_write` on a `u64`, without reference flag and type
/// information, writes one to nine bytes, seven bits to the byte and eight in
/// the ninth, and does not fail.
#[verifier::external_body]
pub(crate) fn write_u64(context: &mut WriteContext, value: u64) -> (r: Result<(), Error>)
    ensures
        r is Ok,
        written(*final(context)) == written(*old(context)) + var_bytes(value as nat, 8),
        cross_language(*final(context)) == cross_language(*old(context)),
{
    value.fory_write(context, RefMode::None, false, false)
}

/// `Serializer::fory_read` on a `u64`, without reference flag and type
/// information, takes one to nine bytes, seven bits to the byte and eight from
/// the ninth. It fails, and takes none, where the input ends within the number.
#[verifier::external_body]
pub(crate) fn read_u64(context: &mut ReadContext) -> (r: Result<u64, Error>)
    ensures
        match u64_at(input(*old(context)), position(*old(context))) {
            Some((v, n)) => {
                &&& r == Ok::<u64, Error>(v)
                &&& position(*final(context)) == position(*old(context)) + n
            },
            None => {
                &&& r == Err::<u64, Error>(u64_error(input(*old(context)), position(*old(context))))
                &&& position(*final(context)) == position(*old(context))
            },
        },
        input(*final(context)) == input(*old(context)),
{
    u64::fory_read(context, RefMode::None, false)
}

/// `Serializer::fory_write` on a `u128`, without reference flag and type
/// information, writes sixteen bytes, the lowest first. In a context for
/// cross-language use it fails and writes nothing.
#[verifier::external_body]
pub(crate) fn write_u128(context: &mut WriteContext, value: u128) -> (r: Result<(), Error>)
    ensures
        cross_language(*old(context)) ==> {
            &&& r == Err::<(), Error>(u128_refusal(value))
            &&& written(*final(context)) == written(*old(context))
        },
        !cross_language(*old(context)) ==> {
            &&& r is Ok
            &&& written(*final(context)) == written(*old(context)) + le_bytes(value as nat, 16)
        },
        cross_language(*final(context)) == cross_language(*old(context)),
{
    value.fory_write(context, RefMode::None, false, false)
}

/// `Serializer::fory_read` on a `u128`, without reference flag and type
/// information, takes sixteen bytes, the lowest first. It fails, and takes none,
/// where fewer are left.
#[verifier::external_body]
pub(crate) fn read_u128(context: &mut ReadContext) -> (r: Result<u128, Error>)
    ensures
        match u128_at(input(*old(context)), position(*old(context))) {
            Some(v) => {
                &&& r == Ok::<u128, Error>(v)
                &&& position(*final(context)) == position(*old(context)) + 16
            },
            None => {
                &&& r == Err::<u128, Error>(
                    u128_error(input(*old(context)), position(*old(context))),
                )
                &&& position(*final(context)) == position(*old(context))
            },
        },
        input(*final(context)) == input(*old(context)),
{
    u128::fory_read(context, RefMode::None, false)
}

/// `Serializer::fory_write` on a `String`, without reference flag and type
/// information, writes a header that holds the length in bytes and the mark of
/// UTF-8, and then the bytes. The header is a number of seven bits to the byte;
/// where it takes three bytes a zero byte follows it, and where it takes five,
/// three zero bytes. It does not fail; it panics on a length that is negative
/// once cut to 32 bits.
#[verifier::external_body]
pub(crate) fn write_string(context: &mut WriteContext, value: &String) -> (r: Result<(), Error>)
    requires
        string_writable(value@),
    ensures
        r is Ok,
        written(*final(context)) == written(*old(context)) + string_bytes(value@),
        cross_language(*final(context)) == cross_language(*old(context)),
{
    value.fory_write(context, RefMode::None, false, false)
}

/// `Serializer::fory_read` on a `String`, without reference flag and type
/// information, takes a header of seven bits to the byte and as many bytes as it
/// says, and decodes them by its mark. It fails on the mark 3, where the bytes
/// run out, and on a header of more than six bytes; by then it has taken the
/// header. Nothing is claimed of a body that is marked as UTF-8 and is not (the
/// bytes are not looked at) or of a length beyond `usize`.
#[verifier::external_body]
pub(crate) fn read_string(context: &mut ReadContext) -> (r: Result<String, Error>)
    ensures
        match string_at(input(*old(context)), position(*old(context))).1 {
            StringFrame::Body { mark, body } => if mark == 0 {
                r matches Ok(s) && s@ == latin1_text(body)
            } else if mark == 1 {
                r matches Ok(s) && s@ == utf16_text(utf16_units(body))
            } else {
                valid_utf8(body) ==> (r matches Ok(s) && s@ == decode_utf8(body))
            },
            StringFrame::Nothing => r == Err::<String, Error>(
                string_error(input(*old(context)), position(*old(context))),
            ),
            StringFrame::TooLong => true,
        },
        string_at(input(*old(context)), position(*old(context))).1 !is TooLong ==> position(
            *final(context),
        ) == position(*old(context)) + string_at(
            input(*old(context)),
            position(*old(context)),
        ).0,
        input(*final(context)) == input(*old(context)),
{
    String::fory_read(context, RefMode::None, false)
}

/// `Error::invalid_data` makes an error of a message.
#[verifier::external_body]
pub(crate) fn invalid_data(message: String) -> (r: Error)
    ensures
        r == invalid_data_error(message@),
{
    Error::invalid_data(message)
}

} // verus!
