//! Values that have a place in an envelope: how they are written and read.
use fory_core::{Error, ReadContext, WriteContext};
use vstd::prelude::*;
use vstd::string::StringExecFns;
use vstd::utf8::{decode_utf8, valid_utf8};

use crate::codec::{
    cross_language, input, invalid_data, invalid_data_error, position, read_string, read_u128,
    read_u32, read_u64, read_u8, string_error, u128_error, u128_refusal, u32_error, u64_error,
    u8_error, write_string, write_u128, write_u32, write_u64, write_u8, written,
};
use crate::encoding::{
    latin1_text, le_bytes, lemma_string_bounded, lemma_string_round_trip, lemma_u128_round_trip,
    lemma_u32_round_trip, lemma_u64_round_trip, lemma_var_read_bounded, string_at, string_bytes,
    string_faithful, string_writable, u128_at, u32_at, u64_at, u8_at, utf16_text, utf16_units,
    var_bytes, StringFrame,
};
use crate::registration::EnvelopeType;

verus! {

/// Why an envelope could not be written or read.
#[derive(Debug)]
pub enum WireError {
    /// Fory refused the bytes or the value.
    Fory(Error),
    /// The leading byte of an envelope names none of its variants.
    UnknownDiscriminant { envelope: EnvelopeType, discriminant: u8 },
}

/// A number in decimal digits.
pub open spec fn decimal(n: nat) -> Seq<char>
    decreases n,
{
    if n < 10 {
        seq![('0' as u32 + n) as char]
    } else {
        decimal(n / 10) + decimal(n % 10)
    }
}

/// The message about a leading byte that names no variant.
pub open spec fn discriminant_message(envelope: EnvelopeType, discriminant: u8) -> Seq<char> {
    envelope.name_text() + ": unknown discriminant "@ + decimal(discriminant as nat)
}

/// A decimal digit.
fn digit(n: u8) -> (text: &'static str)
    requires
        n < 10,
    ensures
        text@ == decimal(n as nat),
{
    proof {
        reveal_strlit("0");
        reveal_strlit("1");
        reveal_strlit("2");
        reveal_strlit("3");
        reveal_strlit("4");
        reveal_strlit("5");
        reveal_strlit("6");
        reveal_strlit("7");
        reveal_strlit("8");
        reveal_strlit("9");
    }
    match n {
        0 => "0",
        1 => "1",
        2 => "2",
        3 => "3",
        4 => "4",
        5 => "5",
        6 => "6",
        7 => "7",
        8 => "8",
        _ => "9",
    }
}

impl WireError {
    /// Fory's own form of the error. A leading byte that names no variant is
    /// invalid data.
    pub fn into_fory(self) -> (r: Error)
        ensures
            match self {
                WireError::Fory(e) => r == e,
                WireError::UnknownDiscriminant { envelope, discriminant } => r
                    == invalid_data_error(discriminant_message(envelope, discriminant)),
            },
    {
        match self {
            WireError::Fory(e) => e,
            WireError::UnknownDiscriminant { envelope, discriminant } => {
                let mut message = envelope.name().to_owned();
                message.append(": unknown discriminant ");
                if discriminant >= 100 {
                    message.append(digit(discriminant / 100));
                }
                if discriminant >= 10 {
                    message.append(digit(discriminant / 10 % 10));
                }
                message.append(digit(discriminant % 10));
                proof {
                    reveal_with_fuel(decimal, 3);
                    assert(message@ =~= discriminant_message(envelope, discriminant));
                }
                invalid_data(message)
            },
        }
    }
}

/// Why a value could not be read.
pub enum Fault {
    /// Fory refuses the bytes, with this error.
    Refused(Error),
    /// An enum's leading byte names none of its variants.
    UnknownDiscriminant { envelope: EnvelopeType, discriminant: u8 },
    /// A string's bytes are marked as UTF-8 and are not, or its length does not
    /// fit the machine's `usize`, or the format is not described: what comes out
    /// is not determined.
    Undetermined,
}

/// What reading does: the number of bytes taken, and the value or the fault.
pub type Reading<V> = (nat, Result<V, Fault>);

/// What writing does.
pub enum Writing {
    /// These are the bytes of the value.
    Complete(Seq<u8>),
    /// These bytes of the value are written before Fory refuses the rest, with
    /// this error.
    Stopped(Seq<u8>, Error),
    /// It is not described.
    Undetermined,
}

/// One writing after another, which is left out where the first stopped short.
pub open spec fn followed_by(first: Writing, second: Writing) -> Writing {
    match (first, second) {
        (Writing::Complete(a), Writing::Complete(b)) => Writing::Complete(a + b),
        (Writing::Complete(a), Writing::Stopped(b, e)) => Writing::Stopped(a + b, e),
        (Writing::Complete(_), Writing::Undetermined) => Writing::Undetermined,
        _ => first,
    }
}

/// One reading after another: `next` says what comes after the first value, from
/// that value and the count of its bytes. A fault ends the reading.
pub open spec fn chain<A, B>(first: Reading<A>, next: spec_fn(A, nat) -> Reading<B>) -> Reading<B> {
    match first.1 {
        Ok(a) => {
            let second = next(a, first.0);
            (first.0 + second.0, second.1)
        },
        Err(fault) => (first.0, Err(fault)),
    }
}

/// The bytes and the result that a writing gives. One that is not described may
/// give any.
pub open spec fn writing_gives(
    writing: Writing,
    bytes: Seq<u8>,
    r: Result<(), WireError>,
) -> bool {
    match writing {
        Writing::Complete(b) => bytes == b && r is Ok,
        Writing::Stopped(b, e) => bytes == b && r == Err::<(), WireError>(WireError::Fory(e)),
        Writing::Undetermined => true,
    }
}

/// The place `end` at which a reading from `at` leaves the reader, and its
/// result. One that is not determined may give any.
pub open spec fn reading_gives<V>(
    reading: Reading<V>,
    at: nat,
    end: nat,
    r: Result<V, WireError>,
) -> bool {
    match reading.1 {
        Ok(v) => end == at + reading.0 && r == Ok::<V, WireError>(v),
        Err(Fault::Refused(e)) => end == at + reading.0 && r == Err::<V, WireError>(
            WireError::Fory(e),
        ),
        Err(Fault::UnknownDiscriminant { envelope, discriminant }) => end == at + reading.0 && r
            == Err::<V, WireError>(WireError::UnknownDiscriminant { envelope, discriminant }),
        Err(Fault::Undetermined) => true,
    }
}

/// The bytes and the result of `first` and then of what `next` allows, which is
/// left out where the first stopped short.
pub open spec fn may_follow(
    first: Writing,
    next: spec_fn(Seq<u8>, Result<(), WireError>) -> bool,
    bytes: Seq<u8>,
    r: Result<(), WireError>,
) -> bool {
    match first {
        Writing::Complete(a) => a.is_prefix_of(bytes) && next(bytes.skip(a.len() as int), r),
        _ => writing_gives(first, bytes, r),
    }
}

/// The end and the result of `first`, read from `at`, and then of what `next`
/// allows, from the first value and the place after it. A fault ends the reading.
pub open spec fn may_chain<A, B>(
    first: Reading<A>,
    next: spec_fn(A, nat) -> bool,
    at: nat,
    end: nat,
    r: Result<B, WireError>,
) -> bool {
    match first.1 {
        Ok(a) => next(a, at + first.0),
        Err(fault) => reading_gives::<B>((first.0, Err(fault)), at, end, r),
    }
}

/// What was added by one write, and by two.
pub broadcast proof fn lemma_two_writes(start: Seq<u8>, middle: Seq<u8>, end: Seq<u8>)
    requires
        #[trigger] start.is_prefix_of(middle),
        #[trigger] middle.is_prefix_of(end),
    ensures
        start.is_prefix_of(end),
        end.skip(start.len() as int) == middle.skip(start.len() as int) + end.skip(
            middle.len() as int,
        ),
        middle.skip(start.len() as int).is_prefix_of(end.skip(start.len() as int)),
        end.skip(start.len() as int).skip(middle.len() - start.len()) == end.skip(
            middle.len() as int,
        ),
{
    let first = middle.skip(start.len() as int);
    let both = end.skip(start.len() as int);
    assert(both =~= first + end.skip(middle.len() as int));
    assert(both.skip(middle.len() - start.len()) =~= end.skip(middle.len() as int));
    assert(start =~= end.take(start.len() as int));
    assert(first =~= both.take(first.len() as int));
}

/// What was added is what was put at the end.
pub broadcast proof fn lemma_appended(start: Seq<u8>, bytes: Seq<u8>)
    ensures
        start.is_prefix_of(#[trigger] (start + bytes)),
        (start + bytes).skip(start.len() as int) == bytes,
{
    assert((start + bytes).skip(start.len() as int) =~= bytes);
    assert(start =~= (start + bytes).take(start.len() as int));
}

/// A value that can be written to a Fory buffer and read back. A write only adds
/// to the buffer, and a read only moves the reader.
///
/// The specification functions have defaults, for types whose format is not
/// described.
pub trait WireValue: Sized {
    /// The mathematical counterpart of the type.
    type Model;

    /// The value as mathematics.
    open spec fn model(&self) -> Self::Model {
        arbitrary()
    }

    /// The value that stands in for a missing one.
    open spec fn default_model() -> Self::Model {
        arbitrary()
    }

    /// Whether the value can be written at all.
    open spec fn writable(v: Self::Model) -> bool {
        true
    }

    /// What is written for a value, with and without cross-language use.
    open spec fn writing(v: Self::Model, cross_language: bool) -> Writing {
        Writing::Undetermined
    }

    /// What the bytes from the place `at` in `s` read as.
    open spec fn reading(s: Seq<u8>, at: nat) -> Reading<Self::Model> {
        (0, Err(Fault::Undetermined))
    }

    /// Whether a write of a value may add `bytes` and give `r`. An envelope around
    /// a value that is not described says here what its own parts add before it.
    open spec fn may_write(
        v: Self::Model,
        cross_language: bool,
        bytes: Seq<u8>,
        r: Result<(), WireError>,
    ) -> bool {
        true
    }

    /// Whether a read from the place `at` in `s` may leave the reader at `end` and
    /// give `r`. An envelope around a value that is not described says here what
    /// its own parts read as before it.
    open spec fn may_read(
        s: Seq<u8>,
        at: nat,
        end: nat,
        r: Result<Self::Model, WireError>,
    ) -> bool {
        true
    }

    /// The value that stands in for a missing one.
    fn fory_default() -> (r: Self)
        ensures
            r.model() == Self::default_model(),
    ;

    /// Writes the value at the end of the buffer.
    fn fory_write_data(&self, context: &mut WriteContext) -> (r: Result<(), WireError>)
        requires
            Self::writable(self.model()),
        ensures
            written(*old(context)).is_prefix_of(written(*final(context))),
            ({
                let bytes = written(*final(context)).skip(written(*old(context)).len() as int);
                &&& writing_gives(
                    Self::writing(self.model(), cross_language(*old(context))),
                    bytes,
                    r,
                )
                &&& Self::may_write(self.model(), cross_language(*old(context)), bytes, r)
            }),
            cross_language(*final(context)) == cross_language(*old(context)),
    ;

    /// Reads a value from where the reader stands.
    fn fory_read_data(context: &mut ReadContext) -> (r: Result<Self, WireError>)
        ensures
            ({
                let s = input(*old(context));
                let at = position(*old(context));
                let end = position(*final(context));
                let result = match r {
                    Ok(x) => Ok::<Self::Model, WireError>(x.model()),
                    Err(e) => Err::<Self::Model, WireError>(e),
                };
                &&& reading_gives(Self::reading(s, at), at, end, result)
                &&& Self::may_read(s, at, end, result)
            }),
            input(*final(context)) == input(*old(context)),
    ;
}

/// A value whose format is described, and which reads back from it.
pub trait RoundTrip: WireValue {
    /// Whether reading gives back the value that was written.
    spec fn faithful(v: Self::Model) -> bool;

    /// A read takes no more bytes than there are.
    proof fn reading_is_bounded(s: Seq<u8>, at: nat)
        requires
            at <= s.len(),
        ensures
            at + Self::reading(s, at).0 <= s.len(),
    ;

    /// A faithful value reads back from its own bytes, whatever stands before and
    /// after them, and exactly those bytes are taken.
    proof fn reading_inverts_writing(
        v: Self::Model,
        cross_language: bool,
        bytes: Seq<u8>,
        before: Seq<u8>,
        rest: Seq<u8>,
    )
        requires
            Self::faithful(v),
            Self::writing(v, cross_language) == Writing::Complete(bytes),
        ensures
            Self::reading(before + bytes + rest, before.len()) == (
                bytes.len(),
                Ok::<Self::Model, Fault>(v),
            ),
    ;
}

impl WireValue for u8 {
    type Model = u8;

    open spec fn model(&self) -> u8 {
        *self
    }

    open spec fn default_model() -> u8 {
        0
    }

    open spec fn writable(v: u8) -> bool {
        true
    }

    open spec fn writing(v: u8, cross_language: bool) -> Writing {
        Writing::Complete(seq![v])
    }

    open spec fn reading(s: Seq<u8>, at: nat) -> Reading<u8> {
        match u8_at(s, at) {
            Some(v) => (1, Ok(v)),
            None => (0, Err(Fault::Refused(u8_error(s, at)))),
        }
    }

    fn fory_default() -> (r: u8) {
        0
    }

    fn fory_write_data(&self, context: &mut WriteContext) -> (r: Result<(), WireError>) {
        broadcast use lemma_appended;

        match write_u8(context, *self) {
            Ok(()) => Ok(()),
            Err(e) => Err(WireError::Fory(e)),
        }
    }

    fn fory_read_data(context: &mut ReadContext) -> (r: Result<u8, WireError>) {
        match read_u8(context) {
            Ok(v) => Ok(v),
            Err(e) => Err(WireError::Fory(e)),
        }
    }
}

impl RoundTrip for u8 {
    open spec fn faithful(v: u8) -> bool {
        true
    }

    proof fn reading_is_bounded(s: Seq<u8>, at: nat) {
    }

    proof fn reading_inverts_writing(
        v: u8,
        cross_language: bool,
        bytes: Seq<u8>,
        before: Seq<u8>,
        rest: Seq<u8>,
    ) {
    }
}

impl WireValue for u32 {
    type Model = u32;

    open spec fn model(&self) -> u32 {
        *self
    }

    open spec fn default_model() -> u32 {
        0
    }

    open spec fn writable(v: u32) -> bool {
        true
    }

    open spec fn writing(v: u32, cross_language: bool) -> Writing {
        Writing::Complete(var_bytes(v as nat, 4))
    }

    open spec fn reading(s: Seq<u8>, at: nat) -> Reading<u32> {
        match u32_at(s, at) {
            Some((v, n)) => (n, Ok(v)),
            None => (0, Err(Fault::Refused(u32_error(s, at)))),
        }
    }

    fn fory_default() -> (r: u32) {
        0
    }

    fn fory_write_data(&self, context: &mut WriteContext) -> (r: Result<(), WireError>) {
        broadcast use lemma_appended;

        match write_u32(context, *self) {
            Ok(()) => Ok(()),
            Err(e) => Err(WireError::Fory(e)),
        }
    }

    fn fory_read_data(context: &mut ReadContext) -> (r: Result<u32, WireError>) {
        match read_u32(context) {
            Ok(v) => Ok(v),
            Err(e) => Err(WireError::Fory(e)),
        }
    }
}

impl RoundTrip for u32 {
    open spec fn faithful(v: u32) -> bool {
        true
    }

    proof fn reading_is_bounded(s: Seq<u8>, at: nat) {
        lemma_var_read_bounded(s.skip(at as int), 4);
    }

    proof fn reading_inverts_writing(
        v: u32,
        cross_language: bool,
        bytes: Seq<u8>,
        before: Seq<u8>,
        rest: Seq<u8>,
    ) {
        lemma_u32_round_trip(v, before, rest);
    }
}

impl WireValue for u64 {
    type Model = u64;

    open spec fn model(&self) -> u64 {
        *self
    }

    open spec fn default_model() -> u64 {
        0
    }

    open spec fn writable(v: u64) -> bool {
        true
    }

    open spec fn writing(v: u64, cross_language: bool) -> Writing {
        Writing::Complete(var_bytes(v as nat, 8))
    }

    open spec fn reading(s: Seq<u8>, at: nat) -> Reading<u64> {
        match u64_at(s, at) {
            Some((v, n)) => (n, Ok(v)),
            None => (0, Err(Fault::Refused(u64_error(s, at)))),
        }
    }

    fn fory_default() -> (r: u64) {
        0
    }

    fn fory_write_data(&self, context: &mut WriteContext) -> (r: Result<(), WireError>) {
        broadcast use lemma_appended;

        match write_u64(context, *self) {
            Ok(()) => Ok(()),
            Err(e) => Err(WireError::Fory(e)),
        }
    }

    fn fory_read_data(context: &mut ReadContext) -> (r: Result<u64, WireError>) {
        match read_u64(context) {
            Ok(v) => Ok(v),
            Err(e) => Err(WireError::Fory(e)),
        }
    }
}

impl RoundTrip for u64 {
    open spec fn faithful(v: u64) -> bool {
        true
    }

    proof fn reading_is_bounded(s: Seq<u8>, at: nat) {
        lemma_var_read_bounded(s.skip(at as int), 8);
    }

    proof fn reading_inverts_writing(
        v: u64,
        cross_language: bool,
        bytes: Seq<u8>,
        before: Seq<u8>,
        rest: Seq<u8>,
    ) {
        lemma_u64_round_trip(v, before, rest);
    }
}

impl WireValue for u128 {
    type Model = u128;

    open spec fn model(&self) -> u128 {
        *self
    }

    open spec fn default_model() -> u128 {
        0
    }

    open spec fn writable(v: u128) -> bool {
        true
    }

    /// Fory has no cross-language form of a `u128`.
    open spec fn writing(v: u128, cross_language: bool) -> Writing {
        if cross_language {
            Writing::Stopped(seq![], u128_refusal(v))
        } else {
            Writing::Complete(le_bytes(v as nat, 16))
        }
    }

    open spec fn reading(s: Seq<u8>, at: nat) -> Reading<u128> {
        match u128_at(s, at) {
            Some(v) => (16, Ok(v)),
            None => (0, Err(Fault::Refused(u128_error(s, at)))),
        }
    }

    fn fory_default() -> (r: u128) {
        0
    }

    fn fory_write_data(&self, context: &mut WriteContext) -> (r: Result<(), WireError>) {
        broadcast use lemma_appended;

        match write_u128(context, *self) {
            Ok(()) => Ok(()),
            Err(e) => {
                assert(written(*context) =~= written(*old(context)) + Seq::<u8>::empty());
                Err(WireError::Fory(e))
            },
        }
    }

    fn fory_read_data(context: &mut ReadContext) -> (r: Result<u128, WireError>) {
        match read_u128(context) {
            Ok(v) => Ok(v),
            Err(e) => Err(WireError::Fory(e)),
        }
    }
}

impl RoundTrip for u128 {
    open spec fn faithful(v: u128) -> bool {
        true
    }

    proof fn reading_is_bounded(s: Seq<u8>, at: nat) {
    }

    proof fn reading_inverts_writing(
        v: u128,
        cross_language: bool,
        bytes: Seq<u8>,
        before: Seq<u8>,
        rest: Seq<u8>,
    ) {
        lemma_u128_round_trip(v, before, rest);
    }
}

impl WireValue for String {
    type Model = Seq<char>;

    open spec fn model(&self) -> Seq<char> {
        self@
    }

    open spec fn default_model() -> Seq<char> {
        seq![]
    }

    open spec fn writable(v: Seq<char>) -> bool {
        string_writable(v)
    }

    open spec fn writing(v: Seq<char>, cross_language: bool) -> Writing {
        Writing::Complete(string_bytes(v))
    }

    open spec fn reading(s: Seq<u8>, at: nat) -> Reading<Seq<char>> {
        let (n, frame) = string_at(s, at);
        (
            n,
            match frame {
                StringFrame::Body { mark, body } => if mark == 0 {
                    Ok(latin1_text(body))
                } else if mark == 1 {
                    Ok(utf16_text(utf16_units(body)))
                } else if valid_utf8(body) {
                    Ok(decode_utf8(body))
                } else {
                    Err(Fault::Undetermined)
                },
                StringFrame::Nothing => Err(Fault::Refused(string_error(s, at))),
                StringFrame::TooLong => Err(Fault::Undetermined),
            },
        )
    }

    /// Where a body is no UTF-8 the text is open, but not how much is taken.
    open spec fn may_read(
        s: Seq<u8>,
        at: nat,
        end: nat,
        r: Result<Seq<char>, WireError>,
    ) -> bool {
        string_at(s, at).1 !is TooLong ==> end == at + string_at(s, at).0
    }

    fn fory_default() -> (r: String) {
        String::new()
    }

    fn fory_write_data(&self, context: &mut WriteContext) -> (r: Result<(), WireError>) {
        broadcast use lemma_appended;

        match write_string(context, self) {
            Ok(()) => Ok(()),
            Err(e) => Err(WireError::Fory(e)),
        }
    }

    fn fory_read_data(context: &mut ReadContext) -> (r: Result<String, WireError>) {
        match read_string(context) {
            Ok(v) => Ok(v),
            Err(e) => Err(WireError::Fory(e)),
        }
    }
}

impl RoundTrip for String {
    /// Fory pads some headers when it writes and skips no padding when it reads,
    /// so strings of those lengths do not come back.
    open spec fn faithful(v: Seq<char>) -> bool {
        string_faithful(v)
    }

    proof fn reading_is_bounded(s: Seq<u8>, at: nat) {
        lemma_string_bounded(s, at);
    }

    proof fn reading_inverts_writing(
        v: Seq<char>,
        cross_language: bool,
        bytes: Seq<u8>,
        before: Seq<u8>,
        rest: Seq<u8>,
    ) {
        broadcast use vstd::utf8::encode_utf8_valid_utf8, vstd::utf8::encode_utf8_decode_utf8;

        lemma_string_round_trip(v, before, rest);
    }
}

/// An error of Fory stays as it is, and a leading byte that names no variant
/// becomes a message that names the type and the byte, in decimal digits.
pub proof fn law_what_an_error_says(error: WireError, r: Error)
    requires
        call_ensures(WireError::into_fory, (error,), r),
    ensures
        error matches WireError::Fory(e) ==> r == e,
        error matches WireError::UnknownDiscriminant { envelope, discriminant } ==> {
            let name = match envelope {
                EnvelopeType::TraceContext => "ForyTraceContext"@,
                EnvelopeType::ServerError => "ForyServerError"@,
                EnvelopeType::Result => "ForyResult"@,
                EnvelopeType::Request => "ForyRequest"@,
                EnvelopeType::Response => "ForyResponse"@,
                EnvelopeType::ClientMessage => "ForyClientMessage"@,
            };
            let ones = (48 + discriminant % 10) as char;
            let tens = (48 + discriminant / 10 % 10) as char;
            let hundreds = (48 + discriminant / 100) as char;
            let digits = if discriminant < 10 {
                seq![ones]
            } else if discriminant < 100 {
                seq![tens, ones]
            } else {
                seq![hundreds, tens, ones]
            };
            r == invalid_data_error(name + ": unknown discriminant "@ + digits)
        },
{
    reveal_with_fuel(decimal, 3);
    if let WireError::UnknownDiscriminant { envelope, discriminant } = error {
        let ones = (48 + discriminant % 10) as char;
        let tens = (48 + discriminant / 10 % 10) as char;
        let hundreds = (48 + discriminant / 100) as char;
        let digits = if discriminant < 10 {
            seq![ones]
        } else if discriminant < 100 {
            seq![tens, ones]
        } else {
            seq![hundreds, tens, ones]
        };
        assert(decimal(discriminant as nat) =~= digits);
    }
}

} // verus!
