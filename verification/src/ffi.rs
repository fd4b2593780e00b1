//! Conversions at the boundary with the native toolkit: text, truth values,
//! counts and object addresses.
//!
//! The toolkit takes and gives text as a run of bytes closed by a zero byte,
//! truth values as the integers 0 and 1, counts as signed integers, and objects
//! as addresses, with the address zero for "no object".

use vstd::prelude::*;
use vstd::string::*;
use vstd::utf8::*;

use crate::error::Error;

verus! {

/// A zero byte stands somewhere in `bytes`.
pub open spec fn has_nul(bytes: Seq<u8>) -> bool {
    exists|i: int| 0 <= i < bytes.len() && bytes[i] == 0
}

/// The first zero byte of `bytes` stands at `position`.
pub open spec fn first_nul_at(bytes: Seq<u8>, position: int) -> bool {
    &&& 0 <= position < bytes.len()
    &&& bytes[position] == 0
    &&& forall|j: int| 0 <= j < position ==> bytes[j] != 0
}

/// `content` in the form the toolkit reads: the same bytes, then one zero byte.
pub open spec fn c_text(content: Seq<u8>) -> Seq<u8> {
    content.push(0)
}

/// What the toolkit reads out of `bytes`: everything before the first zero byte.
pub open spec fn c_content(bytes: Seq<u8>) -> Seq<u8>
    decreases bytes.len(),
{
    if bytes.len() == 0 || bytes[0] == 0 {
        Seq::empty()
    } else {
        seq![bytes[0]] + c_content(bytes.drop_first())
    }
}

/// `bytes` is text in the toolkit's form: it ends in a zero byte and holds no other.
pub open spec fn is_c_text(bytes: Seq<u8>) -> bool {
    &&& bytes.len() > 0
    &&& bytes.last() == 0
    &&& !has_nul(bytes.drop_last())
}

/// `prefix` is how `text` begins.
pub open spec fn is_prefix(prefix: Seq<char>, text: Seq<char>) -> bool {
    prefix.len() <= text.len() && text.subrange(0, prefix.len() as int) == prefix
}

/// Why text could not be handed to the toolkit: it holds a zero byte, which the
/// toolkit would take for the end of the text.
#[derive(Clone, Copy, Debug, PartialEq, Eq)]
pub struct NulError {
    /// Where the first zero byte stands.
    pub position: usize,
}

/// Why bytes that the toolkit gave are no text: they are not UTF-8.
#[derive(Clone, Copy, Debug, PartialEq, Eq)]
pub struct Utf8Error {
    /// The length of the longest beginning of the bytes that is UTF-8.
    pub valid_up_to: usize,
    /// The length of the byte sequence that is wrong, or `None` where the bytes
    /// end in the middle of a character.
    pub error_len: Option<usize>,
}

/// Text in the toolkit's form.
///
/// The toolkit copies text before the call that takes it returns, so a value of
/// this type need not outlive the call.
#[derive(Debug, PartialEq, Eq)]
pub struct CText {
    bytes: Vec<u8>,
}

impl View for CText {
    type V = Seq<u8>;

    /// The bytes, closing zero byte included.
    closed spec fn view(&self) -> Seq<u8> {
        self.bytes@
    }
}

impl CText {
    #[verifier::type_invariant]
    spec fn well_formed(self) -> bool {
        is_c_text(self.bytes@)
    }

    /// The bytes to hand to the toolkit, closing zero byte included.
    pub fn as_bytes_with_nul(&self) -> (bytes: &Vec<u8>)
        ensures
            bytes@ == self@,
            is_c_text(bytes@),
    {
        proof {
            use_type_invariant(self);
        }
        &self.bytes
    }
}

/// Reading text back out of its toolkit form gives the bytes that went in.
pub proof fn lemma_c_content_of_c_text(content: Seq<u8>)
    requires
        !has_nul(content),
    ensures
        c_content(c_text(content)) == content,
        is_c_text(c_text(content)),
    decreases content.len(),
{
    assert(c_text(content).drop_last() =~= content);
    if content.len() == 0 {
        assert(c_text(content)[0] == 0);
        assert(c_content(c_text(content)) =~= content);
    } else {
        let rest = content.drop_first();
        assert(content[0] != 0);
        assert forall|i: int| 0 <= i < rest.len() implies rest[i] != 0 by {
            assert(rest[i] == content[i + 1]);
        }
        lemma_c_content_of_c_text(rest);
        assert(c_text(content).drop_first() =~= c_text(rest));
        assert(c_text(content)[0] == content[0]);
        assert(seq![content[0]] + rest =~= content);
    }
}

/// Puts `text` into the toolkit's form.
///
/// Text that holds a zero byte is refused, with the place of the first one:
/// nothing is cut off in silence.
pub fn create_c_string(text: &str) -> (r: Result<CText, NulError>)
    ensures
        r is Ok <==> !has_nul_char(text@),
        match r {
            Ok(c) => !has_nul(text.spec_bytes()) && c@ == c_text(text.spec_bytes()),
            Err(e) => first_nul_at(text.spec_bytes(), e.position as int),
        },
{
    let mut bytes = text.as_bytes_vec();
    let mut i: usize = 0;
    while i < bytes.len()
        invariant
            bytes@ == text.spec_bytes(),
            i <= bytes.len(),
            forall|j: int| 0 <= j < i ==> bytes@[j] != 0,
        decreases bytes.len() - i,
    {
        if bytes[i] == 0 {
            proof {
                assert(text.spec_bytes()[i as int] == 0);
                lemma_nul_byte_is_nul_char(text@);
            }
            return Err(NulError { position: i });
        }
        i += 1;
    }
    let ghost content = bytes@;
    bytes.push(0);
    proof {
        assert(bytes@ == c_text(content));
        assert(bytes@.drop_last() =~= content);
        lemma_nul_byte_is_nul_char(text@);
    }
    Ok(CText { bytes })
}

/// `text` is what `bytes` read as, with whatever is not UTF-8 replaced: the
/// text that they encode where they are UTF-8, and in any case what lossy
/// decoding makes of them.
pub open spec fn is_text_of(text: Seq<char>, bytes: Seq<u8>) -> bool {
    text == lossy_utf8(bytes) && (valid_utf8(bytes) ==> text == decode_utf8(bytes))
}

/// What lossy decoding makes of `bytes`: their text where they are UTF-8;
/// elsewhere each wrong byte sequence becomes the replacement character.
pub uninterp spec fn lossy_utf8(bytes: Seq<u8>) -> Seq<char>;

/// Calls `String::from_utf8_lossy`.
///
/// The result is a function of the bytes alone, and on bytes that are UTF-8 it
/// is the text that they encode.
#[verifier::external_body]
fn decode_lossy(bytes: &[u8]) -> (text: String)
    ensures
        text@ == lossy_utf8(bytes@),
        valid_utf8(bytes@) ==> text@ == decode_utf8(bytes@),
{
    String::from_utf8_lossy(bytes).into_owned()
}

/// Calls `core::str::from_utf8`.
///
/// It succeeds on exactly the bytes that are UTF-8, with the text that they
/// encode. Elsewhere the error gives the length of the longest beginning that
/// is UTF-8; of the length of the wrong sequence behind it nothing is claimed.
#[verifier::external_body]
fn decode_strict(bytes: &[u8]) -> (r: Result<String, Utf8Error>)
    ensures
        r is Ok <==> valid_utf8(bytes@),
        r matches Ok(text) ==> text@ == decode_utf8(bytes@),
        r matches Err(e) ==> {
            &&& e.valid_up_to < bytes@.len()
            &&& valid_utf8(bytes@.subrange(0, e.valid_up_to as int))
            &&& forall|n: int|
                e.valid_up_to < n <= bytes@.len() ==> !valid_utf8(#[trigger] bytes@.subrange(0, n))
        },
{
    match core::str::from_utf8(bytes) {
        Ok(text) => Ok(text.to_owned()),
        Err(e) => Err(Utf8Error { valid_up_to: e.valid_up_to(), error_len: e.error_len() }),
    }
}

/// Calls `str::starts_with` with a string pattern: it tells whether `text`
/// begins with the characters of `prefix`.
#[verifier::external_body]
pub(crate) fn starts_with(text: &str, prefix: &str) -> (r: bool)
    ensures
        r == is_prefix(prefix@, text@),
{
    text.starts_with(prefix)
}

/// The text that the toolkit gave, with whatever is not UTF-8 replaced.
///
/// `bytes` is what stands before the closing zero byte.
pub fn text_from_c(bytes: &[u8]) -> (text: String)
    ensures
        is_text_of(text@, bytes@),
{
    decode_lossy(bytes)
}

/// The text that the toolkit gave, or why its bytes are no text.
///
/// `bytes` is what stands before the closing zero byte.
pub fn raw_text_from_c(bytes: &[u8]) -> (r: Result<String, Error>)
    ensures
        r is Ok <==> valid_utf8(bytes@),
        r matches Ok(text) ==> text@ == decode_utf8(bytes@),
        r matches Err(e) ==> e.is_invalid_utf8_in(bytes@),
{
    match decode_strict(bytes) {
        Ok(text) => Ok(text),
        Err(e) => Err(Error::ConvertCString(e)),
    }
}

/// The character with the number zero stands somewhere in `text`.
pub open spec fn has_nul_char(text: Seq<char>) -> bool {
    exists|i: int| 0 <= i < text.len() && text[i] as u32 == 0
}

proof fn lemma_leading_byte_is_zero_for_zero_only(scalar: u32)
    by (bit_vector)
    requires
        scalar <= 0x7F,
    ensures
        ((scalar & 0x7F) as u8 == 0) <==> scalar == 0,
{
}

proof fn lemma_marked_bytes_are_not_zero(scalar: u32)
    by (bit_vector)
    ensures
        0xC0u8 | ((scalar >> 6) & 0x1F) as u8 != 0,
        0xE0u8 | ((scalar >> 12) & 0x0F) as u8 != 0,
        0xF0u8 | ((scalar >> 18) & 0x7) as u8 != 0,
        0x80u8 | (scalar & 0x3F) as u8 != 0,
        0x80u8 | ((scalar >> 6) & 0x3F) as u8 != 0,
        0x80u8 | ((scalar >> 12) & 0x3F) as u8 != 0,
{
}

/// The encoding of one character holds a zero byte exactly where the
/// character is the one with the number zero.
pub proof fn lemma_nul_byte_of_scalar(scalar: u32)
    ensures
        has_nul(encode_scalar(scalar)) <==> scalar == 0,
{
    let bytes = encode_scalar(scalar);
    lemma_marked_bytes_are_not_zero(scalar);
    if has_width_1_encoding(scalar) {
        lemma_leading_byte_is_zero_for_zero_only(scalar);
        if scalar == 0 {
            assert(bytes[0] == 0);
        }
    }
    if has_nul(bytes) {
        let i = choose|i: int| 0 <= i < bytes.len() && bytes[i] == 0;
        assert(bytes[i] == 0);
    }
}

/// The zero bytes of a text's encoding are its characters with the number
/// zero: no other character has a zero byte in its encoding.
pub proof fn lemma_nul_byte_is_nul_char(text: Seq<char>)
    ensures
        has_nul(encode_utf8(text)) <==> has_nul_char(text),
    decreases text.len(),
{
    if text.len() > 0 {
        let head = encode_scalar(text[0] as u32);
        let rest = text.drop_first();
        let tail = encode_utf8(rest);
        lemma_nul_byte_of_scalar(text[0] as u32);
        lemma_nul_byte_is_nul_char(rest);
        assert(encode_utf8(text) == head + tail);
        if has_nul(head) {
            let i = choose|i: int| 0 <= i < head.len() && head[i] == 0;
            assert((head + tail)[i] == 0);
        }
        if has_nul(tail) {
            let i = choose|i: int| 0 <= i < tail.len() && tail[i] == 0;
            assert((head + tail)[head.len() + i] == 0);
            let k = choose|k: int| 0 <= k < rest.len() && rest[k] as u32 == 0;
            assert(text[k + 1] as u32 == 0);
        }
        if has_nul(head + tail) {
            let i = choose|i: int| 0 <= i < (head + tail).len() && (head + tail)[i] == 0;
            if i < head.len() {
                assert(head[i] == 0);
            } else {
                assert(tail[i - head.len()] == 0);
            }
        }
        if has_nul_char(text) {
            let k = choose|k: int| 0 <= k < text.len() && text[k] as u32 == 0;
            if k > 0 {
                assert(rest[k - 1] as u32 == 0);
            }
        }
    }
}

/// Text survives the way to the toolkit and back. Of a text without the
/// character zero `create_c_string` makes the text's encoding and a closing
/// zero byte; a toolkit that keeps those bytes gives back what stands before
/// the zero byte, which is the encoding; and both `raw_text_from_c` and
/// `text_from_c` read the encoding as the text again.
pub proof fn lemma_text_round_trip(text: Seq<char>)
    requires
        !has_nul_char(text),
    ensures
        !has_nul(encode_utf8(text)),
        is_c_text(c_text(encode_utf8(text))),
        c_content(c_text(encode_utf8(text))) == encode_utf8(text),
        valid_utf8(c_content(c_text(encode_utf8(text)))),
        decode_utf8(c_content(c_text(encode_utf8(text)))) == text,
{
    lemma_nul_byte_is_nul_char(text);
    lemma_c_content_of_c_text(encode_utf8(text));
    encode_utf8_valid_utf8(text);
    encode_utf8_decode_utf8(text);
}

/// Reads the toolkit's report on a step that may fail: no message means that
/// the step succeeded, a message is the reason why it did not.
pub fn result_from_err_msg(err_msg: Option<&[u8]>) -> (r: Result<(), String>)
    ensures
        err_msg is None <==> r is Ok,
        match (err_msg, r) {
            (Some(bytes), Err(cause)) => is_text_of(cause@, bytes@),
            _ => true,
        },
{
    match err_msg {
        None => Ok(()),
        Some(bytes) => Err(decode_lossy(bytes)),
    }
}

/// The address of a native object. It is never zero, and it stays on the
/// thread that it was made on.
#[derive(Debug, PartialEq, Eq)]
pub struct Address {
    value: usize,
    thread: core::marker::PhantomData<std::rc::Rc<()>>,
}

impl Address {
    #[verifier::type_invariant]
    spec fn well_formed(self) -> bool {
        self.value != 0
    }

    /// The address as a number.
    pub closed spec fn value(self) -> usize {
        self.value
    }

    /// The address `value`.
    pub fn new(value: usize) -> (address: Address)
        requires
            value != 0,
        ensures
            address.value() == value,
    {
        Address { value, thread: core::marker::PhantomData }
    }

    /// The address as a number, which is not zero.
    pub fn get(&self) -> (value: usize)
        ensures
            value == self.value(),
            value != 0,
    {
        proof {
            use_type_invariant(self);
        }
        self.value
    }
}

/// Tells a constructed native object from a failed construction, which the
/// toolkit reports by the address zero.
pub fn result_from_obj(obj: usize) -> (r: Result<usize, ()>)
    ensures
        r == if obj == 0 {
            Err::<usize, ()>(())
        } else {
            Ok::<usize, ()>(obj)
        },
{
    if obj == 0 {
        Err(())
    } else {
        Ok(obj)
    }
}

/// The integer that the toolkit reads as `value`.
pub open spec fn int_of_bool(value: bool) -> i32 {
    if value {
        1
    } else {
        0
    }
}

/// A truth value in the toolkit's form: 1 for true, 0 for false.
pub fn bool_to_int(value: bool) -> (r: i32)
    ensures
        r == int_of_bool(value),
{
    if value {
        1
    } else {
        0
    }
}

/// The truth value that `value` stands for when the toolkit gives it.
pub open spec fn bool_of_int(value: i32) -> bool {
    value != 0
}

/// A truth value that the toolkit gave: anything but 0 counts as true.
pub fn bool_from_int(value: i32) -> (r: bool)
    ensures
        r == bool_of_int(value),
{
    value != 0
}

/// A truth value that is set and then asked for comes back as it was set,
/// however often it was set: the integer that a setter hands over is read by
/// the getter as the value that went in.
pub proof fn lemma_bool_round_trip(value: bool)
    ensures
        bool_of_int(int_of_bool(value)) == value,
        int_of_bool(bool_of_int(int_of_bool(value))) == int_of_bool(value),
{
}

/// A count or index that the toolkit gave as a signed integer, or `None` where
/// it is negative or too large.
pub fn try_to_u16(value: i32) -> (r: Option<u16>)
    ensures
        r == if 0 <= value <= u16::MAX {
            Some(value as u16)
        } else {
            None::<u16>
        },
{
    if 0 <= value && value <= 65535 {
        Some(value as u16)
    } else {
        None
    }
}

/// A count or index that the toolkit gave as a signed integer.
///
/// The toolkit keeps counts in signed integers though they are never negative.
pub fn to_u16(value: i32) -> (r: u16)
    requires
        0 <= value <= u16::MAX,
    ensures
        r == value,
{
    value as u16
}

} // verus!
