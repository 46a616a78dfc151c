//! Marshalling between native text values and the null-terminated byte
//! buffers a foreign caller reads.
//!
//! A foreign text buffer is a contiguous UTF-8 byte sequence with a single
//! trailing null byte and no interior null byte. Conversion into a buffer
//! rejects text with embedded null characters (a contract violation, stated
//! as a precondition); conversion out of a buffer falls back to the empty
//! text value when the bytes are not valid UTF-8, because that direction has
//! no error channel of its own.

use vstd::prelude::*;
use vstd::slice::slice_subrange;
use vstd::string::StrSliceExecFns;
use vstd::utf8::*;

verus! {

/// True of byte sequences in the shape a foreign caller expects: at least the
/// terminator, which is the single null byte of the sequence.
pub open spec fn null_terminated(bytes: Seq<u8>) -> bool {
    &&& bytes.len() >= 1
    &&& bytes.last() == 0
    &&& forall|i: int| 0 <= i < bytes.len() - 1 ==> bytes[i] != 0
}

/// The text value a foreign buffer's content bytes stand for: their UTF-8
/// decoding when they are valid UTF-8, and the empty text value otherwise.
pub open spec fn foreign_text_value(bytes: Seq<u8>) -> Seq<char> {
    if valid_utf8(bytes) {
        decode_utf8(bytes)
    } else {
        Seq::<char>::empty()
    }
}

/// An owned, null-terminated text buffer as handed across the boundary.
pub struct CharBuffer {
    bytes: Vec<u8>,
}

impl View for CharBuffer {
    type V = Seq<u8>;

    closed spec fn view(&self) -> Seq<u8> {
        self.bytes@
    }
}

impl CharBuffer {
    /// Every buffer carries exactly one null byte, at its end.
    #[verifier::type_invariant]
    pub open spec fn wf(&self) -> bool {
        null_terminated(self@)
    }

    /// The content bytes: everything before the trailing null byte.
    pub open spec fn text(&self) -> Seq<u8> {
        self@.take(self@.len() - 1)
    }

    /// Adopts raw bytes as a buffer, if they are in the required shape.
    pub fn from_bytes(bytes: Vec<u8>) -> (r: Option<CharBuffer>)
        ensures
            r is Some <==> null_terminated(bytes@),
            r matches Some(b) ==> b@ == bytes@,
    {
        if bytes.len() == 0 {
            return None;
        }
        if bytes[bytes.len() - 1] != 0 {
            return None;
        }
        let mut i: usize = 0;
        while i < bytes.len() - 1
            invariant
                bytes@.len() >= 1,
                i <= bytes@.len() - 1,
                forall|j: int| 0 <= j < i ==> bytes@[j] != 0,
            decreases bytes@.len() - 1 - i,
        {
            if bytes[i] == 0 {
                return None;
            }
            i += 1;
        }
        Some(CharBuffer { bytes })
    }

    /// The whole buffer, trailing null byte included.
    pub fn as_bytes(&self) -> (r: &Vec<u8>)
        ensures
            r@ == self@,
    {
        &self.bytes
    }
}

/// Marshals a native text value into an owned foreign buffer. Text with an
/// embedded null character cannot be represented and is excluded by contract.
pub fn string_to_c_char(s: &str) -> (r: CharBuffer)
    requires
        !s@.contains('\0'),
    ensures
        r@ == encode_utf8(s@).push(0u8),
        r.text() == encode_utf8(s@),
{
    let mut bytes = s.as_bytes_vec();
    bytes.push(0u8);
    proof {
        lemma_encode_utf8_no_null(s@);
        assert(bytes@.take(bytes@.len() - 1) =~= encode_utf8(s@));
    }
    CharBuffer { bytes }
}

/// Reads a foreign buffer back as a native text value. The buffer is
/// borrowed, not consumed. Bytes that are not valid UTF-8 yield the empty
/// text value rather than an error.
pub fn c_char_to_string(buf: &CharBuffer) -> (r: String)
    ensures
        r@ == foreign_text_value(buf.text()),
{
    proof {
        use_type_invariant(buf);
    }
    let n = buf.bytes.len();
    let content = slice_subrange(buf.bytes.as_slice(), 0, n - 1);
    match utf8_to_str(content) {
        Some(s) => {
            proof {
                broadcast use encode_utf8_decode_utf8;

                assert(decode_utf8(encode_utf8(s@)) == s@);
            }
            s.to_owned()
        },
        None => String::new(),
    }
}

/// Law: reading back the marshalled bytes of any native text value yields
/// that value unchanged.
pub proof fn lemma_marshalling_round_trip(s: Seq<char>)
    ensures
        foreign_text_value(encode_utf8(s)) == s,
{
    broadcast use encode_utf8_valid_utf8, encode_utf8_decode_utf8;

}

/// Law: a buffer whose content bytes are not valid UTF-8 reads back as the
/// empty text value.
pub proof fn lemma_invalid_utf8_reads_empty(bytes: Seq<u8>)
    requires
        !valid_utf8(bytes),
    ensures
        foreign_text_value(bytes) == Seq::<char>::empty(),
{
}

/// The UTF-8 encoding of a text value without embedded null characters has
/// no null byte, so it collides nowhere with the buffer's terminator.
pub proof fn lemma_encode_utf8_no_null(s: Seq<char>)
    requires
        !s.contains('\0'),
    ensures
        forall|i: int| 0 <= i < encode_utf8(s).len() ==> encode_utf8(s)[i] != 0,
    decreases s.len(),
{
    if s.len() > 0 {
        let c = s[0];
        assert(c != '\0') by {
            if c == '\0' {
                assert(s.contains('\0'));
            }
        }
        char_is_scalar(c);
        let v = c as u32;
        assert(v != 0) by {
            if v == 0 {
                char_u32_cast(c, v);
                char_u32_cast('\0', v);
            }
        }
        lemma_encode_scalar_no_null(v);
        let rest = s.drop_first();
        assert(!rest.contains('\0')) by {
            if rest.contains('\0') {
                let j = choose|j: int| 0 <= j < rest.len() && rest[j] == '\0';
                assert(s[j + 1] == '\0');
                assert(s.contains('\0'));
            }
        }
        lemma_encode_utf8_no_null(rest);
        let head = encode_scalar(v);
        let tail = encode_utf8(rest);
        assert(encode_utf8(s) == head + tail);
        assert forall|i: int| 0 <= i < encode_utf8(s).len() implies encode_utf8(s)[i] != 0 by {
            if i < head.len() {
                assert((head + tail)[i] == head[i]);
            } else {
                assert((head + tail)[i] == tail[i - head.len()]);
            }
        }
    }
}

/// No byte of the UTF-8 encoding of a nonzero Unicode scalar is null: the
/// one-byte form is the scalar itself, and every byte of the longer forms
/// has a marker bit set.
proof fn lemma_encode_scalar_no_null(v: u32)
    requires
        is_scalar(v),
        v != 0,
    ensures
        forall|i: int| 0 <= i < encode_scalar(v).len() ==> encode_scalar(v)[i] != 0,
{
    if has_width_1_encoding(v) {
        assert((v & 0x7F) as u8 != 0) by (bit_vector)
            requires
                v <= 0x7F && v != 0,
        ;
    } else if has_width_2_encoding(v) {
        assert(0xC0 | ((v >> 6) & 0x1F) as u8 != 0) by (bit_vector);
        assert(0x80 | (v & 0x3F) as u8 != 0) by (bit_vector);
    } else if has_width_3_encoding(v) {
        assert(0xE0 | ((v >> 12) & 0x0F) as u8 != 0) by (bit_vector);
        assert(0x80 | ((v >> 6) & 0x3F) as u8 != 0) by (bit_vector);
        assert(0x80 | (v & 0x3F) as u8 != 0) by (bit_vector);
    } else {
        assert(0xF0 | ((v >> 18) & 0x7) as u8 != 0) by (bit_vector);
        assert(0x80 | ((v >> 12) & 0x3F) as u8 != 0) by (bit_vector);
        assert(0x80 | ((v >> 6) & 0x3F) as u8 != 0) by (bit_vector);
        assert(0x80 | (v & 0x3F) as u8 != 0) by (bit_vector);
    }
}

/// Relies on str::from_utf8: it returns a string slice viewing exactly the
/// given bytes when they are valid UTF-8, and an error otherwise.
#[verifier::external_body]
fn utf8_to_str(bytes: &[u8]) -> (r: Option<&str>)
    ensures
        match r {
            Some(s) => valid_utf8(bytes@) && encode_utf8(s@) == bytes@,
            None => !valid_utf8(bytes@),
        },
{
    core::str::from_utf8(bytes).ok()
}

} // verus!
