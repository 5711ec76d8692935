use vstd::prelude::*;
use vstd::utf8::*;
use vstd::string::*;

use crate::structs::{EntityView, MessageEntity};

verus! {

/// An error that carries a human-readable reason.
pub struct CustomError {
    reason: String,
}

impl View for CustomError {
    type V = Seq<char>;

    closed spec fn view(&self) -> Seq<char> {
        self.reason@
    }
}

impl CustomError {
    /// Makes an error whose reason is `reason`.
    pub fn new(reason: String) -> (e: CustomError)
        ensures
            e@ == reason@,
    {
        CustomError { reason }
    }

    /// The reason, as the error displays it.
    pub fn reason(&self) -> (r: String)
        ensures
            r@ == self@,
    {
        self.reason.clone()
    }
}

/// The bytes of the UTF-8 encoding of `text`.
pub open spec fn text_bytes(text: Seq<char>) -> Seq<u8> {
    encode_utf8(text)
}

/// The entity's span lies inside `text` and starts and ends on character boundaries.
pub open spec fn entity_in_text(e: EntityView, text: Seq<char>) -> bool {
    &&& e.offset + e.length <= text_bytes(text).len()
    &&& is_char_boundary(text_bytes(text), e.offset as int)
    &&& is_char_boundary(text_bytes(text), (e.offset + e.length) as int)
}

/// The characters that the entity's span covers in `text`.
pub open spec fn entity_text(e: EntityView, text: Seq<char>) -> Seq<char> {
    decode_utf8(text_bytes(text).subrange(e.offset as int, (e.offset + e.length) as int))
}

/// Tells whether the entity's span lies inside `text` on character boundaries,
/// that is, whether [`read_entity_from_text`] may be called on them.
pub fn entity_fits_text(entity: &MessageEntity, text: &String) -> (b: bool)
    ensures
        b == entity_in_text(entity@, text@),
{
    let s = text.as_str();
    let len = s.as_bytes().len();
    if entity.offset > len || entity.length > len - entity.offset {
        return false;
    }
    s.is_char_boundary(entity.offset) && s.is_char_boundary(entity.offset + entity.length)
}

/// The part of `text` that the entity marks.
pub fn read_entity_from_text(entity: &MessageEntity, text: String) -> (s: String)
    requires
        entity_in_text(entity@, text@),
    ensures
        s@ == entity_text(entity@, text@),
        text_bytes(s@) == text_bytes(text@).subrange(entity.offset as int, entity.offset + entity.length),
{
    let whole = text.as_str();
    let byte_len = whole.as_bytes().len();
    assert(entity.offset + entity.length <= byte_len);
    let end = entity.offset + entity.length;
    let (head, _) = whole.split_at(end);
    proof {
        let bytes = text_bytes(text@);
        encode_utf8_valid_utf8(text@);
        valid_utf8_split(bytes, end as int);
        let prefix = bytes.subrange(0, end as int);
        assert(head.spec_bytes() =~= prefix);
        if entity.offset == end {
            is_char_boundary_start_end_of_seq(prefix);
        } else if entity.offset > 0 {
            is_char_boundary_iff_not_is_continuation_byte(bytes, entity.offset as int);
            is_char_boundary_iff_not_is_continuation_byte(prefix, entity.offset as int);
        }
    }
    let (_, span) = head.split_at(entity.offset);
    proof {
        let bytes = text_bytes(text@);
        assert(span.spec_bytes() =~= bytes.subrange(entity.offset as int, end as int));
        encode_utf8_decode_utf8(span@);
    }
    span.to_owned()
}


/// The text that an entity marks is the run of characters whose UTF-8 encoding
/// is exactly the byte span `[offset, offset + length)` of the text's encoding.
pub proof fn entity_text_bytes(e: EntityView, text: Seq<char>)
    requires
        entity_in_text(e, text),
    ensures
        encode_utf8(entity_text(e, text)) == encode_utf8(text).subrange(e.offset as int, (e.offset + e.length) as int),
{
    let bytes = text_bytes(text);
    let end = (e.offset + e.length) as int;
    encode_utf8_valid_utf8(text);
    valid_utf8_split(bytes, end);
    let prefix = bytes.subrange(0, end);
    if e.offset == end {
        is_char_boundary_start_end_of_seq(prefix);
    } else if e.offset > 0 {
        is_char_boundary_iff_not_is_continuation_byte(bytes, e.offset as int);
        is_char_boundary_iff_not_is_continuation_byte(prefix, e.offset as int);
    }
    valid_utf8_split(prefix, e.offset as int);
    assert(prefix.subrange(e.offset as int, prefix.len() as int) =~= bytes.subrange(e.offset as int, end));
    decode_utf8_encode_utf8(bytes.subrange(e.offset as int, end));
}

/// In a text of ASCII characters, bytes and characters coincide: every span
/// within the text lies on character boundaries, and the entity's text is the
/// run of characters that its offset and length count.
pub proof fn ascii_entity_text(e: EntityView, text: Seq<char>)
    requires
        is_ascii_chars(text),
        e.offset + e.length <= text.len(),
    ensures
        entity_in_text(e, text),
        entity_text(e, text) == text.subrange(e.offset as int, (e.offset + e.length) as int),
{
    let bytes = text_bytes(text);
    is_ascii_chars_encode_utf8(text);
    is_ascii_chars_nat_bound(text);
    encode_utf8_valid_utf8(text);
    assert forall|k: int| 0 <= k <= bytes.len() implies is_char_boundary(bytes, k) by {
        if k == bytes.len() {
            is_char_boundary_start_end_of_seq(bytes);
        } else {
            assert(bytes[k] == text[k] as u8);
            assert((text[k] as nat) < 128);
            is_char_boundary_iff_not_is_continuation_byte(bytes, k);
        }
    }
    let start = e.offset as int;
    let end = (e.offset + e.length) as int;
    let span = text.subrange(start, end);
    assert(is_ascii_chars(span));
    is_ascii_chars_encode_utf8(span);
    assert(encode_utf8(span) =~= bytes.subrange(start, end));
    encode_utf8_decode_utf8(span);
}

} // verus!
