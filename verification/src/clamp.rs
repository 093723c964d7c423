use vstd::prelude::*;
use vstd::string::*;
use vstd::utf8::*;

verus! {

/// The largest number of characters of a model response that is handed back to a caller.
pub const MAX_RESPONSE_CHARS: usize = 1000;

/// The first `limit` characters of `text`, or all of `text` where it holds no more than that.
pub open spec fn leading_text(text: Seq<char>, limit: nat) -> Seq<char> {
    if text.len() <= limit {
        text
    } else {
        text.subrange(0, limit as int)
    }
}

/// What is handed back of a model response: its first `MAX_RESPONSE_CHARS` characters.
pub open spec fn clamped_text(response: Seq<char>) -> Seq<char> {
    leading_text(response, MAX_RESPONSE_CHARS as nat)
}

/// `kept` is made of whole characters from the start of `whole`: in UTF-8 its bytes are the
/// first bytes of `whole`, and they end where a character of `whole` ends.
pub open spec fn keeps_whole_chars(whole: Seq<char>, kept: Seq<char>) -> bool {
    let bytes = encode_utf8(whole);
    let cut = encode_utf8(kept).len() as int;
    &&& is_char_boundary(bytes, cut)
    &&& encode_utf8(kept) == bytes.subrange(0, cut)
}

/// Stepping over one encoded character. Where `at` is a character boundary before the end of
/// well-formed UTF-8, a whole encoded character starts there: it takes one to four bytes, the
/// position behind it is a boundary again, and the rest decodes to one character less.
proof fn lemma_step_over_scalar(bytes: Seq<u8>, at: int)
    requires
        valid_utf8(bytes),
        is_char_boundary(bytes, at),
        0 <= at < bytes.len(),
    ensures
        ({
            let tail = bytes.subrange(at, bytes.len() as int);
            let width = length_of_first_scalar(tail);
            &&& valid_first_scalar(tail)
            &&& 1 <= width <= 4
            &&& at + width <= bytes.len()
            &&& is_char_boundary(bytes, at + width)
            &&& decode_utf8(tail).len() == 1 + decode_utf8(
                bytes.subrange(at + width, bytes.len() as int),
            ).len()
        }),
{
    let end = bytes.len() as int;
    let tail = bytes.subrange(at, end);
    let width = length_of_first_scalar(tail);
    valid_utf8_split(bytes, at);
    assert(valid_first_scalar(tail));
    let rest = pop_first_scalar(tail);
    assert(rest =~= bytes.subrange(at + width, end));
    assert(valid_utf8(rest));
    if at + width == end {
        is_char_boundary_start_end_of_seq(bytes);
    } else {
        assert(valid_first_scalar(rest));
        assert(rest[0] == bytes[at + width]);
        is_char_boundary_iff_not_is_continuation_byte(bytes, at + width);
    }
}

/// The longest prefix of `text` that holds at most `limit` characters. The cut falls between
/// two characters, never inside the bytes of one.
pub fn leading_chars(text: &str, limit: usize) -> (prefix: &str)
    ensures
        prefix@ == leading_text(text@, limit as nat),
        keeps_whole_chars(text@, prefix@),
{
    let bytes = text.as_bytes();
    let total: usize = bytes.len();
    let mut end: usize = 0;
    let mut taken: usize = 0;
    proof {
        encode_utf8_valid_utf8(text@);
        encode_utf8_decode_utf8(text@);
        is_char_boundary_start_end_of_seq(bytes@);
        assert(bytes@.subrange(0, total as int) =~= bytes@);
    }
    while end < total && taken < limit
        invariant
            bytes@ == text.spec_bytes(),
            total == bytes@.len(),
            valid_utf8(bytes@),
            end <= total,
            is_char_boundary(bytes@, end as int),
            taken <= limit,
            taken + decode_utf8(bytes@.subrange(end as int, total as int)).len() == text@.len(),
        decreases total - end,
    {
        proof {
            lemma_step_over_scalar(bytes@, end as int);
        }
        let lead: u8 = bytes[end];
        let width: usize = if lead < 0x80 {
            1
        } else if lead < 0xe0 {
            2
        } else if lead < 0xf0 {
            3
        } else {
            4
        };
        end = end + width;
        taken = taken + 1;
    }
    let (prefix, _) = text.split_at(end);
    proof {
        encode_utf8_decode_utf8(prefix@);
        decode_utf8_split(bytes@, end as int);
        assert(prefix@ =~= text@.subrange(0, taken as int));
        if end < total {
            lemma_step_over_scalar(bytes@, end as int);
        }
    }
    prefix
}

/// Bounds a model response to its first `MAX_RESPONSE_CHARS` characters. A shorter response
/// comes back whole.
pub fn clamp_response(response: &str) -> (clamped: String)
    ensures
        clamped@ == clamped_text(response@),
        clamped@.len() <= MAX_RESPONSE_CHARS,
        clamped@.is_prefix_of(response@),
        response@.len() <= MAX_RESPONSE_CHARS ==> clamped@ == response@,
        response@.len() > MAX_RESPONSE_CHARS ==> clamped@ == response@.subrange(
            0,
            MAX_RESPONSE_CHARS as int,
        ),
        keeps_whole_chars(response@, clamped@),
{
    leading_chars(response, MAX_RESPONSE_CHARS).to_owned()
}

} // verus!
