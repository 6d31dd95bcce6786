//! Text as it travels on the wire: UTF-8 bytes, compared exactly.

use vstd::prelude::*;
use vstd::string::*;
use vstd::utf8::*;

verus! {

/// Two texts with the same UTF-8 bytes are the same text.
pub proof fn lemma_utf8_injective(a: Seq<char>, b: Seq<char>)
    requires
        encode_utf8(a) == encode_utf8(b),
    ensures
        a == b,
{
    encode_utf8_decode_utf8(a);
    encode_utf8_decode_utf8(b);
}

/// Exact, case-sensitive comparison of two texts.
pub fn same_text(a: &str, b: &str) -> (same: bool)
    ensures
        same == (a@ == b@),
{
    let x = a.as_bytes();
    let y = b.as_bytes();
    if x.len() != y.len() {
        return false;
    }
    let mut i: usize = 0;
    while i < x.len()
        invariant
            x@.len() == y@.len(),
            i <= x@.len(),
            x@ == encode_utf8(a@),
            y@ == encode_utf8(b@),
            forall|j: int| 0 <= j < i ==> x@[j] == y@[j],
        decreases x@.len() - i,
    {
        if x[i] != y[i] {
            return false;
        }
        i += 1;
    }
    proof {
        assert(x@ =~= y@);
        lemma_utf8_injective(a@, b@);
    }
    true
}

/// The UTF-8 bytes of a text that starts with a slash start with the slash's
/// one byte.
pub proof fn lemma_leading_slash(text: Seq<char>)
    requires
        text.len() > 0,
        text[0] == '/',
    ensures
        encode_utf8(text) == seq![0x2fu8] + encode_utf8(text.drop_first()),
{
    assert((0x2fu32 & 0x7F) as u8 == 0x2fu8) by (bit_vector);
    assert(encode_scalar(text[0] as u32) =~= seq![0x2fu8]);
}

/// Takes one leading slash off `target`; `None` where it does not start
/// with one.
pub fn strip_slash<'a>(target: &'a str) -> (rest: Option<&'a str>)
    ensures
        match rest {
            Some(r) => target@ == seq!['/'] + r@,
            None => target@.len() == 0 || target@[0] != '/',
        },
{
    let bytes = target.as_bytes();
    if bytes.len() > 0 && bytes[0] == 0x2f {
        proof {
            encode_utf8_valid_utf8(target@);
            encode_utf8_decode_utf8(target@);
            assert((0x2fu8 & 0x7f) as u32 == 0x2fu32) by (bit_vector);
            assert(is_char_boundary(pop_first_scalar(bytes@), 0));
            assert(is_char_boundary(bytes@, 1));
        }
        let (_, rest) = target.split_at(1);
        proof {
            encode_utf8_decode_utf8(rest@);
            assert(target@ =~= seq!['/'] + rest@);
        }
        Some(rest)
    } else {
        proof {
            if target@.len() > 0 && target@[0] == '/' {
                lemma_leading_slash(target@);
            }
        }
        None
    }
}

/// The UTF-8 bytes of `text`, in a buffer of their own.
pub fn text_bytes(text: &str) -> (bytes: Vec<u8>)
    ensures
        bytes@ == encode_utf8(text@),
{
    text.as_bytes_vec()
}

} // verus!
