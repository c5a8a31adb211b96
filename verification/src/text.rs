//! Prefixes of string slices, decided on their UTF-8 bytes and stated on their characters.

use vstd::prelude::*;
use vstd::string::StringSliceAdditionalSpecFns;
use vstd::utf8::*;

verus! {

/// Encoding a concatenation gives the concatenation of the encodings.
pub proof fn lemma_encode_concat(a: Seq<char>, b: Seq<char>)
    ensures
        encode_utf8(a + b) == encode_utf8(a) + encode_utf8(b),
    decreases a.len(),
{
    if a.len() == 0 {
        assert(a + b =~= b);
        assert(encode_utf8(a) + encode_utf8(b) =~= encode_utf8(b));
    } else {
        lemma_encode_concat(a.drop_first(), b);
        assert((a + b).drop_first() =~= a.drop_first() + b);
        assert(encode_utf8(a + b) =~= encode_utf8(a) + encode_utf8(b));
    }
}

/// The encoding of a string splits at a character boundary after each of its prefixes.
pub proof fn lemma_boundary_after_prefix(a: Seq<char>, b: Seq<char>)
    ensures
        is_char_boundary(encode_utf8(a + b), encode_utf8(a).len() as int),
    decreases a.len(),
{
    let bytes = encode_utf8(a + b);
    encode_utf8_valid_utf8(a + b);
    if a.len() == 0 {
    } else {
        let rest = a.drop_first();
        assert((a + b).drop_first() =~= rest + b);
        encode_utf8_first_scalar(a + b);
        lemma_encode_concat(a, b);
        assert(pop_first_scalar(bytes) =~= encode_utf8(rest + b));
        lemma_boundary_after_prefix(rest, b);
    }
}

/// Where the bytes of one string begin with the bytes of another, its characters begin with
/// the characters of the other.
pub proof fn lemma_prefix_of_bytes(p: Seq<char>, c: Seq<char>)
    requires
        encode_utf8(p).is_prefix_of(encode_utf8(c)),
    ensures
        p.is_prefix_of(c),
    decreases p.len(),
{
    if p.len() == 0 {
    } else {
        let bp = encode_utf8(p);
        let bc = encode_utf8(c);
        encode_utf8_first_scalar(p);
        assert(bp.len() > 0);
        assert(c.len() > 0);
        encode_utf8_first_scalar(c);
        assert(bp[0] == bc[0]);
        let width = length_of_first_scalar(bp);
        assert(width == length_of_first_scalar(bc));
        assert(forall|i: int| 0 <= i < width ==> bp[i] == bc[i]);
        assert(decode_first_scalar(bp) == decode_first_scalar(bc));
        char_u32_cast(p[0], decode_first_scalar(bp));
        char_u32_cast(c[0], decode_first_scalar(bc));
        assert(p[0] == c[0]);
        assert(encode_utf8(p.drop_first()) =~= bp.subrange(width, bp.len() as int));
        assert(encode_utf8(c.drop_first()) =~= bc.subrange(width, bc.len() as int));
        lemma_prefix_of_bytes(p.drop_first(), c.drop_first());
        assert(p =~= c.subrange(0, p.len() as int)) by {
            assert forall|i: int| 0 <= i < p.len() implies p[i] == c[i] by {
                if i > 0 {
                    assert(p.drop_first()[i - 1] == c.drop_first()[i - 1]);
                }
            }
        }
    }
}

/// What follows `prefix` in `s`, where `s` begins with it.
pub fn strip_prefix<'a>(s: &'a str, prefix: &str) -> (rest: Option<&'a str>)
    ensures
        match rest {
            Some(tail) => prefix@.is_prefix_of(s@) && tail@ == s@.skip(prefix@.len() as int),
            None => !prefix@.is_prefix_of(s@),
        },
{
    let bytes = s.as_bytes();
    let wanted = prefix.as_bytes();
    let n = wanted.len();
    if bytes.len() < n {
        proof {
            if prefix@.is_prefix_of(s@) {
                lemma_encode_concat(prefix@, s@.skip(prefix@.len() as int));
                assert(prefix@ + s@.skip(prefix@.len() as int) =~= s@);
            }
        }
        return None;
    }
    let mut i: usize = 0;
    while i < n
        invariant
            i <= n,
            n == wanted@.len(),
            n <= bytes@.len(),
            bytes@ == s.spec_bytes(),
            wanted@ == prefix.spec_bytes(),
            forall|j: int| 0 <= j < i ==> bytes@[j] == wanted@[j],
        decreases n - i,
    {
        if bytes[i] != wanted[i] {
            proof {
                if prefix@.is_prefix_of(s@) {
                    lemma_encode_concat(prefix@, s@.skip(prefix@.len() as int));
                    assert(prefix@ + s@.skip(prefix@.len() as int) =~= s@);
                    assert(bytes@[i as int] == wanted@[i as int]);
                }
            }
            return None;
        }
        i += 1;
    }
    proof {
        assert(wanted@ =~= bytes@.subrange(0, n as int));
        lemma_prefix_of_bytes(prefix@, s@);
        let tail = s@.skip(prefix@.len() as int);
        assert(prefix@ + tail =~= s@);
        lemma_boundary_after_prefix(prefix@, tail);
        lemma_encode_concat(prefix@, tail);
        assert(bytes@.subrange(n as int, bytes@.len() as int) =~= encode_utf8(tail));
    }
    let (_, tail) = s.split_at(n);
    proof {
        encode_utf8_decode_utf8(tail@);
        encode_utf8_decode_utf8(s@.skip(prefix@.len() as int));
    }
    Some(tail)
}

} // verus!
