use vstd::prelude::*;
use vstd::utf8::*;
use vstd::std_specs::iter::IteratorSpec;

verus! {

/// Number of bytes of the UTF-8 encoding of `s` (what `str::len` returns).
pub open spec fn utf8_len(s: Seq<char>) -> nat {
    encode_utf8(s).len()
}

/// Encoding a concatenation encodes each part.
pub proof fn lemma_encode_utf8_concat(a: Seq<char>, b: Seq<char>)
    ensures
        encode_utf8(a + b) == encode_utf8(a) + encode_utf8(b),
    decreases a.len(),
{
    if a.len() == 0 {
        assert(a + b =~= b);
        assert(encode_utf8(a) + encode_utf8(b) =~= encode_utf8(b));
    } else {
        assert((a + b).drop_first() =~= a.drop_first() + b);
        lemma_encode_utf8_concat(a.drop_first(), b);
        assert(encode_utf8(a + b) =~= encode_scalar(a[0] as u32) + (encode_utf8(a.drop_first())
            + encode_utf8(b)));
    }
}

/// Bytes taken by one character in UTF-8.
pub fn char_utf8_width(c: char) -> (w: usize)
    ensures
        w == encode_scalar(c as u32).len(),
        1 <= w <= 4,
{
    let v = c as u32;
    if v <= 0x7F {
        1
    } else if v <= 0x7FF {
        2
    } else if v <= 0xFFFF {
        proof {
            char_is_scalar(c);
        }
        3
    } else {
        4
    }
}

/// A prefix's encoding is no longer than the whole encoding.
pub proof fn lemma_utf8_len_prefix(s: Seq<char>, k: int)
    requires
        0 <= k <= s.len(),
    ensures
        utf8_len(s.take(k)) <= utf8_len(s),
{
    assert(s =~= s.take(k) + s.skip(k));
    lemma_encode_utf8_concat(s.take(k), s.skip(k));
}

/// Whether the UTF-8 encoding of `s` takes at least `n` bytes.
pub fn utf8_len_at_least(s: &str, n: usize) -> (r: bool)
    ensures
        r == (utf8_len(s@) >= n),
{
    if n == 0 {
        return true;
    }
    let mut chars = s.chars();
    let mut count: usize = 0;
    let ghost mut i: int = 0;
    proof {
        broadcast use vstd::string::axiom_spec_iter;
        assert(s@.take(0) =~= Seq::<char>::empty());
    }
    loop
        invariant
            0 <= i <= s@.len(),
            chars.remaining() == s@.skip(i),
            count == utf8_len(s@.take(i)),
            count < n,
        decreases s@.len() - i,
    {
        match chars.next() {
            Some(c) => {
                let w = char_utf8_width(c);
                proof {
                    assert(s@.skip(i)[0] == s@[i]);
                    assert(s@.take(i + 1) =~= s@.take(i) + seq![c]);
                    lemma_encode_utf8_concat(s@.take(i), seq![c]);
                    assert(seq![c].drop_first() =~= Seq::<char>::empty());
                    assert(encode_utf8(Seq::<char>::empty()) =~= Seq::<u8>::empty());
                    assert(encode_utf8(seq![c]) =~= encode_scalar(c as u32));
                    assert(s@.skip(i).drop_first() =~= s@.skip(i + 1));
                    i = i + 1;
                }
                if w >= n - count {
                    proof {
                        lemma_utf8_len_prefix(s@, i);
                    }
                    return true;
                }
                count = count + w;
            },
            None => {
                proof {
                    assert(s@.skip(i).len() == 0);
                    assert(s@.take(i) =~= s@);
                }
                return false;
            },
        }
    }
}

} // verus!
