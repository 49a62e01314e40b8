use vstd::prelude::*;

verus! {

/// Calls `rand::random::<u8>()`. Trusted: nothing is stated of the byte,
/// which comes from the thread's random generator.
#[verifier::external_body]
fn random_byte() -> (b: u8) {
    rand::random::<u8>()
}

/// Calls `String::push`: appends one character.
#[verifier::external_body]
pub(crate) fn push_char(s: &mut String, c: char)
    ensures
        final(s)@ == old(s)@.push(c),
{
    s.push(c)
}

/// Upper-case hexadecimal digit of `n` (0 to 15).
pub open spec fn hex_digit(n: int) -> char {
    if n < 10 {
        (('0' as int) + n) as char
    } else {
        (('A' as int) + n - 10) as char
    }
}

/// Each byte as two upper-case hexadecimal digits, high nibble first
/// (the `{:02X}` format), concatenated.
pub open spec fn hex_upper(bytes: Seq<u8>) -> Seq<char>
    decreases bytes.len(),
{
    if bytes.len() == 0 {
        Seq::empty()
    } else {
        let b = bytes.last();
        hex_upper(bytes.drop_last()) + seq![hex_digit(b as int / 16), hex_digit(b as int % 16)]
    }
}

pub open spec fn is_hex_upper_char(c: char) -> bool {
    ('0' <= c <= '9') || ('A' <= c <= 'F')
}

/// A session token of `n` random bytes: `2 * n` upper-case hex digits.
pub open spec fn is_session_token(t: Seq<char>, n: nat) -> bool {
    exists|bytes: Seq<u8>| bytes.len() == n && t == hex_upper(bytes)
}

/// Hex text has two characters per byte, all upper-case hex digits.
pub proof fn lemma_hex_upper_shape(bytes: Seq<u8>)
    ensures
        hex_upper(bytes).len() == 2 * bytes.len(),
        forall|i: int| 0 <= i < hex_upper(bytes).len() ==> is_hex_upper_char(#[trigger] hex_upper(bytes)[i]),
    decreases bytes.len(),
{
    if bytes.len() > 0 {
        lemma_hex_upper_shape(bytes.drop_last());
        let b = bytes.last();
        assert(0 <= b / 16 < 16 && 0 <= b % 16 < 16);
    }
}

/// Upper-case hex digit of a nibble.
fn hex_char(n: u8) -> (c: char)
    requires
        n < 16,
    ensures
        c == hex_digit(n as int),
{
    if n < 10 {
        ((48u8 + n) as char)
    } else {
        ((55u8 + n) as char)
    }
}

/// Hex encoding of bytes, two upper-case digits per byte.
pub fn session_token_from_bytes(bytes: &Vec<u8>) -> (t: String)
    ensures
        t@ == hex_upper(bytes@),
{
    let mut t = String::new();
    let n = bytes.len();
    for i in 0..n
        invariant
            n == bytes@.len(),
            t@ == hex_upper(bytes@.take(i as int)),
    {
        let b = bytes[i];
        push_char(&mut t, hex_char(b / 16));
        push_char(&mut t, hex_char(b % 16));
        proof {
            assert(bytes@.take(i + 1).drop_last() =~= bytes@.take(i as int));
            assert(bytes@.take(i + 1).last() == b);
        }
    }
    proof {
        assert(bytes@.take(n as int) =~= bytes@);
    }
    t
}

/// Why a session token could not be made (the generator never reports one).
#[derive(PartialEq, Eq, Structural, Clone, Copy, Debug)]
pub enum TokenError {
    Unavailable,
}

/// A session token from `length` random bytes, written in upper-case hex.
pub fn generate_session_token(length: u8) -> (r: Result<String, TokenError>)
    ensures
        r matches Ok(t) && is_session_token(t@, length as nat),
{
    let mut bytes: Vec<u8> = Vec::new();
    for _i in 0..length
        invariant
            bytes@.len() == _i,
    {
        bytes.push(random_byte());
    }
    let t = session_token_from_bytes(&bytes);
    proof {
        assert(bytes@.len() == length as nat && t@ == hex_upper(bytes@));
    }
    Ok(t)
}

} // verus!
