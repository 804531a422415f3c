//! Base64 and SHA-256.
use sha2::Digest;
use vstd::prelude::*;
use vstd::string::*;

verus! {

/// The characters of Base64 by the number that each stands for.
pub open spec fn base64_alphabet() -> Seq<char> {
    "ABCDEFGHIJKLMNOPQRSTUVWXYZabcdefghijklmnopqrstuvwxyz0123456789+/"@
}

/// The byte at a position, and zero behind the end.
pub open spec fn byte_or_zero(bytes: Seq<u8>, i: int) -> int {
    if 0 <= i < bytes.len() {
        bytes[i] as int
    } else {
        0
    }
}

/// The `i`-th group of six bits, counted from the front.
pub open spec fn sextet(bytes: Seq<u8>, i: int) -> int {
    let k = 3 * (i / 4);
    if i % 4 == 0 {
        byte_or_zero(bytes, k) / 4
    } else if i % 4 == 1 {
        (byte_or_zero(bytes, k) % 4) * 16 + byte_or_zero(bytes, k + 1) / 16
    } else if i % 4 == 2 {
        (byte_or_zero(bytes, k + 1) % 16) * 4 + byte_or_zero(bytes, k + 2) / 64
    } else {
        byte_or_zero(bytes, k + 2) % 64
    }
}

/// The number of characters that so many bytes take.
pub open spec fn base64_len(n: nat) -> nat {
    ((4 * n + 2) / 3) as nat
}

/// Base64 without padding.
pub open spec fn base64(bytes: Seq<u8>) -> Seq<char> {
    Seq::new(base64_len(bytes.len()), |i: int| base64_alphabet()[sextet(bytes, i)])
}

/// Appends the character of a number.
fn push_digit(r: &mut String, digit: u8)
    requires
        digit < 64,
    ensures
        final(r)@ == old(r)@.push(base64_alphabet()[digit as int]),
{
    let alphabet: &str = "ABCDEFGHIJKLMNOPQRSTUVWXYZabcdefghijklmnopqrstuvwxyz0123456789+/";
    proof {
        reveal_strlit("ABCDEFGHIJKLMNOPQRSTUVWXYZabcdefghijklmnopqrstuvwxyz0123456789+/");
    }
    let at: usize = digit as usize;
    let character: &str = alphabet.substring_char(at, at + 1);
    r.append(character);
    assert(old(r)@ + character@ =~= old(r)@.push(base64_alphabet()[digit as int]));
}

/// Encodes bytes in Base64 without padding.
pub fn encode(input: &[u8]) -> (r: String)
    ensures
        r@ == base64(input@),
{
    let mut r: String = String::new();
    let mut i: usize = 0;
    let mut rest: u8 = 0;
    while i < input.len()
        invariant
            i <= input@.len(),
            r@.len() == (4 * i) / 3,
            forall|j: int|
                0 <= j < r@.len() ==> #[trigger] r@[j] == base64_alphabet()[sextet(input@, j)],
            i > 0 ==> rest == input@[i - 1],
        decreases input@.len() - i,
    {
        let byte: u8 = input[i];
        let ghost j: int = (4 * i) / 3;
        if i % 3 == 0 {
            assert(j % 4 == 0 && 3 * (j / 4) == i);
            push_digit(&mut r, byte / 4);
        } else if i % 3 == 1 {
            assert(j % 4 == 1 && 3 * (j / 4) == i - 1);
            push_digit(&mut r, (rest % 4) * 16 + byte / 16);
        } else {
            assert(j % 4 == 2 && 3 * (j / 4) == i - 2);
            push_digit(&mut r, (rest % 16) * 4 + byte / 64);
            push_digit(&mut r, byte % 64);
        }
        rest = byte;
        i = i + 1;
    }
    let ghost j: int = (4 * i) / 3;
    if i % 3 == 1 {
        assert(j % 4 == 1 && 3 * (j / 4) == i - 1);
        push_digit(&mut r, (rest % 4) * 16);
    } else if i % 3 == 2 {
        assert(j % 4 == 2 && 3 * (j / 4) == i - 2);
        push_digit(&mut r, (rest % 16) * 4);
    }
    assert(r@ =~= base64(input@));
    r
}

/// The code point of the character of a number.
spec fn digit_code(digit: int) -> int {
    if digit < 26 {
        65 + digit
    } else if digit < 52 {
        71 + digit
    } else if digit < 62 {
        digit - 4
    } else if digit == 62 {
        43
    } else {
        47
    }
}

proof fn lemma_digit_code(digit: int)
    requires
        0 <= digit < 64,
    ensures
        base64_alphabet()[digit] as int == digit_code(digit),
{
    reveal_strlit("ABCDEFGHIJKLMNOPQRSTUVWXYZabcdefghijklmnopqrstuvwxyz0123456789+/");
}

proof fn lemma_sextet_range(bytes: Seq<u8>, i: int)
    requires
        0 <= i,
    ensures
        0 <= sextet(bytes, i) < 64,
{
}

/// Different byte sequences have different encodings.
pub proof fn lemma_base64_injective(a: Seq<u8>, b: Seq<u8>)
    requires
        base64(a) == base64(b),
    ensures
        a == b,
{
    assert(base64(a).len() == base64_len(a.len()));
    assert(base64(b).len() == base64_len(b.len()));
    assert(a.len() == b.len());
    assert forall|j: int| 0 <= j < base64_len(a.len()) implies sextet(a, j) == sextet(b, j) by {
        lemma_sextet_range(a, j);
        lemma_sextet_range(b, j);
        assert(base64(a)[j] == base64_alphabet()[sextet(a, j)]);
        assert(base64(b)[j] == base64_alphabet()[sextet(b, j)]);
        lemma_digit_code(sextet(a, j));
        lemma_digit_code(sextet(b, j));
    }
    assert forall|i: int| 0 <= i < a.len() implies a[i] == b[i] by {
        let q = i / 3;
        let j = 4 * q + i % 3;
        assert(sextet(a, j) == sextet(b, j));
        assert(sextet(a, j + 1) == sextet(b, j + 1));
    }
    assert(a =~= b);
}

/// The SHA-256 digest of a sequence of bytes.
pub uninterp spec fn sha256_digest(data: Seq<u8>) -> Seq<u8>;

/// `sha2::Sha256::digest`: the data decide the digest, which has 32 bytes.
#[verifier::external_body]
pub(crate) fn sha256(data: &[u8]) -> (r: Vec<u8>)
    ensures
        r@ == sha256_digest(data@),
        r@.len() == 32,
{
    sha2::Sha256::digest(data).to_vec()
}

} // verus!
