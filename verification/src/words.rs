//! Big-endian byte strings and the 32-byte words built from them.
//!
//! Every encoder of this crate is stated over `Seq<u8>`. This module gives
//! the two directions between numbers and big-endian byte strings, the facts
//! that relate them, and the executable conversions.

use vstd::prelude::*;

verus! {

/// `256` to the power `n`.
pub open spec fn pow256(n: nat) -> nat
    decreases n,
{
    if n == 0 {
        1
    } else {
        256 * pow256((n - 1) as nat)
    }
}

/// The number that a byte string denotes when read big-endian.
pub open spec fn be_value(s: Seq<u8>) -> nat
    decreases s.len(),
{
    if s.len() == 0 {
        0
    } else {
        be_value(s.drop_last()) * 256 + s.last() as nat
    }
}

/// The big-endian byte string of length `len` that holds `n` (its low
/// `8 * len` bits, where `n` is larger).
pub open spec fn be_bytes(n: nat, len: nat) -> Seq<u8>
    decreases len,
{
    if len == 0 {
        Seq::empty()
    } else {
        be_bytes(n / 256, (len - 1) as nat).push((n % 256) as u8)
    }
}

/// `n` zero bytes.
pub open spec fn zeros(n: nat) -> Seq<u8> {
    Seq::new(n, |i: int| 0u8)
}

/// The 32-byte word that holds `n`.
pub open spec fn uint_word(n: nat) -> Seq<u8> {
    be_bytes(n, 32)
}

/// How many zero bytes bring a string of `len` bytes up to a whole number of
/// 32-byte words.
pub open spec fn padding_len(len: nat) -> nat {
    ((32 - len % 32) % 32) as nat
}

pub proof fn lemma_pow256_positive(n: nat)
    ensures
        pow256(n) > 0,
    decreases n,
{
    if n > 0 {
        lemma_pow256_positive((n - 1) as nat);
        assert(256 * pow256((n - 1) as nat) > 0) by (nonlinear_arith)
            requires
                pow256((n - 1) as nat) > 0,
        ;
    }
}

pub proof fn lemma_pow256_adds(a: nat, b: nat)
    ensures
        pow256(a + b) == pow256(a) * pow256(b),
    decreases a,
{
    if a == 0 {
        assert(pow256(0) * pow256(b) == pow256(b)) by (nonlinear_arith)
            requires
                pow256(0) == 1,
        ;
    } else {
        lemma_pow256_adds((a - 1) as nat, b);
        let x = pow256((a - 1) as nat);
        let y = pow256(b);
        assert(pow256(a + b) == 256 * pow256((a - 1 + b) as nat));
        assert(256 * (x * y) == (256 * x) * y) by (nonlinear_arith);
    }
}

/// `256^8` is `2^64`.
pub proof fn lemma_pow256_8()
    ensures
        pow256(8) == 0x1_0000_0000_0000_0000,
{
    assert(pow256(1) == 256) by {
        assert(pow256(0) == 1);
    }
    assert(pow256(2) == 0x1_0000);
    assert(pow256(3) == 0x100_0000);
    assert(pow256(4) == 0x1_0000_0000);
    assert(pow256(5) == 0x100_0000_0000);
    assert(pow256(6) == 0x1_0000_0000_0000);
    assert(pow256(7) == 0x100_0000_0000_0000);
}

/// Every `usize`, and a little more, fits in a 32-byte word.
pub proof fn lemma_length_fits_word(n: nat)
    requires
        n <= 0x100_0000_0000_0000_0000,
    ensures
        n < pow256(32),
{
    lemma_pow256_8();
    assert(pow256(9) == 0x100_0000_0000_0000_0000);
    assert(pow256(10) == 0x1_0000_0000_0000_0000_0000);
    lemma_pow256_adds(10, 22);
    lemma_pow256_positive(22);
    assert(pow256(10) <= pow256(10) * pow256(22)) by (nonlinear_arith)
        requires
            pow256(22) > 0,
    ;
}

pub proof fn lemma_be_bytes_len(n: nat, len: nat)
    ensures
        be_bytes(n, len).len() == len,
    decreases len,
{
    if len > 0 {
        lemma_be_bytes_len(n / 256, (len - 1) as nat);
    }
}

/// A byte string of length `len` denotes a number below `256^len`.
pub proof fn lemma_be_value_bound(s: Seq<u8>)
    ensures
        be_value(s) < pow256(s.len()),
    decreases s.len(),
{
    if s.len() > 0 {
        lemma_be_value_bound(s.drop_last());
        let p = pow256((s.len() - 1) as nat);
        let v = be_value(s.drop_last());
        assert(v * 256 + 255 < 256 * p) by (nonlinear_arith)
            requires
                v < p,
        ;
    }
}

/// Reading back what `be_bytes` wrote gives the number, where it fits.
pub proof fn lemma_be_value_of_be_bytes(n: nat, len: nat)
    requires
        n < pow256(len),
    ensures
        be_value(be_bytes(n, len)) == n,
    decreases len,
{
    if len > 0 {
        let shorter = be_bytes(n / 256, (len - 1) as nat);
        let p = pow256((len - 1) as nat);
        assert(n / 256 < p) by (nonlinear_arith)
            requires
                n < 256 * p,
        ;
        lemma_be_value_of_be_bytes(n / 256, (len - 1) as nat);
        lemma_be_bytes_len(n / 256, (len - 1) as nat);
        let whole = shorter.push((n % 256) as u8);
        assert(whole.drop_last() =~= shorter);
        assert(whole.last() == (n % 256) as u8);
        assert((n / 256) * 256 + n % 256 == n) by (nonlinear_arith);
    }
}

/// Writing out the number that a byte string denotes, at the string's own
/// length, gives the string.
pub proof fn lemma_be_bytes_of_be_value(s: Seq<u8>)
    ensures
        be_bytes(be_value(s), s.len()) == s,
    decreases s.len(),
{
    if s.len() == 0 {
        assert(s =~= Seq::empty());
    } else {
        lemma_be_bytes_of_be_value(s.drop_last());
        let v = be_value(s.drop_last());
        let l = s.last() as nat;
        assert((v * 256 + l) / 256 == v && (v * 256 + l) % 256 == l) by (nonlinear_arith)
            requires
                l < 256,
        ;
        assert(s.drop_last().push(s.last()) =~= s);
    }
}

/// Two numbers that fit in `len` bytes and are written alike are equal.
pub proof fn lemma_be_bytes_injective(a: nat, b: nat, len: nat)
    requires
        a < pow256(len),
        b < pow256(len),
        be_bytes(a, len) == be_bytes(b, len),
    ensures
        a == b,
{
    lemma_be_value_of_be_bytes(a, len);
    lemma_be_value_of_be_bytes(b, len);
}

/// The value of a concatenation: the left part is shifted by the length of
/// the right part.
pub proof fn lemma_be_value_concat(a: Seq<u8>, b: Seq<u8>)
    ensures
        be_value(a + b) == be_value(a) * pow256(b.len()) + be_value(b),
    decreases b.len(),
{
    if b.len() == 0 {
        assert(a + b =~= a);
        assert(be_value(a) * 1 == be_value(a)) by (nonlinear_arith);
    } else {
        lemma_be_value_concat(a, b.drop_last());
        assert((a + b).drop_last() =~= a + b.drop_last());
        assert((a + b).last() == b.last());
        let va = be_value(a);
        let vb = be_value(b.drop_last());
        let p = pow256((b.len() - 1) as nat);
        let l = b.last() as nat;
        assert((va * p + vb) * 256 + l == va * (256 * p) + (vb * 256 + l)) by (nonlinear_arith);
    }
}

pub proof fn lemma_be_value_zeros(n: nat)
    ensures
        be_value(zeros(n)) == 0,
    decreases n,
{
    if n > 0 {
        assert(zeros(n).drop_last() =~= zeros((n - 1) as nat));
        lemma_be_value_zeros((n - 1) as nat);
    }
}

/// Leading zero bytes do not change the value.
pub proof fn lemma_be_value_leading_zeros(n: nat, s: Seq<u8>)
    ensures
        be_value(zeros(n) + s) == be_value(s),
{
    lemma_be_value_concat(zeros(n), s);
    lemma_be_value_zeros(n);
    assert(0 * pow256(s.len()) == 0) by (nonlinear_arith);
}

/// Writes `n` as a 32-byte big-endian word.
pub fn u64_to_word(n: u64) -> (word: [u8; 32])
    ensures
        word@ == uint_word(n as nat),
{
    let ghost full = be_bytes(n as nat, 32);
    let mut word: [u8; 32] = [0u8; 32];
    let mut rest: u64 = n;
    let mut i: usize = 32;
    proof {
        lemma_be_bytes_len(n as nat, 32);
        assert(full.subrange(0, 32) =~= full);
    }
    while i > 0
        invariant
            i <= 32,
            full.len() == 32,
            forall|j: int| i <= j < 32 ==> word@[j] == full[j],
            be_bytes(rest as nat, i as nat) == full.subrange(0, i as int),
        decreases i,
    {
        proof {
            let prefix = be_bytes(rest as nat / 256, (i - 1) as nat);
            lemma_be_bytes_len(rest as nat / 256, (i - 1) as nat);
            assert(be_bytes(rest as nat, i as nat) == prefix.push((rest as nat % 256) as u8));
            assert(full[i - 1] == full.subrange(0, i as int)[i - 1]);
            assert(prefix =~= full.subrange(0, i as int).subrange(0, i - 1));
            assert(full.subrange(0, i as int).subrange(0, i - 1) =~= full.subrange(0, i - 1));
        }
        i = i - 1;
        word[i] = (rest % 256) as u8;
        rest = rest / 256;
    }
    assert(word@ =~= full);
    word
}

/// Writes `n` as 8 big-endian bytes.
pub fn u64_to_be_bytes(n: u64) -> (out: [u8; 8])
    ensures
        out@ == be_bytes(n as nat, 8),
{
    let ghost full = be_bytes(n as nat, 8);
    let mut out: [u8; 8] = [0u8; 8];
    let mut rest: u64 = n;
    let mut i: usize = 8;
    proof {
        lemma_be_bytes_len(n as nat, 8);
        assert(full.subrange(0, 8) =~= full);
    }
    while i > 0
        invariant
            i <= 8,
            full.len() == 8,
            forall|j: int| i <= j < 8 ==> out@[j] == full[j],
            be_bytes(rest as nat, i as nat) == full.subrange(0, i as int),
        decreases i,
    {
        proof {
            let prefix = be_bytes(rest as nat / 256, (i - 1) as nat);
            lemma_be_bytes_len(rest as nat / 256, (i - 1) as nat);
            assert(be_bytes(rest as nat, i as nat) == prefix.push((rest as nat % 256) as u8));
            assert(full[i - 1] == full.subrange(0, i as int)[i - 1]);
            assert(prefix =~= full.subrange(0, i as int).subrange(0, i - 1));
            assert(full.subrange(0, i as int).subrange(0, i - 1) =~= full.subrange(0, i - 1));
        }
        i = i - 1;
        out[i] = (rest % 256) as u8;
        rest = rest / 256;
    }
    assert(out@ =~= full);
    out
}

/// Reads 8 big-endian bytes as a number.
pub fn u64_from_be_bytes(bytes: &[u8; 8]) -> (n: u64)
    ensures
        n == be_value(bytes@),
        be_bytes(n as nat, 8) == bytes@,
{
    let mut n: u64 = 0;
    let mut i: usize = 0;
    proof {
        assert(bytes@.subrange(0, 0) =~= Seq::<u8>::empty());
    }
    while i < 8
        invariant
            i <= 8,
            n == be_value(bytes@.subrange(0, i as int)),
        decreases 8 - i,
    {
        proof {
            let read = bytes@.subrange(0, i as int);
            let next = bytes@.subrange(0, i + 1);
            assert(next.drop_last() =~= read);
            assert(next.last() == bytes@[i as int]);
            lemma_be_value_bound(read);
            lemma_pow256_8();
            lemma_pow256_adds(i as nat, (7 - i) as nat);
            lemma_pow256_positive((7 - i) as nat);
            assert(pow256(7) == 0x100_0000_0000_0000);
            assert(pow256(i as nat) <= pow256(i as nat) * pow256((7 - i) as nat)) by (nonlinear_arith)
                requires
                    pow256((7 - i) as nat) > 0,
            ;
        }
        n = n * 256 + bytes[i] as u64;
        i = i + 1;
    }
    proof {
        assert(bytes@.subrange(0, 8) =~= bytes@);
        lemma_be_bytes_of_be_value(bytes@);
    }
    n
}

/// Appends `src` to `dst`.
pub fn extend_bytes(dst: &mut Vec<u8>, src: &[u8])
    ensures
        final(dst)@ == old(dst)@ + src@,
{
    let mut i: usize = 0;
    while i < src.len()
        invariant
            i <= src@.len(),
            dst@ == old(dst)@ + src@.subrange(0, i as int),
        decreases src@.len() - i,
    {
        dst.push(src[i]);
        proof {
            assert(src@.subrange(0, i + 1) =~= src@.subrange(0, i as int).push(src@[i as int]));
        }
        i = i + 1;
    }
    proof {
        assert(src@.subrange(0, src@.len() as int) =~= src@);
    }
}

/// A call: the selector of the function, then its encoded parameters as
/// they are.
pub fn with_selector(selector: &[u8; 4], params: &Vec<u8>) -> (call: Vec<u8>)
    ensures
        call@ == selector@ + params@,
{
    let mut call: Vec<u8> = Vec::new();
    extend_bytes(&mut call, selector.as_slice());
    extend_bytes(&mut call, params.as_slice());
    call
}

} // verus!
