//! Recursive length prefix encoding, as transactions are serialised for
//! signing and broadcast.
use crate::types::U256;
use vstd::prelude::*;

verus! {

/// `256^k`.
pub open spec fn pow256(k: nat) -> nat
    decreases k,
{
    if k == 0 {
        1
    } else {
        256 * pow256((k - 1) as nat)
    }
}

/// The big-endian bytes of `n`, without leading zeros; empty for zero.
pub open spec fn be_bytes(n: nat) -> Seq<u8>
    decreases n,
{
    if n == 0 {
        Seq::empty()
    } else {
        be_bytes(n / 256).push((n % 256) as u8)
    }
}

/// `s` without its leading zero bytes.
pub open spec fn strip_zeros(s: Seq<u8>) -> Seq<u8>
    decreases s.len(),
{
    if s.len() > 0 && s[0] == 0 {
        strip_zeros(s.drop_first())
    } else {
        s
    }
}

/// `payload` after a header of its length: `short + len` for up to 55 bytes,
/// else `long` plus the length of the length, then the length itself.
pub open spec fn with_header(payload: Seq<u8>, short: u8, long: u8) -> Seq<u8> {
    if payload.len() <= 55 {
        seq![(short + payload.len()) as u8] + payload
    } else {
        seq![(long + be_bytes(payload.len()).len()) as u8] + be_bytes(payload.len()) + payload
    }
}

/// The encoding of a byte string: a single byte below 0x80 stands for
/// itself.
pub open spec fn rlp_string(s: Seq<u8>) -> Seq<u8> {
    if s.len() == 1 && s[0] < 0x80 {
        s
    } else {
        with_header(s, 0x80, 0xb7)
    }
}

/// The encoding of a list whose items, encoded, make `payload`.
pub open spec fn rlp_list(payload: Seq<u8>) -> Seq<u8> {
    with_header(payload, 0xc0, 0xf7)
}

/// The encoding of a number: its big-endian bytes without leading zeros.
pub open spec fn rlp_uint(n: nat) -> Seq<u8> {
    rlp_string(be_bytes(n))
}

/// Byte `i` of the 32 big-endian bytes of `x`.
pub open spec fn u256_byte(x: U256, i: int) -> u8 {
    ((x.limbs@[3 - i / 8] >> ((8 * (7 - i % 8)) as u64)) & 0xff) as u8
}

/// The 32 big-endian bytes of `x`.
pub open spec fn u256_be(x: U256) -> Seq<u8> {
    Seq::new(32, |i: int| u256_byte(x, i))
}

/// The encoding of a 256-bit number.
pub open spec fn rlp_u256(x: U256) -> Seq<u8> {
    rlp_string(strip_zeros(u256_be(x)))
}

proof fn lemma_be_len(n: nat, k: nat)
    requires
        n < pow256(k),
    ensures
        be_bytes(n).len() <= k,
    decreases n,
{
    if n > 0 {
        assert(k > 0);
        let p = pow256((k - 1) as nat);
        assert(n / 256 < p) by (nonlinear_arith)
            requires
                n < 256 * p,
        ;
        lemma_be_len(n / 256, (k - 1) as nat);
    }
}

proof fn lemma_be_len_usize(n: nat)
    requires
        n <= usize::MAX,
    ensures
        be_bytes(n).len() <= 8,
{
    reveal_with_fuel(pow256, 9);
    assert(pow256(8) == 0x1_0000_0000_0000_0000nat);
    lemma_be_len(n, 8);
}

/// Appends the bytes of `s` from `start` on.
pub(crate) fn append_from(out: &mut Vec<u8>, s: &[u8], start: usize)
    requires
        start <= s@.len(),
    ensures
        final(out)@ == old(out)@ + s@.subrange(start as int, s@.len() as int),
{
    let mut i = start;
    while i < s.len()
        invariant
            start <= i <= s@.len(),
            out@ == old(out)@ + s@.subrange(start as int, i as int),
        decreases s@.len() - i,
    {
        out.push(s[i]);
        i = i + 1;
        assert(s@.subrange(start as int, i as int) =~= s@.subrange(start as int, (i - 1) as int).push(
            s@[i - 1],
        ));
        assert(out@ =~= old(out)@ + s@.subrange(start as int, i as int));
    }
}

/// Appends the big-endian bytes of `n` without leading zeros.
fn push_be(out: &mut Vec<u8>, n: u128)
    ensures
        final(out)@ == old(out)@ + be_bytes(n as nat),
    decreases n,
{
    if n > 0 {
        push_be(out, n / 256);
        out.push((n % 256) as u8);
        assert(out@ =~= old(out)@ + be_bytes(n as nat));
    } else {
        assert(out@ =~= old(out)@ + be_bytes(n as nat));
    }
}

/// Appends `payload` after its header.
fn append_with_header(out: &mut Vec<u8>, payload: &[u8], short: u8, long: u8)
    requires
        short <= 0xc0,
        long <= 0xf7,
    ensures
        final(out)@ == old(out)@ + with_header(payload@, short, long),
{
    if payload.len() <= 55 {
        out.push(short + payload.len() as u8);
        append_from(out, payload, 0);
        assert(payload@.subrange(0, payload@.len() as int) =~= payload@);
        assert(out@ =~= old(out)@ + with_header(payload@, short, long));
    } else {
        let mut len_bytes: Vec<u8> = Vec::new();
        push_be(&mut len_bytes, payload.len() as u128);
        proof {
            lemma_be_len_usize(payload@.len() as nat);
        }
        out.push(long + len_bytes.len() as u8);
        append_from(out, len_bytes.as_slice(), 0);
        append_from(out, payload, 0);
        assert(payload@.subrange(0, payload@.len() as int) =~= payload@);
        assert(len_bytes@.subrange(0, len_bytes@.len() as int) =~= len_bytes@);
        assert(out@ =~= old(out)@ + with_header(payload@, short, long));
    }
}

/// Appends the encoding of the byte string `s`.
pub fn append_string(out: &mut Vec<u8>, s: &[u8])
    ensures
        final(out)@ == old(out)@ + rlp_string(s@),
{
    if s.len() == 1 && s[0] < 0x80 {
        out.push(s[0]);
        assert(out@ =~= old(out)@ + rlp_string(s@));
    } else {
        append_with_header(out, s, 0x80, 0xb7);
    }
}

/// The encoding of a list whose items, encoded, make `payload`.
pub fn encode_list(payload: &[u8]) -> (r: Vec<u8>)
    ensures
        r@ == rlp_list(payload@),
{
    let mut out: Vec<u8> = Vec::new();
    append_with_header(&mut out, payload, 0xc0, 0xf7);
    assert(out@ =~= rlp_list(payload@));
    out
}

/// Appends the encoding of the number `n`.
pub fn append_uint(out: &mut Vec<u8>, n: u128)
    ensures
        final(out)@ == old(out)@ + rlp_uint(n as nat),
{
    let mut bytes: Vec<u8> = Vec::new();
    push_be(&mut bytes, n);
    assert(bytes@ =~= be_bytes(n as nat));
    append_string(out, bytes.as_slice());
}

/// The index of the first non-zero byte of `s`, or its length.
fn first_nonzero(s: &[u8]) -> (k: usize)
    ensures
        k <= s@.len(),
        strip_zeros(s@) == s@.subrange(k as int, s@.len() as int),
{
    let mut k: usize = 0;
    assert(s@.subrange(0, s@.len() as int) =~= s@);
    while k < s.len() && s[k] == 0
        invariant
            k <= s@.len(),
            strip_zeros(s@) == strip_zeros(s@.subrange(k as int, s@.len() as int)),
        decreases s@.len() - k,
    {
        let ghost rest = s@.subrange(k as int, s@.len() as int);
        assert(rest.drop_first() =~= s@.subrange(k + 1, s@.len() as int));
        k = k + 1;
    }
    k
}

/// Appends the encoding of a number given as big-endian bytes, leading zeros
/// and all.
pub fn append_be_number(out: &mut Vec<u8>, s: &[u8])
    ensures
        final(out)@ == old(out)@ + rlp_string(strip_zeros(s@)),
{
    let k = first_nonzero(s);
    let mut digits: Vec<u8> = Vec::new();
    append_from(&mut digits, s, k);
    assert(digits@ =~= strip_zeros(s@));
    append_string(out, digits.as_slice());
}

/// The 32 big-endian bytes of `x`.
pub fn u256_to_be(x: &U256) -> (r: Vec<u8>)
    ensures
        r@ == u256_be(*x),
{
    let mut r: Vec<u8> = Vec::new();
    let mut i: usize = 0;
    while i < 32
        invariant
            i <= 32,
            r@.len() == i,
            forall|j: int| 0 <= j < i ==> r@[j] == u256_byte(*x, j),
        decreases 32 - i,
    {
        let limb = x.limbs[3 - i / 8];
        let shift: u64 = (8 * (7 - i % 8)) as u64;
        r.push(((limb >> shift) & 0xff) as u8);
        i = i + 1;
    }
    assert(r@ =~= u256_be(*x));
    r
}

/// Appends the encoding of the 256-bit number `x`.
pub fn append_u256(out: &mut Vec<u8>, x: &U256)
    ensures
        final(out)@ == old(out)@ + rlp_u256(*x),
{
    let bytes = u256_to_be(x);
    append_be_number(out, bytes.as_slice());
}

} // verus!
