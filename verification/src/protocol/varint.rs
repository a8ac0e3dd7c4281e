//! Base-128 variable-length integers, least significant group first.

use vstd::prelude::*;

verus! {

/// Longest encoding of a 64-bit value.
pub const MAX_VARINT_LEN: usize = 10;

/// The canonical encoding of `n`: seven bits per byte, low group first, the
/// high bit set on every byte but the last.
pub open spec fn varint(n: nat) -> Seq<u8>
    decreases n,
{
    if n < 128 {
        seq![n as u8]
    } else {
        seq![(n % 128 + 128) as u8] + varint(n / 128)
    }
}

/// Reads one variable-length integer from the front of `bytes`, of any
/// length: the value and the number of bytes it occupies. `None` when the
/// bytes end before a byte without the high bit.
pub open spec fn raw_varint(bytes: Seq<u8>) -> Option<(nat, nat)>
    decreases bytes.len(),
{
    if bytes.len() == 0 {
        None
    } else if bytes[0] < 128 {
        Some((bytes[0] as nat, 1nat))
    } else {
        match raw_varint(bytes.skip(1)) {
            Some((v, n)) => Some(((bytes[0] - 128 + 128 * v) as nat, n + 1)),
            None => None,
        }
    }
}

/// Reads one 64-bit variable-length integer from the front of `bytes`.
/// Padded encodings are accepted; one of more than ten bytes, or whose value
/// does not fit in 64 bits, is not.
pub open spec fn decode_varint(bytes: Seq<u8>) -> Option<(u64, nat)> {
    match raw_varint(bytes) {
        Some((v, n)) => if n <= 10 && v <= u64::MAX {
            Some((v as u64, n))
        } else {
            None
        },
        None => None,
    }
}

/// 128 to the power `k`.
pub open spec fn pow128(k: nat) -> nat
    decreases k,
{
    if k == 0 {
        1
    } else {
        128 * pow128((k - 1) as nat)
    }
}

/// An encoding is never empty.
pub proof fn lemma_varint_nonempty(n: nat)
    ensures
        varint(n).len() >= 1,
{
}

/// An encoding is never empty, and a value below `128^k` takes at most `k`
/// bytes.
pub proof fn lemma_varint_len(n: nat, k: nat)
    requires
        k >= 1,
        n < pow128(k),
    ensures
        1 <= varint(n).len() <= k,
    decreases k,
{
    if n >= 128 {
        assert(k >= 2) by {
            if k == 1 {
                assert(pow128(1) == 128 * pow128(0));
            }
        }
        assert(n / 128 < pow128((k - 1) as nat)) by {
            assert(pow128(k) == 128 * pow128((k - 1) as nat));
        }
        lemma_varint_len(n / 128, (k - 1) as nat);
    }
}

/// The value of `128^10` exceeds every 64-bit value.
pub proof fn lemma_pow128_values()
    ensures
        pow128(0) == 1,
        pow128(1) == 0x80,
        pow128(2) == 0x4000,
        pow128(3) == 0x20_0000,
        pow128(4) == 0x1000_0000,
        pow128(5) == 0x8_0000_0000,
        pow128(6) == 0x400_0000_0000,
        pow128(7) == 0x2_0000_0000_0000,
        pow128(8) == 0x100_0000_0000_0000,
        pow128(9) == 0x8000_0000_0000_0000,
        pow128(10) == 0x40_0000_0000_0000_0000,
{
    reveal_with_fuel(pow128, 11);
}

/// Every 64-bit value encodes in at most ten bytes.
pub proof fn lemma_varint_len_u64(n: u64)
    ensures
        1 <= varint(n as nat).len() <= 10,
{
    lemma_pow128_values();
    lemma_varint_len(n as nat, 10);
}

/// Reading what `varint` wrote gives the value back, whatever follows it.
pub proof fn lemma_raw_varint_of_varint(n: nat, rest: Seq<u8>)
    ensures
        raw_varint(varint(n) + rest) == Some((n, varint(n).len())),
    decreases n,
{
    let bytes = varint(n) + rest;
    if n < 128 {
        assert(bytes[0] == n as u8);
    } else {
        let tail = varint(n / 128);
        assert(bytes[0] == (n % 128 + 128) as u8);
        assert(bytes.skip(1) =~= tail + rest);
        lemma_raw_varint_of_varint(n / 128, rest);
    }
}

/// Decoding the encoding of a 64-bit value gives that value and the
/// encoding's length.
pub proof fn lemma_decode_varint_of_varint(n: u64, rest: Seq<u8>)
    ensures
        decode_varint(varint(n as nat) + rest) == Some((n, varint(n as nat).len())),
{
    lemma_raw_varint_of_varint(n as nat, rest);
    lemma_varint_len_u64(n);
}

/// What `raw_varint` consumes lies within the bytes, and is at least one.
pub proof fn lemma_raw_varint_bounds(bytes: Seq<u8>)
    ensures
        match raw_varint(bytes) {
            Some((v, n)) => 1 <= n <= bytes.len(),
            None => true,
        },
    decreases bytes.len(),
{
    if bytes.len() > 0 && bytes[0] >= 128 {
        lemma_raw_varint_bounds(bytes.skip(1));
    }
}

/// The result of reading at byte `i` of an encoding, carried back to its
/// start: the value is scaled by `mult` and added to `acc`, the length grows
/// by `i`.
pub open spec fn carried(r: Option<(nat, nat)>, acc: nat, mult: nat, i: nat) -> Option<(nat, nat)> {
    match r {
        Some((v, n)) => Some((acc + mult * v, n + i)),
        None => None,
    }
}

proof fn lemma_carry_step(s: Seq<u8>, acc: nat, mult: nat, i: nat)
    requires
        i < s.len(),
        s[i as int] >= 128,
    ensures
        carried(raw_varint(s.skip(i as int)), acc, mult, i) == carried(
            raw_varint(s.skip(i as int + 1)),
            acc + mult * (s[i as int] - 128) as nat,
            mult * 128,
            i + 1,
        ),
{
    let here = s.skip(i as int);
    assert(here[0] == s[i as int]);
    assert(here.skip(1) =~= s.skip(i as int + 1));
    match raw_varint(s.skip(i as int + 1)) {
        Some((v, n)) => {
            let b = (s[i as int] - 128) as nat;
            assert(mult * (b + 128 * v) == mult * b + (mult * 128) * v) by (nonlinear_arith);
        },
        None => {},
    }
}

/// Reads one 64-bit variable-length integer that starts at `start`: the
/// value and the number of bytes read.
pub fn read_varint(bytes: &[u8], start: usize) -> (r: Option<(u64, usize)>)
    requires
        start <= bytes.len(),
    ensures
        match r {
            Some((v, n)) => decode_varint(bytes@.skip(start as int)) == Some((v, n as nat))
                && start + n <= bytes.len(),
            None => decode_varint(bytes@.skip(start as int)) is None,
        },
{
    let ghost s = bytes@.skip(start as int);
    let mut acc: u64 = 0;
    let mut mult: u64 = 1;
    let mut i: usize = 0;
    proof {
        lemma_pow128_values();
        assert(s.skip(0) =~= s);
        match raw_varint(s) {
            Some((v, n)) => {
                assert(1 * v == v) by (nonlinear_arith);
            },
            None => {},
        }
    }
    loop
        invariant
            start <= bytes.len(),
            s == bytes@.skip(start as int),
            i <= 9,
            i <= s.len(),
            mult == pow128(i as nat),
            acc < mult,
            raw_varint(s) == carried(raw_varint(s.skip(i as int)), acc as nat, mult as nat, i as nat),
        decreases 10 - i,
    {
        proof {
            lemma_pow128_values();
            reveal_with_fuel(pow128, 11);
        }
        if i >= bytes.len() - start {
            assert(s.skip(i as int).len() == 0);
            return None;
        }
        let b: u8 = bytes[start + i];
        assert(s.skip(i as int)[0] == b);
        if b < 128 {
            assert(raw_varint(s.skip(i as int)) == Some((b as nat, 1nat)));
            if i == 9 && b > 1 {
                assert((mult as nat) * (b as nat) >= 0x1_0000_0000_0000_0000) by (nonlinear_arith)
                    requires
                        mult == 0x8000_0000_0000_0000,
                        b >= 2,
                ;
                return None;
            }
            assert((acc as nat) + (mult as nat) * (b as nat) <= u64::MAX && (mult as nat) * (
            b as nat) <= u64::MAX) by (nonlinear_arith)
                requires
                    acc < mult,
                    b < 128,
                    mult <= 0x100_0000_0000_0000 || (mult == 0x8000_0000_0000_0000 && b <= 1),
            ;
            return Some((acc + mult * (b as u64), i + 1));
        }
        if i == 9 {
            proof {
                lemma_raw_varint_bounds(s.skip(i as int + 1));
                lemma_carry_step(s, acc as nat, mult as nat, i as nat);
            }
            return None;
        }
        proof {
            lemma_carry_step(s, acc as nat, mult as nat, i as nat);
            assert((mult as nat) * ((b - 128) as nat) + (acc as nat) < (mult as nat) * 128 && (
            mult as nat) * 128 <= 0x8000_0000_0000_0000) by (nonlinear_arith)
                requires
                    acc < mult,
                    128 <= b < 256,
                    mult <= 0x100_0000_0000_0000,
            ;
        }
        acc = acc + mult * ((b - 128) as u64);
        mult = mult * 128;
        i = i + 1;
    }
}

/// What is read from the front of some bytes is read from the front of any
/// longer bytes that start with them.
pub proof fn lemma_raw_varint_prefix(head: Seq<u8>, rest: Seq<u8>)
    requires
        raw_varint(head) is Some,
    ensures
        raw_varint(head + rest) == raw_varint(head),
    decreases head.len(),
{
    let all = head + rest;
    assert(all[0] == head[0]);
    if head[0] >= 128 {
        assert(all.skip(1) =~= head.skip(1) + rest);
        lemma_raw_varint_prefix(head.skip(1), rest);
    }
}

/// Appends the canonical encoding of `value` to `out`.
pub fn encode_varint(value: u64, out: &mut Vec<u8>)
    ensures
        final(out)@ == old(out)@ + varint(value as nat),
{
    let mut n: u64 = value;
    while n >= 128
        invariant
            old(out)@ + varint(value as nat) == out@ + varint(n as nat),
        decreases n,
    {
        let byte: u8 = (n % 128 + 128) as u8;
        proof {
            assert(varint(n as nat) == seq![byte] + varint((n / 128) as nat));
            assert(out@.push(byte) + varint((n / 128) as nat) =~= out@ + (seq![byte] + varint(
                (n / 128) as nat,
            )));
        }
        out.push(byte);
        n = n / 128;
    }
    proof {
        assert(out@.push(n as u8) =~= out@ + varint(n as nat));
    }
    out.push(n as u8);
}

/// Number of bytes that `encode_varint` writes for `value`.
pub fn encoded_len_varint(value: u64) -> (len: usize)
    ensures
        len == varint(value as nat).len(),
        1 <= len <= MAX_VARINT_LEN,
{
    let mut n: u64 = value;
    let mut len: usize = 1;
    proof {
        lemma_varint_len_u64(value);
    }
    while n >= 128
        invariant
            varint(value as nat).len() == len - 1 + varint(n as nat).len(),
            1 <= len,
            varint(value as nat).len() <= 10,
            varint(n as nat).len() >= 1,
        decreases n,
    {
        proof {
            lemma_varint_len_u64(n / 128);
        }
        n = n / 128;
        len = len + 1;
    }
    len
}

} // verus!
