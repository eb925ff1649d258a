//! Unsigned LEB128 integers as they occur in WebAssembly section headers.

use vstd::prelude::*;
use vstd::arithmetic::power2::*;
use vstd::bits::*;

verus! {

/// Value of the first `n` seven-bit groups of `bytes`, least significant group first.
pub open spec fn leb128_groups_value(bytes: Seq<u8>, n: nat) -> nat
    decreases n,
{
    if n == 0 || bytes.len() == 0 {
        0
    } else {
        (bytes[0] % 128) as nat + 128 * leb128_groups_value(bytes.drop_first(), (n - 1) as nat)
    }
}

/// `bytes` holds a complete LEB128 number of exactly `n` bytes at its start:
/// the first `n - 1` bytes carry the continuation bit and byte `n - 1` does not.
pub open spec fn leb128_ends_at(bytes: Seq<u8>, n: nat) -> bool {
    &&& 1 <= n <= bytes.len()
    &&& bytes[n - 1] < 128
    &&& forall|j: int| 0 <= j < n - 1 ==> bytes[j] >= 128
}

/// What `read_leb128` makes of `bytes`: a number of at most ten bytes, its value
/// taken modulo 2^64, together with the number of bytes it occupies.
pub open spec fn decode_leb128(bytes: Seq<u8>) -> Option<(u64, nat)> {
    if exists|n: nat| n <= 10 && leb128_ends_at(bytes, n) {
        let n = choose|n: nat| n <= 10 && leb128_ends_at(bytes, n);
        Some(((leb128_groups_value(bytes, n) % pow2(64)) as u64, n))
    } else {
        None
    }
}

/// Minimal unsigned LEB128 encoding of `v`.
pub open spec fn leb128_encode(v: nat) -> Seq<u8>
    decreases v,
{
    if v < 128 {
        seq![v as u8]
    } else {
        seq![(v % 128 + 128) as u8] + leb128_encode(v / 128)
    }
}

/// Two byte strings that agree on their first `n` bytes agree on the value of
/// their first `n` groups.
pub proof fn lemma_groups_value_prefix(a: Seq<u8>, b: Seq<u8>, n: nat)
    requires
        n <= a.len(),
        n <= b.len(),
        forall|j: int| 0 <= j < n ==> a[j] == b[j],
    ensures
        leb128_groups_value(a, n) == leb128_groups_value(b, n),
    decreases n,
{
    if n > 0 {
        assert(a[0] == b[0]);
        assert forall|j: int| 0 <= j < n - 1 implies a.drop_first()[j] == b.drop_first()[j] by {
            assert(a[j + 1] == b[j + 1]);
        }
        lemma_groups_value_prefix(a.drop_first(), b.drop_first(), (n - 1) as nat);
    }
}

/// Adding one more group to the value: it lands at weight 2^(7n).
pub proof fn lemma_groups_value_extend(bytes: Seq<u8>, n: nat)
    requires
        n < bytes.len(),
    ensures
        leb128_groups_value(bytes, n + 1) == leb128_groups_value(bytes, n) + (bytes[n as int]
            % 128) as nat * pow2(7 * n),
        leb128_groups_value(bytes, n) < pow2(7 * n),
    decreases n,
{
    if n == 0 {
        assert(pow2(0) == 1) by {
            lemma2_to64();
        }
        assert(leb128_groups_value(bytes.drop_first(), 0) == 0);
        assert(leb128_groups_value(bytes, 1) == (bytes[0] % 128) as nat);
        assert(7 * n == 0);
    } else {
        let d = bytes.drop_first();
        lemma_groups_value_extend(d, (n - 1) as nat);
        assert(d[n - 1] == bytes[n as int]);
        let v = leb128_groups_value(d, (n - 1) as nat);
        let c = (bytes[n as int] % 128) as nat;
        let p = pow2((7 * (n - 1)) as nat);
        assert(pow2(7 * n) == 128 * p) by {
            lemma_pow2_adds((7 * (n - 1)) as nat, 7);
            lemma2_to64();
            assert((7 * (n - 1)) as nat + 7 == 7 * n);
        }
        let b0 = (bytes[0] % 128) as nat;
        assert((n - 1) as nat + 1 == n);
        assert(leb128_groups_value(d, n) == v + c * p);
        assert(leb128_groups_value(bytes, n + 1) == b0 + 128 * leb128_groups_value(d, n));
        assert(leb128_groups_value(bytes, n) == b0 + 128 * v);
        assert(128 * (v + c * p) == 128 * v + c * (128 * p)) by (nonlinear_arith);
        assert(b0 + 128 * v < 128 * p) by (nonlinear_arith)
            requires
                v < p,
                b0 < 128,
        ;
    }
}

/// The minimal encoding of `v` is a well-formed LEB128 number whose groups add up to `v`.
pub proof fn lemma_encode_shape(v: nat)
    ensures
        leb128_encode(v).len() >= 1,
        leb128_ends_at(leb128_encode(v), leb128_encode(v).len()),
        leb128_groups_value(leb128_encode(v), leb128_encode(v).len()) == v,
        leb128_encode(v).len() > 1 ==> v >= pow2((7 * (leb128_encode(v).len() - 1)) as nat),
    decreases v,
{
    let e = leb128_encode(v);
    if v < 128 {
        assert(leb128_groups_value(e.drop_first(), 0) == 0);
    } else {
        let t = leb128_encode(v / 128);
        lemma_encode_shape(v / 128);
        assert(e.drop_first() =~= t);
        assert forall|j: int| 0 <= j < e.len() - 1 implies e[j] >= 128 by {
            if j > 0 {
                assert(e[j] == t[j - 1]);
            }
        }
        assert(e[e.len() - 1] == t[t.len() - 1]);
        assert(v % 128 + 128 * (v / 128) == v);
        if t.len() > 1 {
            let p = pow2((7 * (t.len() - 1)) as nat);
            assert(pow2((7 * (e.len() - 1)) as nat) == 128 * p) by {
                lemma_pow2_adds((7 * (t.len() - 1)) as nat, 7);
                lemma2_to64();
                assert((7 * (t.len() - 1)) as nat + 7 == (7 * (e.len() - 1)) as nat);
            }
            assert(v >= 128 * p) by (nonlinear_arith)
                requires
                    v / 128 >= p,
                    v >= 0,
            ;
        } else {
            assert(pow2(7) == 128) by {
                lemma2_to64();
            }
        }
    }
}

/// Reading back: the LEB128 reader decodes the minimal encoding of any 64-bit
/// value to that value and its length, whatever bytes follow it.
pub proof fn lemma_decode_encoded(v: u64, rest: Seq<u8>)
    ensures
        decode_leb128(leb128_encode(v as nat) + rest) == Some((v, leb128_encode(v as nat).len())),
        leb128_encode(v as nat).len() <= 10,
{
    let e = leb128_encode(v as nat);
    let s = e + rest;
    lemma_encode_shape(v as nat);
    let n = e.len();
    if n > 10 {
        assert(pow2(64) < pow2((7 * (n - 1)) as nat)) by {
            lemma_pow2_strictly_increases(64, (7 * (n - 1)) as nat);
        }
        assert(pow2(64) == 0x1_0000_0000_0000_0000) by {
            lemma2_to64();
        }
        assert(false);
    }
    assert(leb128_ends_at(s, n));
    assert forall|m: nat| m <= 10 && leb128_ends_at(s, m) implies m == n by {
        if m < n {
            assert(s[m - 1] == e[m - 1]);
        } else if m > n {
            assert(s[n - 1] == e[n - 1]);
        }
    }
    lemma_groups_value_prefix(s, e, n);
    assert(pow2(64) == 0x1_0000_0000_0000_0000) by {
        lemma2_to64();
    }
}

/// Reads one unsigned LEB128 number from the start of `bytes`, returning its
/// value and the number of bytes it occupies; `None` when the input ends
/// before the number does or the number runs past ten bytes.
pub fn read_leb128(bytes: &[u8]) -> (res: Option<(u64, usize)>)
    ensures
        match res {
            Some((v, n)) => decode_leb128(bytes@) == Some((v, n as nat)),
            None => decode_leb128(bytes@) is None,
        },
{
    let mut result: u64 = 0;
    let mut shift: u32 = 0;
    let mut i: usize = 0;
    assert(pow2(64) == 0x1_0000_0000_0000_0000 && pow2(0) == 1) by {
        lemma2_to64();
    }
    while i < bytes.len()
        invariant
            i <= bytes@.len(),
            i <= 10,
            shift == 7 * i,
            forall|j: int| 0 <= j < i ==> bytes@[j] >= 128,
            i <= 9 ==> result == leb128_groups_value(bytes@, i as nat),
            leb128_groups_value(bytes@, i as nat) < pow2(7 * i as nat),
            pow2(64) == 0x1_0000_0000_0000_0000,
        decreases bytes.len() - i,
    {
        if shift >= 64 {
            proof {
                assert forall|n: nat| n <= 10 implies !leb128_ends_at(bytes@, n) by {
                    if leb128_ends_at(bytes@, n) {
                        assert(bytes@[n - 1] >= 128);
                    }
                }
            }
            return None;
        }
        let byte = bytes[i];
        let x: u64 = (byte & 0x7f) as u64;
        let ghost v = leb128_groups_value(bytes@, i as nat);
        proof {
            assert(byte & 0x7f == byte % 128) by (bit_vector);
            assert((byte & 0x80 == 0) == (byte < 128)) by (bit_vector);
            lemma_groups_value_extend(bytes@, i as nat);
            lemma_u64_pow2_no_overflow(shift as nat);
        }
        let part: u64 = x << shift;
        proof {
            let s = shift as u64;
            assert(x < 128);
            assert(1u64 << s == pow2(s as nat)) by {
                lemma_u64_shl_is_mul(1u64, s);
            }
            assert(result < (1u64 << s));
            assert((result | (x << s)) == result + (x << s)) by (bit_vector)
                requires
                    s < 64,
                    result < (1u64 << s),
            ;
            if i <= 8 {
                assert(x * pow2(s as nat) <= 127 * pow2(56)) by {
                    if s < 56 {
                        lemma_pow2_strictly_increases(s as nat, 56);
                    }
                    assert(x * pow2(s as nat) <= 127 * pow2(s as nat)) by (nonlinear_arith)
                        requires x <= 127;
                    assert(127 * pow2(s as nat) <= 127 * pow2(56)) by (nonlinear_arith)
                        requires pow2(s as nat) <= pow2(56);
                }
                assert(pow2(56) == 0x100_0000_0000_0000) by {
                    lemma2_to64();
                    lemma2_to64_rest();
                }
                lemma_u64_shl_is_mul(x, s);
            } else {
                assert(s == 63);
                assert((x << 63u64) == (x % 2) * 0x8000_0000_0000_0000u64) by (bit_vector)
                    requires x < 128;
                assert(pow2(63) == 0x8000_0000_0000_0000) by {
                    lemma2_to64();
                    lemma2_to64_rest();
                }
                let w: int = v + x * pow2(63);
                assert(x * pow2(63) == (x / 2) * pow2(64) + (x % 2) * pow2(63)) by (nonlinear_arith)
                    requires pow2(64) == 2 * pow2(63);
                assert(w % (pow2(64) as int) == v + (x % 2) * pow2(63)) by {
                    vstd::arithmetic::div_mod::lemma_mod_multiples_vanish(
                        (x / 2) as int,
                        (v + (x % 2) * pow2(63)) as int,
                        pow2(64) as int,
                    );
                    vstd::arithmetic::div_mod::lemma_small_mod(
                        (v + (x % 2) * pow2(63)) as nat,
                        pow2(64),
                    );
                }
            }
        }
        result = result | part;
        if byte & 0x80 == 0 {
            proof {
                let n = (i + 1) as nat;
                assert(leb128_ends_at(bytes@, n));
                assert forall|m: nat| m <= 10 && leb128_ends_at(bytes@, m) implies m == n by {
                    if m < n {
                        assert(bytes@[m - 1] >= 128);
                    } else if m > n {
                        assert(bytes@[n - 1] >= 128);
                    }
                }
                if i <= 8 {
                    assert(leb128_groups_value(bytes@, n) < pow2(64)) by {
                        lemma_groups_value_extend(bytes@, i as nat);
                        assert(leb128_groups_value(bytes@, n) < pow2(7 * n)) by {
                            if n < bytes@.len() {
                                lemma_groups_value_extend(bytes@, n);
                            } else {
                                assert(v + (bytes@[i as int] % 128) as nat * pow2(7 * i as nat)
                                    < pow2(7 * n)) by {
                                    assert(pow2(7 * n) == 128 * pow2(7 * i as nat)) by {
                                        lemma_pow2_adds(7 * i as nat, 7);
                                        lemma2_to64();
                                    }
                                    assert(v + (bytes@[i as int] % 128) as nat * pow2(7 * i as nat)
                                        < 128 * pow2(7 * i as nat)) by (nonlinear_arith)
                                        requires
                                            v < pow2(7 * i as nat),
                                            (bytes@[i as int] % 128) < 128,
                                    ;
                                }
                            }
                        }
                        lemma_pow2_strictly_increases(7 * n, 64);
                    }
                    vstd::arithmetic::div_mod::lemma_small_mod(
                        leb128_groups_value(bytes@, n),
                        pow2(64),
                    );
                }
            }
            return Some((result, i + 1));
        }
        shift = shift + 7;
        i = i + 1;
        proof {
            if i <= 9 {
                assert(leb128_groups_value(bytes@, i as nat) < pow2(7 * i as nat)) by {
                    assert(pow2(7 * i as nat) == 128 * pow2(7 * (i - 1) as nat)) by {
                        lemma_pow2_adds(7 * (i - 1) as nat, 7);
                        lemma2_to64();
                    }
                    assert(v + (byte % 128) as nat * pow2(7 * (i - 1) as nat)
                        < 128 * pow2(7 * (i - 1) as nat)) by (nonlinear_arith)
                        requires
                            v < pow2(7 * (i - 1) as nat),
                            (byte % 128) < 128,
                    ;
                }
            } else {
                assert(leb128_groups_value(bytes@, i as nat) < pow2(7 * i as nat)) by {
                    assert(pow2(7 * i as nat) == 128 * pow2(7 * (i - 1) as nat)) by {
                        lemma_pow2_adds(7 * (i - 1) as nat, 7);
                        lemma2_to64();
                    }
                    assert(v + (byte % 128) as nat * pow2(7 * (i - 1) as nat)
                        < 128 * pow2(7 * (i - 1) as nat)) by (nonlinear_arith)
                        requires
                            v < pow2(7 * (i - 1) as nat),
                            (byte % 128) < 128,
                    ;
                }
            }
        }
    }
    proof {
        assert forall|n: nat| n <= 10 implies !leb128_ends_at(bytes@, n) by {
            if leb128_ends_at(bytes@, n) {
                assert(bytes@[n - 1] >= 128);
            }
        }
    }
    None
}

} // verus!
