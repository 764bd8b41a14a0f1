//! The identity of the device.
use vstd::prelude::*;

verus! {

/// Byte `i` of `v`, counted from the lowest.
pub open spec fn byte_of(v: nat, i: nat) -> u8 {
    (v / vstd::arithmetic::power2::pow2(8 * i) % 256) as u8
}

/// The identity of the device: three 32-bit words and a 64-bit word, each
/// lowest byte first, one after the other.
pub open spec fn uid_bytes(uid_1: u32, uid_2: u32, uid_3: u32, uid64: u64) -> Seq<u8> {
    Seq::new(
        20,
        |i: int|
            if i < 4 {
                byte_of(uid_1 as nat, i as nat)
            } else if i < 8 {
                byte_of(uid_2 as nat, (i - 4) as nat)
            } else if i < 12 {
                byte_of(uid_3 as nat, (i - 8) as nat)
            } else {
                byte_of(uid64 as nat, (i - 12) as nat)
            },
    )
}

/// Writes the `count` lowest bytes of `v` into `out` from `at` on, lowest
/// byte first.
fn put_le(out: &mut [u8; 20], at: usize, v: u64, count: usize)
    requires
        count <= 8,
        at + count <= 20,
    ensures
        forall|i: int| 0 <= i < 20 && !(at <= i < at + count) ==> final(out)@[i] == old(out)@[i],
        forall|i: int| at <= i < at + count ==> final(out)@[i] == byte_of(v as nat, (i - at) as nat),
{
    let mut rest: u64 = v;
    let mut k: usize = 0;
    proof {
        vstd::arithmetic::power2::lemma2_to64();
        assert(vstd::arithmetic::power2::pow2(0) == 1);
        assert(8 * k as nat == 0);
    }
    while k < count
        invariant
            k <= count <= 8,
            at + count <= 20,
            rest == v as nat / vstd::arithmetic::power2::pow2(8 * k as nat),
            forall|i: int| 0 <= i < 20 && !(at <= i < at + k) ==> out@[i] == old(out)@[i],
            forall|i: int| at <= i < at + k ==> out@[i] == byte_of(v as nat, (i - at) as nat),
        decreases count - k,
    {
        out[at + k] = (rest % 256) as u8;
        proof {
            let p = vstd::arithmetic::power2::pow2(8 * k as nat);
            vstd::arithmetic::power2::lemma_pow2_pos(8 * k as nat);
            vstd::arithmetic::power2::lemma_pow2_adds(8 * k as nat, 8);
            vstd::arithmetic::power2::lemma2_to64();
            vstd::arithmetic::div_mod::lemma_div_denominator(v as int, p as int, 256);
            assert(vstd::arithmetic::power2::pow2(8 * (k + 1) as nat) == p * 256);
        }
        rest = rest / 256;
        k += 1;
    }
}

/// Puts the identity of the device together from the words it is read
/// from.
pub fn uid_from_words(uid_1: u32, uid_2: u32, uid_3: u32, uid64: u64) -> (uid: [u8; 20])
    ensures
        uid@ == uid_bytes(uid_1, uid_2, uid_3, uid64),
{
    let mut ret: [u8; 20] = [0; 20];
    put_le(&mut ret, 0, uid_1 as u64, 4);
    put_le(&mut ret, 4, uid_2 as u64, 4);
    put_le(&mut ret, 8, uid_3 as u64, 4);
    put_le(&mut ret, 12, uid64, 8);
    assert(ret@ =~= uid_bytes(uid_1, uid_2, uid_3, uid64));
    ret
}

} // verus!
