//! Commitment parameters as the parameter store holds them: the domain size
//! exponent and the serialized payload.
use vstd::prelude::*;
use vstd::arithmetic::power2::pow2;
use vstd::bits::lemma_u64_shl_is_mul;
use vstd::bits::lemma_u64_pow2_no_overflow;
use halo2_proofs::pasta::EqAffine;
use halo2_proofs::poly::commitment::Params;

verus! {

/// What halo2's parameter setup for domain size `2^k`, serialized, consists of.
pub uninterp spec fn params_bytes_of(k: u32) -> Seq<u8>;

/// The four little-endian bytes of `x`.
pub open spec fn le32(x: u32) -> Seq<u8> {
    seq![x as u8, (x >> 8u32) as u8, (x >> 16u32) as u8, (x >> 24u32) as u8]
}

/// The little-endian 32-bit integer in the first four bytes of `b`.
pub open spec fn le_value(b: Seq<u8>) -> u32 {
    (b[0] as u32) | ((b[1] as u32) << 8u32) | ((b[2] as u32) << 16u32) | ((b[3] as u32) << 24u32)
}

/// The length of the serialized parameters for domain size `2^k`: the
/// exponent (4 bytes), then `2^k` generators, `2^k` Lagrange-basis points and
/// two more points, 32 bytes each.
pub open spec fn payload_len(k: u32) -> nat {
    4 + 32 * (2 * pow2(k as nat) + 2)
}

/// The domain size exponent that a stored payload is for, where it is well
/// formed: long enough for a header, a header below 32, and the length that
/// the header calls for.
pub open spec fn decoded_k(b: Seq<u8>) -> Option<u32> {
    if b.len() >= 4 && le_value(b) < 32 && b.len() == payload_len(le_value(b)) {
        Some(le_value(b))
    } else {
        None
    }
}

/// Relies on halo2_proofs' `Params::<EqAffine>::new`, which derives every
/// point from `k` alone (it asserts `k < 32`), and on `Params::write`, which
/// writes `k` as four little-endian bytes and then the `2 * 2^k + 2` points in
/// their 32-byte encoding; writing into a `Vec` does not fail.
#[verifier::external_body]
fn generate_params_bytes(k: u32) -> (r: Vec<u8>)
    requires
        k < 32,
    ensures
        r@ == params_bytes_of(k),
        r@.len() == payload_len(k),
        r@.subrange(0, 4) == le32(k),
{
    let params: Params<EqAffine> = Params::new(k);
    let mut buf: Vec<u8> = Vec::new();
    params.write(&mut buf).expect("writing to a Vec does not fail");
    buf
}

/// Public setup for the polynomial commitment scheme, sized to `2^k`.
pub struct CommitmentParameters {
    pub k: u32,
    pub bytes: Vec<u8>,
}

impl CommitmentParameters {
    /// The payload is the serialization of parameters for `k`.
    pub open spec fn wf(&self) -> bool {
        &&& self.k < 32
        &&& self.bytes@.len() == payload_len(self.k)
        &&& self.bytes@.subrange(0, 4) == le32(self.k)
    }

    /// Fresh parameters for domain size `2^k`.
    pub fn generate(k: u32) -> (r: CommitmentParameters)
        requires
            k < 32,
        ensures
            r.k == k,
            r.bytes@ == params_bytes_of(k),
            r.wf(),
    {
        let bytes: Vec<u8> = generate_params_bytes(k);
        CommitmentParameters { k, bytes }
    }

    /// Parameters for `k` from a stored payload; `None` where the payload is
    /// not well formed (see `decoded_k`) or is for another exponent.
    pub fn from_bytes(k: u32, bytes: Vec<u8>) -> (r: Option<CommitmentParameters>)
        ensures
            r is Some <==> decoded_k(bytes@) == Some(k),
            r matches Some(p) ==> p.k == k && p.bytes@ == bytes@ && p.wf(),
    {
        let len: usize = bytes.len();
        if len < 4 {
            return None;
        }
        let header: u32 = (bytes[0] as u32) | ((bytes[1] as u32) << 8u32) | ((bytes[2] as u32)
            << 16u32) | ((bytes[3] as u32) << 24u32);
        if header != k || k >= 32 {
            return None;
        }
        proof {
            lemma_u64_pow2_no_overflow(k as nat);
            lemma_u64_shl_is_mul(1, k as u64);
            assert(pow2(k as nat) <= pow2(31)) by {
                if k < 31 {
                    vstd::arithmetic::power2::lemma_pow2_strictly_increases(k as nat, 31);
                }
            }
            vstd::arithmetic::power2::lemma2_to64();
        }
        let n: u64 = 1u64 << (k as u64);
        let expected: u64 = 4 + 32 * (2 * n + 2);
        if len as u64 != expected {
            return None;
        }
        proof {
            let b = bytes@;
            assert(le32(k) =~= b.subrange(0, 4)) by {
                let (b0, b1, b2, b3) = (b[0], b[1], b[2], b[3]);
                assert(k == (b0 as u32) | ((b1 as u32) << 8u32) | ((b2 as u32) << 16u32) | ((
                b3 as u32) << 24u32) ==> b0 == k as u8 && b1 == (k >> 8u32) as u8 && b2 == (k
                    >> 16u32) as u8 && b3 == (k >> 24u32) as u8) by (bit_vector);
            }
        }
        Some(CommitmentParameters { k, bytes })
    }
}

/// Storing well-formed parameters and reading the payload back yields the
/// same domain size exponent.
pub proof fn lemma_params_round_trip(p: CommitmentParameters)
    requires
        p.wf(),
    ensures
        decoded_k(p.bytes@) == Some(p.k),
{
    let b = p.bytes@;
    let k = p.k;
    assert(b[0] == le32(k)[0] && b[1] == le32(k)[1] && b[2] == le32(k)[2] && b[3] == le32(k)[3]) by {
        assert(b.subrange(0, 4)[0] == b[0]);
        assert(b.subrange(0, 4)[1] == b[1]);
        assert(b.subrange(0, 4)[2] == b[2]);
        assert(b.subrange(0, 4)[3] == b[3]);
    }
    let (b0, b1, b2, b3) = (b[0], b[1], b[2], b[3]);
    assert(b0 == k as u8 && b1 == (k >> 8u32) as u8 && b2 == (k >> 16u32) as u8 && b3 == (k
        >> 24u32) as u8 ==> (b0 as u32) | ((b1 as u32) << 8u32) | ((b2 as u32) << 16u32) | ((
    b3 as u32) << 24u32) == k) by (bit_vector);
}

} // verus!
