//! SHA-256 message padding and the fixed one-block preimage of the benchmark.
use vstd::prelude::*;

verus! {

/// The number of zero bytes placed between the `0x80` separator and the
/// length field, for a message of `n` bytes: the least count that makes the
/// padded length a multiple of 64 bytes.
pub open spec fn zero_fill_len(n: nat) -> nat {
    ((64 - ((n + 9) % 64)) % 64) as nat
}

/// The 64-bit big-endian encoding of `x`.
pub open spec fn be64(x: u64) -> Seq<u8> {
    Seq::new(8, |i: int| (x >> ((56 - 8 * i) as u64)) as u8)
}

/// The message bit length as SHA-256 records it: `8 * n` modulo `2^64`.
pub open spec fn bit_length(n: nat) -> u64 {
    ((8 * n) % 0x1_0000_0000_0000_0000) as u64
}

/// Standard SHA-256 padding of `msg`: the message, a `0x80` byte, zero fill,
/// and the bit length of the message as a 64-bit big-endian integer.
pub open spec fn padded(msg: Seq<u8>) -> Seq<u8> {
    msg + seq![0x80u8] + Seq::new(zero_fill_len(msg.len()), |i: int| 0u8) + be64(
        bit_length(msg.len()),
    )
}

/// The big-endian 32-bit word made of the four bytes of `b` from `4 * i`.
pub open spec fn word_at(b: Seq<u8>, i: int) -> u32 {
    ((b[4 * i] as u32) << 24u32) | ((b[4 * i + 1] as u32) << 16u32) | ((b[4 * i + 2] as u32)
        << 8u32) | (b[4 * i + 3] as u32)
}

/// The bytes of `b`, read four at a time as big-endian 32-bit words.
pub open spec fn be_words(b: Seq<u8>) -> Seq<u32> {
    Seq::new(b.len() / 4, |i: int| word_at(b, i))
}

/// The three-byte message "abc".
pub open spec fn abc() -> Seq<u8> {
    seq![0x61u8, 0x62u8, 0x63u8]
}

/// Pads `msg` as SHA-256 does before compression.
pub fn pad_message(msg: &[u8]) -> (r: Vec<u8>)
    requires
        msg@.len() + 72 <= usize::MAX,
    ensures
        r@ == padded(msg@),
        r@.len() % 64 == 0,
{
    let n: usize = msg.len();
    let mut out: Vec<u8> = Vec::new();
    let mut i: usize = 0;
    while i < n
        invariant
            n == msg@.len(),
            i <= n,
            out@ == msg@.subrange(0, i as int),
        decreases n - i,
    {
        out.push(msg[i]);
        i = i + 1;
    }
    out.push(0x80u8);
    let fill: usize = (64 - ((n % 64 + 9) % 64)) % 64;
    assert(fill == zero_fill_len(n as nat));
    let mut j: usize = 0;
    while j < fill
        invariant
            n == msg@.len(),
            j <= fill,
            fill == zero_fill_len(n as nat),
            fill < 64,
            out@ == msg@ + seq![0x80u8] + Seq::new(j as nat, |t: int| 0u8),
        decreases fill - j,
    {
        out.push(0u8);
        proof {
            assert(Seq::new((j + 1) as nat, |t: int| 0u8) =~= Seq::new(j as nat, |t: int| 0u8).push(0u8));
        }
        j = j + 1;
    }
    let bits: u64 = (n as u64).wrapping_mul(8);
    assert(bits == bit_length(n as nat));
    let mut s: usize = 0;
    let ghost before = out@;
    while s < 8
        invariant
            s <= 8,
            before == msg@ + seq![0x80u8] + Seq::new(fill as nat, |t: int| 0u8),
            out@ == before + be64(bits).subrange(0, s as int),
        decreases 8 - s,
    {
        let shift: u64 = 56 - 8 * (s as u64);
        out.push((bits >> shift) as u8);
        proof {
            assert(be64(bits).subrange(0, s + 1) =~= be64(bits).subrange(0, s as int).push(
                be64(bits)[s as int],
            ));
        }
        s = s + 1;
    }
    proof {
        assert(be64(bits).subrange(0, 8) =~= be64(bits));
        assert(out@ =~= padded(msg@));
        assert((n + 1 + fill + 8) % 64 == 0);
    }
    out
}

/// Packs `bytes` into big-endian 32-bit words.
pub fn words_be(bytes: &[u8]) -> (r: Vec<u32>)
    requires
        bytes@.len() % 4 == 0,
    ensures
        r@ == be_words(bytes@),
{
    let len: usize = bytes.len();
    let m: usize = len / 4;
    let mut out: Vec<u32> = Vec::new();
    let mut i: usize = 0;
    while i < m
        invariant
            len == bytes@.len(),
            m == bytes@.len() / 4,
            bytes@.len() % 4 == 0,
            i <= m,
            out@ == be_words(bytes@).subrange(0, i as int),
        decreases m - i,
    {
        proof {
            assert(4 * i + 4 <= bytes@.len()) by (nonlinear_arith)
                requires
                    i < m,
                    m == bytes@.len() / 4,
            ;
        }
        let b: usize = 4 * i;
        let w: u32 = ((bytes[b] as u32) << 24u32) | ((bytes[b + 1] as u32) << 16u32) | ((bytes[b
            + 2] as u32) << 8u32) | (bytes[b + 3] as u32);
        out.push(w);
        proof {
            assert(be_words(bytes@).subrange(0, i + 1) =~= be_words(bytes@).subrange(
                0,
                i as int,
            ).push(w));
        }
        i = i + 1;
    }
    proof {
        assert(be_words(bytes@).subrange(0, m as int) =~= be_words(bytes@));
    }
    out
}

/// The benchmark's preimage: "abc" padded to one block of sixteen words.
pub open spec fn fixed_block_spec() -> Seq<u32> {
    be_words(padded(abc()))
}

/// The padded "abc" block is one 64-byte block made of the three message
/// bytes, the `0x80` separator, zero fill, and the 64-bit big-endian length 24.
pub proof fn lemma_abc_padding()
    ensures
        padded(abc()).len() == 64,
        padded(abc()).subrange(0, 3) == abc(),
        padded(abc())[3] == 0x80u8,
        forall|i: int| 4 <= i < 56 ==> padded(abc())[i] == 0u8,
        padded(abc()).subrange(56, 64) == be64(24),
        be64(24) == seq![0u8, 0u8, 0u8, 0u8, 0u8, 0u8, 0u8, 0x18u8],
{
    let p = padded(abc());
    assert(zero_fill_len(3) == 52);
    assert(bit_length(3) == 24);
    assert(p.subrange(0, 3) =~= abc());
    assert(p.subrange(56, 64) =~= be64(24));
    assert(be64(24) =~= seq![0u8, 0u8, 0u8, 0u8, 0u8, 0u8, 0u8, 0x18u8]) by {
        assert(((24u64 >> 56u64) as u8) == 0u8) by (bit_vector);
        assert(((24u64 >> 48u64) as u8) == 0u8) by (bit_vector);
        assert(((24u64 >> 40u64) as u8) == 0u8) by (bit_vector);
        assert(((24u64 >> 32u64) as u8) == 0u8) by (bit_vector);
        assert(((24u64 >> 24u64) as u8) == 0u8) by (bit_vector);
        assert(((24u64 >> 16u64) as u8) == 0u8) by (bit_vector);
        assert(((24u64 >> 8u64) as u8) == 0u8) by (bit_vector);
        assert(((24u64 >> 0u64) as u8) == 0x18u8) by (bit_vector);
    }
}

/// The words of the padded "abc" block, spelled out.
pub proof fn lemma_fixed_block_words()
    ensures
        fixed_block_spec() == seq![
            0x61626380u32, 0u32, 0u32, 0u32, 0u32, 0u32, 0u32, 0u32,
            0u32, 0u32, 0u32, 0u32, 0u32, 0u32, 0u32, 0x18u32,
        ],
{
    lemma_abc_padding();
    let p = padded(abc());
    let w = fixed_block_spec();
    assert(p[0] == 0x61u8 && p[1] == 0x62u8 && p[2] == 0x63u8) by {
        assert(p.subrange(0, 3)[0] == p[0]);
        assert(p.subrange(0, 3)[1] == p[1]);
        assert(p.subrange(0, 3)[2] == p[2]);
    }
    assert(p[60] == 0u8 && p[61] == 0u8 && p[62] == 0u8 && p[63] == 0x18u8) by {
        assert(p.subrange(56, 64)[4] == p[60]);
        assert(p.subrange(56, 64)[5] == p[61]);
        assert(p.subrange(56, 64)[6] == p[62]);
        assert(p.subrange(56, 64)[7] == p[63]);
    }
    assert(w[0] == 0x61626380u32) by {
        let (a, b, c, d) = (p[0], p[1], p[2], p[3]);
        assert(a == 0x61u8 && b == 0x62u8 && c == 0x63u8 && d == 0x80u8 ==> ((a as u32) << 24u32)
            | ((b as u32) << 16u32) | ((c as u32) << 8u32) | (d as u32) == 0x61626380u32)
            by (bit_vector);
    }
    assert forall|i: int| 1 <= i < 15 implies w[i] == 0u32 by {
        let (a, b, c, d) = (p[4 * i], p[4 * i + 1], p[4 * i + 2], p[4 * i + 3]);
        assert(a == 0u8 && b == 0u8 && c == 0u8 && d == 0u8 ==> ((a as u32) << 24u32) | ((
        b as u32) << 16u32) | ((c as u32) << 8u32) | (d as u32) == 0u32) by (bit_vector);
    }
    assert(w[15] == 0x18u32) by {
        let (a, b, c, d) = (p[60], p[61], p[62], p[63]);
        assert(a == 0u8 && b == 0u8 && c == 0u8 && d == 0x18u8 ==> ((a as u32) << 24u32) | ((
        b as u32) << 16u32) | ((c as u32) << 8u32) | (d as u32) == 0x18u32) by (bit_vector);
    }
    assert(w =~= seq![
        0x61626380u32, 0u32, 0u32, 0u32, 0u32, 0u32, 0u32, 0u32,
        0u32, 0u32, 0u32, 0u32, 0u32, 0u32, 0u32, 0x18u32,
    ]);
}

/// The fixed preimage of every gadget invocation: "abc" with SHA-256
/// padding, as sixteen big-endian words.
pub fn fixed_block() -> (r: [u32; 16])
    ensures
        r@ == fixed_block_spec(),
        r@ == be_words(padded(abc())),
{
    let r: [u32; 16] = [
        0x61626380, 0, 0, 0, 0, 0, 0, 0,
        0, 0, 0, 0, 0, 0, 0, 0x18,
    ];
    proof {
        lemma_fixed_block_words();
        assert(r@ =~= fixed_block_spec());
    }
    r
}

} // verus!
