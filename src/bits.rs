use bit_vec::BitVec;
use vstd::prelude::*;

verus! {

/// Declares `bit_vec::BitVec`, the bit sequence handed to the infrared encoder,
/// so that it can be held and passed by verified code.
#[verifier::external_type_specification]
#[verifier::external_body]
#[verifier::reject_recursive_types(B)]
pub struct ExBitVec<B>(BitVec<B>);

/// The bits held by a bit vector, in order.
pub uninterp spec fn bits_of(v: BitVec) -> Seq<bool>;

/// The bits of `bytes`, eight per byte, the most significant bit of each byte
/// first.
pub open spec fn bytes_to_bits(bytes: Seq<u8>) -> Seq<bool> {
    Seq::new(bytes.len() * 8, |i: int| bit_of(bytes[i / 8], (7 - i % 8) as u8))
}

/// Relies on `BitVec::from_bytes`: eight bits per byte, most significant bit
/// first. It panics only when the number of bits overflows `usize`.
#[verifier::external_body]
pub(crate) fn bits_from_bytes(bytes: &[u8]) -> (r: BitVec)
    requires
        bytes@.len() * 8 <= usize::MAX,
    ensures
        bits_of(r) == bytes_to_bits(bytes@),
{
    BitVec::from_bytes(bytes)
}

/// Relies on `BitVec::len`: the number of bits held.
#[verifier::external_body]
pub(crate) fn bits_len(v: &BitVec) -> (r: usize)
    ensures
        r == bits_of(*v).len(),
{
    v.len()
}

/// Relies on `BitVec::get`: the bit at index `i`, present for every index
/// below the length.
#[verifier::external_body]
pub(crate) fn bit_at(v: &BitVec, i: usize) -> (r: Option<bool>)
    ensures
        i < bits_of(*v).len() ==> r == Some(bits_of(*v)[i as int]),
        i >= bits_of(*v).len() ==> r is None,
{
    v.get(i)
}

/// A value that has a representation as a sequence of bits.
pub trait AsBitVec {
    /// The bits that represent the value.
    fn as_bitvec(self) -> BitVec;
}

/// Bit `i` of `x` (bit 0 is the least significant one).
pub open spec fn bit_of(x: u8, i: u8) -> bool {
    (x >> i) & 1u8 == 1u8
}

/// The byte `x` with its eight bits in the opposite order.
pub open spec fn reverse_bits(x: u8) -> u8 {
    ((x & 0x01u8) << 7u8) | ((x & 0x02u8) << 5u8) | ((x & 0x04u8) << 3u8) | ((x & 0x08u8) << 1u8)
        | ((x >> 1u8) & 0x08u8) | ((x >> 3u8) & 0x04u8) | ((x >> 5u8) & 0x02u8) | ((x >> 7u8) & 0x01u8)
}

/// Reverses the order of the bits of a byte: bit `i` moves to bit `7 - i`.
pub fn bitreverse(x: &u8) -> (r: u8)
    ensures
        r == reverse_bits(*x),
        forall|i: u8| i < 8 ==> #[trigger] bit_of(r, i) == bit_of(*x, (7 - i) as u8),
{
    let x = *x;
    let mut acc: u8 = 0;
    let mut i: u8 = 0;
    proof {
        assert forall|j: u8| j < 8 implies !#[trigger] bit_of(acc, (7 - j) as u8) by {
            lemma_zero_has_no_bits((7 - j) as u8);
        }
    }
    while i < 8
        invariant
            i <= 8,
            forall|j: u8| j < i ==> bit_of(acc, (7 - j) as u8) == #[trigger] bit_of(x, j),
            forall|j: u8| i <= j < 8 ==> !#[trigger] bit_of(acc, (7 - j) as u8),
        decreases 8 - i,
    {
        let b: u8 = (x >> i) & 1;
        let next: u8 = acc | (b << (7 - i));
        proof {
            lemma_set_reversed_bit(acc, x, i, i);
            assert forall|j: u8| j < 8 && j != i implies #[trigger] bit_of(next, (7 - j) as u8) == bit_of(acc, (7 - j) as u8) by {
                lemma_set_reversed_bit(acc, x, i, j);
            }
        }
        acc = next;
        i = i + 1;
    }
    proof {
        lemma_bits_determine_reverse(x, acc);
    }
    acc
}

/// No bit of zero is set.
proof fn lemma_zero_has_no_bits(k: u8)
    by (bit_vector)
    ensures
        !bit_of(0u8, k),
{
}

/// Setting bit `7 - i` of `acc` from bit `i` of `x` changes no other bit.
proof fn lemma_set_reversed_bit(acc: u8, x: u8, i: u8, j: u8)
    by (bit_vector)
    requires
        i < 8,
        j < 8,
    ensures
        j != i ==> bit_of(acc | (((x >> i) & 1u8) << (7 - i) as u8), (7 - j) as u8) == bit_of(acc, (7 - j) as u8),
        !bit_of(acc, (7 - i) as u8) ==> bit_of(acc | (((x >> i) & 1u8) << (7 - i) as u8), (7 - i) as u8) == bit_of(x, i),
{
}

/// A byte whose bit `7 - i` is bit `i` of `x`, for every `i`, is the reversal of `x`.
proof fn lemma_bits_determine_reverse(x: u8, r: u8)
    requires
        forall|j: u8| j < 8 ==> bit_of(r, (7 - j) as u8) == #[trigger] bit_of(x, j),
    ensures
        r == reverse_bits(x),
        forall|i: u8| i < 8 ==> #[trigger] bit_of(r, i) == bit_of(x, (7 - i) as u8),
{
    assert(bit_of(r, 7) == bit_of(x, 0));
    assert(bit_of(r, 6) == bit_of(x, 1));
    assert(bit_of(r, 5) == bit_of(x, 2));
    assert(bit_of(r, 4) == bit_of(x, 3));
    assert(bit_of(r, 3) == bit_of(x, 4));
    assert(bit_of(r, 2) == bit_of(x, 5));
    assert(bit_of(r, 1) == bit_of(x, 6));
    assert(bit_of(r, 0) == bit_of(x, 7));
    assert(r == reverse_bits(x)) by (bit_vector)
        requires
            ((r >> 7u8) & 1u8 == 1u8) == ((x >> 0u8) & 1u8 == 1u8),
            ((r >> 6u8) & 1u8 == 1u8) == ((x >> 1u8) & 1u8 == 1u8),
            ((r >> 5u8) & 1u8 == 1u8) == ((x >> 2u8) & 1u8 == 1u8),
            ((r >> 4u8) & 1u8 == 1u8) == ((x >> 3u8) & 1u8 == 1u8),
            ((r >> 3u8) & 1u8 == 1u8) == ((x >> 4u8) & 1u8 == 1u8),
            ((r >> 2u8) & 1u8 == 1u8) == ((x >> 5u8) & 1u8 == 1u8),
            ((r >> 1u8) & 1u8 == 1u8) == ((x >> 6u8) & 1u8 == 1u8),
            ((r >> 0u8) & 1u8 == 1u8) == ((x >> 7u8) & 1u8 == 1u8),
    ;
    assert forall|i: u8| i < 8 implies #[trigger] bit_of(r, i) == bit_of(x, (7 - i) as u8) by {
        assert(bit_of(r, (7 - (7 - i) as u8) as u8) == bit_of(x, (7 - i) as u8));
    }
}

/// Reversing the bits of a byte twice gives the byte back.
pub proof fn lemma_bitreverse_involutive(b: u8)
    ensures
        reverse_bits(reverse_bits(b)) == b,
{
    assert(reverse_bits(reverse_bits(b)) == b) by (bit_vector);
}

} // verus!
