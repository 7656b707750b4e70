use bit_vec::BitVec;
use vstd::prelude::*;

use crate::bits::{bit_at, bits_len, bits_of};

verus! {

/// The timings of one infrared protocol, all in microseconds.
#[derive(Debug, Clone, Copy, PartialEq, Eq, Structural)]
pub struct InfraredProtocol {
    /// The duration of the beginning pulse
    leading_pulse: u32,
    /// The duration of the gap after the leading pulse
    leading_gap: u32,
    /// The duration of a pulse when sending a logical 1
    one_pulse: u32,
    /// The duration of the gap when sending a logical 1
    one_gap: u32,
    /// The duration of a pulse when sending a logical 0
    zero_pulse: u32,
    /// The duration of the gap when sending a logical 0
    zero_gap: u32,
}

/// The pulse and the gap that send one bit.
pub open spec fn symbol(p: InfraredProtocol, bit: bool) -> Seq<u32> {
    if bit {
        seq![p.one_pulse(), p.one_gap()]
    } else {
        seq![p.zero_pulse(), p.zero_gap()]
    }
}

/// The durations that send `bits`: the leading pulse and gap, then the pulse
/// and the gap of each bit in order.
pub open spec fn pulse_train(p: InfraredProtocol, bits: Seq<bool>) -> Seq<u32>
    decreases bits.len(),
{
    if bits.len() == 0 {
        seq![p.leading_pulse(), p.leading_gap()]
    } else {
        pulse_train(p, bits.drop_last()) + symbol(p, bits.last())
    }
}

/// A pulse train holds two durations for the lead and two for each bit, the
/// pair of bit `k` at indices `2 + 2 * k` and `3 + 2 * k`.
pub proof fn lemma_pulse_train_shape(p: InfraredProtocol, bits: Seq<bool>)
    ensures
        pulse_train(p, bits).len() == 2 + 2 * bits.len(),
        pulse_train(p, bits)[0] == p.leading_pulse(),
        pulse_train(p, bits)[1] == p.leading_gap(),
        bits.len() == 0 ==> pulse_train(p, bits) == seq![p.leading_pulse(), p.leading_gap()],
        forall|k: int|
            0 <= k < bits.len() ==> {
                &&& #[trigger] pulse_train(p, bits)[2 + 2 * k] == symbol(p, bits[k])[0]
                &&& pulse_train(p, bits)[3 + 2 * k] == symbol(p, bits[k])[1]
            },
    decreases bits.len(),
{
    if bits.len() > 0 {
        lemma_pulse_train_shape(p, bits.drop_last());
    }
}

impl InfraredProtocol {
    /// A protocol with the given timings, in microseconds.
    pub fn new(
        leading_pulse: u32,
        leading_gap: u32,
        one_pulse: u32,
        one_gap: u32,
        zero_pulse: u32,
        zero_gap: u32,
    ) -> (r: Self)
        ensures
            r.leading_pulse() == leading_pulse,
            r.leading_gap() == leading_gap,
            r.one_pulse() == one_pulse,
            r.one_gap() == one_gap,
            r.zero_pulse() == zero_pulse,
            r.zero_gap() == zero_gap,
    {
        InfraredProtocol { leading_pulse, leading_gap, one_pulse, one_gap, zero_pulse, zero_gap }
    }

    /// The duration of the beginning pulse.
    pub closed spec fn spec_leading_pulse(&self) -> u32 {
        self.leading_pulse
    }

    /// The duration of the gap after the leading pulse.
    pub closed spec fn spec_leading_gap(&self) -> u32 {
        self.leading_gap
    }

    /// The duration of a pulse that sends a logical 1.
    pub closed spec fn spec_one_pulse(&self) -> u32 {
        self.one_pulse
    }

    /// The duration of a gap that sends a logical 1.
    pub closed spec fn spec_one_gap(&self) -> u32 {
        self.one_gap
    }

    /// The duration of a pulse that sends a logical 0.
    pub closed spec fn spec_zero_pulse(&self) -> u32 {
        self.zero_pulse
    }

    /// The duration of a gap that sends a logical 0.
    pub closed spec fn spec_zero_gap(&self) -> u32 {
        self.zero_gap
    }

    /// The duration of the beginning pulse.
    #[verifier::when_used_as_spec(spec_leading_pulse)]
    pub fn leading_pulse(&self) -> (r: u32)
        ensures
            r == self.spec_leading_pulse(),
    {
        self.leading_pulse
    }

    /// The duration of the gap after the leading pulse.
    #[verifier::when_used_as_spec(spec_leading_gap)]
    pub fn leading_gap(&self) -> (r: u32)
        ensures
            r == self.spec_leading_gap(),
    {
        self.leading_gap
    }

    /// The duration of a pulse that sends a logical 1.
    #[verifier::when_used_as_spec(spec_one_pulse)]
    pub fn one_pulse(&self) -> (r: u32)
        ensures
            r == self.spec_one_pulse(),
    {
        self.one_pulse
    }

    /// The duration of a gap that sends a logical 1.
    #[verifier::when_used_as_spec(spec_one_gap)]
    pub fn one_gap(&self) -> (r: u32)
        ensures
            r == self.spec_one_gap(),
    {
        self.one_gap
    }

    /// The duration of a pulse that sends a logical 0.
    #[verifier::when_used_as_spec(spec_zero_pulse)]
    pub fn zero_pulse(&self) -> (r: u32)
        ensures
            r == self.spec_zero_pulse(),
    {
        self.zero_pulse
    }

    /// The duration of a gap that sends a logical 0.
    #[verifier::when_used_as_spec(spec_zero_gap)]
    pub fn zero_gap(&self) -> (r: u32)
        ensures
            r == self.spec_zero_gap(),
    {
        self.zero_gap
    }

    /// The durations, in microseconds, that send `data`: the leading pulse and
    /// gap, then for each bit in order the pulse and gap of a 1 or of a 0.
    pub fn encode(&self, data: BitVec) -> (r: Vec<u32>)
        ensures
            r@ == pulse_train(*self, bits_of(data)),
            r@.len() == 2 + 2 * bits_of(data).len(),
    {
        let mut buffer: Vec<u32> = Vec::new();
        buffer.push(self.leading_pulse);
        buffer.push(self.leading_gap);

        let n = bits_len(&data);
        let mut i: usize = 0;
        proof {
            assert(bits_of(data).take(0).len() == 0);
            assert(buffer@ =~= pulse_train(*self, bits_of(data).take(0)));
        }
        while i < n
            invariant
                n == bits_of(data).len(),
                i <= n,
                buffer@ == pulse_train(*self, bits_of(data).take(i as int)),
            decreases n - i,
        {
            let value = match bit_at(&data, i) {
                Some(b) => b,
                None => false,
            };
            if value {
                buffer.push(self.one_pulse);
                buffer.push(self.one_gap);
            } else {
                buffer.push(self.zero_pulse);
                buffer.push(self.zero_gap);
            }
            proof {
                let next = bits_of(data).take(i + 1);
                assert(next.drop_last() =~= bits_of(data).take(i as int));
                assert(next.last() == value);
                assert(buffer@ =~= pulse_train(*self, next));
            }
            i = i + 1;
        }
        proof {
            assert(bits_of(data).take(n as int) =~= bits_of(data));
            lemma_pulse_train_shape(*self, bits_of(data));
        }
        buffer
    }
}

} // verus!
