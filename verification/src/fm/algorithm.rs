//! The algorithms of the four-operator engine, and the modes of the
//! two-operator engine.
//!
//! Operators are numbered from zero: operator `i` is the one shown to a
//! player as operator `i + 1`. Within one sample the operators are evaluated
//! from the last down to the first.

use vstd::prelude::*;

verus! {

/// How the four operators are connected.
#[derive(Debug, Clone, Copy, PartialEq, Eq, Structural, Hash)]
pub enum FmAlgorithm {
    /// One chain: 4 into 3 into 2 into 1.
    Algo1Serial,
    /// 4 and 3 together into 2, which goes into 1.
    Algo2Branch,
    /// Two chains of two: 4 into 3, and 2 into 1.
    Algo3TwoStacks,
    /// 4, 3 and 2 together into 1.
    Algo4ThreeToOne,
    /// 4 into 3, beside 2 and 1 unmodulated.
    Algo5Mixed,
    /// 4 into each of 3, 2 and 1.
    Algo6OneToThree,
    /// 4 into 3, beside 2 and 1 unmodulated.
    Algo7Parallel,
    /// All four side by side, no modulation.
    Algo8Additive,
}

impl Default for FmAlgorithm {
    fn default() -> (r: Self)
        ensures
            r == FmAlgorithm::Algo1Serial,
    {
        FmAlgorithm::Algo1Serial
    }
}

impl FmAlgorithm {
    /// The position of the algorithm in its enumeration, counted from zero.
    pub open spec fn spec_index(self) -> u8 {
        match self {
            FmAlgorithm::Algo1Serial => 0,
            FmAlgorithm::Algo2Branch => 1,
            FmAlgorithm::Algo3TwoStacks => 2,
            FmAlgorithm::Algo4ThreeToOne => 3,
            FmAlgorithm::Algo5Mixed => 4,
            FmAlgorithm::Algo6OneToThree => 5,
            FmAlgorithm::Algo7Parallel => 6,
            FmAlgorithm::Algo8Additive => 7,
        }
    }

    /// The algorithm at a position. A position past the last one selects the
    /// first algorithm.
    pub open spec fn spec_from_u8(value: u8) -> FmAlgorithm {
        match value {
            1 => FmAlgorithm::Algo2Branch,
            2 => FmAlgorithm::Algo3TwoStacks,
            3 => FmAlgorithm::Algo4ThreeToOne,
            4 => FmAlgorithm::Algo5Mixed,
            5 => FmAlgorithm::Algo6OneToThree,
            6 => FmAlgorithm::Algo7Parallel,
            7 => FmAlgorithm::Algo8Additive,
            _ => FmAlgorithm::Algo1Serial,
        }
    }

    /// The carrier operators, in ascending order. They are the operators
    /// that are heard: their outputs are added up in this order to form the
    /// output, and a voice sounds until the envelopes of all of them are
    /// idle.
    pub open spec fn spec_carriers(self) -> Seq<usize> {
        match self {
            FmAlgorithm::Algo1Serial => seq![0],
            FmAlgorithm::Algo2Branch => seq![0],
            FmAlgorithm::Algo3TwoStacks => seq![0, 2],
            FmAlgorithm::Algo4ThreeToOne => seq![0],
            FmAlgorithm::Algo5Mixed => seq![0, 1, 2],
            FmAlgorithm::Algo6OneToThree => seq![0, 1, 2],
            FmAlgorithm::Algo7Parallel => seq![0, 1, 2],
            FmAlgorithm::Algo8Additive => seq![0, 1, 2, 3],
        }
    }

    /// The operators that are added up to form the audible output, in the
    /// order of the additions: the carriers.
    pub open spec fn spec_output_mix(self) -> Seq<usize> {
        self.spec_carriers()
    }

    /// The modulation graph. Row `i` lists the operators whose outputs are
    /// added up, in this order, to modulate the phase of operator `i`.
    pub open spec fn spec_routing(self) -> Seq<Seq<usize>> {
        match self {
            FmAlgorithm::Algo1Serial => seq![seq![1], seq![2], seq![3], seq![]],
            FmAlgorithm::Algo2Branch => seq![seq![1], seq![3, 2], seq![], seq![]],
            FmAlgorithm::Algo3TwoStacks => seq![seq![1], seq![], seq![3], seq![]],
            FmAlgorithm::Algo4ThreeToOne => seq![seq![3, 2, 1], seq![], seq![], seq![]],
            FmAlgorithm::Algo5Mixed => seq![seq![], seq![], seq![3], seq![]],
            FmAlgorithm::Algo6OneToThree => seq![seq![3], seq![3], seq![3], seq![]],
            FmAlgorithm::Algo7Parallel => seq![seq![], seq![], seq![3], seq![]],
            FmAlgorithm::Algo8Additive => seq![seq![], seq![], seq![], seq![]],
        }
    }

    /// The modulators of operator `op`, in the order of their addition. An
    /// index that names no operator has none.
    pub open spec fn spec_modulators(self, op: usize) -> Seq<usize> {
        if op < 4 {
            self.spec_routing()[op as int]
        } else {
            Seq::empty()
        }
    }

    /// The number by which the summed modulation of operator `op` is
    /// divided: two where three operators modulate one, else one.
    pub open spec fn spec_modulation_divisor(self, op: usize) -> u8 {
        if self.spec_modulators(op).len() == 3 {
            2
        } else {
            1
        }
    }

    /// Whether the output of operator `src` modulates operator `dst`.
    pub open spec fn spec_feeds(self, src: usize, dst: usize) -> bool {
        self.spec_modulators(dst).contains(src)
    }

    /// The text that describes the topology to a user.
    pub open spec fn spec_description(self) -> Seq<char> {
        match self {
            FmAlgorithm::Algo1Serial => "4→3→2→1 Serial (harsh FM)"@,
            FmAlgorithm::Algo2Branch => "4+3→2→1 Branch"@,
            FmAlgorithm::Algo3TwoStacks => "4→3, 2→1 Two stacks"@,
            FmAlgorithm::Algo4ThreeToOne => "4,3,2→1 Three to one"@,
            FmAlgorithm::Algo5Mixed => "4→3, 2, 1 Mixed"@,
            FmAlgorithm::Algo6OneToThree => "4→3,2,1 Broadcast"@,
            FmAlgorithm::Algo7Parallel => "4→3, 2, 1 Parallel+mod"@,
            FmAlgorithm::Algo8Additive => "4, 3, 2, 1 Additive"@,
        }
    }

    /// The algorithm with the given number, counted from zero. A number
    /// above 7 selects the first algorithm.
    pub fn from_u8(value: u8) -> (r: Self)
        ensures
            r == Self::spec_from_u8(value),
            value < 8 ==> r.spec_index() == value,
            value >= 8 ==> r == FmAlgorithm::Algo1Serial,
    {
        match value {
            1 => FmAlgorithm::Algo2Branch,
            2 => FmAlgorithm::Algo3TwoStacks,
            3 => FmAlgorithm::Algo4ThreeToOne,
            4 => FmAlgorithm::Algo5Mixed,
            5 => FmAlgorithm::Algo6OneToThree,
            6 => FmAlgorithm::Algo7Parallel,
            7 => FmAlgorithm::Algo8Additive,
            _ => FmAlgorithm::Algo1Serial,
        }
    }

    /// The number of the algorithm, counted from zero.
    pub fn index(&self) -> (r: u8)
        ensures
            r == self.spec_index(),
            r < 8,
            Self::spec_from_u8(r) == *self,
    {
        match self {
            FmAlgorithm::Algo1Serial => 0,
            FmAlgorithm::Algo2Branch => 1,
            FmAlgorithm::Algo3TwoStacks => 2,
            FmAlgorithm::Algo4ThreeToOne => 3,
            FmAlgorithm::Algo5Mixed => 4,
            FmAlgorithm::Algo6OneToThree => 5,
            FmAlgorithm::Algo7Parallel => 6,
            FmAlgorithm::Algo8Additive => 7,
        }
    }

    /// Returns which operators are carriers (audible) for this algorithm.
    pub fn carriers(&self) -> (r: &'static [usize])
        ensures
            r@ == self.spec_carriers(),
    {
        match self {
            FmAlgorithm::Algo1Serial => &[0],
            FmAlgorithm::Algo2Branch => &[0],
            FmAlgorithm::Algo3TwoStacks => &[0, 2],
            FmAlgorithm::Algo4ThreeToOne => &[0],
            FmAlgorithm::Algo5Mixed => &[0, 1, 2],
            FmAlgorithm::Algo6OneToThree => &[0, 1, 2],
            FmAlgorithm::Algo7Parallel => &[0, 1, 2],
            FmAlgorithm::Algo8Additive => &[0, 1, 2, 3],
        }
    }

    /// The operators whose outputs are added up to form the audible output,
    /// in the order of the additions. The sum is divided by their number.
    pub fn output_mix(&self) -> (r: &'static [usize])
        ensures
            r@ == self.spec_output_mix(),
    {
        self.carriers()
    }

    /// The modulation graph as a table with one row for each operator.
    fn routing(&self) -> (r: &'static [&'static [usize]; 4])
        ensures
            forall|i: int| 0 <= i < 4 ==> (#[trigger] r@[i])@ == self.spec_routing()[i],
    {
        match self {
            FmAlgorithm::Algo1Serial => &[&[1], &[2], &[3], &[]],
            FmAlgorithm::Algo2Branch => &[&[1], &[3, 2], &[], &[]],
            FmAlgorithm::Algo3TwoStacks => &[&[1], &[], &[3], &[]],
            FmAlgorithm::Algo4ThreeToOne => &[&[3, 2, 1], &[], &[], &[]],
            FmAlgorithm::Algo5Mixed => &[&[], &[], &[3], &[]],
            FmAlgorithm::Algo6OneToThree => &[&[3], &[3], &[3], &[]],
            FmAlgorithm::Algo7Parallel => &[&[], &[], &[3], &[]],
            FmAlgorithm::Algo8Additive => &[&[], &[], &[], &[]],
        }
    }

    /// The operators whose outputs are added up to modulate the phase of
    /// operator `op`, in the order of the additions. An operator that runs
    /// unmodulated has none, and neither has an index that names no
    /// operator.
    pub fn modulators(&self, op: usize) -> (r: &'static [usize])
        ensures
            r@ == self.spec_modulators(op),
    {
        if op < 4 {
            let table = self.routing();
            table[op]
        } else {
            &[]
        }
    }

    /// The number by which the summed modulation of operator `op` is
    /// divided before it reaches the operator.
    pub fn modulation_divisor(&self, op: usize) -> (r: u8)
        ensures
            r == self.spec_modulation_divisor(op),
            1 <= r <= 2,
    {
        let n: usize = self.modulators(op).len();
        if n == 3 {
            2
        } else {
            1
        }
    }

    /// Human readable description.
    pub fn description(&self) -> (r: &'static str)
        ensures
            r@ == self.spec_description(),
    {
        match self {
            FmAlgorithm::Algo1Serial => "4→3→2→1 Serial (harsh FM)",
            FmAlgorithm::Algo2Branch => "4+3→2→1 Branch",
            FmAlgorithm::Algo3TwoStacks => "4→3, 2→1 Two stacks",
            FmAlgorithm::Algo4ThreeToOne => "4,3,2→1 Three to one",
            FmAlgorithm::Algo5Mixed => "4→3, 2, 1 Mixed",
            FmAlgorithm::Algo6OneToThree => "4→3,2,1 Broadcast",
            FmAlgorithm::Algo7Parallel => "4→3, 2, 1 Parallel+mod",
            FmAlgorithm::Algo8Additive => "4, 3, 2, 1 Additive",
        }
    }
}

/// Modulation runs from a later operator to an earlier one, and the
/// modulators of an operator are listed from the last down. So when the
/// operators are evaluated from the last to the first, each finds the
/// outputs of its modulators computed, and no operator modulates itself
/// through the graph.
pub proof fn lemma_fm_feeds_forward(alg: FmAlgorithm, op: usize, k: int)
    requires
        0 <= k < alg.spec_modulators(op).len(),
    ensures
        alg.spec_modulators(op).len() <= 3,
        op < alg.spec_modulators(op)[k] < 4,
        forall|j: int| 0 <= j < k ==> alg.spec_modulators(op)[j] > alg.spec_modulators(op)[k],
{
}

/// There is always a carrier, the first operator is one, each carrier names
/// an operator, and the carriers are listed in ascending order.
pub proof fn lemma_fm_carriers(alg: FmAlgorithm)
    ensures
        1 <= alg.spec_carriers().len() <= 4,
        alg.spec_carriers()[0] == 0,
        forall|k: int| 0 <= k < alg.spec_carriers().len() ==> alg.spec_carriers()[k] < 4,
        forall|j: int, k: int|
            0 <= j < k < alg.spec_carriers().len() ==> alg.spec_carriers()[j]
                < alg.spec_carriers()[k],
{
}

/// A carrier modulates no operator: the operators that are heard and the
/// operators that modulate are apart.
pub proof fn lemma_fm_carriers_do_not_modulate(alg: FmAlgorithm, src: usize, dst: usize)
    requires
        alg.spec_feeds(src, dst),
    ensures
        !alg.spec_carriers().contains(src),
{
    let m = alg.spec_modulators(dst);
    let k = choose|k: int| 0 <= k < m.len() && m[k] == src;
    lemma_fm_feeds_forward(alg, dst, k);
    let c = alg.spec_carriers();
    if c.contains(src) {
        let j = choose|j: int| 0 <= j < c.len() && c[j] == src;
        assert(c[j] == src);
        assert(m[k] == src);
    }
}

/// Whether `x` stands at place `k` of `s`.
spec fn at(s: Seq<usize>, k: int, x: usize) -> bool {
    k < s.len() && s[k] == x
}

/// Whether `x` is one of the first six elements of `s`.
spec fn among(s: Seq<usize>, x: usize) -> bool {
    at(s, 0, x) || at(s, 1, x) || at(s, 2, x) || at(s, 3, x) || at(s, 4, x) || at(s, 5, x)
}

/// Every operator is heard: it is a carrier, or it modulates an earlier
/// operator.
pub proof fn lemma_fm_every_operator_contributes(alg: FmAlgorithm, op: usize)
    requires
        op < 4,
    ensures
        alg.spec_carriers().contains(op) || exists|dst: usize|
            dst < op && #[trigger] alg.spec_feeds(op, dst),
{
    let carriers = alg.spec_carriers();
    let m0 = alg.spec_modulators(0);
    let m1 = alg.spec_modulators(1);
    let m2 = alg.spec_modulators(2);
    assert({
        ||| among(carriers, op)
        ||| (op > 0 && among(m0, op))
        ||| (op > 1 && among(m1, op))
        ||| (op > 2 && among(m2, op))
    });
    if !carriers.contains(op) {
        let dst: usize = if op > 0 && m0.contains(op) {
            0
        } else if op > 1 && m1.contains(op) {
            1
        } else {
            2
        };
        assert(dst < op && alg.spec_feeds(op, dst));
    }
}

/// The carriers are exactly the operators that modulate nothing.
pub proof fn lemma_fm_carriers_are_the_heard(alg: FmAlgorithm, op: usize)
    requires
        op < 4,
    ensures
        alg.spec_carriers().contains(op) <==> forall|dst: usize| !alg.spec_feeds(op, dst),
{
    lemma_fm_every_operator_contributes(alg, op);
    if alg.spec_carriers().contains(op) {
        assert forall|dst: usize| !alg.spec_feeds(op, dst) by {
            if alg.spec_feeds(op, dst) {
                lemma_fm_carriers_do_not_modulate(alg, op, dst);
            }
        }
    }
}

/// Numbering and selection are inverse to each other on the eight numbers
/// in use.
pub proof fn lemma_fm_numbering(alg: FmAlgorithm, value: u8)
    ensures
        alg.spec_index() < 8,
        FmAlgorithm::spec_from_u8(alg.spec_index()) == alg,
        value < 8 ==> FmAlgorithm::spec_from_u8(value).spec_index() == value,
        value >= 8 ==> FmAlgorithm::spec_from_u8(value) == FmAlgorithm::Algo1Serial,
{
}

/// How the two operators of the two-operator engine are connected.
#[derive(Debug, Clone, Copy, PartialEq, Eq, Structural, Hash)]
pub enum FmAlgorithm2Op {
    /// The modulator drives the phase of the carrier.
    Stack,
    /// Carrier and modulator are both heard, side by side.
    Parallel,
    /// As `Stack`, and the modulator feeds back into itself.
    StackFeedback,
}

impl Default for FmAlgorithm2Op {
    fn default() -> (r: Self)
        ensures
            r == FmAlgorithm2Op::Stack,
    {
        FmAlgorithm2Op::Stack
    }
}

} // verus!
