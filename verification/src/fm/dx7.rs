//! The thirty-two algorithms of the six-operator engine.
//!
//! An algorithm fixes which operators modulate which, and which operators
//! are carriers: the operators that are heard. Operators are numbered from
//! zero: operator `i` is the one shown to a player as operator `i + 1`.
//! Within one sample the operators are evaluated from the last down to the
//! first.

use vstd::prelude::*;

verus! {

/// The algorithms of the six-operator engine, in their numbering.
#[derive(Debug, Clone, Copy, PartialEq, Eq, Structural, Hash)]
pub enum Dx7Algorithm {
    Algo1, Algo2, Algo3, Algo4,
    Algo5, Algo6, Algo7, Algo8,
    Algo9, Algo10, Algo11, Algo12,
    Algo13, Algo14, Algo15, Algo16,
    Algo17, Algo18, Algo19, Algo20,
    Algo21, Algo22, Algo23, Algo24,
    Algo25, Algo26, Algo27, Algo28,
    Algo29, Algo30, Algo31, Algo32,
}

impl Default for Dx7Algorithm {
    fn default() -> (r: Self)
        ensures
            r == Dx7Algorithm::Algo1,
    {
        Dx7Algorithm::Algo1
    }
}

impl Dx7Algorithm {
    /// The position of the algorithm in its enumeration, counted from zero.
    pub open spec fn spec_index(self) -> u8 {
        match self {
            Dx7Algorithm::Algo1 => 0,
            Dx7Algorithm::Algo2 => 1,
            Dx7Algorithm::Algo3 => 2,
            Dx7Algorithm::Algo4 => 3,
            Dx7Algorithm::Algo5 => 4,
            Dx7Algorithm::Algo6 => 5,
            Dx7Algorithm::Algo7 => 6,
            Dx7Algorithm::Algo8 => 7,
            Dx7Algorithm::Algo9 => 8,
            Dx7Algorithm::Algo10 => 9,
            Dx7Algorithm::Algo11 => 10,
            Dx7Algorithm::Algo12 => 11,
            Dx7Algorithm::Algo13 => 12,
            Dx7Algorithm::Algo14 => 13,
            Dx7Algorithm::Algo15 => 14,
            Dx7Algorithm::Algo16 => 15,
            Dx7Algorithm::Algo17 => 16,
            Dx7Algorithm::Algo18 => 17,
            Dx7Algorithm::Algo19 => 18,
            Dx7Algorithm::Algo20 => 19,
            Dx7Algorithm::Algo21 => 20,
            Dx7Algorithm::Algo22 => 21,
            Dx7Algorithm::Algo23 => 22,
            Dx7Algorithm::Algo24 => 23,
            Dx7Algorithm::Algo25 => 24,
            Dx7Algorithm::Algo26 => 25,
            Dx7Algorithm::Algo27 => 26,
            Dx7Algorithm::Algo28 => 27,
            Dx7Algorithm::Algo29 => 28,
            Dx7Algorithm::Algo30 => 29,
            Dx7Algorithm::Algo31 => 30,
            Dx7Algorithm::Algo32 => 31,
        }
    }

    /// The algorithm at a position. A position past the last one selects the
    /// first algorithm.
    pub open spec fn spec_from_u8(value: u8) -> Dx7Algorithm {
        match value {
            1 => Dx7Algorithm::Algo2,
            2 => Dx7Algorithm::Algo3,
            3 => Dx7Algorithm::Algo4,
            4 => Dx7Algorithm::Algo5,
            5 => Dx7Algorithm::Algo6,
            6 => Dx7Algorithm::Algo7,
            7 => Dx7Algorithm::Algo8,
            8 => Dx7Algorithm::Algo9,
            9 => Dx7Algorithm::Algo10,
            10 => Dx7Algorithm::Algo11,
            11 => Dx7Algorithm::Algo12,
            12 => Dx7Algorithm::Algo13,
            13 => Dx7Algorithm::Algo14,
            14 => Dx7Algorithm::Algo15,
            15 => Dx7Algorithm::Algo16,
            16 => Dx7Algorithm::Algo17,
            17 => Dx7Algorithm::Algo18,
            18 => Dx7Algorithm::Algo19,
            19 => Dx7Algorithm::Algo20,
            20 => Dx7Algorithm::Algo21,
            21 => Dx7Algorithm::Algo22,
            22 => Dx7Algorithm::Algo23,
            23 => Dx7Algorithm::Algo24,
            24 => Dx7Algorithm::Algo25,
            25 => Dx7Algorithm::Algo26,
            26 => Dx7Algorithm::Algo27,
            27 => Dx7Algorithm::Algo28,
            28 => Dx7Algorithm::Algo29,
            29 => Dx7Algorithm::Algo30,
            30 => Dx7Algorithm::Algo31,
            31 => Dx7Algorithm::Algo32,
            _ => Dx7Algorithm::Algo1,
        }
    }

    /// The carrier operators, in ascending order. They are the operators
    /// that are heard: their outputs are added up to form the output, and a
    /// voice sounds until the envelopes of all of them are idle.
    pub open spec fn spec_carriers(self) -> Seq<usize> {
        match self {
            Dx7Algorithm::Algo1 => seq![0],
            Dx7Algorithm::Algo2 => seq![0, 1],
            Dx7Algorithm::Algo3 => seq![0, 2],
            Dx7Algorithm::Algo4 => seq![0, 3],
            Dx7Algorithm::Algo5 => seq![0, 4],
            Dx7Algorithm::Algo6 => seq![0],
            Dx7Algorithm::Algo7 => seq![0],
            Dx7Algorithm::Algo8 => seq![0],
            Dx7Algorithm::Algo9 => seq![0],
            Dx7Algorithm::Algo10 => seq![0, 3],
            Dx7Algorithm::Algo11 => seq![0, 2],
            Dx7Algorithm::Algo12 => seq![0, 2],
            Dx7Algorithm::Algo13 => seq![0],
            Dx7Algorithm::Algo14 => seq![0, 2],
            Dx7Algorithm::Algo15 => seq![0, 2, 4],
            Dx7Algorithm::Algo16 => seq![0, 2, 3],
            Dx7Algorithm::Algo17 => seq![0, 1, 2, 4],
            Dx7Algorithm::Algo18 => seq![0, 1, 2],
            Dx7Algorithm::Algo19 => seq![0, 2, 3, 4],
            Dx7Algorithm::Algo20 => seq![0, 2, 3, 4],
            Dx7Algorithm::Algo21 => seq![0, 1, 3, 4],
            Dx7Algorithm::Algo22 => seq![0, 1, 2, 3],
            Dx7Algorithm::Algo23 => seq![0, 2, 3, 4],
            Dx7Algorithm::Algo24 => seq![0, 1, 2, 4],
            Dx7Algorithm::Algo25 => seq![0, 1, 2, 3, 4],
            Dx7Algorithm::Algo26 => seq![0, 1, 2, 4],
            Dx7Algorithm::Algo27 => seq![0, 1, 2, 3, 4],
            Dx7Algorithm::Algo28 => seq![0, 1, 2, 3],
            Dx7Algorithm::Algo29 => seq![0, 1, 2, 3, 4],
            Dx7Algorithm::Algo30 => seq![0, 1, 2, 3],
            Dx7Algorithm::Algo31 => seq![0, 1, 2, 3, 4],
            Dx7Algorithm::Algo32 => seq![0, 1, 2, 3, 4, 5],
        }
    }

    /// The operators that are added up to form the audible output, in the
    /// order of the additions: the carriers, from the last down.
    pub open spec fn spec_output_mix(self) -> Seq<usize> {
        self.spec_carriers().reverse()
    }

    /// The modulation graph. Row `i` lists the operators whose outputs are
    /// added up, in this order, to modulate the phase of operator `i`.
    pub open spec fn spec_routing(self) -> Seq<Seq<usize>> {
        match self {
            Dx7Algorithm::Algo1 => seq![seq![1], seq![2], seq![3], seq![4], seq![5], seq![]],
            Dx7Algorithm::Algo2 => seq![seq![], seq![2], seq![3], seq![4], seq![5], seq![]],
            Dx7Algorithm::Algo3 => seq![seq![1], seq![], seq![3], seq![4], seq![5], seq![]],
            Dx7Algorithm::Algo4 => seq![seq![1], seq![2], seq![], seq![4], seq![5], seq![]],
            Dx7Algorithm::Algo5 => seq![seq![1], seq![2], seq![3], seq![], seq![5], seq![]],
            Dx7Algorithm::Algo6 => seq![seq![1], seq![2], seq![4, 3], seq![5], seq![5], seq![]],
            Dx7Algorithm::Algo7 => seq![seq![1], seq![3, 2], seq![], seq![4], seq![5], seq![]],
            Dx7Algorithm::Algo8 => seq![seq![2, 1], seq![], seq![3], seq![4], seq![5], seq![]],
            Dx7Algorithm::Algo9 => seq![seq![1], seq![4, 3, 2], seq![], seq![], seq![5], seq![]],
            Dx7Algorithm::Algo10 => seq![seq![1], seq![2], seq![], seq![4], seq![5], seq![]],
            Dx7Algorithm::Algo11 => seq![seq![1], seq![], seq![3], seq![4], seq![5], seq![]],
            Dx7Algorithm::Algo12 => seq![seq![1], seq![], seq![3], seq![5, 4], seq![], seq![]],
            Dx7Algorithm::Algo13 => seq![seq![3, 2, 1], seq![], seq![], seq![4], seq![5], seq![]],
            Dx7Algorithm::Algo14 => seq![seq![1], seq![], seq![4, 3], seq![5], seq![5], seq![]],
            Dx7Algorithm::Algo15 => seq![seq![1], seq![], seq![3], seq![], seq![5], seq![]],
            Dx7Algorithm::Algo16 => seq![seq![1], seq![], seq![], seq![4], seq![5], seq![]],
            Dx7Algorithm::Algo17 => seq![seq![], seq![], seq![3], seq![], seq![5], seq![]],
            Dx7Algorithm::Algo18 => seq![seq![], seq![], seq![3], seq![4], seq![5], seq![]],
            Dx7Algorithm::Algo19 => seq![seq![1], seq![], seq![], seq![5], seq![5], seq![]],
            Dx7Algorithm::Algo20 => seq![seq![1], seq![], seq![5], seq![5], seq![5], seq![]],
            Dx7Algorithm::Algo21 => seq![seq![], seq![2], seq![], seq![5], seq![5], seq![]],
            Dx7Algorithm::Algo22 => seq![seq![], seq![], seq![], seq![4], seq![5], seq![]],
            Dx7Algorithm::Algo23 => seq![seq![1], seq![], seq![], seq![], seq![5], seq![]],
            Dx7Algorithm::Algo24 => seq![seq![], seq![], seq![3], seq![], seq![5], seq![]],
            Dx7Algorithm::Algo25 => seq![seq![], seq![], seq![], seq![], seq![5], seq![]],
            Dx7Algorithm::Algo26 => seq![seq![], seq![], seq![3], seq![], seq![5], seq![]],
            Dx7Algorithm::Algo27 => seq![seq![], seq![], seq![], seq![], seq![5], seq![]],
            Dx7Algorithm::Algo28 => seq![seq![], seq![], seq![], seq![4], seq![5], seq![]],
            Dx7Algorithm::Algo29 => seq![seq![], seq![], seq![], seq![], seq![5], seq![]],
            Dx7Algorithm::Algo30 => seq![seq![], seq![], seq![], seq![4], seq![5], seq![]],
            Dx7Algorithm::Algo31 => seq![seq![], seq![], seq![], seq![], seq![5], seq![]],
            Dx7Algorithm::Algo32 => seq![seq![], seq![], seq![], seq![], seq![], seq![]],
        }
    }

    /// The modulators of operator `op`, in the order of their addition. An
    /// index that names no operator has none.
    pub open spec fn spec_modulators(self, op: usize) -> Seq<usize> {
        if op < 6 {
            self.spec_routing()[op as int]
        } else {
            Seq::empty()
        }
    }

    /// The number by which the summed modulation of operator `op` is
    /// divided: the number of its modulators, so that several modulators
    /// are averaged.
    pub open spec fn spec_modulation_divisor(self, op: usize) -> u8 {
        if self.spec_modulators(op).len() == 0 {
            1
        } else {
            self.spec_modulators(op).len() as u8
        }
    }

    /// Whether the output of operator `src` modulates operator `dst`.
    pub open spec fn spec_feeds(self, src: usize, dst: usize) -> bool {
        self.spec_modulators(dst).contains(src)
    }

    /// The text that describes the topology to a user.
    pub open spec fn spec_description(self) -> Seq<char> {
        match self {
            Dx7Algorithm::Algo1 => "6→5→4→3→2→1"@,
            Dx7Algorithm::Algo2 => "6→5→4→3→2, 1"@,
            Dx7Algorithm::Algo3 => "6→5→4→3, 2→1"@,
            Dx7Algorithm::Algo4 => "6→5→4, 3→2→1"@,
            Dx7Algorithm::Algo5 => "6→5, 4→3→2→1"@,
            Dx7Algorithm::Algo6 => "6→5+4→3→2→1"@,
            Dx7Algorithm::Algo7 => "6→5→4+3→2→1"@,
            Dx7Algorithm::Algo8 => "6→5→4→3+2→1"@,
            Dx7Algorithm::Algo9 => "6→5+4+3→2→1"@,
            Dx7Algorithm::Algo10 => "6→5→4, 3→2→1"@,
            Dx7Algorithm::Algo11 => "6→5→4→3, 2→1"@,
            Dx7Algorithm::Algo12 => "6+5→4→3, 2→1"@,
            Dx7Algorithm::Algo13 => "6→5→4, 3+2→1"@,
            Dx7Algorithm::Algo14 => "6→5+4→3, 2→1"@,
            Dx7Algorithm::Algo15 => "6→5, 4→3, 2→1"@,
            Dx7Algorithm::Algo16 => "6→5→4, 3, 2→1"@,
            Dx7Algorithm::Algo17 => "6→5, 4→3, 2, 1"@,
            Dx7Algorithm::Algo18 => "6→5→4→3, 2, 1"@,
            Dx7Algorithm::Algo19 => "6→5+4, 3, 2→1"@,
            Dx7Algorithm::Algo20 => "6→5+4+3, 2→1"@,
            Dx7Algorithm::Algo21 => "6→5+4, 3+2, 1"@,
            Dx7Algorithm::Algo22 => "6→5→4, 3, 2, 1"@,
            Dx7Algorithm::Algo23 => "6→5, 4, 3, 2→1"@,
            Dx7Algorithm::Algo24 => "6→5, 4→3, 2, 1"@,
            Dx7Algorithm::Algo25 => "6→5, 4, 3, 2, 1"@,
            Dx7Algorithm::Algo26 => "6→5, 4→3, 2, 1"@,
            Dx7Algorithm::Algo27 => "6→5, 4, 3, 2, 1"@,
            Dx7Algorithm::Algo28 => "6→5→4, 3, 2, 1"@,
            Dx7Algorithm::Algo29 => "6→5, 4, 3, 2, 1"@,
            Dx7Algorithm::Algo30 => "6→5→4, 3, 2, 1"@,
            Dx7Algorithm::Algo31 => "6→5, 4, 3, 2, 1"@,
            Dx7Algorithm::Algo32 => "6, 5, 4, 3, 2, 1 (additive)"@,
        }
    }

    /// The algorithm with the given number, counted from zero. A number
    /// above 31 selects the first algorithm.
    pub fn from_u8(value: u8) -> (r: Self)
        ensures
            r == Self::spec_from_u8(value),
            value < 32 ==> r.spec_index() == value,
            value >= 32 ==> r == Dx7Algorithm::Algo1,
    {
        match value {
            1 => Dx7Algorithm::Algo2,
            2 => Dx7Algorithm::Algo3,
            3 => Dx7Algorithm::Algo4,
            4 => Dx7Algorithm::Algo5,
            5 => Dx7Algorithm::Algo6,
            6 => Dx7Algorithm::Algo7,
            7 => Dx7Algorithm::Algo8,
            8 => Dx7Algorithm::Algo9,
            9 => Dx7Algorithm::Algo10,
            10 => Dx7Algorithm::Algo11,
            11 => Dx7Algorithm::Algo12,
            12 => Dx7Algorithm::Algo13,
            13 => Dx7Algorithm::Algo14,
            14 => Dx7Algorithm::Algo15,
            15 => Dx7Algorithm::Algo16,
            16 => Dx7Algorithm::Algo17,
            17 => Dx7Algorithm::Algo18,
            18 => Dx7Algorithm::Algo19,
            19 => Dx7Algorithm::Algo20,
            20 => Dx7Algorithm::Algo21,
            21 => Dx7Algorithm::Algo22,
            22 => Dx7Algorithm::Algo23,
            23 => Dx7Algorithm::Algo24,
            24 => Dx7Algorithm::Algo25,
            25 => Dx7Algorithm::Algo26,
            26 => Dx7Algorithm::Algo27,
            27 => Dx7Algorithm::Algo28,
            28 => Dx7Algorithm::Algo29,
            29 => Dx7Algorithm::Algo30,
            30 => Dx7Algorithm::Algo31,
            31 => Dx7Algorithm::Algo32,
            _ => Dx7Algorithm::Algo1,
        }
    }

    /// The number of the algorithm, counted from zero.
    pub fn index(&self) -> (r: u8)
        ensures
            r == self.spec_index(),
            r < 32,
            Self::spec_from_u8(r) == *self,
    {
        match self {
            Dx7Algorithm::Algo1 => 0,
            Dx7Algorithm::Algo2 => 1,
            Dx7Algorithm::Algo3 => 2,
            Dx7Algorithm::Algo4 => 3,
            Dx7Algorithm::Algo5 => 4,
            Dx7Algorithm::Algo6 => 5,
            Dx7Algorithm::Algo7 => 6,
            Dx7Algorithm::Algo8 => 7,
            Dx7Algorithm::Algo9 => 8,
            Dx7Algorithm::Algo10 => 9,
            Dx7Algorithm::Algo11 => 10,
            Dx7Algorithm::Algo12 => 11,
            Dx7Algorithm::Algo13 => 12,
            Dx7Algorithm::Algo14 => 13,
            Dx7Algorithm::Algo15 => 14,
            Dx7Algorithm::Algo16 => 15,
            Dx7Algorithm::Algo17 => 16,
            Dx7Algorithm::Algo18 => 17,
            Dx7Algorithm::Algo19 => 18,
            Dx7Algorithm::Algo20 => 19,
            Dx7Algorithm::Algo21 => 20,
            Dx7Algorithm::Algo22 => 21,
            Dx7Algorithm::Algo23 => 22,
            Dx7Algorithm::Algo24 => 23,
            Dx7Algorithm::Algo25 => 24,
            Dx7Algorithm::Algo26 => 25,
            Dx7Algorithm::Algo27 => 26,
            Dx7Algorithm::Algo28 => 27,
            Dx7Algorithm::Algo29 => 28,
            Dx7Algorithm::Algo30 => 29,
            Dx7Algorithm::Algo31 => 30,
            Dx7Algorithm::Algo32 => 31,
        }
    }

    /// Returns which operators are carriers (output to audio) for this
    /// algorithm.
    pub fn carriers(&self) -> (r: &'static [usize])
        ensures
            r@ == self.spec_carriers(),
    {
        match self {
            Dx7Algorithm::Algo1 => &[0],
            Dx7Algorithm::Algo2 => &[0, 1],
            Dx7Algorithm::Algo3 => &[0, 2],
            Dx7Algorithm::Algo4 => &[0, 3],
            Dx7Algorithm::Algo5 => &[0, 4],
            Dx7Algorithm::Algo6 => &[0],
            Dx7Algorithm::Algo7 => &[0],
            Dx7Algorithm::Algo8 => &[0],
            Dx7Algorithm::Algo9 => &[0],
            Dx7Algorithm::Algo10 => &[0, 3],
            Dx7Algorithm::Algo11 => &[0, 2],
            Dx7Algorithm::Algo12 => &[0, 2],
            Dx7Algorithm::Algo13 => &[0],
            Dx7Algorithm::Algo14 => &[0, 2],
            Dx7Algorithm::Algo15 => &[0, 2, 4],
            Dx7Algorithm::Algo16 => &[0, 2, 3],
            Dx7Algorithm::Algo17 => &[0, 1, 2, 4],
            Dx7Algorithm::Algo18 => &[0, 1, 2],
            Dx7Algorithm::Algo19 => &[0, 2, 3, 4],
            Dx7Algorithm::Algo20 => &[0, 2, 3, 4],
            Dx7Algorithm::Algo21 => &[0, 1, 3, 4],
            Dx7Algorithm::Algo22 => &[0, 1, 2, 3],
            Dx7Algorithm::Algo23 => &[0, 2, 3, 4],
            Dx7Algorithm::Algo24 => &[0, 1, 2, 4],
            Dx7Algorithm::Algo25 => &[0, 1, 2, 3, 4],
            Dx7Algorithm::Algo26 => &[0, 1, 2, 4],
            Dx7Algorithm::Algo27 => &[0, 1, 2, 3, 4],
            Dx7Algorithm::Algo28 => &[0, 1, 2, 3],
            Dx7Algorithm::Algo29 => &[0, 1, 2, 3, 4],
            Dx7Algorithm::Algo30 => &[0, 1, 2, 3],
            Dx7Algorithm::Algo31 => &[0, 1, 2, 3, 4],
            Dx7Algorithm::Algo32 => &[0, 1, 2, 3, 4, 5],
        }
    }

    /// The operators whose outputs are added up to form the audible output,
    /// in the order of the additions. The sum is divided by their number.
    pub fn output_mix(&self) -> (r: &'static [usize])
        ensures
            r@ == self.spec_output_mix(),
    {
        let mix: &'static [usize] = match self {
            Dx7Algorithm::Algo1 => &[0],
            Dx7Algorithm::Algo2 => &[1, 0],
            Dx7Algorithm::Algo3 => &[2, 0],
            Dx7Algorithm::Algo4 => &[3, 0],
            Dx7Algorithm::Algo5 => &[4, 0],
            Dx7Algorithm::Algo6 => &[0],
            Dx7Algorithm::Algo7 => &[0],
            Dx7Algorithm::Algo8 => &[0],
            Dx7Algorithm::Algo9 => &[0],
            Dx7Algorithm::Algo10 => &[3, 0],
            Dx7Algorithm::Algo11 => &[2, 0],
            Dx7Algorithm::Algo12 => &[2, 0],
            Dx7Algorithm::Algo13 => &[0],
            Dx7Algorithm::Algo14 => &[2, 0],
            Dx7Algorithm::Algo15 => &[4, 2, 0],
            Dx7Algorithm::Algo16 => &[3, 2, 0],
            Dx7Algorithm::Algo17 => &[4, 2, 1, 0],
            Dx7Algorithm::Algo18 => &[2, 1, 0],
            Dx7Algorithm::Algo19 => &[4, 3, 2, 0],
            Dx7Algorithm::Algo20 => &[4, 3, 2, 0],
            Dx7Algorithm::Algo21 => &[4, 3, 1, 0],
            Dx7Algorithm::Algo22 => &[3, 2, 1, 0],
            Dx7Algorithm::Algo23 => &[4, 3, 2, 0],
            Dx7Algorithm::Algo24 => &[4, 2, 1, 0],
            Dx7Algorithm::Algo25 => &[4, 3, 2, 1, 0],
            Dx7Algorithm::Algo26 => &[4, 2, 1, 0],
            Dx7Algorithm::Algo27 => &[4, 3, 2, 1, 0],
            Dx7Algorithm::Algo28 => &[3, 2, 1, 0],
            Dx7Algorithm::Algo29 => &[4, 3, 2, 1, 0],
            Dx7Algorithm::Algo30 => &[3, 2, 1, 0],
            Dx7Algorithm::Algo31 => &[4, 3, 2, 1, 0],
            Dx7Algorithm::Algo32 => &[5, 4, 3, 2, 1, 0],
        };
        assert(mix@ =~= self.spec_carriers().reverse());
        mix
    }

    /// The modulation graph as a table with one row for each operator.
    fn routing(&self) -> (r: &'static [&'static [usize]; 6])
        ensures
            forall|i: int| 0 <= i < 6 ==> (#[trigger] r@[i])@ == self.spec_routing()[i],
    {
        match self {
            Dx7Algorithm::Algo1 => &[&[1], &[2], &[3], &[4], &[5], &[]],
            Dx7Algorithm::Algo2 => &[&[], &[2], &[3], &[4], &[5], &[]],
            Dx7Algorithm::Algo3 => &[&[1], &[], &[3], &[4], &[5], &[]],
            Dx7Algorithm::Algo4 => &[&[1], &[2], &[], &[4], &[5], &[]],
            Dx7Algorithm::Algo5 => &[&[1], &[2], &[3], &[], &[5], &[]],
            Dx7Algorithm::Algo6 => &[&[1], &[2], &[4, 3], &[5], &[5], &[]],
            Dx7Algorithm::Algo7 => &[&[1], &[3, 2], &[], &[4], &[5], &[]],
            Dx7Algorithm::Algo8 => &[&[2, 1], &[], &[3], &[4], &[5], &[]],
            Dx7Algorithm::Algo9 => &[&[1], &[4, 3, 2], &[], &[], &[5], &[]],
            Dx7Algorithm::Algo10 => &[&[1], &[2], &[], &[4], &[5], &[]],
            Dx7Algorithm::Algo11 => &[&[1], &[], &[3], &[4], &[5], &[]],
            Dx7Algorithm::Algo12 => &[&[1], &[], &[3], &[5, 4], &[], &[]],
            Dx7Algorithm::Algo13 => &[&[3, 2, 1], &[], &[], &[4], &[5], &[]],
            Dx7Algorithm::Algo14 => &[&[1], &[], &[4, 3], &[5], &[5], &[]],
            Dx7Algorithm::Algo15 => &[&[1], &[], &[3], &[], &[5], &[]],
            Dx7Algorithm::Algo16 => &[&[1], &[], &[], &[4], &[5], &[]],
            Dx7Algorithm::Algo17 => &[&[], &[], &[3], &[], &[5], &[]],
            Dx7Algorithm::Algo18 => &[&[], &[], &[3], &[4], &[5], &[]],
            Dx7Algorithm::Algo19 => &[&[1], &[], &[], &[5], &[5], &[]],
            Dx7Algorithm::Algo20 => &[&[1], &[], &[5], &[5], &[5], &[]],
            Dx7Algorithm::Algo21 => &[&[], &[2], &[], &[5], &[5], &[]],
            Dx7Algorithm::Algo22 => &[&[], &[], &[], &[4], &[5], &[]],
            Dx7Algorithm::Algo23 => &[&[1], &[], &[], &[], &[5], &[]],
            Dx7Algorithm::Algo24 => &[&[], &[], &[3], &[], &[5], &[]],
            Dx7Algorithm::Algo25 => &[&[], &[], &[], &[], &[5], &[]],
            Dx7Algorithm::Algo26 => &[&[], &[], &[3], &[], &[5], &[]],
            Dx7Algorithm::Algo27 => &[&[], &[], &[], &[], &[5], &[]],
            Dx7Algorithm::Algo28 => &[&[], &[], &[], &[4], &[5], &[]],
            Dx7Algorithm::Algo29 => &[&[], &[], &[], &[], &[5], &[]],
            Dx7Algorithm::Algo30 => &[&[], &[], &[], &[4], &[5], &[]],
            Dx7Algorithm::Algo31 => &[&[], &[], &[], &[], &[5], &[]],
            Dx7Algorithm::Algo32 => &[&[], &[], &[], &[], &[], &[]],
        }
    }

    /// The operators whose outputs are added up to modulate the phase of
    /// operator `op`, in the order of the additions. An operator that runs
    /// unmodulated has none, and neither has an index that names no
    /// operator.
    pub fn modulators(&self, op: usize) -> (r: &'static [usize])
        ensures
            r@ == self.spec_modulators(op),
    {
        if op < 6 {
            let table = self.routing();
            table[op]
        } else {
            &[]
        }
    }

    /// The number by which the summed modulation of operator `op` is
    /// divided before it reaches the operator.
    pub fn modulation_divisor(&self, op: usize) -> (r: u8)
        ensures
            r == self.spec_modulation_divisor(op),
            1 <= r <= 3,
    {
        let n: usize = self.modulators(op).len();
        proof {
            lemma_dx7_modulator_count(*self, op);
        }
        if n == 0 {
            1
        } else if n == 1 {
            1
        } else if n == 2 {
            2
        } else {
            3
        }
    }

    /// Human readable description of the topology.
    pub fn description(&self) -> (r: &'static str)
        ensures
            r@ == self.spec_description(),
    {
        match self {
            Dx7Algorithm::Algo1 => "6→5→4→3→2→1",
            Dx7Algorithm::Algo2 => "6→5→4→3→2, 1",
            Dx7Algorithm::Algo3 => "6→5→4→3, 2→1",
            Dx7Algorithm::Algo4 => "6→5→4, 3→2→1",
            Dx7Algorithm::Algo5 => "6→5, 4→3→2→1",
            Dx7Algorithm::Algo6 => "6→5+4→3→2→1",
            Dx7Algorithm::Algo7 => "6→5→4+3→2→1",
            Dx7Algorithm::Algo8 => "6→5→4→3+2→1",
            Dx7Algorithm::Algo9 => "6→5+4+3→2→1",
            Dx7Algorithm::Algo10 => "6→5→4, 3→2→1",
            Dx7Algorithm::Algo11 => "6→5→4→3, 2→1",
            Dx7Algorithm::Algo12 => "6+5→4→3, 2→1",
            Dx7Algorithm::Algo13 => "6→5→4, 3+2→1",
            Dx7Algorithm::Algo14 => "6→5+4→3, 2→1",
            Dx7Algorithm::Algo15 => "6→5, 4→3, 2→1",
            Dx7Algorithm::Algo16 => "6→5→4, 3, 2→1",
            Dx7Algorithm::Algo17 => "6→5, 4→3, 2, 1",
            Dx7Algorithm::Algo18 => "6→5→4→3, 2, 1",
            Dx7Algorithm::Algo19 => "6→5+4, 3, 2→1",
            Dx7Algorithm::Algo20 => "6→5+4+3, 2→1",
            Dx7Algorithm::Algo21 => "6→5+4, 3+2, 1",
            Dx7Algorithm::Algo22 => "6→5→4, 3, 2, 1",
            Dx7Algorithm::Algo23 => "6→5, 4, 3, 2→1",
            Dx7Algorithm::Algo24 => "6→5, 4→3, 2, 1",
            Dx7Algorithm::Algo25 => "6→5, 4, 3, 2, 1",
            Dx7Algorithm::Algo26 => "6→5, 4→3, 2, 1",
            Dx7Algorithm::Algo27 => "6→5, 4, 3, 2, 1",
            Dx7Algorithm::Algo28 => "6→5→4, 3, 2, 1",
            Dx7Algorithm::Algo29 => "6→5, 4, 3, 2, 1",
            Dx7Algorithm::Algo30 => "6→5→4, 3, 2, 1",
            Dx7Algorithm::Algo31 => "6→5, 4, 3, 2, 1",
            Dx7Algorithm::Algo32 => "6, 5, 4, 3, 2, 1 (additive)",
        }
    }
}

/// No operator has more than three modulators.
pub proof fn lemma_dx7_modulator_count(alg: Dx7Algorithm, op: usize)
    ensures
        alg.spec_modulators(op).len() <= 3,
{
}

/// Modulation runs from a later operator to an earlier one, and the
/// modulators of an operator are listed from the last down. So when the
/// operators are evaluated from the last to the first, each finds the
/// outputs of its modulators computed, and no operator modulates itself
/// through the graph.
pub proof fn lemma_dx7_feeds_forward(alg: Dx7Algorithm, op: usize, k: int)
    requires
        0 <= k < alg.spec_modulators(op).len(),
    ensures
        op < alg.spec_modulators(op)[k] < 6,
        forall|j: int| 0 <= j < k ==> alg.spec_modulators(op)[j] > alg.spec_modulators(op)[k],
{
}

/// There is always a carrier, the first operator is one, each carrier names
/// an operator, and the carriers are listed in ascending order.
pub proof fn lemma_dx7_carriers(alg: Dx7Algorithm)
    ensures
        1 <= alg.spec_carriers().len() <= 6,
        alg.spec_carriers()[0] == 0,
        forall|k: int| 0 <= k < alg.spec_carriers().len() ==> alg.spec_carriers()[k] < 6,
        forall|j: int, k: int|
            0 <= j < k < alg.spec_carriers().len() ==> alg.spec_carriers()[j]
                < alg.spec_carriers()[k],
{
}

/// A carrier modulates no operator: the operators that are heard and the
/// operators that modulate are apart.
pub proof fn lemma_dx7_carriers_do_not_modulate(alg: Dx7Algorithm, src: usize, dst: usize)
    requires
        alg.spec_feeds(src, dst),
    ensures
        !alg.spec_carriers().contains(src),
{
    let m = alg.spec_modulators(dst);
    let k = choose|k: int| 0 <= k < m.len() && m[k] == src;
    lemma_dx7_feeds_forward(alg, dst, k);
    let c = alg.spec_carriers();
    if c.contains(src) {
        let j = choose|j: int| 0 <= j < c.len() && c[j] == src;
        assert(c[j] == src);
        assert(m[k] == src);
    }
}

/// Whether `x` stands at place `k` of `s`.
spec fn at(s: Seq<usize>, k: int, x: usize) -> bool {
    k < s.len() && s[k] == x
}

/// Whether `x` is one of the first six elements of `s`.
spec fn among(s: Seq<usize>, x: usize) -> bool {
    at(s, 0, x) || at(s, 1, x) || at(s, 2, x) || at(s, 3, x) || at(s, 4, x) || at(s, 5, x)
}

/// Every operator is heard: it is a carrier, or it modulates an earlier
/// operator.
pub proof fn lemma_dx7_every_operator_contributes(alg: Dx7Algorithm, op: usize)
    requires
        op < 6,
    ensures
        alg.spec_carriers().contains(op) || exists|dst: usize|
            dst < op && #[trigger] alg.spec_feeds(op, dst),
{
    let carriers = alg.spec_carriers();
    let m0 = alg.spec_modulators(0);
    let m1 = alg.spec_modulators(1);
    let m2 = alg.spec_modulators(2);
    let m3 = alg.spec_modulators(3);
    let m4 = alg.spec_modulators(4);
    assert({
        ||| among(carriers, op)
        ||| (op > 0 && among(m0, op))
        ||| (op > 1 && among(m1, op))
        ||| (op > 2 && among(m2, op))
        ||| (op > 3 && among(m3, op))
        ||| (op > 4 && among(m4, op))
    });
    if !carriers.contains(op) {
        let dst: usize = if op > 0 && m0.contains(op) {
            0
        } else if op > 1 && m1.contains(op) {
            1
        } else if op > 2 && m2.contains(op) {
            2
        } else if op > 3 && m3.contains(op) {
            3
        } else {
            4
        };
        assert(dst < op && alg.spec_feeds(op, dst));
    }
}

/// The carriers are exactly the operators that modulate nothing.
pub proof fn lemma_dx7_carriers_are_the_heard(alg: Dx7Algorithm, op: usize)
    requires
        op < 6,
    ensures
        alg.spec_carriers().contains(op) <==> forall|dst: usize| !alg.spec_feeds(op, dst),
{
    lemma_dx7_every_operator_contributes(alg, op);
    if alg.spec_carriers().contains(op) {
        assert forall|dst: usize| !alg.spec_feeds(op, dst) by {
            if alg.spec_feeds(op, dst) {
                lemma_dx7_carriers_do_not_modulate(alg, op, dst);
            }
        }
    }
}

/// Numbering and selection are inverse to each other on the thirty-two
/// numbers in use.
pub proof fn lemma_dx7_numbering(alg: Dx7Algorithm, value: u8)
    ensures
        alg.spec_index() < 32,
        Dx7Algorithm::spec_from_u8(alg.spec_index()) == alg,
        value < 32 ==> Dx7Algorithm::spec_from_u8(value).spec_index() == value,
        value >= 32 ==> Dx7Algorithm::spec_from_u8(value) == Dx7Algorithm::Algo1,
{
}

} // verus!
