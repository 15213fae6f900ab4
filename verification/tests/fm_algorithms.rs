use ossian19_core::fm::algorithm::{FmAlgorithm, FmAlgorithm2Op};
use ossian19_core::fm::dx7::Dx7Algorithm;

/// One row for each algorithm: its number, the modulators of each
/// operator, the output mix, the carriers and the description.
type Row<const N: usize> =
    (u8, [&'static [usize]; N], &'static [usize], &'static [usize], &'static str);

const FOUR_OP: [Row<4>; 8] = [
    (0, [&[1], &[2], &[3], &[]], &[0], &[0], "4→3→2→1 Serial (harsh FM)"),
    (1, [&[1], &[3, 2], &[], &[]], &[0], &[0], "4+3→2→1 Branch"),
    (2, [&[1], &[], &[3], &[]], &[0, 2], &[0, 2], "4→3, 2→1 Two stacks"),
    (3, [&[3, 2, 1], &[], &[], &[]], &[0], &[0], "4,3,2→1 Three to one"),
    (4, [&[], &[], &[3], &[]], &[0, 1, 2], &[0, 1, 2], "4→3, 2, 1 Mixed"),
    (5, [&[3], &[3], &[3], &[]], &[0, 1, 2], &[0, 1, 2], "4→3,2,1 Broadcast"),
    (6, [&[], &[], &[3], &[]], &[0, 1, 2], &[0, 1, 2], "4→3, 2, 1 Parallel+mod"),
    (7, [&[], &[], &[], &[]], &[0, 1, 2, 3], &[0, 1, 2, 3], "4, 3, 2, 1 Additive"),
];

const SIX_OP: [Row<6>; 32] = [
    (0, [&[1], &[2], &[3], &[4], &[5], &[]], &[0], &[0], "6→5→4→3→2→1"),
    (1, [&[], &[2], &[3], &[4], &[5], &[]], &[1, 0], &[0, 1], "6→5→4→3→2, 1"),
    (2, [&[1], &[], &[3], &[4], &[5], &[]], &[2, 0], &[0, 2], "6→5→4→3, 2→1"),
    (3, [&[1], &[2], &[], &[4], &[5], &[]], &[3, 0], &[0, 3], "6→5→4, 3→2→1"),
    (4, [&[1], &[2], &[3], &[], &[5], &[]], &[4, 0], &[0, 4], "6→5, 4→3→2→1"),
    (5, [&[1], &[2], &[4, 3], &[5], &[5], &[]], &[0], &[0], "6→5+4→3→2→1"),
    (6, [&[1], &[3, 2], &[], &[4], &[5], &[]], &[0], &[0], "6→5→4+3→2→1"),
    (7, [&[2, 1], &[], &[3], &[4], &[5], &[]], &[0], &[0], "6→5→4→3+2→1"),
    (8, [&[1], &[4, 3, 2], &[], &[], &[5], &[]], &[0], &[0], "6→5+4+3→2→1"),
    (9, [&[1], &[2], &[], &[4], &[5], &[]], &[3, 0], &[0, 3], "6→5→4, 3→2→1"),
    (10, [&[1], &[], &[3], &[4], &[5], &[]], &[2, 0], &[0, 2], "6→5→4→3, 2→1"),
    (11, [&[1], &[], &[3], &[5, 4], &[], &[]], &[2, 0], &[0, 2], "6+5→4→3, 2→1"),
    (12, [&[3, 2, 1], &[], &[], &[4], &[5], &[]], &[0], &[0], "6→5→4, 3+2→1"),
    (13, [&[1], &[], &[4, 3], &[5], &[5], &[]], &[2, 0], &[0, 2], "6→5+4→3, 2→1"),
    (14, [&[1], &[], &[3], &[], &[5], &[]], &[4, 2, 0], &[0, 2, 4], "6→5, 4→3, 2→1"),
    (15, [&[1], &[], &[], &[4], &[5], &[]], &[3, 2, 0], &[0, 2, 3], "6→5→4, 3, 2→1"),
    (16, [&[], &[], &[3], &[], &[5], &[]], &[4, 2, 1, 0], &[0, 1, 2, 4], "6→5, 4→3, 2, 1"),
    (17, [&[], &[], &[3], &[4], &[5], &[]], &[2, 1, 0], &[0, 1, 2], "6→5→4→3, 2, 1"),
    (18, [&[1], &[], &[], &[5], &[5], &[]], &[4, 3, 2, 0], &[0, 2, 3, 4], "6→5+4, 3, 2→1"),
    (19, [&[1], &[], &[5], &[5], &[5], &[]], &[4, 3, 2, 0], &[0, 2, 3, 4], "6→5+4+3, 2→1"),
    (20, [&[], &[2], &[], &[5], &[5], &[]], &[4, 3, 1, 0], &[0, 1, 3, 4], "6→5+4, 3+2, 1"),
    (21, [&[], &[], &[], &[4], &[5], &[]], &[3, 2, 1, 0], &[0, 1, 2, 3], "6→5→4, 3, 2, 1"),
    (22, [&[1], &[], &[], &[], &[5], &[]], &[4, 3, 2, 0], &[0, 2, 3, 4], "6→5, 4, 3, 2→1"),
    (23, [&[], &[], &[3], &[], &[5], &[]], &[4, 2, 1, 0], &[0, 1, 2, 4], "6→5, 4→3, 2, 1"),
    (24, [&[], &[], &[], &[], &[5], &[]], &[4, 3, 2, 1, 0], &[0, 1, 2, 3, 4], "6→5, 4, 3, 2, 1"),
    (25, [&[], &[], &[3], &[], &[5], &[]], &[4, 2, 1, 0], &[0, 1, 2, 4], "6→5, 4→3, 2, 1"),
    (26, [&[], &[], &[], &[], &[5], &[]], &[4, 3, 2, 1, 0], &[0, 1, 2, 3, 4], "6→5, 4, 3, 2, 1"),
    (27, [&[], &[], &[], &[4], &[5], &[]], &[3, 2, 1, 0], &[0, 1, 2, 3], "6→5→4, 3, 2, 1"),
    (28, [&[], &[], &[], &[], &[5], &[]], &[4, 3, 2, 1, 0], &[0, 1, 2, 3, 4], "6→5, 4, 3, 2, 1"),
    (29, [&[], &[], &[], &[4], &[5], &[]], &[3, 2, 1, 0], &[0, 1, 2, 3], "6→5→4, 3, 2, 1"),
    (30, [&[], &[], &[], &[], &[5], &[]], &[4, 3, 2, 1, 0], &[0, 1, 2, 3, 4], "6→5, 4, 3, 2, 1"),
    (31, [&[], &[], &[], &[], &[], &[]], &[5, 4, 3, 2, 1, 0], &[0, 1, 2, 3, 4, 5], "6, 5, 4, 3, 2, 1 (additive)"),
];

#[test]
fn four_op_tables() {
    for (number, modulators, mix, carriers, description) in FOUR_OP {
        let alg = FmAlgorithm::from_u8(number);
        assert_eq!(alg.index(), number);
        for op in 0..4 {
            assert_eq!(alg.modulators(op), modulators[op]);
        }
        assert_eq!(alg.output_mix(), mix);
        assert_eq!(alg.carriers(), carriers);
        assert_eq!(alg.description(), description);
    }
}

#[test]
fn six_op_tables() {
    for (number, modulators, mix, carriers, description) in SIX_OP {
        let alg = Dx7Algorithm::from_u8(number);
        assert_eq!(alg.index(), number);
        for op in 0..6 {
            assert_eq!(alg.modulators(op), modulators[op]);
        }
        assert_eq!(alg.output_mix(), mix);
        assert_eq!(alg.carriers(), carriers);
        assert_eq!(alg.description(), description);
    }
}

#[test]
fn numbers_past_the_last_select_the_first_algorithm() {
    for number in 8..=255u8 {
        assert_eq!(FmAlgorithm::from_u8(number), FmAlgorithm::Algo1Serial);
    }
    for number in 32..=255u8 {
        assert_eq!(Dx7Algorithm::from_u8(number), Dx7Algorithm::Algo1);
    }
}

#[test]
fn algorithm_defaults() {
    assert_eq!(FmAlgorithm::default(), FmAlgorithm::Algo1Serial);
    assert_eq!(Dx7Algorithm::default(), Dx7Algorithm::Algo1);
    assert_eq!(FmAlgorithm2Op::default(), FmAlgorithm2Op::Stack);
}

#[test]
fn named_algorithms_have_their_numbers() {
    assert_eq!(FmAlgorithm::Algo1Serial.index(), 0);
    assert_eq!(FmAlgorithm::Algo4ThreeToOne.index(), 3);
    assert_eq!(FmAlgorithm::Algo8Additive.index(), 7);
    assert_eq!(Dx7Algorithm::Algo1.index(), 0);
    assert_eq!(Dx7Algorithm::Algo17.index(), 16);
    assert_eq!(Dx7Algorithm::Algo32.index(), 31);
    assert_eq!(FmAlgorithm::from_u8(5), FmAlgorithm::Algo6OneToThree);
    assert_eq!(Dx7Algorithm::from_u8(12), Dx7Algorithm::Algo13);
}

#[test]
fn serial_stack_chains_every_operator() {
    let alg = Dx7Algorithm::Algo1;
    assert_eq!(alg.modulators(0), &[1]);
    assert_eq!(alg.modulators(1), &[2]);
    assert_eq!(alg.modulators(2), &[3]);
    assert_eq!(alg.modulators(3), &[4]);
    assert_eq!(alg.modulators(4), &[5]);
    assert!(alg.modulators(5).is_empty());
    assert_eq!(alg.output_mix(), &[0]);
    assert_eq!(alg.carriers(), &[0]);
    assert_eq!(alg.description(), "6→5→4→3→2→1");
}

#[test]
fn additive_algorithms_have_no_modulation() {
    for op in 0..6 {
        assert!(Dx7Algorithm::Algo32.modulators(op).is_empty());
        assert_eq!(Dx7Algorithm::Algo32.modulation_divisor(op), 1);
    }
    assert_eq!(Dx7Algorithm::Algo32.output_mix(), &[5, 4, 3, 2, 1, 0]);
    for op in 0..4 {
        assert!(FmAlgorithm::Algo8Additive.modulators(op).is_empty());
    }
    assert_eq!(FmAlgorithm::Algo8Additive.output_mix(), &[0, 1, 2, 3]);
    assert_eq!(FmAlgorithm::Algo8Additive.description(), "4, 3, 2, 1 Additive");
}

#[test]
fn modulation_divisors() {
    // six operators: several modulators are averaged
    assert_eq!(Dx7Algorithm::Algo6.modulators(2), &[4, 3]);
    assert_eq!(Dx7Algorithm::Algo6.modulation_divisor(2), 2);
    assert_eq!(Dx7Algorithm::Algo9.modulators(1), &[4, 3, 2]);
    assert_eq!(Dx7Algorithm::Algo9.modulation_divisor(1), 3);
    assert_eq!(Dx7Algorithm::Algo1.modulation_divisor(0), 1);
    // four operators: two modulators at full depth, three at half
    assert_eq!(FmAlgorithm::Algo2Branch.modulators(1), &[3, 2]);
    assert_eq!(FmAlgorithm::Algo2Branch.modulation_divisor(1), 1);
    assert_eq!(FmAlgorithm::Algo4ThreeToOne.modulators(0), &[3, 2, 1]);
    assert_eq!(FmAlgorithm::Algo4ThreeToOne.modulation_divisor(0), 2);
    assert_eq!(FmAlgorithm::Algo1Serial.modulation_divisor(0), 1);
}

#[test]
fn six_op_divisor_is_the_number_of_modulators() {
    for number in 0..32u8 {
        let alg = Dx7Algorithm::from_u8(number);
        for op in 0..6 {
            let n = alg.modulators(op).len();
            assert_eq!(alg.modulation_divisor(op) as usize, if n == 0 { 1 } else { n });
        }
    }
}

#[test]
fn operator_indices_past_the_last_have_no_modulators() {
    for number in 0..32u8 {
        let alg = Dx7Algorithm::from_u8(number);
        for op in [6usize, 7, 100, usize::MAX] {
            assert!(alg.modulators(op).is_empty());
            assert_eq!(alg.modulation_divisor(op), 1);
        }
    }
    for number in 0..8u8 {
        let alg = FmAlgorithm::from_u8(number);
        for op in [4usize, 5, 100, usize::MAX] {
            assert!(alg.modulators(op).is_empty());
            assert_eq!(alg.modulation_divisor(op), 1);
        }
    }
}

#[test]
fn modulation_runs_from_later_to_earlier_operators() {
    for number in 0..32u8 {
        let alg = Dx7Algorithm::from_u8(number);
        for op in 0..6 {
            let sources = alg.modulators(op);
            for (k, &src) in sources.iter().enumerate() {
                assert!(op < src && src < 6);
                if k > 0 {
                    assert!(sources[k - 1] > src);
                }
            }
        }
    }
    for number in 0..8u8 {
        let alg = FmAlgorithm::from_u8(number);
        for op in 0..4 {
            let sources = alg.modulators(op);
            for (k, &src) in sources.iter().enumerate() {
                assert!(op < src && src < 4);
                if k > 0 {
                    assert!(sources[k - 1] > src);
                }
            }
        }
    }
}

#[test]
fn every_operator_is_heard() {
    for number in 0..32u8 {
        let alg = Dx7Algorithm::from_u8(number);
        for op in 0..6usize {
            let mixed = alg.output_mix().contains(&op);
            let modulates = (0..op).any(|dst| alg.modulators(dst).contains(&op));
            assert!(mixed || modulates);
        }
    }
    for number in 0..8u8 {
        let alg = FmAlgorithm::from_u8(number);
        for op in 0..4usize {
            let mixed = alg.output_mix().contains(&op);
            let modulates = (0..op).any(|dst| alg.modulators(dst).contains(&op));
            assert!(mixed || modulates);
        }
    }
}

#[test]
fn the_first_operator_is_always_heard_and_always_a_carrier() {
    for number in 0..32u8 {
        let alg = Dx7Algorithm::from_u8(number);
        assert_eq!(alg.carriers()[0], 0);
        assert_eq!(*alg.output_mix().last().unwrap(), 0);
        // the mix is the carriers, from the last down
        let mut mix = alg.output_mix().to_vec();
        mix.reverse();
        assert_eq!(mix, alg.carriers());
    }
    for number in 0..8u8 {
        let alg = FmAlgorithm::from_u8(number);
        assert_eq!(alg.carriers()[0], 0);
        assert_eq!(alg.output_mix(), alg.carriers());
    }
}

#[test]
fn carriers_modulate_nothing() {
    for number in 0..32u8 {
        let alg = Dx7Algorithm::from_u8(number);
        for &carrier in alg.carriers() {
            for dst in 0..6 {
                assert!(!alg.modulators(dst).contains(&carrier));
            }
        }
    }
    for number in 0..8u8 {
        let alg = FmAlgorithm::from_u8(number);
        for &carrier in alg.carriers() {
            for dst in 0..4 {
                assert!(!alg.modulators(dst).contains(&carrier));
            }
        }
    }
}

#[test]
fn carriers_of_some_six_op_algorithms() {
    assert_eq!(Dx7Algorithm::Algo1.carriers(), &[0]);
    assert_eq!(Dx7Algorithm::Algo2.carriers(), &[0, 1]);
    assert_eq!(Dx7Algorithm::Algo5.carriers(), &[0, 4]);
    assert_eq!(Dx7Algorithm::Algo13.carriers(), &[0]);
    assert_eq!(Dx7Algorithm::Algo19.carriers(), &[0, 2, 3, 4]);
    assert_eq!(Dx7Algorithm::Algo31.carriers(), &[0, 1, 2, 3, 4]);
    assert_eq!(Dx7Algorithm::Algo32.carriers(), &[0, 1, 2, 3, 4, 5]);
}

#[test]
fn averaging_the_mix_divides_by_its_size() {
    // the host adds the mixed operators up and divides by their number
    let outs: [f32; 6] = [0.5, -0.25, 0.125, 1.0, -1.0, 0.75];
    let mix = Dx7Algorithm::Algo17.output_mix();
    assert_eq!(mix, &[4, 2, 1, 0]);
    let mut sum = 0.0f32;
    for &op in mix {
        sum += outs[op];
    }
    assert_eq!(sum / mix.len() as f32, (-1.0 + 0.125 + -0.25 + 0.5) * 0.25);
}
