use image_classify::score::{argmax, rank_of, INFINITY_BITS, SIGN_BIT};

fn bits(values: &[f32]) -> Vec<u32> {
    values.iter().map(|v| v.to_bits()).collect()
}

#[test]
fn argmax_of_three_scores_is_the_middle_one() {
    let scores = bits(&[0.1, 0.9, 0.05]);
    assert_eq!(argmax(&scores), Some(1));
}

#[test]
fn argmax_of_nothing_is_none() {
    let scores: Vec<u32> = Vec::new();
    assert_eq!(argmax(&scores), None);
}

#[test]
fn argmax_of_one_score_is_zero() {
    assert_eq!(argmax(&bits(&[-3.5])), Some(0));
    assert_eq!(argmax(&bits(&[f32::NAN])), Some(0));
}

#[test]
fn argmax_takes_the_first_of_equal_maxima() {
    assert_eq!(argmax(&bits(&[0.25, 0.75, 0.75, 0.5])), Some(1));
    assert_eq!(argmax(&bits(&[2.0, 2.0, 2.0])), Some(0));
}

#[test]
fn argmax_finds_the_last_position() {
    assert_eq!(argmax(&bits(&[0.0, 0.1, 0.2, 0.3])), Some(3));
}

#[test]
fn argmax_orders_negative_scores() {
    assert_eq!(argmax(&bits(&[-2.0, -0.5, -1.0])), Some(1));
    assert_eq!(argmax(&bits(&[-1.0e-30, -1.0e30])), Some(0));
    assert_eq!(argmax(&bits(&[-1.0, 0.0, -2.0])), Some(1));
}

#[test]
fn argmax_takes_the_two_zeros_as_equal() {
    assert_eq!(argmax(&bits(&[-0.0, 0.0])), Some(0));
    assert_eq!(argmax(&bits(&[0.0, -0.0])), Some(0));
    assert_eq!(argmax(&bits(&[-1.0, -0.0, 0.0])), Some(1));
}

#[test]
fn argmax_knows_the_infinities() {
    assert_eq!(argmax(&bits(&[1.0e38, f32::INFINITY, f32::MAX])), Some(1));
    assert_eq!(argmax(&bits(&[f32::NEG_INFINITY, f32::MIN])), Some(1));
    assert_eq!(argmax(&bits(&[f32::NEG_INFINITY, f32::NEG_INFINITY])), Some(0));
}

#[test]
fn argmax_passes_over_nan() {
    assert_eq!(argmax(&bits(&[f32::NAN, 0.5, 0.25])), Some(1));
    assert_eq!(argmax(&bits(&[0.5, f32::NAN, 0.75])), Some(2));
    assert_eq!(argmax(&bits(&[f32::NAN, f32::NEG_INFINITY])), Some(1));
    assert_eq!(argmax(&bits(&[f32::NAN, f32::NAN])), Some(0));
    assert_eq!(argmax(&bits(&[-f32::NAN, 1.0])), Some(1));
}

#[test]
fn argmax_gives_the_same_index_every_time() {
    let scores = bits(&[0.3, 0.1, 0.7, 0.7, 0.2]);
    let first = argmax(&scores);
    for _ in 0..10 {
        assert_eq!(argmax(&scores), first);
    }
    assert_eq!(first, Some(2));
}

#[test]
fn argmax_of_a_thousand_scores() {
    let mut values: Vec<f32> = (0..1000).map(|i| (i % 37) as f32 / 100.0).collect();
    values[611] = 0.99;
    assert_eq!(argmax(&bits(&values)), Some(611));
}

#[test]
fn rank_of_known_patterns() {
    assert_eq!(rank_of(0), 0);
    assert_eq!(rank_of(SIGN_BIT), 0);
    assert_eq!(rank_of(1.0f32.to_bits()), 0x3f80_0000);
    assert_eq!(rank_of((-1.0f32).to_bits()), -0x3f80_0000);
    assert_eq!(rank_of(INFINITY_BITS), 0x7f80_0000);
    assert_eq!(rank_of(f32::NEG_INFINITY.to_bits()), -0x7f80_0000);
    assert_eq!(rank_of(0x7f80_0001), -0x7f80_0001);
    assert_eq!(rank_of(0x7fc0_0000), -0x7f80_0001);
    assert_eq!(rank_of(0xffff_ffff), -0x7f80_0001);
    assert_eq!(rank_of(f32::MAX.to_bits()), 0x7f7f_ffff);
    assert_eq!(rank_of(1), 1);
    assert_eq!(rank_of(0x8000_0001), -1);
}

#[test]
fn rank_orders_as_the_numbers_do() {
    let values: [f32; 17] = [
        f32::NEG_INFINITY,
        f32::MIN,
        -1.0e10,
        -2.0,
        -1.0,
        -0.5,
        -f32::MIN_POSITIVE,
        -1.0e-45,
        0.0,
        1.0e-45,
        f32::MIN_POSITIVE,
        0.05,
        0.1,
        0.9,
        1.0,
        f32::MAX,
        f32::INFINITY,
    ];
    for a in values.iter() {
        for b in values.iter() {
            let ra = rank_of(a.to_bits());
            let rb = rank_of(b.to_bits());
            assert_eq!(a < b, ra < rb);
            assert_eq!(a == b, ra == rb);
        }
    }
    assert_eq!(rank_of((-0.0f32).to_bits()), rank_of(0.0f32.to_bits()));
}

#[test]
fn rank_puts_nan_below_every_number() {
    let nan = rank_of(f32::NAN.to_bits());
    assert!(nan < rank_of(f32::NEG_INFINITY.to_bits()));
    assert!(nan < rank_of(0.0f32.to_bits()));
    assert_eq!(nan, rank_of((-f32::NAN).to_bits()));
}
