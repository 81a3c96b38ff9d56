use voice_chat::pcm::{
    pcm_to_sample, pcm_to_samples, sample_to_pcm, samples_to_pcm, PCM_MAX, PCM_MIN, PCM_RANGE,
    PCM_SCALE,
};

fn convert(sample: f32) -> i16 {
    sample_to_pcm(sample.to_bits())
}

/// The product of a sample and the scale factor is exact in double
/// precision, so this is the conversion as the reals have it.
fn expected(sample: f32) -> i16 {
    if sample.is_nan() {
        return 0;
    }
    let scaled = (sample as f64 * PCM_SCALE as f64).round();
    if scaled > 32767.0 {
        32767
    } else if scaled < -32768.0 {
        -32768
    } else {
        scaled as i16
    }
}

#[test]
fn conversion_saturates_at_twice_the_range() {
    assert_eq!(convert(2.0), 32767);
    assert_eq!(convert(-2.0), -32768);
    assert_eq!(convert(2.0), PCM_MAX);
    assert_eq!(convert(-2.0), PCM_MIN);
    assert_eq!(convert(2.0), i16::MAX);
    assert_eq!(convert(-2.0), i16::MIN);
}

#[test]
fn conversion_saturates_far_beyond_the_range() {
    assert_eq!(convert(1.0e10), 32767);
    assert_eq!(convert(-1.0e10), -32768);
    assert_eq!(convert(f32::MAX), 32767);
    assert_eq!(convert(f32::MIN), -32768);
    assert_eq!(convert(f32::INFINITY), 32767);
    assert_eq!(convert(f32::NEG_INFINITY), -32768);
    assert_eq!(convert(8388608.0), 32767);
    assert_eq!(convert(-16777216.0), -32768);
}

#[test]
fn conversion_saturates_just_beyond_the_range() {
    assert_eq!(convert(1.0), 32767);
    assert_eq!(convert(1.000_02), 32767);
    assert_eq!(convert(1.000_1), 32767);
    assert_eq!(convert(-1.0), -32767);
    assert_eq!(convert(-1.000_02), -32768);
    assert_eq!(convert(-1.000_1), -32768);
    assert_eq!(convert(-1.5), -32768);
    assert_eq!(convert(1.5), 32767);
}

#[test]
fn conversion_scales_and_rounds_within_the_range() {
    assert_eq!(convert(0.0), 0);
    assert_eq!(convert(-0.0), 0);
    assert_eq!(convert(0.25), 8192);
    assert_eq!(convert(-0.25), -8192);
    assert_eq!(convert(0.1), 3277);
    assert_eq!(convert(-0.1), -3277);
    assert_eq!(convert(0.75), 24575);
    assert_eq!(convert(1.0 / 32767.0), 1);
    assert_eq!(convert(0.000_01), 0);
    assert_eq!(convert(0.000_02), 1);
}

#[test]
fn conversion_rounds_ties_away_from_zero() {
    assert_eq!(convert(0.5), 16384);
    assert_eq!(convert(-0.5), -16384);
    assert_eq!(0.5f64 * 32767.0, 16383.5);
    assert_eq!(convert(0.125), 4096);
    assert_eq!(convert(-0.125), -4096);
    assert_eq!(0.125f64 * 32767.0, 4095.875);
    assert_eq!(convert(1.5 / 32767.0), expected(1.5 / 32767.0));
}

#[test]
fn what_is_not_a_number_converts_to_zero() {
    assert_eq!(convert(f32::NAN), 0);
    assert_eq!(sample_to_pcm(0x7fc0_0000), 0);
    assert_eq!(sample_to_pcm(0xffc0_0000), 0);
    assert_eq!(sample_to_pcm(0x7f80_0001), 0);
    assert_eq!(sample_to_pcm(0xffff_ffff), 0);
}

#[test]
fn the_smallest_samples_convert_to_zero() {
    assert_eq!(sample_to_pcm(1), 0);
    assert_eq!(sample_to_pcm(0x8000_0001), 0);
    assert_eq!(sample_to_pcm(0x007f_ffff), 0);
    assert_eq!(convert(f32::MIN_POSITIVE), 0);
    assert_eq!(convert(-f32::MIN_POSITIVE), 0);
    assert_eq!(convert(f32::EPSILON), 0);
}

#[test]
fn conversion_agrees_with_exact_arithmetic_on_a_sweep_of_all_bit_patterns() {
    let mut bits: u32 = 0;
    let mut checked = 0u32;
    loop {
        let sample = f32::from_bits(bits);
        assert_eq!(sample_to_pcm(bits), expected(sample), "sample {sample:e} ({bits:#010x})");
        checked += 1;
        match bits.checked_add(7919) {
            Some(next) => bits = next,
            None => break,
        }
    }
    assert!(checked > 500_000);
}

#[test]
fn conversion_agrees_with_exact_arithmetic_near_every_pcm_step() {
    for step in -33000i32..=33000 {
        for offset in [-0.5f64, -0.25, 0.0, 0.25, 0.5] {
            let sample = ((step as f64 + offset) / 32767.0) as f32;
            for bits in [sample.to_bits().wrapping_sub(1), sample.to_bits(), sample.to_bits() + 1] {
                assert_eq!(
                    sample_to_pcm(bits),
                    expected(f32::from_bits(bits)),
                    "sample {:e}",
                    f32::from_bits(bits)
                );
            }
        }
    }
}

#[test]
fn conversion_never_decreases_as_the_sample_grows() {
    let mut last = convert(-3.0);
    let mut sample = -3.0f32;
    while sample <= 3.0 {
        let pcm = convert(sample);
        assert!(pcm >= last, "{sample} gave {pcm} after {last}");
        last = pcm;
        sample += 0.000_37;
    }
    assert_eq!(last, 32767);
}

#[test]
fn a_whole_buffer_is_converted_sample_by_sample() {
    let samples = [0.0f32, 1.0, -1.0, 2.0, -2.0, 0.5];
    let bits: Vec<u32> = samples.iter().map(|s| s.to_bits()).collect();
    assert_eq!(samples_to_pcm(&bits), vec![0, 32767, -32767, 32767, -32768, 16384]);
    assert_eq!(samples_to_pcm(&[]), Vec::<i16>::new());
}

#[test]
fn every_pcm_value_becomes_the_sample_of_its_fraction_of_the_range() {
    for pcm in i16::MIN..=i16::MAX {
        let sample = f32::from_bits(pcm_to_sample(pcm));
        assert_eq!(sample, pcm as f32 / 32768.0);
        assert_eq!(sample as f64, pcm as f64 / PCM_RANGE as f64);
    }
}

#[test]
fn landmarks_of_the_way_back() {
    assert_eq!(pcm_to_sample(0), 0);
    assert_eq!(f32::from_bits(pcm_to_sample(0)), 0.0);
    assert_eq!(pcm_to_sample(i16::MIN), (-1.0f32).to_bits());
    assert_eq!(pcm_to_sample(16384), 0.5f32.to_bits());
    assert_eq!(pcm_to_sample(-16384), (-0.5f32).to_bits());
    assert_eq!(pcm_to_sample(8192), 0x3e80_0000);
    assert_eq!(pcm_to_sample(1), 0x3800_0000);
    assert_eq!(f32::from_bits(pcm_to_sample(i16::MAX)), 0.999_969_5);
}

#[test]
fn a_buffer_of_pcm_is_converted_value_by_value() {
    let samples: Vec<f32> =
        pcm_to_samples(&[0, 16384, -16384, -32768]).into_iter().map(f32::from_bits).collect();
    assert_eq!(samples, vec![0.0, 0.5, -0.5, -1.0]);
    assert_eq!(pcm_to_samples(&[]), Vec::<u32>::new());
}

#[test]
fn silence_stays_silence_both_ways() {
    let silent = vec![0.0f32.to_bits(); 480];
    let pcm = samples_to_pcm(&silent);
    assert_eq!(pcm, vec![0i16; 480]);
    let back: Vec<f32> = pcm_to_samples(&pcm).into_iter().map(f32::from_bits).collect();
    assert!(back.iter().all(|&s| s == 0.0));
    assert_eq!(back.len(), 480);
}

#[test]
fn converting_there_and_back_stays_within_one_step() {
    for pcm in i16::MIN..=i16::MAX {
        let back = sample_to_pcm(pcm_to_sample(pcm)) as i32;
        assert!((back - pcm as i32).abs() <= 1, "{pcm} came back as {back}");
    }
    assert_eq!(sample_to_pcm(pcm_to_sample(1000)), 1000);
    assert_eq!(sample_to_pcm(pcm_to_sample(-12)), -12);
    assert_eq!(sample_to_pcm(pcm_to_sample(i16::MAX)), 32766);
    assert_eq!(sample_to_pcm(pcm_to_sample(i16::MIN)), -32767);
}
