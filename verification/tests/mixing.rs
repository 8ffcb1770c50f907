use pcm_mixer::{Control, Sample, Sound, OUTPUT_BIAS};

fn play<S: Sample>(sound: &mut Sound<S>, len: usize) -> Vec<u16> {
    let mut out = vec![0u16; len];
    sound.callback(&mut out);
    out
}

#[test]
fn it_works() {
    assert_eq!(2 + 2, 4);
}

#[test]
fn output_bias_is_the_16_bit_centre() {
    assert_eq!(OUTPUT_BIAS, 32768);
    assert_eq!(OUTPUT_BIAS, 1 << 15);
}

#[test]
fn centre_codes_mix_to_output_centre() {
    let mut sound: Sound<u8> = Sound::new(4);
    sound.set_data(0, &[128, 128, 128, 128]);
    sound.set_volume(7);
    sound.set_mute(false);
    assert_eq!(play(&mut sound, 4), vec![32768, 32768, 32768, 32768]);
}

#[test]
fn full_scale_16_bit_at_top_level() {
    let mut sound: Sound<u16> = Sound::new(1);
    sound.set_data(0, &[65535]);
    sound.set_volume(7);
    assert_eq!(play(&mut sound, 1), vec![65535]);
}

#[test]
fn muted_store_is_silent_whatever_it_holds() {
    let mut sound: Sound<u16> = Sound::new(3);
    sound.set_data(0, &[0, 65535, 12345]);
    sound.set_volume(7);
    sound.set_mute(true);
    assert_eq!(play(&mut sound, 5), vec![32768; 5]);

    let mut narrow: Sound<u8> = Sound::new(3);
    narrow.set_data(0, &[0, 255, 77]);
    narrow.set_volume(4);
    narrow.set_mute(true);
    assert_eq!(play(&mut narrow, 5), vec![32768; 5]);
}

#[test]
fn volume_zero_is_silent_whatever_the_store_holds() {
    let mut sound: Sound<u16> = Sound::new(3);
    sound.set_data(0, &[0, 65535, 12345]);
    sound.set_volume(0);
    assert_eq!(play(&mut sound, 4), vec![32768; 4]);

    let mut narrow: Sound<u8> = Sound::new(2);
    narrow.set_data(0, &[0, 255]);
    assert_eq!(narrow.volume(), 0);
    assert_eq!(play(&mut narrow, 4), vec![32768; 4]);
}

#[test]
fn unmuting_makes_the_store_audible_again() {
    let mut sound: Sound<u16> = Sound::new(2);
    sound.set_data(0, &[100, 200]);
    sound.set_volume(7);
    sound.set_mute(true);
    assert_eq!(play(&mut sound, 2), vec![32768, 32768]);
    sound.set_mute(false);
    assert_eq!(play(&mut sound, 2), vec![100, 200]);
}

#[test]
fn new_store_starts_neutral() {
    let mut sound: Sound<u16> = Sound::new(5);
    assert_eq!(sound.buf_size(), 5);
    assert_eq!(sound.volume(), 0);
    assert!(!sound.mute());
    assert_eq!(sound.current(), 0);
    assert_eq!(sound.called(), 0);
    sound.set_volume(7);
    assert_eq!(play(&mut sound, 5), vec![32768; 5]);

    let mut narrow: Sound<u8> = Sound::new(3);
    assert_eq!(narrow.buf_size(), 3);
    narrow.set_volume(7);
    assert_eq!(play(&mut narrow, 3), vec![32768; 3]);
}

#[test]
fn neutral_samples() {
    assert_eq!(<u8 as Sample>::neutral(), 128);
    assert_eq!(<u16 as Sample>::neutral(), 32768);
}

#[test]
fn setters_change_one_field() {
    let mut sound: Sound<u8> = Sound::new(2);
    sound.set_volume(5);
    assert_eq!(sound.volume(), 5);
    assert!(!sound.mute());
    sound.set_mute(true);
    assert!(sound.mute());
    assert_eq!(sound.volume(), 5);
    assert_eq!(sound.buf_size(), 2);
    assert_eq!(sound.current(), 0);
    assert_eq!(sound.called(), 0);
    sound.set_volume(65535);
    assert_eq!(sound.volume(), 65535);
}

#[test]
fn set_data_reads_back_in_order() {
    let mut sound: Sound<u16> = Sound::new(4);
    sound.set_data(0, &[10, 20, 30, 40]);
    sound.set_volume(7);
    assert_eq!(play(&mut sound, 4), vec![10, 20, 30, 40]);
}

#[test]
fn set_data_wraps_at_the_end_of_the_buffer() {
    let mut sound: Sound<u16> = Sound::new(4);
    sound.set_data(3, &[1, 2, 3]);
    sound.set_volume(7);
    // slots 3, 0 and 1 were written; slot 2 still holds the centre code
    assert_eq!(play(&mut sound, 4), vec![2, 3, 32768, 1]);
}

#[test]
fn set_data_takes_offset_modulo_length() {
    let mut sound: Sound<u16> = Sound::new(4);
    sound.set_data(6, &[7, 8]);
    sound.set_volume(7);
    assert_eq!(play(&mut sound, 4), vec![32768, 32768, 7, 8]);

    let mut other: Sound<u16> = Sound::new(3);
    other.set_data(usize::MAX, &[5, 6, 7]);
    other.set_volume(7);
    let first = usize::MAX % 3;
    let mut expected = vec![0u16; 3];
    expected[first] = 5;
    expected[(first + 1) % 3] = 6;
    expected[(first + 2) % 3] = 7;
    assert_eq!(play(&mut other, 3), expected);
}

#[test]
fn set_data_longer_than_buffer_keeps_last_write() {
    let mut sound: Sound<u16> = Sound::new(3);
    sound.set_data(1, &[1, 2, 3, 4, 5]);
    sound.set_volume(7);
    // indices 0..5 land on slots 1, 2, 0, 1, 2
    assert_eq!(play(&mut sound, 3), vec![3, 4, 5]);

    let mut single: Sound<u16> = Sound::new(1);
    single.set_data(0, &[1, 2]);
    single.set_volume(7);
    assert_eq!(play(&mut single, 1), vec![2]);
}

#[test]
fn set_data_of_nothing_changes_nothing() {
    let mut sound: Sound<u16> = Sound::new(2);
    sound.set_data(0, &[11, 22]);
    sound.set_data(1, &[]);
    sound.set_volume(7);
    assert_eq!(play(&mut sound, 2), vec![11, 22]);
    assert_eq!(sound.buf_size(), 2);
}

#[test]
fn set_data_leaves_counters_and_settings() {
    let mut sound: Sound<u8> = Sound::new(4);
    sound.set_volume(3);
    sound.set_mute(true);
    play(&mut sound, 6);
    sound.set_data(2, &[9, 9, 9]);
    assert_eq!(sound.current(), 6);
    assert_eq!(sound.called(), 1);
    assert_eq!(sound.volume(), 3);
    assert!(sound.mute());
    assert_eq!(sound.buf_size(), 4);
}

#[test]
fn empty_store_is_silent_and_takes_no_data() {
    let mut sound: Sound<u16> = Sound::new(0);
    assert_eq!(sound.buf_size(), 0);
    sound.set_data(5, &[1, 2, 3]);
    assert_eq!(sound.buf_size(), 0);
    sound.set_volume(7);
    assert_eq!(play(&mut sound, 3), vec![32768; 3]);
    assert_eq!(sound.current(), 3);
    assert_eq!(sound.called(), 1);
}

#[test]
fn counters_keep_step_with_the_callback() {
    let mut sound: Sound<u16> = Sound::new(3);
    sound.set_volume(7);
    play(&mut sound, 4);
    assert_eq!(sound.current(), 4);
    assert_eq!(sound.called(), 1);
    play(&mut sound, 0);
    assert_eq!(sound.current(), 4);
    assert_eq!(sound.called(), 2);
    play(&mut sound, 7);
    assert_eq!(sound.current(), 11);
    assert_eq!(sound.called(), 3);
    sound.set_mute(true);
    play(&mut sound, 2);
    assert_eq!(sound.current(), 13);
    assert_eq!(sound.called(), 4);
}

#[test]
fn cursor_wraps_across_periods() {
    let mut sound: Sound<u16> = Sound::new(3);
    sound.set_data(0, &[1, 2, 3]);
    sound.set_volume(7);
    assert_eq!(play(&mut sound, 2), vec![1, 2]);
    assert_eq!(play(&mut sound, 2), vec![3, 1]);
    assert_eq!(play(&mut sound, 5), vec![2, 3, 1, 2, 3]);
}

#[test]
fn muted_periods_still_move_the_cursor() {
    let mut sound: Sound<u16> = Sound::new(4);
    sound.set_data(0, &[1, 2, 3, 4]);
    sound.set_volume(7);
    sound.set_mute(true);
    play(&mut sound, 2);
    sound.set_mute(false);
    assert_eq!(play(&mut sound, 2), vec![3, 4]);
}

#[test]
fn data_written_mid_cycle_is_heard_at_its_slot() {
    let mut sound: Sound<u16> = Sound::new(4);
    sound.set_volume(7);
    play(&mut sound, 2);
    sound.set_data(0, &[1, 2, 3, 4]);
    assert_eq!(play(&mut sound, 4), vec![3, 4, 1, 2]);
}

#[test]
fn eight_bit_ladder_above_centre() {
    let expected = [32768u16, 32772, 32776, 32784, 32800, 32832, 32896, 33024];
    for volume in 0..8u16 {
        assert_eq!(129u8.scaled(volume), expected[volume as usize]);
    }
}

#[test]
fn eight_bit_ladder_below_centre() {
    let expected = [32768u16, 32764, 32760, 32752, 32736, 32704, 32640, 32512];
    for volume in 0..8u16 {
        assert_eq!(127u8.scaled(volume), expected[volume as usize]);
    }
}

#[test]
fn eight_bit_ladder_at_the_extremes() {
    assert_eq!(0u8.scaled(7), 0);
    assert_eq!(255u8.scaled(7), 65280);
    assert_eq!(0u8.scaled(1), 32256);
    assert_eq!(255u8.scaled(1), 33276);
    assert_eq!(0u8.scaled(6), 16384);
    assert_eq!(255u8.scaled(6), 49024);
}

#[test]
fn sixteen_bit_ladder_above_centre() {
    let raw: u16 = 32768 + 6400;
    let expected = [32768u16, 32868, 32968, 33168, 33568, 34368, 35968, 39168];
    for volume in 0..8u16 {
        assert_eq!(raw.scaled(volume), expected[volume as usize]);
    }
}

#[test]
fn sixteen_bit_ladder_below_centre() {
    let raw: u16 = 32768 - 6400;
    let expected = [32768u16, 32668, 32568, 32368, 31968, 31168, 29568, 26368];
    for volume in 0..8u16 {
        assert_eq!(raw.scaled(volume), expected[volume as usize]);
    }
}

#[test]
fn sixteen_bit_ladder_rounds_down() {
    // a deviation of -1 stays -1 under every shift
    for volume in 1..8u16 {
        assert_eq!(32767u16.scaled(volume), 32767);
    }
    // a deviation of +1 is lost under every shift
    for volume in 1..7u16 {
        assert_eq!(32769u16.scaled(volume), 32768);
    }
    assert_eq!(32769u16.scaled(7), 32769);
    // -65 / 64 rounds to -2
    assert_eq!((32768u16 - 65).scaled(1), 32766);
    assert_eq!((32768u16 + 65).scaled(1), 32769);
}

#[test]
fn sixteen_bit_ladder_at_the_extremes() {
    assert_eq!(0u16.scaled(7), 0);
    assert_eq!(65535u16.scaled(7), 65535);
    assert_eq!(0u16.scaled(1), 32256);
    assert_eq!(65535u16.scaled(1), 33279);
    assert_eq!(0u16.scaled(6), 16384);
    assert_eq!(65535u16.scaled(6), 49151);
}

#[test]
fn levels_above_seven_sound_like_seven() {
    for volume in [8u16, 9, 100, 65535] {
        assert_eq!(200u8.scaled(volume), 200u8.scaled(7));
        assert_eq!(3u8.scaled(volume), 3u8.scaled(7));
        assert_eq!(40000u16.scaled(volume), 40000);
        assert_eq!(123u16.scaled(volume), 123);
    }
    let mut sound: Sound<u8> = Sound::new(1);
    sound.set_data(0, &[129]);
    sound.set_volume(1000);
    assert_eq!(play(&mut sound, 1), vec![33024]);
}

#[test]
fn eight_bit_gain_grows_with_each_level() {
    for raw in [0u8, 1, 100, 127, 129, 200, 255] {
        let mut last: i32 = 0;
        for volume in 1..8u16 {
            let deviation = (raw.scaled(volume) as i32 - 32768).abs();
            assert!(deviation > last);
            last = deviation;
        }
    }
}

#[test]
fn sixteen_bit_gain_shrinks_with_each_level_down() {
    for raw in [0u16, 1, 20000, 32768 - 65, 32768 + 64, 50000, 65535] {
        let mut last: i32 = i32::MAX;
        for volume in (1..8u16).rev() {
            let deviation = (raw.scaled(volume) as i32 - 32768).abs();
            assert!(deviation < last);
            last = deviation;
        }
    }
    // small deviations reach their floor and stay there
    for raw in [32767u16, 32768, 32769] {
        let mut last: i32 = i32::MAX;
        for volume in (1..8u16).rev() {
            let deviation = (raw.scaled(volume) as i32 - 32768).abs();
            assert!(deviation <= last);
            last = deviation;
        }
    }
}

#[test]
fn every_sample_at_its_centre_is_silent_at_every_level() {
    for volume in 0..10u16 {
        assert_eq!(128u8.scaled(volume), 32768);
        assert_eq!(32768u16.scaled(volume), 32768);
    }
}

#[test]
fn sixteen_bit_pattern_plays_back_unchanged() {
    let pattern: Vec<u16> = vec![0, 1, 32767, 32768, 32769, 65534, 65535, 4242];
    let mut sound: Sound<u16> = Sound::new(pattern.len());
    sound.set_data(0, &pattern);
    sound.set_volume(7);
    assert_eq!(play(&mut sound, pattern.len()), pattern);
}

#[test]
fn eight_bit_pattern_plays_back_in_the_high_byte() {
    let pattern: Vec<u8> = vec![0, 1, 127, 128, 129, 254, 255, 42];
    let mut sound: Sound<u8> = Sound::new(pattern.len());
    sound.set_data(0, &pattern);
    sound.set_volume(7);
    let expected: Vec<u16> = pattern.iter().map(|&raw| raw as u16 * 256).collect();
    assert_eq!(play(&mut sound, pattern.len()), expected);
}

#[test]
fn store_mixes_through_the_ladder_of_its_width() {
    let mut wide: Sound<u16> = Sound::new(2);
    wide.set_data(0, &[32768 + 640, 32768 - 640]);
    wide.set_volume(1);
    assert_eq!(play(&mut wide, 2), vec![32778, 32758]);
    wide.set_volume(4);
    assert_eq!(play(&mut wide, 2), vec![32848, 32688]);

    let mut narrow: Sound<u8> = Sound::new(2);
    narrow.set_data(0, &[138, 118]);
    narrow.set_volume(1);
    assert_eq!(play(&mut narrow, 2), vec![32808, 32728]);
    narrow.set_volume(4);
    assert_eq!(play(&mut narrow, 2), vec![33088, 32448]);
}

#[test]
fn empty_period_only_counts() {
    let mut sound: Sound<u8> = Sound::new(2);
    let mut out: [u16; 0] = [];
    sound.callback(&mut out);
    assert_eq!(sound.current(), 0);
    assert_eq!(sound.called(), 1);
}
