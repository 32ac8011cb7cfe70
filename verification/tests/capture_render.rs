use goose_dsp::capture::extract_channel;
use goose_dsp::meter::{isqrt, sample_magnitude, Level, FULL_SCALE};
use goose_dsp::render::{fill_block, measure_played, render_block};
use goose_dsp::stride::count_strides;

#[test]
fn count_strides_counts_positions_below_the_length() {
    assert_eq!(count_strides(0, 2, 0), 0);
    assert_eq!(count_strides(1, 2, 0), 1);
    assert_eq!(count_strides(1, 2, 1), 0);
    assert_eq!(count_strides(6, 2, 0), 3);
    assert_eq!(count_strides(6, 2, 1), 3);
    assert_eq!(count_strides(7, 2, 0), 4);
    assert_eq!(count_strides(7, 2, 1), 3);
    assert_eq!(count_strides(10, 3, 2), 3);
    assert_eq!(count_strides(usize::MAX, 1, 0), usize::MAX);
    assert_eq!(count_strides(usize::MAX, usize::MAX, 0), 1);
}

#[test]
fn extract_channel_splits_stereo_frames() {
    let data = [1, -2, 3, -4, 5, -6];
    assert_eq!(extract_channel(&data, 2, 0), vec![1, 3, 5]);
    assert_eq!(extract_channel(&data, 2, 1), vec![-2, -4, -6]);
}

#[test]
fn extract_channel_takes_what_a_cut_frame_still_holds() {
    let data = [10, 11, 20, 21, 30];
    assert_eq!(extract_channel(&data, 2, 0), vec![10, 20, 30]);
    assert_eq!(extract_channel(&data, 2, 1), vec![11, 21]);
}

#[test]
fn extract_channel_of_an_empty_buffer_is_empty() {
    let data: [i32; 0] = [];
    assert_eq!(extract_channel(&data, 2, 0), Vec::<i32>::new());
    assert_eq!(extract_channel(&data, 2, 1), Vec::<i32>::new());
}

#[test]
fn extract_channel_handles_other_channel_counts() {
    let data = [1, 2, 3, 4, 5, 6, 7, 8, 9];
    assert_eq!(extract_channel(&data, 1, 0), data.to_vec());
    assert_eq!(extract_channel(&data, 3, 2), vec![3, 6, 9]);
    assert_eq!(extract_channel(&data, 4, 3), vec![4, 8]);
    assert_eq!(extract_channel(&data, 20, 8), vec![9]);
    assert_eq!(extract_channel(&data, 20, 9), Vec::<i32>::new());
}

#[test]
fn extract_channel_keeps_silence_silent() {
    let data = [0; 64];
    assert_eq!(extract_channel(&data, 2, 1), vec![0; 32]);
}

#[test]
fn fill_block_copies_each_sample_to_both_channels() {
    let mut out = [9; 6];
    fill_block(&mut out, &[1, 2, 3], 2);
    assert_eq!(out, [1, 1, 2, 2, 3, 3]);
}

#[test]
fn fill_block_repeats_a_short_block() {
    let mut out = [0; 10];
    fill_block(&mut out, &[7, -8], 2);
    assert_eq!(out, [7, 7, -8, -8, 7, 7, -8, -8, 7, 7]);
}

#[test]
fn fill_block_uses_the_start_of_a_long_block() {
    let mut out = [0; 4];
    fill_block(&mut out, &[1, 2, 3, 4, 5], 2);
    assert_eq!(out, [1, 1, 2, 2]);
}

#[test]
fn fill_block_writes_a_cut_frame_too() {
    let mut out = [0; 5];
    fill_block(&mut out, &[4, 5, 6], 2);
    assert_eq!(out, [4, 4, 5, 5, 6]);
}

#[test]
fn fill_block_leaves_the_buffer_alone_without_a_block() {
    let mut out = [3, 1, 4, 1];
    fill_block(&mut out, &[], 2);
    assert_eq!(out, [3, 1, 4, 1]);
}

#[test]
fn render_block_without_a_block_gives_no_reading() {
    let mut out = [5, 5, 5, 5];
    assert_eq!(render_block(&mut out, &[], 2), None);
    assert_eq!(out, [5, 5, 5, 5]);
}

#[test]
fn render_block_meters_one_sample_per_frame() {
    let mut out = [0; 4];
    let level = render_block(&mut out, &[3, -4], 2);
    assert_eq!(out, [3, 3, -4, -4]);
    // energy 9 + 16 = 25 over two frames: mean 12, root 3
    assert_eq!(level, Some(Level { peak: 4, rms: 3 }));
}

#[test]
fn render_block_meters_the_repeated_frames() {
    let mut out = [0; 10];
    let level = render_block(&mut out, &[6, 8], 2);
    assert_eq!(out, [6, 6, 8, 8, 6, 6, 8, 8, 6, 6]);
    // five frames: 36 + 64 + 36 + 64 + 36 = 236, mean 47, root 6
    assert_eq!(level, Some(Level { peak: 8, rms: 6 }));
}

#[test]
fn render_block_of_silence_reads_zero() {
    let mut out = [1; 8];
    let level = render_block(&mut out, &[0, 0, 0, 0], 2);
    assert_eq!(out, [0; 8]);
    assert_eq!(level, Some(Level { peak: 0, rms: 0 }));
}

#[test]
fn render_block_into_an_empty_buffer_reads_zero() {
    let mut out: [i32; 0] = [];
    assert_eq!(render_block(&mut out, &[100, 200], 2), Some(Level { peak: 0, rms: 0 }));
}

#[test]
fn measure_played_of_a_constant_block_has_equal_peak_and_rms() {
    let level = measure_played(&[-1000, 1000], 7);
    assert_eq!(level, Level { peak: 1000, rms: 1000 });
    assert_eq!(level.value(), 1000);
}

#[test]
fn measure_played_at_full_scale_stays_within_full_scale() {
    let level = measure_played(&[i32::MIN], 4096);
    assert_eq!(level, Level { peak: 0x8000_0000, rms: 0x8000_0000 });
    assert_eq!(level.value(), FULL_SCALE);
    let level = measure_played(&[i32::MAX, i32::MIN], 3);
    assert_eq!(level.peak, 0x8000_0000);
    assert!(level.rms <= level.peak);
    assert_eq!(level.value(), level.peak);
}

#[test]
fn level_value_is_the_larger_of_peak_and_rms() {
    assert_eq!(Level { peak: 10, rms: 3 }.value(), 10);
    assert_eq!(Level { peak: 3, rms: 10 }.value(), 10);
    assert_eq!(Level { peak: 0, rms: 0 }.value(), 0);
}

#[test]
fn sample_magnitude_is_the_absolute_value() {
    assert_eq!(sample_magnitude(0), 0);
    assert_eq!(sample_magnitude(5), 5);
    assert_eq!(sample_magnitude(-5), 5);
    assert_eq!(sample_magnitude(i32::MAX), 0x7fff_ffff);
    assert_eq!(sample_magnitude(i32::MIN), 0x8000_0000);
}

#[test]
fn isqrt_rounds_down() {
    assert_eq!(isqrt(0), 0);
    assert_eq!(isqrt(1), 1);
    assert_eq!(isqrt(2), 1);
    assert_eq!(isqrt(3), 1);
    assert_eq!(isqrt(4), 2);
    assert_eq!(isqrt(15), 3);
    assert_eq!(isqrt(16), 4);
    assert_eq!(isqrt(17), 4);
    assert_eq!(isqrt(999_999), 999);
    assert_eq!(isqrt(1_000_000), 1000);
    assert_eq!(isqrt(0x4000_0000_0000_0000), 0x8000_0000);
    assert_eq!(isqrt(0x3fff_ffff_ffff_ffff), 0x7fff_ffff);
    assert_eq!(isqrt(u64::MAX), u32::MAX);
}

#[test]
fn isqrt_brackets_its_argument() {
    let mut x: u64 = 1;
    while x < 1 << 62 {
        let r = isqrt(x) as u128;
        assert!(r * r <= x as u128);
        assert!((x as u128) < (r + 1) * (r + 1));
        x = x * 3 + 1;
    }
}

#[test]
fn sine_block_is_captured_rendered_and_metered_within_full_scale() {
    // one channel of a 1 kHz sine at 44100 Hz, interleaved with a silent one
    let frames = 441;
    let mut data = Vec::new();
    for n in 0..frames {
        let phase = 2.0 * std::f64::consts::PI * 1000.0 * n as f64 / 44100.0;
        data.push((phase.sin() * i32::MAX as f64) as i32);
        data.push(0);
    }
    let left = extract_channel(&data, 2, 0);
    let right = extract_channel(&data, 2, 1);
    assert_eq!(left.len(), frames);
    assert_eq!(right, vec![0; frames]);
    let mut out = vec![0; 2 * frames];
    let level = render_block(&mut out, &left, 2).unwrap();
    assert_eq!(extract_channel(&out, 2, 0), left);
    assert_eq!(extract_channel(&out, 2, 1), left);
    assert!(level.peak as f64 / FULL_SCALE as f64 <= 1.0);
    assert!(level.rms < level.peak);
    // the root mean square of a sine is its peak over the square root of two
    let ratio = level.rms as f64 / level.peak as f64;
    assert!((ratio - 0.7071).abs() < 0.01);
    assert_eq!(level.value(), level.peak);
}
