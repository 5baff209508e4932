use atc_capture::pipeline::{needs_resampling, stage_block, start_capture_buffer};
use rubato::{
    Resampler, SincFixedIn, SincInterpolationParameters, SincInterpolationType, WindowFunction,
};

const SINC_LEN: usize = 256;

fn interpolation_parameters() -> SincInterpolationParameters {
    SincInterpolationParameters {
        sinc_len: SINC_LEN,
        f_cutoff: 0.95,
        interpolation: SincInterpolationType::Linear,
        oversampling_factor: 256,
        window: WindowFunction::BlackmanHarris2,
    }
}

#[test]
fn resample_identity_keeps_sample_count() {
    // Ratio 1.0: the converter must return a block of (close to) the input
    // length; the only shortfall allowed is the interpolation kernel's latency.
    let chunk = 4096usize;
    let mut resampler =
        SincFixedIn::<f32>::new(1.0, 2.0, interpolation_parameters(), chunk, 1).unwrap();
    let wave_in = vec![vec![0.25f32; chunk]];
    let wave_out = resampler.process(&wave_in, None).unwrap();
    assert_eq!(wave_out.len(), 1);
    let out_len = wave_out[0].len();
    assert!(
        out_len <= chunk + 1 && out_len + SINC_LEN >= chunk,
        "identity resample returned {} samples for {} input samples",
        out_len,
        chunk
    );
}

#[test]
fn end_to_end_48k_tone_reaches_buffer() {
    // One second at 48 kHz, resampled to the 16 kHz target, then staged into
    // the capture buffer: everything the converter produces is accepted.
    let input_rate = 48000u32;
    assert!(needs_resampling(input_rate));

    let ratio = 16000.0f64 / input_rate as f64;
    let chunk = input_rate as usize;
    let mut resampler =
        SincFixedIn::<f32>::new(ratio, 2.0, interpolation_parameters(), chunk, 1).unwrap();
    let tone: Vec<f32> = (0..chunk)
        .map(|i| (2.0 * std::f32::consts::PI * 440.0 * i as f32 / input_rate as f32).sin())
        .collect();
    let wave_out = resampler.process(&[tone], None).unwrap();
    let out_len = wave_out[0].len();
    assert!(
        out_len <= 16000 + 1 && out_len + SINC_LEN >= 16000,
        "converter returned {} samples, expected about 16000",
        out_len
    );

    let bits: Vec<u32> = wave_out[0].iter().map(|s| s.to_bits()).collect();
    let mut buffer = start_capture_buffer();
    let report = stage_block(&mut buffer, &bits);
    assert_eq!(report.accepted, bits.len());
    assert_eq!(report.dropped, 0);

    // The cushion drains first, then the converted tone, in order.
    let cushion = buffer.read(32000);
    assert!(cushion.iter().all(|&w| w == 0));
    let audio = buffer.read(out_len);
    assert_eq!(audio, bits);
}
