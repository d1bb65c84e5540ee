use audia::spectrum::{analyze_spectrum, find_peak, peak_index, truncate_spectrum, SpectrumPoint};
use spectrum_analyzer::scaling::divide_by_N_sqrt;
use spectrum_analyzer::windows::hann_window;
use spectrum_analyzer::{samples_fft_to_spectrum, FrequencyLimit};

fn pt(freq: u32, amp: u32) -> SpectrumPoint {
    SpectrumPoint { freq, amp }
}

#[test]
fn peak_is_the_first_maximum() {
    let v = vec![pt(10, 5), pt(20, 9), pt(30, 9), pt(40, 2)];
    assert_eq!(peak_index(&v), Some(1));
    let p = find_peak(&v).unwrap();
    assert_eq!(p.freq, 20);
    assert_eq!(p.amp, 9);
}

#[test]
fn empty_spectrum_has_no_peak() {
    let v: Vec<SpectrumPoint> = Vec::new();
    assert_eq!(peak_index(&v), None);
    assert!(find_peak(&v).is_none());
}

#[test]
fn truncation_keeps_exactly_the_frequencies_within_the_limit() {
    let v = vec![pt(100, 1), pt(200, 2), pt(300, 3), pt(400, 4)];
    let kept = truncate_spectrum(&v, 300);
    assert_eq!(kept, vec![pt(100, 1), pt(200, 2), pt(300, 3)]);
    let none = truncate_spectrum(&v, 50);
    assert!(none.is_empty());
}

#[test]
fn analyze_spectrum_truncates_then_picks_the_peak() {
    let v = vec![pt(100, 1), pt(200, 9), pt(300, 3), pt(400, 99)];
    let (kept, peak) = analyze_spectrum(&v, 300);
    assert_eq!(kept.len(), 3);
    assert_eq!(peak.unwrap(), pt(200, 9));
}

fn sine(freq: f32, rate: u32, n: usize) -> Vec<f32> {
    (0..n)
        .map(|i| (2.0 * std::f32::consts::PI * freq * i as f32 / rate as f32).sin())
        .collect()
}

/// Run one analysis window through the Fourier stage exactly as the consumer
/// loop would, then encode the result for the library: the bit pattern of a
/// non-negative single-precision value is an order-preserving 32-bit encoding.
fn spectrum_points(samples: &[f32], rate: u32) -> Vec<SpectrumPoint> {
    let windowed = hann_window(samples);
    let spectrum =
        samples_fft_to_spectrum(&windowed, rate, FrequencyLimit::All, Some(&divide_by_N_sqrt))
            .unwrap();
    spectrum
        .data()
        .iter()
        .map(|(f, a)| SpectrumPoint { freq: f.val().to_bits(), amp: a.val().to_bits() })
        .collect()
}

#[test]
fn sine_440_at_44100_peaks_within_one_bin() {
    let samples = sine(440.0, 44100, 4096);
    let points = spectrum_points(&samples, 44100);
    let peak = find_peak(&points).unwrap();
    let freq = f32::from_bits(peak.freq);
    let bin = 44100.0 / 4096.0;
    assert!((freq - 440.0).abs() <= bin, "peak found at {} Hz", freq);
}

#[test]
fn sine_1000_at_48000_peaks_within_one_bin() {
    let samples = sine(1000.0, 48000, 2048);
    let points = spectrum_points(&samples, 48000);
    let peak = find_peak(&points).unwrap();
    let freq = f32::from_bits(peak.freq);
    let bin = 48000.0 / 2048.0;
    assert!((freq - 1000.0).abs() <= bin, "peak found at {} Hz", freq);
}

#[test]
fn two_tones_stay_as_local_maxima_under_the_limit() {
    let n: usize = 4096;
    let rate: u32 = 44100;
    let low = sine(440.0, rate, n);
    let high = sine(2000.0, rate, n);
    let mixed: Vec<f32> = low.iter().zip(high.iter()).map(|(x, y)| x + y).collect();
    let points = spectrum_points(&mixed, rate);
    let limit: f32 = 4000.0;
    let (kept, peak) = analyze_spectrum(&points, limit.to_bits());
    assert!(!kept.is_empty());
    for p in &kept {
        assert!(f32::from_bits(p.freq) <= limit);
    }
    let bin = rate as f32 / n as f32;
    let mut maxima: Vec<f32> = Vec::new();
    for i in 1..kept.len() - 1 {
        let amp = f32::from_bits(kept[i].amp);
        if amp > f32::from_bits(kept[i - 1].amp) && amp > f32::from_bits(kept[i + 1].amp) {
            maxima.push(f32::from_bits(kept[i].freq));
        }
    }
    assert!(
        maxima.iter().any(|f| (f - 440.0).abs() <= bin),
        "no local maximum near 440 Hz"
    );
    assert!(
        maxima.iter().any(|f| (f - 2000.0).abs() <= bin),
        "no local maximum near 2000 Hz"
    );
    let peak_freq = f32::from_bits(peak.unwrap().freq);
    assert!(
        (peak_freq - 440.0).abs() <= bin || (peak_freq - 2000.0).abs() <= bin,
        "global peak at {} Hz",
        peak_freq
    );
}
