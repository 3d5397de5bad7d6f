use mlx_rs::error::Exception;
use mlx_rs::fft::{fftfreq_bins, rfftfreq_bins};

/// Sample frequencies: the frequency bins of a window divided by `d * n`, as 32-bit floats.
struct Frequencies {
    bins: Vec<i32>,
    scale: f64,
}

impl Frequencies {
    fn shape(&self) -> Vec<i32> {
        vec![self.bins.len() as i32]
    }

    fn as_slice<T: From<f32>>(&self) -> Vec<T> {
        self.bins
            .iter()
            .map(|&k| T::from((k as f64 / self.scale) as f32))
            .collect()
    }
}

fn fftfreq(n: i32, d: impl Into<Option<f64>>) -> Result<Frequencies, Exception> {
    let d = d.into().unwrap_or(1.0);
    let bins = fftfreq_bins(n, d.to_bits())?;
    Ok(Frequencies { bins, scale: n as f64 * d })
}

fn rfftfreq(n: i32, d: impl Into<Option<f64>>) -> Result<Frequencies, Exception> {
    let d = d.into().unwrap_or(1.0);
    let bins = rfftfreq_bins(n, d.to_bits())?;
    Ok(Frequencies { bins, scale: n as f64 * d })
}

#[test]
fn test_fftfreq() {
    let freqs = fftfreq(4, None).unwrap();
    assert_eq!(freqs.shape(), &[4]);
    assert_eq!(freqs.as_slice::<f32>(), &[0.0, 0.25, -0.5, -0.25]);

    let odd = fftfreq(5, None).unwrap();
    assert_eq!(odd.shape(), &[5]);

    let scaled = fftfreq(4, 0.5).unwrap();
    assert_eq!(scaled.as_slice::<f32>(), &[0.0, 0.5, -1.0, -0.5]);
}

#[test]
fn test_fftfreq_invalid() {
    assert!(fftfreq(0, None).is_err());
    assert!(fftfreq(4, 0.0).is_err());
}

#[test]
fn test_rfftfreq() {
    let freqs = rfftfreq(4, None).unwrap();
    assert_eq!(freqs.shape(), &[3]);
    assert_eq!(freqs.as_slice::<f32>(), &[0.0, 0.25, 0.5]);

    let scaled = rfftfreq(4, 0.5).unwrap();
    assert_eq!(scaled.as_slice::<f32>(), &[0.0, 0.5, 1.0]);
}

#[test]
fn test_rfftfreq_invalid() {
    assert!(rfftfreq(0, None).is_err());
    assert!(rfftfreq(4, 0.0).is_err());
}

#[test]
fn fftfreq_bins_even_and_odd_windows() {
    assert_eq!(fftfreq_bins(4, 1.0f64.to_bits()).unwrap(), vec![0, 1, -2, -1]);
    assert_eq!(fftfreq_bins(5, 1.0f64.to_bits()).unwrap(), vec![0, 1, 2, -2, -1]);
    assert_eq!(fftfreq_bins(1, 1.0f64.to_bits()).unwrap(), vec![0]);
}

#[test]
fn rfftfreq_bins_even_and_odd_windows() {
    assert_eq!(rfftfreq_bins(4, 1.0f64.to_bits()).unwrap(), vec![0, 1, 2]);
    assert_eq!(rfftfreq_bins(5, 1.0f64.to_bits()).unwrap(), vec![0, 1, 2]);
    assert_eq!(rfftfreq_bins(1, 1.0f64.to_bits()).unwrap(), vec![0]);
}

#[test]
fn fftfreq_errors_name_the_failing_argument() {
    // The window size is checked first.
    let e = fftfreq_bins(-3, 0.0f64.to_bits()).unwrap_err();
    assert_eq!(e.what(), "[fftfreq] n must be greater than 0");
    let e = fftfreq_bins(3, (-0.0f64).to_bits()).unwrap_err();
    assert_eq!(e.what(), "[fftfreq] d must be non-zero");
    let e = rfftfreq_bins(0, 2.0f64.to_bits()).unwrap_err();
    assert_eq!(e.what(), "[rfftfreq] n must be greater than 0");
    let e = rfftfreq_bins(8, 0.0f64.to_bits()).unwrap_err();
    assert_eq!(e.what(), "[rfftfreq] d must be non-zero");
}

#[test]
fn negative_spacing_is_accepted() {
    let freqs = fftfreq(4, -1.0).unwrap();
    assert_eq!(freqs.as_slice::<f32>(), &[0.0, -0.25, 0.5, 0.25]);
}

#[test]
fn nonnegative_fftfreq_bins_start_rfftfreq_bins() {
    // Law on concrete values: the first (n + 1) / 2 bins agree, and rfftfreq's last bin of an
    // even window is the magnitude of fftfreq's most negative one.
    let n = 6;
    let full = fftfreq_bins(n, 1.0f64.to_bits()).unwrap();
    let half = rfftfreq_bins(n, 1.0f64.to_bits()).unwrap();
    assert_eq!(&full[..3], &half[..3]);
    assert_eq!(half[3], -full[3]);
}
