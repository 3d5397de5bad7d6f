use mlx_rs::dtype::Dtype;
use mlx_rs::metal::{capture_path_arg, metallib_path_arg};
use mlx_rs::utils::optional::{optional_bool, optional_dtype, optional_float, optional_int};
use mlx_rs::utils::CText;

#[test]
fn optional_values_carry_presence_flag() {
    let d = optional_dtype(Some(Dtype::Bfloat16));
    assert!(d.has_value);
    assert_eq!(d.value, Dtype::Bfloat16);
    let d = optional_dtype(None);
    assert!(!d.has_value);
    assert_eq!(d.value, Dtype::Float32);

    let b = optional_bool(Some(true));
    assert!(b.has_value && b.value);
    let b = optional_bool(None);
    assert!(!b.has_value && !b.value);

    let i = optional_int(Some(-3), 7);
    assert!(i.has_value);
    assert_eq!(i.value, -3);
    let i = optional_int(None, 7);
    assert!(!i.has_value);
    assert_eq!(i.value, 7);
}

#[test]
fn c_text_rejects_only_nul() {
    assert!(CText::new("\0").is_none());
    assert!(CText::new("abc\0").is_none());
    assert_eq!(CText::new("naïve").unwrap().as_bytes(), "naïve".as_bytes());
    assert_eq!(CText::new("").unwrap().as_bytes(), b"");
}

#[test]
fn metal_paths_must_be_c_strings() {
    assert_eq!(
        metallib_path_arg("/tmp/some-metallib-path").unwrap().as_bytes(),
        b"/tmp/some-metallib-path"
    );
    assert_eq!(metallib_path_arg("/tmp/a\0b").unwrap_err().what(), "Invalid metallib path");
    assert_eq!(capture_path_arg("/tmp/t.gputrace").unwrap().as_bytes(), b"/tmp/t.gputrace");
    assert_eq!(capture_path_arg("\0").unwrap_err().what(), "Invalid capture path");
}

#[test]
fn optional_float_defaults_to_zero() {
    let f = optional_float(Some(10000.0f32.to_bits()));
    assert!(f.has_value);
    assert_eq!(f32::from_bits(f.value_bits), 10000.0);
    let f = optional_float(None);
    assert!(!f.has_value);
    assert_eq!(f32::from_bits(f.value_bits), 0.0);
}
