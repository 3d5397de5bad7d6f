use mlx_rs::dtype::Dtype;
use mlx_rs::error::Exception;
use mlx_rs::fast::{
    attention_mode_and_mask, cstring, last_mlx_error, MetalKernel, MetalKernelBuilder,
    MetalKernelConfig, ScaledDotProductAttentionMask, TemplateArg, VectorString,
};

const EXP_SOURCE: &str = "uint elem = thread_position_in_grid.x;\
                          T tmp = inp[elem];\
                          out[elem] = metal::exp(tmp);";

fn names(v: &VectorString) -> Vec<Vec<u8>> {
    v.as_slice().iter().map(|t| t.as_bytes().to_vec()).collect()
}

#[test]
fn builder_defaults_match_mlx() {
    let kernel = MetalKernel::builder("myexp", EXP_SOURCE).build().unwrap();
    assert_eq!(kernel.name().as_bytes(), b"myexp");
    assert_eq!(kernel.source().as_bytes(), EXP_SOURCE.as_bytes());
    assert_eq!(kernel.header().as_bytes(), b"");
    assert!(names(kernel.input_names()).is_empty());
    assert!(names(kernel.output_names()).is_empty());
    assert!(kernel.ensures_row_contiguous());
    assert!(!kernel.has_atomic_outputs());
}

#[test]
fn builder_records_every_setting() {
    let kernel = MetalKernelBuilder::new("k", "out[0] = inp[0];")
        .input_names(&["inp", "scale"])
        .output_names(&["out"])
        .header("#include <metal_stdlib>")
        .ensure_row_contiguous(false)
        .atomic_outputs(true)
        .build()
        .unwrap();
    assert_eq!(names(kernel.input_names()), vec![b"inp".to_vec(), b"scale".to_vec()]);
    assert_eq!(names(kernel.output_names()), vec![b"out".to_vec()]);
    assert_eq!(kernel.header().as_bytes(), b"#include <metal_stdlib>");
    assert!(!kernel.ensures_row_contiguous());
    assert!(kernel.has_atomic_outputs());
}

#[test]
fn later_setting_replaces_earlier_one() {
    let kernel = MetalKernel::builder("k", "")
        .input_names(&["a"])
        .input_names(&["b", "c"])
        .atomic_outputs(true)
        .atomic_outputs(false)
        .build()
        .unwrap();
    assert_eq!(names(kernel.input_names()), vec![b"b".to_vec(), b"c".to_vec()]);
    assert!(!kernel.has_atomic_outputs());
}

#[test]
fn build_rejects_nul_in_any_text() {
    let msg = "string contains an interior nul byte";
    let e = MetalKernel::builder("bad\0name", "").build().unwrap_err();
    assert_eq!(e.what(), msg);
    let e = MetalKernel::builder("k", "src\0").build().unwrap_err();
    assert_eq!(e.what(), msg);
    let e = MetalKernel::builder("k", "").header("\0").build().unwrap_err();
    assert_eq!(e.what(), msg);
    let e = MetalKernel::builder("k", "").input_names(&["ok", "b\0d"]).build().unwrap_err();
    assert_eq!(e.what(), msg);
    let e = MetalKernel::builder("k", "").output_names(&["\0"]).build().unwrap_err();
    assert_eq!(e.what(), msg);
}

#[test]
fn cstring_keeps_utf8_bytes() {
    let t = cstring("exp→ü").unwrap();
    assert_eq!(t.as_bytes(), "exp→ü".as_bytes());
    assert!(cstring("a\0b").is_err());
    assert_eq!(cstring("").unwrap().as_bytes(), b"");
}

#[test]
fn vector_string_keeps_order() {
    let v = VectorString::try_from_iter(&["x", "y", "z"]).unwrap();
    assert_eq!(names(&v), vec![b"x".to_vec(), b"y".to_vec(), b"z".to_vec()]);
    assert!(VectorString::try_from_iter(&["x", "\0"]).is_err());
    assert!(names(&VectorString::try_from_iter(&[]).unwrap()).is_empty());
}

#[test]
fn last_mlx_error_prefers_recorded_message() {
    let recorded = Exception::custom("[metal_kernel] compile failed");
    assert_eq!(
        last_mlx_error(Some(recorded), "failed to build metal kernel").what(),
        "[metal_kernel] compile failed"
    );
    assert_eq!(
        last_mlx_error(None, "failed to build metal kernel").what(),
        "failed to build metal kernel"
    );
}

#[test]
fn config_records_launch_parameters_in_order() {
    let config = MetalKernelConfig::new()
        .template_arg_dtype("T", Dtype::Float32)
        .unwrap()
        .template_arg_int("N", 16)
        .unwrap()
        .template_arg_bool("FAST", true)
        .unwrap()
        .grid(64, 1, 1)
        .unwrap()
        .thread_group(256, 1, 1)
        .unwrap()
        .output_arg(&[4, 16], Dtype::Float32)
        .unwrap()
        .output_arg(&[8], Dtype::Int32)
        .unwrap()
        .init_value_bits(3.0f32.to_bits())
        .unwrap()
        .verbose(true)
        .unwrap();

    let outputs = config.output_args();
    assert_eq!(outputs.len(), 2);
    assert_eq!(outputs[0].shape, vec![4, 16]);
    assert_eq!(outputs[0].dtype, Dtype::Float32);
    assert_eq!(outputs[1].shape, vec![8]);
    assert_eq!(outputs[1].dtype, Dtype::Int32);
    assert_eq!(config.grid_dims(), Some((64, 1, 1)));
    assert_eq!(config.thread_group_dims(), Some((256, 1, 1)));
    assert_eq!(config.init_value_pattern().map(f32::from_bits), Some(3.0));
    assert_eq!(config.verbosity(), Some(true));

    let params = config.template_args();
    assert_eq!(params.len(), 3);
    assert_eq!(params[0].name.as_bytes(), b"T");
    assert_eq!(params[0].arg, TemplateArg::Dtype(Dtype::Float32));
    assert_eq!(params[1].name.as_bytes(), b"N");
    assert_eq!(params[1].arg, TemplateArg::Int(16));
    assert_eq!(params[2].name.as_bytes(), b"FAST");
    assert_eq!(params[2].arg, TemplateArg::Bool(true));
}

#[test]
fn empty_config_leaves_everything_to_mlx() {
    let config = MetalKernelConfig::default();
    assert!(config.output_args().is_empty());
    assert!(config.template_args().is_empty());
    assert_eq!(config.grid_dims(), None);
    assert_eq!(config.thread_group_dims(), None);
    assert_eq!(config.init_value_pattern(), None);
    assert_eq!(config.verbosity(), None);
}

#[test]
fn template_arg_name_with_nul_fails() {
    let e = MetalKernelConfig::new().template_arg_int("N\0", 1).err().unwrap();
    assert_eq!(e.what(), "string contains an interior nul byte");
    assert!(MetalKernelConfig::new().template_arg_bool("\0", false).is_err());
    assert!(MetalKernelConfig::new().template_arg_dtype("a\0", Dtype::Bool).is_err());
}

#[test]
fn attention_mask_modes() {
    let mask = [1u8, 0, 1];
    let (mode, array) = attention_mode_and_mask(Some(ScaledDotProductAttentionMask::Array(&mask)));
    assert_eq!(mode, "");
    assert_eq!(array, Some(&mask));

    let (mode, array) = attention_mode_and_mask::<[u8; 3]>(Some(ScaledDotProductAttentionMask::Causal));
    assert_eq!(mode, "causal");
    assert!(array.is_none());

    let (mode, array) = attention_mode_and_mask::<[u8; 3]>(None);
    assert_eq!(mode, "");
    assert!(array.is_none());
}

#[test]
fn invalid_metal_source_still_builds() {
    // The source is only compiled by MLX when the kernel is first launched.
    let kernel = MetalKernel::builder("bad", "this is not valid metal;")
        .input_names(&["inp"])
        .output_names(&["out"])
        .build()
        .unwrap();
    assert_eq!(kernel.source().as_bytes(), b"this is not valid metal;");
}
