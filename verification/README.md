# mlx-rs

Rust bindings to the MLX array framework, with their argument handling and the plain-value
models of backend objects verified with Verus.

- `src/` is the verified library: C-string checks (`utils`), optional-argument conversions
  (`utils::optional`), devices and the queries of their reports (`device`), FFT frequency
  bins (`fft`),
  Metal kernel builders and launch configurations, attention masks (`fast`), the decision
  steps of rendering a graph through a temporary file (`graph_utils`), and path arguments of
  the Metal controls (`metal`).
- `app/` holds the calls into the MLX C API (`mlx-sys`) and the C library (`libc`) that use it.
- `tests/` exercises the library on concrete values.
