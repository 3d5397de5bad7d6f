//! Fast implementations of commonly used multi-op functions: the argument handling of the
//! attention entry point, and custom Metal kernels with their launch configuration.
//!
//! A kernel and its configuration are held here as plain values: the names, sources and
//! launch parameters that MLX is given. Compiling and launching them is MLX's work.

use vstd::prelude::*;
use vstd::slice::slice_to_vec;
use vstd::utf8::{decode_utf8, encode_utf8};

use crate::dtype::Dtype;
use crate::error::Exception;
use crate::utils::{nul_free, CText};

verus! {

/// The message of the error for a string that cannot be passed to C.
pub open spec fn interior_nul_message() -> Seq<char> {
    "string contains an interior nul byte"@
}

/// `s` as a C string, or an error when it holds a nul byte.
pub fn cstring(s: &str) -> (r: Result<CText, Exception>)
    ensures
        r is Ok <==> nul_free(s@),
        r matches Ok(t) ==> t@ == encode_utf8(s@),
        r matches Err(e) ==> e@ == interior_nul_message(),
{
    match CText::new(s) {
        Some(t) => Ok(t),
        None => Err(Exception::custom("string contains an interior nul byte")),
    }
}

/// The exception for a failed MLX call: the message MLX recorded for it, if it recorded one
/// (`recorded`, taken from the backend's error slot), else `fallback`.
pub fn last_mlx_error(recorded: Option<Exception>, fallback: &str) -> (e: Exception)
    ensures
        e@ == (match recorded {
            Some(r) => r@,
            None => fallback@,
        }),
{
    match recorded {
        Some(e) => Exception::custom(e.what()),
        None => Exception::custom(fallback),
    }
}

/// The views of a sequence of string slices.
pub open spec fn str_views(strs: Seq<&str>) -> Seq<Seq<char>> {
    strs.map_values(|s: &str| s@)
}

/// The UTF-8 encodings of a sequence of texts.
pub open spec fn encodings(texts: Seq<Seq<char>>) -> Seq<Seq<u8>> {
    texts.map_values(|t: Seq<char>| encode_utf8(t))
}

/// Whether every text of `texts` can be passed to C.
pub open spec fn all_nul_free(texts: Seq<Seq<char>>) -> bool {
    forall|i: int| 0 <= i < texts.len() ==> #[trigger] nul_free(texts[i])
}

/// A list of C strings, as MLX takes the names of a kernel's inputs and outputs.
#[derive(Debug)]
pub struct VectorString {
    items: Vec<CText>,
}

impl View for VectorString {
    type V = Seq<Seq<u8>>;

    closed spec fn view(&self) -> Seq<Seq<u8>> {
        self.items@.map_values(|t: CText| t@)
    }
}

impl VectorString {
    /// The strings of `strs` in order, or an error when one of them holds a nul byte.
    pub fn try_from_iter(strs: &[&str]) -> (r: Result<VectorString, Exception>)
        ensures
            r is Ok <==> all_nul_free(str_views(strs@)),
            r matches Ok(v) ==> v@ == encodings(str_views(strs@)),
            r matches Err(e) ==> e@ == interior_nul_message(),
    {
        let mut items: Vec<CText> = Vec::new();
        let mut i: usize = 0;
        while i < strs.len()
            invariant
                i <= strs@.len(),
                items@.len() == i,
                forall|j: int| 0 <= j < i ==> nul_free(#[trigger] strs@[j]@),
                forall|j: int| 0 <= j < i ==> (#[trigger] items@[j])@ == encode_utf8(strs@[j]@),
            decreases strs@.len() - i,
        {
            match cstring(strs[i]) {
                Ok(t) => {
                    items.push(t);
                },
                Err(e) => {
                    assert(!nul_free(str_views(strs@)[i as int]));
                    return Err(e);
                },
            }
            i = i + 1;
        }
        let v = VectorString { items };
        assert(v@ =~= encodings(str_views(strs@)));
        assert(all_nul_free(str_views(strs@))) by {
            assert forall|j: int| 0 <= j < strs@.len() implies #[trigger] nul_free(
                str_views(strs@)[j],
            ) by {
                assert(nul_free(strs@[j]@));
            }
        }
        Ok(v)
    }

    /// The strings, in order.
    pub fn as_slice(&self) -> (s: &[CText])
        ensures
            s@.map_values(|t: CText| t@) == self@,
    {
        self.items.as_slice()
    }
}

/// The names, sources and options of a [`MetalKernelBuilder`].
pub struct MetalKernelBuilderView {
    pub name: Seq<char>,
    pub source: Seq<char>,
    pub header: Seq<char>,
    pub input_names: Seq<Seq<char>>,
    pub output_names: Seq<Seq<char>>,
    pub ensure_row_contiguous: bool,
    pub atomic_outputs: bool,
}

/// Builder for a [`MetalKernel`].
///
/// Created by [`MetalKernel::builder`]. `ensure_row_contiguous` defaults to `true` and
/// `atomic_outputs` to `false`, matching MLX's own defaults.
#[derive(Debug)]
pub struct MetalKernelBuilder<'a> {
    name: &'a str,
    source: &'a str,
    header: &'a str,
    input_names: Vec<&'a str>,
    output_names: Vec<&'a str>,
    ensure_row_contiguous: bool,
    atomic_outputs: bool,
}

impl<'a> View for MetalKernelBuilder<'a> {
    type V = MetalKernelBuilderView;

    closed spec fn view(&self) -> MetalKernelBuilderView {
        MetalKernelBuilderView {
            name: self.name@,
            source: self.source@,
            header: self.header@,
            input_names: str_views(self.input_names@),
            output_names: str_views(self.output_names@),
            ensure_row_contiguous: self.ensure_row_contiguous,
            atomic_outputs: self.atomic_outputs,
        }
    }
}

/// Whether every text a builder holds can be passed to C.
pub open spec fn builder_nul_free(b: MetalKernelBuilderView) -> bool {
    &&& nul_free(b.name)
    &&& nul_free(b.source)
    &&& nul_free(b.header)
    &&& all_nul_free(b.input_names)
    &&& all_nul_free(b.output_names)
}

/// What a builder with the view `b` builds, when every text can be passed to C.
pub open spec fn built_kernel(b: MetalKernelBuilderView) -> MetalKernelView {
    MetalKernelView {
        name: encode_utf8(b.name),
        source: encode_utf8(b.source),
        header: encode_utf8(b.header),
        input_names: encodings(b.input_names),
        output_names: encodings(b.output_names),
        ensure_row_contiguous: b.ensure_row_contiguous,
        atomic_outputs: b.atomic_outputs,
    }
}

impl<'a> MetalKernelBuilder<'a> {
    /// A builder for the kernel `name` with body `source`, no header, no input or output
    /// names, row-contiguous inputs and plain outputs.
    pub fn new(name: &'a str, source: &'a str) -> (b: Self)
        ensures
            b@ == (MetalKernelBuilderView {
                name: name@,
                source: source@,
                header: Seq::<char>::empty(),
                input_names: Seq::<Seq<char>>::empty(),
                output_names: Seq::<Seq<char>>::empty(),
                ensure_row_contiguous: true,
                atomic_outputs: false,
            }),
    {
        proof {
            reveal_strlit("");
        }
        let b = Self {
            name,
            source,
            header: "",
            input_names: Vec::new(),
            output_names: Vec::new(),
            ensure_row_contiguous: true,
            atomic_outputs: false,
        };
        assert(b@.header =~= Seq::<char>::empty());
        assert(b@.input_names =~= Seq::<Seq<char>>::empty());
        assert(b@.output_names =~= Seq::<Seq<char>>::empty());
        b
    }

    /// Sets the names of the input arrays, in the order the arrays are passed when the kernel
    /// is launched. Each name becomes a buffer parameter in the generated kernel.
    pub fn input_names(self, names: &[&'a str]) -> (b: Self)
        ensures
            b@ == (MetalKernelBuilderView { input_names: str_views(names@), ..self@ }),
    {
        let mut b = self;
        b.input_names = slice_to_vec(names);
        b
    }

    /// Sets the names of the output arrays, in the order they are declared on the
    /// [`MetalKernelConfig`] via [`output_arg`](MetalKernelConfig::output_arg).
    pub fn output_names(self, names: &[&'a str]) -> (b: Self)
        ensures
            b@ == (MetalKernelBuilderView { output_names: str_views(names@), ..self@ }),
    {
        let mut b = self;
        b.output_names = slice_to_vec(names);
        b
    }

    /// Sets source placed outside the kernel function body, e.g. helper functions or
    /// `#include`s. Empty by default.
    pub fn header(self, header: &'a str) -> (b: Self)
        ensures
            b@ == (MetalKernelBuilderView { header: header@, ..self@ }),
    {
        let mut b = self;
        b.header = header;
        b
    }

    /// When `true` (the default), inputs are made row-contiguous before the kernel runs.
    pub fn ensure_row_contiguous(self, ensure_row_contiguous: bool) -> (b: Self)
        ensures
            b@ == (MetalKernelBuilderView { ensure_row_contiguous, ..self@ }),
    {
        let mut b = self;
        b.ensure_row_contiguous = ensure_row_contiguous;
        b
    }

    /// When `true`, outputs are passed as atomic buffers. Defaults to `false`.
    pub fn atomic_outputs(self, atomic_outputs: bool) -> (b: Self)
        ensures
            b@ == (MetalKernelBuilderView { atomic_outputs, ..self@ }),
    {
        let mut b = self;
        b.atomic_outputs = atomic_outputs;
        b
    }

    /// Builds the [`MetalKernel`]: the name, source, header and names as C strings, checked
    /// in that order; the first that holds a nul byte fails the build.
    pub fn build(self) -> (r: Result<MetalKernel, Exception>)
        ensures
            r is Ok <==> builder_nul_free(self@),
            r matches Ok(k) ==> k@ == built_kernel(self@),
            r matches Ok(k) ==> k@.name == encode_utf8(self@.name) && k@.source == encode_utf8(
                self@.source,
            ) && k@.header == encode_utf8(self@.header),
            r matches Err(e) ==> e@ == interior_nul_message(),
    {
        let name = cstring(self.name)?;
        let source = cstring(self.source)?;
        let header = cstring(self.header)?;
        let input_names = VectorString::try_from_iter(self.input_names.as_slice())?;
        let output_names = VectorString::try_from_iter(self.output_names.as_slice())?;
        Ok(
            MetalKernel {
                name,
                source,
                header,
                input_names,
                output_names,
                ensure_row_contiguous: self.ensure_row_contiguous,
                atomic_outputs: self.atomic_outputs,
            },
        )
    }
}

/// The texts and options of a [`MetalKernel`], as C strings.
pub struct MetalKernelView {
    pub name: Seq<u8>,
    pub source: Seq<u8>,
    pub header: Seq<u8>,
    pub input_names: Seq<Seq<u8>>,
    pub output_names: Seq<Seq<u8>>,
    pub ensure_row_contiguous: bool,
    pub atomic_outputs: bool,
}

/// A custom Metal kernel, as MLX is given it: its name, the body of its function, a header
/// placed before the function, the names of its input and output buffers, and two options.
///
/// Build one with [`MetalKernel::builder`]. The Metal source is compiled by MLX lazily on the
/// first launch, so source-compilation errors surface there rather than at build time.
#[derive(Debug)]
pub struct MetalKernel {
    name: CText,
    source: CText,
    header: CText,
    input_names: VectorString,
    output_names: VectorString,
    ensure_row_contiguous: bool,
    atomic_outputs: bool,
}

impl View for MetalKernel {
    type V = MetalKernelView;

    closed spec fn view(&self) -> MetalKernelView {
        MetalKernelView {
            name: self.name@,
            source: self.source@,
            header: self.header@,
            input_names: self.input_names@,
            output_names: self.output_names@,
            ensure_row_contiguous: self.ensure_row_contiguous,
            atomic_outputs: self.atomic_outputs,
        }
    }
}

impl MetalKernel {
    /// Starts building a kernel named `name` from the given Metal `source`.
    ///
    /// The `source` is the body of the Metal kernel function; MLX generates the surrounding
    /// function signature from the input and output names.
    pub fn builder<'a>(name: &'a str, source: &'a str) -> (b: MetalKernelBuilder<'a>)
        ensures
            b@ == (MetalKernelBuilderView {
                name: name@,
                source: source@,
                header: Seq::<char>::empty(),
                input_names: Seq::<Seq<char>>::empty(),
                output_names: Seq::<Seq<char>>::empty(),
                ensure_row_contiguous: true,
                atomic_outputs: false,
            }),
    {
        MetalKernelBuilder::new(name, source)
    }

    /// The kernel's name.
    pub fn name(&self) -> (t: &CText)
        ensures
            t@ == self@.name,
    {
        &self.name
    }

    /// The body of the kernel function.
    pub fn source(&self) -> (t: &CText)
        ensures
            t@ == self@.source,
    {
        &self.source
    }

    /// The source placed before the kernel function.
    pub fn header(&self) -> (t: &CText)
        ensures
            t@ == self@.header,
    {
        &self.header
    }

    /// The names of the input buffers.
    pub fn input_names(&self) -> (v: &VectorString)
        ensures
            v@ == self@.input_names,
    {
        &self.input_names
    }

    /// The names of the output buffers.
    pub fn output_names(&self) -> (v: &VectorString)
        ensures
            v@ == self@.output_names,
    {
        &self.output_names
    }

    /// Whether inputs are made row-contiguous before the kernel runs.
    pub fn ensures_row_contiguous(&self) -> (b: bool)
        ensures
            b == self@.ensure_row_contiguous,
    {
        self.ensure_row_contiguous
    }

    /// Whether outputs are passed as atomic buffers.
    pub fn has_atomic_outputs(&self) -> (b: bool)
        ensures
            b == self@.atomic_outputs,
    {
        self.atomic_outputs
    }
}

/// Mask modes for scaled dot product attention.
///
/// `A` is the array type whose values MLX reads as the mask.
#[derive(Debug)]
pub enum ScaledDotProductAttentionMask<'a, A> {
    /// A single mask array
    Array(&'a A),
    /// Causal masking (no explicit mask array needed)
    Causal,
}

/// The mode name MLX takes with an explicit mask array, or with no mask.
pub open spec fn default_mask_mode() -> Seq<char> {
    ""@
}

/// The mode name MLX takes for causal masking.
pub open spec fn causal_mask_mode() -> Seq<char> {
    "causal"@
}

impl<'a, A> ScaledDotProductAttentionMask<'a, A> {
    /// The mode name and the mask array that MLX is given for this mask; `None` stands for
    /// the empty array.
    pub fn as_mode_and_mask(&self) -> (r: (&'static str, Option<&'a A>))
        ensures
            match self {
                ScaledDotProductAttentionMask::Array(m) => r.0@ == default_mask_mode() && r.1
                    == Some(*m),
                ScaledDotProductAttentionMask::Causal => r.0@ == causal_mask_mode() && r.1
                    is None,
            },
    {
        match self {
            ScaledDotProductAttentionMask::Array(mask) => ("", Some(*mask)),
            ScaledDotProductAttentionMask::Causal => ("causal", None),
        }
    }
}

/// The mode name and mask array that scaled dot product attention hands MLX for an optional
/// mask: no mask goes as the default mode with the empty array (`None`).
pub fn attention_mode_and_mask<'a, A>(mask: Option<ScaledDotProductAttentionMask<'a, A>>) -> (r: (
    &'static str,
    Option<&'a A>,
))
    ensures
        match mask {
            None => r.0@ == default_mask_mode() && r.1 is None,
            Some(ScaledDotProductAttentionMask::Array(m)) => r.0@ == default_mask_mode() && r.1
                == Some(m),
            Some(ScaledDotProductAttentionMask::Causal) => r.0@ == causal_mask_mode() && r.1
                is None,
        },
{
    match mask {
        None => ("", None),
        Some(m) => m.as_mode_and_mask(),
    }
}

/// A template argument of a kernel: a dtype, an integer or a boolean.
#[derive(Clone, Copy, Debug, PartialEq, Eq, Structural)]
pub enum TemplateArg {
    Dtype(Dtype),
    Int(i32),
    Bool(bool),
}

/// An output array that a kernel launch produces.
#[derive(Debug)]
pub struct OutputArg {
    pub shape: Vec<i32>,
    pub dtype: Dtype,
}

/// A named template argument.
#[derive(Debug)]
pub struct TemplateParam {
    pub name: CText,
    pub arg: TemplateArg,
}

/// The launch parameters a [`MetalKernelConfig`] records, in the order they were given.
pub struct MetalKernelConfigView {
    pub output_args: Seq<(Seq<i32>, Dtype)>,
    pub grid: Option<(i32, i32, i32)>,
    pub thread_group: Option<(i32, i32, i32)>,
    pub init_value_bits: Option<u32>,
    pub verbose: Option<bool>,
    pub template_args: Seq<(Seq<u8>, TemplateArg)>,
}

/// Per-call configuration for a [`MetalKernel`].
///
/// Describes the launch grid, thread group, output arrays, and template arguments for a single
/// launch. Output arrays are produced in the order they are added with
/// [`output_arg`](MetalKernelConfig::output_arg). A parameter that was never set is left to
/// MLX's default.
///
/// The setter methods consume and return `self`, so they can be chained with `?`.
#[derive(Debug)]
pub struct MetalKernelConfig {
    output_args: Vec<OutputArg>,
    grid: Option<(i32, i32, i32)>,
    thread_group: Option<(i32, i32, i32)>,
    init_value_bits: Option<u32>,
    verbose: Option<bool>,
    template_args: Vec<TemplateParam>,
}

impl View for MetalKernelConfig {
    type V = MetalKernelConfigView;

    closed spec fn view(&self) -> MetalKernelConfigView {
        MetalKernelConfigView {
            output_args: self.output_args@.map_values(|o: OutputArg| (o.shape@, o.dtype)),
            grid: self.grid,
            thread_group: self.thread_group,
            init_value_bits: self.init_value_bits,
            verbose: self.verbose,
            template_args: self.template_args@.map_values(|p: TemplateParam| (p.name@, p.arg)),
        }
    }
}

/// The view of a configuration that has nothing set.
pub open spec fn empty_config() -> MetalKernelConfigView {
    MetalKernelConfigView {
        output_args: Seq::empty(),
        grid: None,
        thread_group: None,
        init_value_bits: None,
        verbose: None,
        template_args: Seq::empty(),
    }
}

impl MetalKernelConfig {
    /// Creates an empty configuration.
    pub fn new() -> (c: Self)
        ensures
            c@ == empty_config(),
    {
        let c = MetalKernelConfig {
            output_args: Vec::new(),
            grid: None,
            thread_group: None,
            init_value_bits: None,
            verbose: None,
            template_args: Vec::new(),
        };
        assert(c@.output_args =~= Seq::<(Seq<i32>, Dtype)>::empty());
        assert(c@.template_args =~= Seq::<(Seq<u8>, TemplateArg)>::empty());
        c
    }

    /// Declares an output array with the given `shape` and `dtype`. The kernel produces one
    /// array per call to this method, in call order.
    pub fn output_arg(self, shape: &[i32], dtype: Dtype) -> (r: Result<Self, Exception>)
        ensures
            r matches Ok(c) && c@ == (MetalKernelConfigView {
                output_args: self@.output_args.push((shape@, dtype)),
                ..self@
            }),
    {
        let mut c = self;
        c.output_args.push(OutputArg { shape: slice_to_vec(shape), dtype });
        assert(c@.output_args =~= self@.output_args.push((shape@, dtype)));
        Ok(c)
    }

    /// Sets the launch grid (total number of threads in each dimension).
    pub fn grid(self, x: i32, y: i32, z: i32) -> (r: Result<Self, Exception>)
        ensures
            r matches Ok(c) && c@ == (MetalKernelConfigView { grid: Some((x, y, z)), ..self@ }),
    {
        let mut c = self;
        c.grid = Some((x, y, z));
        Ok(c)
    }

    /// Sets the thread group (threads per group in each dimension).
    pub fn thread_group(self, x: i32, y: i32, z: i32) -> (r: Result<Self, Exception>)
        ensures
            r matches Ok(c) && c@ == (MetalKernelConfigView {
                thread_group: Some((x, y, z)),
                ..self@
            }),
    {
        let mut c = self;
        c.thread_group = Some((x, y, z));
        Ok(c)
    }

    /// Sets the value used to initialize the output arrays before the kernel runs, given by
    /// the bit pattern of its 32-bit float.
    pub fn init_value_bits(self, bits: u32) -> (r: Result<Self, Exception>)
        ensures
            r matches Ok(c) && c@ == (MetalKernelConfigView {
                init_value_bits: Some(bits),
                ..self@
            }),
    {
        let mut c = self;
        c.init_value_bits = Some(bits);
        Ok(c)
    }

    /// When `true`, MLX prints the generated kernel source when it is compiled.
    pub fn verbose(self, verbose: bool) -> (r: Result<Self, Exception>)
        ensures
            r matches Ok(c) && c@ == (MetalKernelConfigView { verbose: Some(verbose), ..self@ }),
    {
        let mut c = self;
        c.verbose = Some(verbose);
        Ok(c)
    }

    /// Binds the template argument `name` to `arg`, failing when `name` holds a nul byte.
    fn template_arg(self, name: &str, arg: TemplateArg) -> (r: Result<Self, Exception>)
        ensures
            r is Ok <==> nul_free(name@),
            r matches Ok(c) ==> c@ == (MetalKernelConfigView {
                template_args: self@.template_args.push((encode_utf8(name@), arg)),
                ..self@
            }),
            r matches Err(e) ==> e@ == interior_nul_message(),
    {
        let text = cstring(name)?;
        let mut c = self;
        c.template_args.push(TemplateParam { name: text, arg });
        assert(c@.template_args =~= self@.template_args.push((encode_utf8(name@), arg)));
        Ok(c)
    }

    /// Binds a `dtype` template argument named `name` in the kernel source.
    pub fn template_arg_dtype(self, name: &str, dtype: Dtype) -> (r: Result<Self, Exception>)
        ensures
            r is Ok <==> nul_free(name@),
            r matches Ok(c) ==> c@ == (MetalKernelConfigView {
                template_args: self@.template_args.push(
                    (encode_utf8(name@), TemplateArg::Dtype(dtype)),
                ),
                ..self@
            }),
            r matches Err(e) ==> e@ == interior_nul_message(),
    {
        self.template_arg(name, TemplateArg::Dtype(dtype))
    }

    /// Binds an integer template argument named `name` in the kernel source.
    pub fn template_arg_int(self, name: &str, value: i32) -> (r: Result<Self, Exception>)
        ensures
            r is Ok <==> nul_free(name@),
            r matches Ok(c) ==> c@ == (MetalKernelConfigView {
                template_args: self@.template_args.push(
                    (encode_utf8(name@), TemplateArg::Int(value)),
                ),
                ..self@
            }),
            r matches Err(e) ==> e@ == interior_nul_message(),
    {
        self.template_arg(name, TemplateArg::Int(value))
    }

    /// Binds a boolean template argument named `name` in the kernel source.
    pub fn template_arg_bool(self, name: &str, value: bool) -> (r: Result<Self, Exception>)
        ensures
            r is Ok <==> nul_free(name@),
            r matches Ok(c) ==> c@ == (MetalKernelConfigView {
                template_args: self@.template_args.push(
                    (encode_utf8(name@), TemplateArg::Bool(value)),
                ),
                ..self@
            }),
            r matches Err(e) ==> e@ == interior_nul_message(),
    {
        self.template_arg(name, TemplateArg::Bool(value))
    }

    /// The output arrays, in the order they were declared.
    pub fn output_args(&self) -> (s: &[OutputArg])
        ensures
            s@.map_values(|o: OutputArg| (o.shape@, o.dtype)) == self@.output_args,
    {
        self.output_args.as_slice()
    }

    /// The launch grid, if it was set.
    pub fn grid_dims(&self) -> (g: Option<(i32, i32, i32)>)
        ensures
            g == self@.grid,
    {
        self.grid
    }

    /// The thread group, if it was set.
    pub fn thread_group_dims(&self) -> (g: Option<(i32, i32, i32)>)
        ensures
            g == self@.thread_group,
    {
        self.thread_group
    }

    /// The bit pattern of the initial output value, if it was set.
    pub fn init_value_pattern(&self) -> (v: Option<u32>)
        ensures
            v == self@.init_value_bits,
    {
        self.init_value_bits
    }

    /// Whether MLX prints the generated source, if it was set.
    pub fn verbosity(&self) -> (v: Option<bool>)
        ensures
            v == self@.verbose,
    {
        self.verbose
    }

    /// The template arguments, in the order they were bound.
    pub fn template_args(&self) -> (s: &[TemplateParam])
        ensures
            s@.map_values(|p: TemplateParam| (p.name@, p.arg)) == self@.template_args,
    {
        self.template_args.as_slice()
    }
}

impl Default for MetalKernelConfig {
    fn default() -> (c: Self)
        ensures
            c@ == empty_config(),
    {
        Self::new()
    }
}

/// A built kernel hands MLX each text of its builder unchanged, and separately: its name,
/// source and header decode back to exactly the builder's name, source and header, and each of
/// its input and output names to the builder's name at the same position.
pub proof fn law_build_keeps_each_text(b: MetalKernelBuilderView)
    ensures
        decode_utf8(built_kernel(b).name) == b.name,
        decode_utf8(built_kernel(b).source) == b.source,
        decode_utf8(built_kernel(b).header) == b.header,
        built_kernel(b).input_names.len() == b.input_names.len(),
        forall|i: int|
            0 <= i < b.input_names.len() ==> decode_utf8(#[trigger] built_kernel(b).input_names[i])
                == b.input_names[i],
        built_kernel(b).output_names.len() == b.output_names.len(),
        forall|i: int|
            0 <= i < b.output_names.len() ==> decode_utf8(#[trigger] built_kernel(b).output_names[i])
                == b.output_names[i],
        built_kernel(b).ensure_row_contiguous == b.ensure_row_contiguous,
        built_kernel(b).atomic_outputs == b.atomic_outputs,
{
    broadcast use vstd::utf8::encode_utf8_decode_utf8;

}

} // verus!
