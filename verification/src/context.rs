//! The context handed to script code during the declare and run phases.
//! Every script-to-host interaction goes through a method here: parameter
//! registration, input retrieval, output acquisition, output-size
//! negotiation, and the mode flags. The embedding application forwards
//! each interpreter call to the matching method; tests drive the same
//! surface directly.

use crate::blit::{spec_extract, spec_swizzle_tight, extract_rect, implant_rect, swizzle_tight};
use crate::desc::{ImageFormat, InDesc, OutDesc, OutputSize};
use crate::errors::GolobulError;
use crate::registry::{
    map_entries, reg_insert, reg_get, spec_entries_insert, spec_has_key, spec_key_index, VarMap,
};
use crate::variant::{Cfg, DiscreteCfg, Image, TaggedInt, TaggedIntV, Variant, VariantV};
use vstd::prelude::*;
use vstd::string::StringExecFns;

verus! {

/// An image input as a script sees it: tightly packed pixels, normalized
/// to RGBA channel order when color correction asked for it.
#[derive(Debug)]
pub struct ImageData {
    pub data: Vec<u8>,
    pub width: u32,
    pub height: u32,
    pub fmt: ImageFormat,
}

/// What `get_input` hands back for one registered parameter.
#[derive(Debug)]
pub enum InputValue {
    Image(ImageData),
    Bool(bool),
    TaggedInt(i32),
    Color([u32; 4]),
    Int(i32),
    Float(u32),
    Vector2([u32; 2]),
}

/// The image bytes a script sees for an input: the padding stripped, and
/// the channels rotated to RGBA order when `swizzle` holds.
pub open spec fn spec_normalized_bytes(
    data: Seq<u8>,
    w: int,
    h: int,
    row: int,
    bpp: int,
    swizzle: bool,
) -> Seq<u8> {
    let tight = spec_extract(data, row, 0, 0, h, w * bpp);
    if swizzle {
        spec_swizzle_tight(tight, bpp, bpp / 4, false)
    } else {
        tight
    }
}

/// The parameter registered under `name`, if any.
pub open spec fn spec_lookup(s: Seq<(Seq<char>, VariantV)>, name: Seq<char>) -> Option<VariantV> {
    if spec_has_key(s, name) {
        Some(s[spec_key_index(s, name)].1)
    } else {
        None
    }
}

/// True when `i` is the position of the first input loaded under `name`.
pub open spec fn spec_is_first_input(inputs: Seq<(String, InDesc)>, name: Seq<char>, i: int) -> bool {
    &&& 0 <= i < inputs.len()
    &&& inputs[i].0@ == name
    &&& forall|j: int| 0 <= j < i ==> inputs[j].0@ != name
}

/// The first input descriptor loaded under `name`, if any.
pub open spec fn spec_input_index(inputs: Seq<(String, InDesc)>, name: Seq<char>) -> Option<int> {
    if exists|i: int| spec_is_first_input(inputs, name, i) {
        Some(choose|i: int| spec_is_first_input(inputs, name, i))
    } else {
        None
    }
}

/// The effective image never outgrows the caller's buffer: with the
/// effective dimensions bounded by the caller's, the row length and the
/// whole image fit inside the buffer.
proof fn lemma_effective_bounds(eh: int, ew: int, bpp: int, th: int, tw: int, row: int, len: int)
    by (nonlinear_arith)
    requires
        0 <= eh <= th,
        0 <= ew <= tw,
        1 <= bpp,
        row >= tw * bpp,
        len == row * th,
    ensures
        0 <= ew * bpp <= row,
        0 <= eh * (ew * bpp) <= len,
        0 <= row,
        th >= 1 ==> row <= len,
        tw == 0 ==> ew * bpp == 0,
        eh * (ew * bpp) == (eh * ew) * bpp,
{
}

/// The context bound to one declare- or run-phase invocation.
#[derive(Debug)]
pub struct PyContext {
    /// The inputs loaded into the render pass, by name.
    pub inputs: Vec<(String, InDesc)>,
    /// The caller's output descriptor; its buffer is written directly
    /// when no size override is in force.
    pub target: OutDesc,
    /// The proxy buffer allocated when the script renders at a size other
    /// than the caller's; blitted back when the pass completes.
    pub proxy: Option<Vec<u8>>,
    /// The registered parameters; rebuilt fresh in a declare-phase
    /// context, copied from the runner in a run-phase context.
    pub registry: VarMap,
    pub time_bits: u32,
    pub output_size_override: Option<OutputSize>,
    pub is_in_setup: bool,
    pub is_sequential_mode: bool,
    pub uses_automatic_color_correction: bool,
}

impl PyContext {
    /// The registered parameters, by name, in registration order.
    pub open spec fn entries(&self) -> Seq<(Seq<char>, VariantV)> {
        map_entries(self.registry)
    }

    pub open spec fn spec_in_setup(&self) -> bool {
        self.is_in_setup
    }

    pub open spec fn spec_sequential(&self) -> bool {
        self.is_sequential_mode
    }

    pub open spec fn spec_color_corrected(&self) -> bool {
        self.uses_automatic_color_correction
    }

    pub open spec fn spec_output_size(&self) -> Option<OutputSize> {
        self.output_size_override
    }

    pub open spec fn spec_time_bits(&self) -> u32 {
        self.time_bits
    }

    /// The height and width the script renders at: the override when one
    /// is in force, the caller's size otherwise.
    pub open spec fn spec_effective_dims(&self) -> (int, int) {
        match self.output_size_override {
            Some(s) => (s.height as int, s.width as int),
            None => (self.target.height as int, self.target.width as int),
        }
    }

    pub open spec fn spec_effective_len(&self) -> int {
        self.spec_effective_dims().0 * (self.spec_effective_dims().1
            * self.target.fmt.spec_bytes_per_pixel())
    }

    /// The override exceeds the caller's buffer in some dimension.
    pub open spec fn spec_oversized(&self) -> bool {
        match self.output_size_override {
            Some(s) => s.width > self.target.width || s.height > self.target.height,
            None => false,
        }
    }

    /// A size override differing from the caller's size is in force, so
    /// the script renders into a proxy buffer.
    pub open spec fn spec_needs_proxy(&self) -> bool {
        match self.output_size_override {
            Some(s) => s.width != self.target.width || s.height != self.target.height,
            None => false,
        }
    }

    /// The buffer the script's writes land in.
    pub open spec fn spec_effective_bytes(&self) -> Seq<u8> {
        match self.proxy {
            Some(p) => p@,
            None => self.target.data@,
        }
    }

    /// What every method preserves: the caller's descriptor keeps a sound
    /// layout (or is the empty declare-phase placeholder), and the proxy,
    /// when present, is the effective size.
    pub open spec fn wf(&self) -> bool {
        &&& (self.target.laid_out() || (self.target.width == 0 && self.target.height == 0
            && self.target.data@.len() == 0 && self.target.stride is None))
        &&& (self.proxy matches Some(p) ==> self.spec_needs_proxy() && !self.spec_oversized()
            && p@.len() == self.spec_effective_len())
        &&& (self.output_size_override matches Some(s) ==> s.width > 0 && s.height > 0)
    }

    /// The error a registration call outside the declare phase raises.
    fn registration_phase_error() -> (r: GolobulError)
        ensures
            r matches GolobulError::RuntimeError { stderr, stdout } && stdout is None && stderr@
                == "cannot register inputs outside of setup."@,
    {
        GolobulError::RuntimeError {
            stderr: String::from_str("cannot register inputs outside of setup."),
            stdout: None,
        }
    }

    /// Registers `variant` under `name` during the declare phase; outside
    /// it, fails and leaves the registry unchanged.
    fn register(&mut self, name: &str, variant: Variant) -> (r: Result<(), GolobulError>)
        ensures
            *final(self) == (PyContext { registry: final(self).registry, ..*old(self) }),
            old(self).is_in_setup ==> r is Ok && final(self).entries() == spec_entries_insert(
                old(self).entries(),
                name@,
                variant@,
            ),
            !old(self).is_in_setup ==> (r matches Err(e) && (e matches GolobulError::RuntimeError {
                stdout,
                ..
            } && stdout is None)) && final(self).entries() == old(self).entries(),
    {
        if !self.is_in_setup {
            return Err(Self::registration_phase_error());
        }
        reg_insert(&mut self.registry, name.to_owned(), variant);
        Ok(())
    }

    /// Registers a bounded fractional parameter (IEEE-754 bit patterns).
    pub fn register_float(&mut self, name: &str, min: u32, max: u32, default: u32) -> (r: Result<
        (),
        GolobulError,
    >)
        ensures
            *final(self) == (PyContext { registry: final(self).registry, ..*old(self) }),
            old(self).is_in_setup ==> r is Ok && final(self).entries() == spec_entries_insert(
                old(self).entries(),
                name@,
                VariantV::Float(Cfg { default, current: default, min, max }),
            ),
            !old(self).is_in_setup ==> r is Err && final(self).entries() == old(self).entries(),
    {
        self.register(name, Variant::Float(Cfg::new(default, min, max)))
    }

    /// Registers a bounded integer parameter.
    pub fn register_int(&mut self, name: &str, min: i32, max: i32, default: i32) -> (r: Result<
        (),
        GolobulError,
    >)
        ensures
            *final(self) == (PyContext { registry: final(self).registry, ..*old(self) }),
            old(self).is_in_setup ==> r is Ok && final(self).entries() == spec_entries_insert(
                old(self).entries(),
                name@,
                VariantV::Int(Cfg { default, current: default, min, max }),
            ),
            !old(self).is_in_setup ==> r is Err && final(self).entries() == old(self).entries(),
    {
        self.register(name, Variant::Int(Cfg::new(default, min, max)))
    }

    /// Registers a boolean parameter.
    pub fn register_bool(&mut self, name: &str, default: bool) -> (r: Result<(), GolobulError>)
        ensures
            *final(self) == (PyContext { registry: final(self).registry, ..*old(self) }),
            old(self).is_in_setup ==> r is Ok && final(self).entries() == spec_entries_insert(
                old(self).entries(),
                name@,
                VariantV::Bool(DiscreteCfg { current: default, default }),
            ),
            !old(self).is_in_setup ==> r is Err && final(self).entries() == old(self).entries(),
    {
        self.register(name, Variant::Bool(DiscreteCfg::new(default)))
    }

    /// Registers a color parameter (four IEEE-754 bit patterns).
    pub fn register_color(&mut self, name: &str, default: [u32; 4]) -> (r: Result<
        (),
        GolobulError,
    >)
        ensures
            *final(self) == (PyContext { registry: final(self).registry, ..*old(self) }),
            old(self).is_in_setup ==> r is Ok && final(self).entries() == spec_entries_insert(
                old(self).entries(),
                name@,
                VariantV::Color(DiscreteCfg { current: default, default }),
            ),
            !old(self).is_in_setup ==> r is Err && final(self).entries() == old(self).entries(),
    {
        self.register(name, Variant::Color(DiscreteCfg::new(default)))
    }

    /// Registers a two-component vector parameter (IEEE-754 bit patterns).
    pub fn register_vector(&mut self, name: &str, min: [u32; 2], max: [u32; 2], default: [u32; 2])
        -> (r: Result<(), GolobulError>)
        ensures
            *final(self) == (PyContext { registry: final(self).registry, ..*old(self) }),
            old(self).is_in_setup ==> r is Ok && final(self).entries() == spec_entries_insert(
                old(self).entries(),
                name@,
                VariantV::Vector2(Cfg { default, current: default, min, max }),
            ),
            !old(self).is_in_setup ==> r is Err && final(self).entries() == old(self).entries(),
    {
        self.register(name, Variant::Vector2(Cfg::new(default, min, max)))
    }

    /// Registers an enumerated parameter with its name-to-value tag set.
    pub fn register_enum(&mut self, name: &str, default: i32, map: Vec<(String, i32)>) -> (r:
        Result<(), GolobulError>)
        ensures
            *final(self) == (PyContext { registry: final(self).registry, ..*old(self) }),
            old(self).is_in_setup ==> r is Ok && final(self).entries() == spec_entries_insert(
                old(self).entries(),
                name@,
                VariantV::TaggedInt(
                    TaggedIntV {
                        value: default,
                        default,
                        tags: map@.map_values(|p: (String, i32)| (p.0@, p.1)),
                    },
                ),
            ),
            !old(self).is_in_setup ==> r is Err && final(self).entries() == old(self).entries(),
    {
        self.register(name, Variant::TaggedInt(TaggedInt::new(default, map)))
    }

    /// Registers an image input slot.
    pub fn register_image_input(&mut self, name: &str) -> (r: Result<(), GolobulError>)
        ensures
            *final(self) == (PyContext { registry: final(self).registry, ..*old(self) }),
            old(self).is_in_setup ==> r is Ok && final(self).entries() == spec_entries_insert(
                old(self).entries(),
                name@,
                VariantV::Image(DiscreteCfg { current: Image::Input, default: Image::Input }),
            ),
            !old(self).is_in_setup ==> r is Err && final(self).entries() == old(self).entries(),
    {
        self.register(name, Variant::Image(DiscreteCfg::new(Image::Input)))
    }
}

/// The whole image of a strided buffer with every pixel's channels
/// rotated to ARGB order; padding bytes keep their values.
pub open spec fn spec_swizzle_strided(data: Seq<u8>, w: int, h: int, row: int, bpp: int) -> Seq<
    u8,
> {
    crate::blit::spec_implant(
        data,
        row,
        0,
        0,
        spec_swizzle_tight(spec_extract(data, row, 0, 0, h, w * bpp), bpp, bpp / 4, true),
        h,
        w * bpp,
    )
}

/// A vector of `n` copies of `v`.
fn filled_vec(n: usize, v: u8) -> (r: Vec<u8>)
    ensures
        r@ == Seq::new(n as nat, |i: int| v),
{
    let mut out: Vec<u8> = Vec::new();
    let mut k: usize = 0;
    while k < n
        invariant
            0 <= k <= n,
            out@.len() == k,
            forall|i: int| 0 <= i < k ==> out@[i] == v,
        decreases n - k,
    {
        out.push(v);
        k = k + 1;
    }
    proof {
        assert(out@ =~= Seq::new(n as nat, |i: int| v));
    }
    out
}

/// The position of the first input loaded under `name`, if any; the
/// executable counterpart of [`spec_input_index`].
pub(crate) fn find_input_index(inputs: &Vec<(String, InDesc)>, name: &str) -> (r: Option<usize>)
    ensures
        r matches Some(i) ==> spec_input_index(inputs@, name@) == Some(i as int),
        r is None ==> spec_input_index(inputs@, name@) is None,
{
    let needle = name.to_owned();
    let mut i: usize = 0;
    let n = inputs.len();
    while i < n
        invariant
            0 <= i <= n,
            n == inputs@.len(),
            needle@ == name@,
            forall|j: int| 0 <= j < i ==> inputs@[j].0@ != name@,
        decreases n - i,
    {
        if inputs[i].0 == needle {
            proof {
                assert(spec_is_first_input(inputs@, name@, i as int));
                assert forall|k2: int|
                    spec_is_first_input(inputs@, name@, k2) implies k2 == i as int by {
                    if k2 < i as int {
                        assert(inputs@[k2].0@ != name@);
                    }
                    if k2 > i as int {
                        assert(inputs@[i as int].0@ != name@);
                    }
                }
                let ci = choose|i2: int| spec_is_first_input(inputs@, name@, i2);
                assert(spec_is_first_input(inputs@, name@, ci));
                assert(ci == i as int);
                assert(spec_input_index(inputs@, name@) == Some(i as int));
            }
            return Some(i);
        }
        i = i + 1;
    }
    None
}

/// Strips the row padding from an input image and, when asked, rotates
/// its channels to RGBA order.
fn normalize_input(desc: &InDesc, swizzle: bool) -> (r: ImageData)
    requires
        desc.laid_out(),
    ensures
        r.width == desc.width,
        r.height == desc.height,
        r.fmt == desc.fmt,
        r.data@ == spec_normalized_bytes(
            desc.data@,
            desc.width as int,
            desc.height as int,
            desc.row_bytes(),
            desc.fmt.spec_bytes_per_pixel() as int,
            swizzle,
        ),
{
    let bpp = desc.fmt.bytes_per_pixel();
    let e = bpp / 4;
    let w = desc.width as usize;
    let h = desc.height as usize;
    let data_len: usize = desc.data.len();
    proof {
        assert(w * bpp <= desc.row_bytes() && desc.row_bytes() <= data_len && h * desc.row_bytes()
            <= data_len && h * (w * bpp) <= h * desc.row_bytes() && (h * w) * bpp == h * (w * bpp)
            && w * bpp >= bpp) by (nonlinear_arith)
            requires
                desc.row_bytes() >= w * bpp,
                data_len == desc.row_bytes() * h,
                h >= 1,
                w >= 1,
                bpp >= 1,
        ;
    }
    let row: usize = match desc.stride {
        Some(s) => s as usize,
        None => w * bpp,
    };
    let mut tight = extract_rect(&desc.data, row, 0, 0, h, w * bpp);
    if swizzle {
        swizzle_tight(&mut tight, h * w, bpp, e, false);
    }
    ImageData { data: tight, width: desc.width, height: desc.height, fmt: desc.fmt }
}

impl PyContext {
    /// A context bound to one invocation: the caller's output descriptor,
    /// the pass inputs, and the runner state the script may read.
    pub fn new(
        target: OutDesc,
        inputs: Vec<(String, InDesc)>,
        registry: VarMap,
        time_bits: u32,
        output_size: Option<OutputSize>,
        in_setup: bool,
        sequential: bool,
        color_corrected: bool,
    ) -> (r: PyContext)
        ensures
            r.target == target,
            r.inputs == inputs,
            r.proxy is None,
            r.entries() == map_entries(registry),
            r.time_bits == time_bits,
            r.output_size_override == output_size,
            r.is_in_setup == in_setup,
            r.is_sequential_mode == sequential,
            r.uses_automatic_color_correction == color_corrected,
    {
        PyContext {
            inputs,
            target,
            proxy: None,
            registry,
            time_bits,
            output_size_override: output_size,
            is_in_setup: in_setup,
            is_sequential_mode: sequential,
            uses_automatic_color_correction: color_corrected,
        }
    }

    /// The current value of the parameter registered under `name`: the
    /// scalar kinds hand back their current value; an image slot hands
    /// back the loaded input normalized as [`spec_normalized_bytes`]
    /// describes, or nothing when no sound input of that name was loaded.
    pub fn get_input(&self, name: &str) -> (r: Option<InputValue>)
        ensures
            spec_lookup(self.entries(), name@) is None ==> r is None,
            match spec_lookup(self.entries(), name@) {
                Some(v) => match v {
                    VariantV::Bool(c) => r == Some(InputValue::Bool(c.current)),
                    VariantV::TaggedInt(t) => r == Some(InputValue::TaggedInt(t.value)),
                    VariantV::Color(c) => r == Some(InputValue::Color(c.current)),
                    VariantV::Int(c) => r == Some(InputValue::Int(c.current)),
                    VariantV::Float(c) => r == Some(InputValue::Float(c.current)),
                    VariantV::Vector2(c) => r == Some(InputValue::Vector2(c.current)),
                    VariantV::Image(_) => match spec_input_index(self.inputs@, name@) {
                        Some(i) => {
                            let desc = self.inputs@[i].1;
                            if desc.laid_out() {
                                r matches Some(v) && v matches InputValue::Image(d) && d.width
                                    == desc.width && d.height == desc.height && d.fmt == desc.fmt
                                    && d.data@ == spec_normalized_bytes(
                                    desc.data@,
                                    desc.width as int,
                                    desc.height as int,
                                    desc.row_bytes(),
                                    desc.fmt.spec_bytes_per_pixel() as int,
                                    self.uses_automatic_color_correction
                                        && desc.fmt.spec_is_argb(),
                                )
                            } else {
                                r is None
                            }
                        },
                        None => r is None,
                    },
                },
                None => r is None,
            },
    {
        let entry = reg_get(&self.registry, name);
        match entry {
            None => None,
            Some(var) => match var {
                Variant::Image(_) => {
                    match find_input_index(&self.inputs, name) {
                        None => None,
                        Some(i) => {
                            proof {
                                assert(spec_input_index(self.inputs@, name@) matches Some(si)
                                    && si == i as int);
                            }
                            let desc = &self.inputs[i].1;
                            if is_laid_out(desc) {
                                let swizzle = self.uses_automatic_color_correction
                                    && desc.fmt.is_argb();
                                Some(InputValue::Image(normalize_input(desc, swizzle)))
                            } else {
                                None
                            }
                        },
                    }
                },
                Variant::Bool(c) => Some(InputValue::Bool(c.current)),
                Variant::TaggedInt(t) => Some(InputValue::TaggedInt(t.value)),
                Variant::Color(c) => Some(InputValue::Color(c.current)),
                Variant::Int(c) => Some(InputValue::Int(c.current)),
                Variant::Float(c) => Some(InputValue::Float(c.current)),
                Variant::Vector2(c) => Some(InputValue::Vector2(c.current)),
            },
        }
    }

    /// The caller-provided size, as a (height, width) pair.
    pub fn max_output_size(&self) -> (r: (u32, u32))
        ensures
            r == (self.target.height, self.target.width),
    {
        (self.target.height, self.target.width)
    }

    /// The script's render-time clock, as an IEEE-754 bit pattern.
    pub fn time(&self) -> (r: u32)
        ensures
            r == self.time_bits,
    {
        self.time_bits
    }

    /// Requests an output size, as a (height, width) pair. A zero
    /// dimension is refused outright. The request is recorded whenever it
    /// is nonzero — also when it fails recoverably because it exceeds the
    /// caller's buffer during the run phase — so the next pass can
    /// allocate correctly.
    pub fn set_output_size(&mut self, height: u32, width: u32) -> (r: Result<(), GolobulError>)
        ensures
            height == 0 || width == 0 ==> r == Result::<(), GolobulError>::Err(
                GolobulError::ZeroDimension,
            ) && *final(self) == *old(self),
            height > 0 && width > 0 ==> *final(self) == (PyContext {
                output_size_override: Some(OutputSize { width, height }),
                proxy: None,
                ..*old(self)
            }) && r == (if !old(self).is_in_setup && (height > old(self).target.height || width
                > old(self).target.width) {
                Result::<(), GolobulError>::Err(
                    GolobulError::OutputSizeTooLarge {
                        req: (height, width),
                        avail: (old(self).target.height, old(self).target.width),
                    },
                )
            } else {
                Result::<(), GolobulError>::Ok(())
            }),
    {
        if height == 0 || width == 0 {
            return Err(GolobulError::ZeroDimension);
        }
        self.output_size_override = Some(OutputSize { width, height });
        self.proxy = None;
        if self.is_in_setup {
            return Ok(());
        }
        if height > self.target.height || width > self.target.width {
            return Err(
                GolobulError::OutputSizeTooLarge {
                    req: (height, width),
                    avail: (self.target.height, self.target.width),
                },
            );
        }
        Ok(())
    }

    /// Makes the output buffer ready for the script's writes: nothing to
    /// do when the script renders at the caller's size; a zeroed proxy of
    /// the requested size otherwise. An oversized request fails
    /// recoverably.
    pub fn output(&mut self) -> (r: Result<(), GolobulError>)
        requires
            old(self).wf(),
        ensures
            final(self).wf(),
            *final(self) == (PyContext { proxy: final(self).proxy, ..*old(self) }),
            old(self).spec_oversized() ==> r == Result::<(), GolobulError>::Err(
                GolobulError::OutputSizeTooLarge {
                    req: (
                        old(self).output_size_override->0.height,
                        old(self).output_size_override->0.width,
                    ),
                    avail: (old(self).target.height, old(self).target.width),
                },
            ) && final(self).proxy == old(self).proxy,
            !old(self).spec_oversized() ==> r is Ok && (if old(self).spec_needs_proxy() {
                final(self).proxy matches Some(p) && p@ == (match old(self).proxy {
                    Some(q) => q@,
                    None => Seq::new(old(self).spec_effective_len() as nat, |i: int| 0u8),
                })
            } else {
                final(self).proxy is None
            }),
    {
        match self.output_size_override {
            None => Ok(()),
            Some(s) => {
                if s.height > self.target.height || s.width > self.target.width {
                    return Err(
                        GolobulError::OutputSizeTooLarge {
                            req: (s.height, s.width),
                            avail: (self.target.height, self.target.width),
                        },
                    );
                }
                if s.height == self.target.height && s.width == self.target.width {
                    return Ok(());
                }
                if self.proxy.is_some() {
                    return Ok(());
                }
                let bpp = self.target.fmt.bytes_per_pixel();
                let eh = s.height as usize;
                let ew = s.width as usize;
                let target_len: usize = self.target.data.len();
                proof {
                    lemma_effective_bounds(
                        eh as int,
                        ew as int,
                        bpp as int,
                        self.target.height as int,
                        self.target.width as int,
                        self.target.row_bytes(),
                        self.target.data@.len() as int,
                    );
                    assert(self.spec_effective_len() == (eh as int) * ((ew as int) * (
                    bpp as int)));
                }
                let len = eh * (ew * bpp);
                self.proxy = Some(filled_vec(len, 0));
                Ok(())
            },
        }
    }

    /// Replaces the script-visible output image with `bytes`, handed over
    /// tightly packed at the effective size: they land in the proxy when
    /// one is in force, else in the image bytes of the caller's buffer,
    /// whose row padding keeps its old values. Bytes of the wrong length
    /// are refused.
    pub fn write_output(&mut self, bytes: Vec<u8>) -> (r: Result<(), GolobulError>)
        requires
            old(self).wf(),
        ensures
            final(self).wf(),
            old(self).spec_oversized() ==> (r matches Err(e) && e matches
                GolobulError::OutputSizeTooLarge {
                ..
            }) && *final(self) == *old(self),
            !old(self).spec_oversized() && bytes@.len() != old(self).spec_effective_len() ==> (r
                matches Err(e) && e == (GolobulError::SizeMismatch {
                expected: old(self).spec_effective_len() as usize,
                found: bytes@.len() as usize,
            })) && *final(self) == (PyContext { proxy: final(self).proxy, ..*old(self) }),
            !old(self).spec_oversized() && bytes@.len() == old(self).spec_effective_len() ==> r
                is Ok && (if old(self).spec_needs_proxy() {
                final(self).proxy matches Some(p) && p@ == bytes@ && *final(self) == (PyContext {
                    proxy: final(self).proxy,
                    ..*old(self)
                })
            } else {
                final(self).proxy is None && *final(self) == (PyContext {
                    target: final(self).target,
                    ..*old(self)
                }) && final(self).target == (OutDesc {
                    data: final(self).target.data,
                    ..old(self).target
                }) && final(self).target.data@ == (if old(self).target.width > 0 && old(
                    self,
                ).target.height > 0 {
                    crate::blit::spec_implant(
                        old(self).target.data@,
                        old(self).target.row_bytes(),
                        0,
                        0,
                        bytes@,
                        old(self).target.height as int,
                        old(self).target.width as int
                            * old(self).target.fmt.spec_bytes_per_pixel(),
                    )
                } else {
                    old(self).target.data@
                })
            }),
    {
        let ghost old_self = *self;
        match self.output_size_override {
            Some(s) if s.height > self.target.height || s.width > self.target.width => {
                return Err(
                    GolobulError::OutputSizeTooLarge {
                        req: (s.height, s.width),
                        avail: (self.target.height, self.target.width),
                    },
                );
            },
            _ => {},
        }
        let bpp = self.target.fmt.bytes_per_pixel();
        let needs_proxy = match self.output_size_override {
            Some(s) => s.height != self.target.height || s.width != self.target.width,
            None => false,
        };
        let (eh, ew): (usize, usize) = match self.output_size_override {
            Some(s) => (s.height as usize, s.width as usize),
            None => (self.target.height as usize, self.target.width as usize),
        };
        let target_len: usize = self.target.data.len();
        proof {
            lemma_effective_bounds(
                eh as int,
                ew as int,
                bpp as int,
                self.target.height as int,
                self.target.width as int,
                self.target.row_bytes(),
                self.target.data@.len() as int,
            );
            assert(self.spec_effective_len() == (eh as int) * ((ew as int) * (bpp as int)));
        }
        let expected = eh * (ew * bpp);
        if bytes.len() != expected {
            // the refused write still acquires the output, as the script's
            // own output() call did before it handed over the wrong shape
            let _acquired = self.output();
            proof {
                assert(!old_self.spec_oversized());
            }
            return Err(GolobulError::SizeMismatch { expected, found: bytes.len() });
        }
        if needs_proxy {
            self.proxy = Some(bytes);
            Ok(())
        } else {
            if self.target.width == 0 || self.target.height == 0 {
                return Ok(());
            }
            let row: usize = match self.target.stride {
                Some(st) => st as usize,
                None => ew * bpp,
            };
            proof {
                assert((0 + eh) * row <= target_len) by (nonlinear_arith)
                    requires
                        target_len == row * eh,
                        row >= 0,
                        eh >= 0,
                ;
            }
            implant_rect(&mut self.target.data, row, 0, 0, &bytes, eh, ew * bpp);
            Ok(())
        }
    }

    /// Fills the script-visible output image with one byte value.
    pub fn fill_output(&mut self, value: u8) -> (r: Result<(), GolobulError>)
        requires
            old(self).wf(),
        ensures
            final(self).wf(),
            old(self).spec_oversized() ==> (r matches Err(e) && e matches
                GolobulError::OutputSizeTooLarge {
                ..
            }) && *final(self) == *old(self),
            !old(self).spec_oversized() ==> r is Ok && (if old(self).spec_needs_proxy() {
                (final(self).proxy matches Some(p) && p@ == Seq::new(
                    old(self).spec_effective_len() as nat,
                    |i: int| value,
                )) && *final(self) == (PyContext { proxy: final(self).proxy, ..*old(self) })
            } else {
                final(self).proxy is None && *final(self) == (PyContext {
                    target: final(self).target,
                    ..*old(self)
                }) && final(self).target == (OutDesc {
                    data: final(self).target.data,
                    ..old(self).target
                }) && final(self).target.data@ == (if old(self).target.width > 0 && old(
                    self,
                ).target.height > 0 {
                    crate::blit::spec_implant(
                        old(self).target.data@,
                        old(self).target.row_bytes(),
                        0,
                        0,
                        Seq::new(old(self).spec_effective_len() as nat, |i: int| value),
                        old(self).target.height as int,
                        old(self).target.width as int
                            * old(self).target.fmt.spec_bytes_per_pixel(),
                    )
                } else {
                    old(self).target.data@
                })
            }),
    {
        let bpp = self.target.fmt.bytes_per_pixel();
        let (eh, ew): (usize, usize) = match self.output_size_override {
            Some(s) => (s.height as usize, s.width as usize),
            None => (self.target.height as usize, self.target.width as usize),
        };
        match self.output_size_override {
            Some(s) if s.height > self.target.height || s.width > self.target.width => {
                return Err(
                    GolobulError::OutputSizeTooLarge {
                        req: (s.height, s.width),
                        avail: (self.target.height, self.target.width),
                    },
                );
            },
            _ => {},
        }
        let target_len: usize = self.target.data.len();
        proof {
            lemma_effective_bounds(
                eh as int,
                ew as int,
                bpp as int,
                self.target.height as int,
                self.target.width as int,
                self.target.row_bytes(),
                self.target.data@.len() as int,
            );
            assert(self.spec_effective_len() == (eh as int) * ((ew as int) * (bpp as int)));
        }
        let filled = filled_vec(eh * (ew * bpp), value);
        let r = self.write_output(filled);
        proof {
            assert(r is Ok);
        }
        Ok(())
    }

    /// Marks the pass as sequential; legal only during the declare phase.
    pub fn set_sequential_mode(&mut self, is_sequential: bool) -> (r: Result<(), GolobulError>)
        ensures
            old(self).is_in_setup ==> r is Ok && *final(self) == (PyContext {
                is_sequential_mode: is_sequential,
                ..*old(self)
            }),
            !old(self).is_in_setup ==> (r matches Err(e) && (e matches GolobulError::RuntimeError {
                stdout,
                ..
            } && stdout is None)) && *final(self) == *old(self),
    {
        if !self.is_in_setup {
            return Err(
                GolobulError::RuntimeError {
                    stderr: String::from_str("Cannot set sequential mode outside of setup"),
                    stdout: None,
                },
            );
        }
        self.is_sequential_mode = is_sequential;
        Ok(())
    }

    pub fn is_sequential_mode(&self) -> (r: bool)
        ensures
            r == self.is_sequential_mode,
    {
        self.is_sequential_mode
    }

    /// Toggles whether image inputs are normalized to RGBA order on the
    /// way in and the output restored to its native order on the way out.
    pub fn set_automatic_color_correction(&mut self, flag: bool)
        ensures
            *final(self) == (PyContext { uses_automatic_color_correction: flag, ..*old(self) }),
    {
        self.uses_automatic_color_correction = flag;
    }

    /// The size the script asked to render at, if it asked at all.
    pub fn output_size_requested(&self) -> (r: Option<OutputSize>)
        ensures
            r == self.output_size_override,
    {
        self.output_size_override
    }

    /// Rotates the caller buffer's channels into ARGB order in place,
    /// leaving row padding untouched. Run on completion for the formats
    /// that store alpha first.
    pub fn swizzle_output_to_argb(&mut self)
        requires
            old(self).wf(),
        ensures
            final(self).wf(),
            *final(self) == (PyContext { target: final(self).target, ..*old(self) }),
            final(self).target == (OutDesc { data: final(self).target.data, ..old(self).target }),
            final(self).target.data@ == (if old(self).target.width > 0 && old(self).target.height
                > 0 {
                spec_swizzle_strided(
                    old(self).target.data@,
                    old(self).target.width as int,
                    old(self).target.height as int,
                    old(self).target.row_bytes(),
                    old(self).target.fmt.spec_bytes_per_pixel() as int,
                )
            } else {
                old(self).target.data@
            }),
    {
        if self.target.width == 0 || self.target.height == 0 {
            return ;
        }
        let bpp = self.target.fmt.bytes_per_pixel();
        let e = bpp / 4;
        let w = self.target.width as usize;
        let h = self.target.height as usize;
        let data_len: usize = self.target.data.len();
        proof {
            assert(w * bpp <= self.target.row_bytes() && self.target.row_bytes() <= data_len && h
                * self.target.row_bytes() <= data_len && h * (w * bpp) <= h
                * self.target.row_bytes() && (h * w) * bpp == h * (w * bpp) && w * bpp >= bpp)
                by (nonlinear_arith)
                requires
                    self.target.row_bytes() >= w * bpp,
                    data_len == self.target.row_bytes() * h,
                    h >= 1,
                    w >= 1,
                    bpp >= 1,
            ;
        }
        let row: usize = match self.target.stride {
            Some(s) => s as usize,
            None => w * bpp,
        };
        let mut tight = extract_rect(&self.target.data, row, 0, 0, h, w * bpp);
        swizzle_tight(&mut tight, h * w, bpp, e, true);
        implant_rect(&mut self.target.data, row, 0, 0, &tight, h, w * bpp);
    }
}

/// True when the descriptor's layout is one a verified reader can index:
/// the executable counterpart of [`InDesc::laid_out`].
fn is_laid_out(desc: &InDesc) -> (r: bool)
    ensures
        r == desc.laid_out(),
{
    let bpp = desc.fmt.bytes_per_pixel();
    let row_size = (desc.width as u128) * (bpp as u128);
    let padded: u128 = match desc.stride {
        Some(s) => s as u128,
        None => row_size,
    };
    proof {
        assert((desc.width as u128) * (bpp as u128) <= 0xFFFF_FFFFu128 * 16) by (nonlinear_arith)
            requires
                (desc.width as u128) <= 0xFFFF_FFFFu128,
                (bpp as u128) <= 16,
        ;
        assert(padded * (desc.height as u128) <= 0xF_FFFF_FFF0u128 * 0xFFFF_FFFFu128)
            by (nonlinear_arith)
            requires
                padded <= 0xF_FFFF_FFF0u128,
                (desc.height as u128) <= 0xFFFF_FFFFu128,
        ;
    }
    desc.width > 0 && desc.height > 0 && padded >= row_size && (desc.data.len() as u128) == padded
        * (desc.height as u128)
}

} // verus!
