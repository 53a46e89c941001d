//! The built-in fallback behavior used when no user script is loaded:
//! the declare phase registers a single image input named `input`, and
//! the run phase copies that input to the output at the input's own
//! size, or fills the output with zeros when no input is loaded.

use crate::context::{
    spec_input_index, spec_lookup, spec_normalized_bytes, InputValue, PyContext,
};
use crate::desc::OutputSize;
use crate::errors::GolobulError;
use crate::registry::spec_entries_insert;
use crate::variant::{DiscreteCfg, Image, VariantV};
use vstd::prelude::*;

verus! {

/// The name of the fallback script's one image input.
pub open spec fn spec_input_name() -> Seq<char> {
    "input"@
}

/// The declare phase of the fallback script: registers the image input.
pub fn setup(ctx: &mut PyContext) -> (r: Result<(), GolobulError>)
    ensures
        old(ctx).is_in_setup ==> r is Ok && final(ctx).entries() == spec_entries_insert(
            old(ctx).entries(),
            spec_input_name(),
            VariantV::Image(DiscreteCfg { current: Image::Input, default: Image::Input }),
        ),
        !old(ctx).is_in_setup ==> r is Err && final(ctx).entries() == old(ctx).entries(),
{
    ctx.register_image_input("input")
}

/// The normalized image the fallback run phase reads, when one is
/// available: the input loaded under `input`, provided that name is
/// registered as an image slot and the descriptor is soundly laid out.
pub open spec fn spec_fallback_image(ctx: PyContext) -> Option<(u32, u32, int, Seq<u8>)> {
    match spec_lookup(ctx.entries(), spec_input_name()) {
        Some(VariantV::Image(_)) => match spec_input_index(ctx.inputs@, spec_input_name()) {
            Some(i) => {
                let desc = ctx.inputs@[i].1;
                if desc.laid_out() {
                    Some(
                        (
                            desc.width,
                            desc.height,
                            desc.fmt.spec_bytes_per_pixel() as int,
                            spec_normalized_bytes(
                                desc.data@,
                                desc.width as int,
                                desc.height as int,
                                desc.row_bytes(),
                                desc.fmt.spec_bytes_per_pixel() as int,
                                ctx.uses_automatic_color_correction && desc.fmt.spec_is_argb(),
                            ),
                        ),
                    )
                } else {
                    None
                }
            },
            None => None,
        },
        _ => None,
    }
}

/// The run phase of the fallback script. With an image input loaded, it
/// requests the input's size and writes the normalized input bytes as
/// the output, which lands in a proxy when that size differs from the
/// caller's; an input larger than the caller's buffer fails recoverably,
/// and an input whose pixel width differs from the output's is refused
/// as a size mismatch. With no image input, the output is zero-filled at
/// the effective size.
pub fn run(ctx: &mut PyContext) -> (r: Result<(), GolobulError>)
    requires
        old(ctx).wf(),
        !old(ctx).is_in_setup,
    ensures
        final(ctx).wf(),
        match spec_fallback_image(*old(ctx)) {
            Some((w, h, bpp, bytes)) => {
                if h > old(ctx).target.height || w > old(ctx).target.width {
                    (r matches Err(e) && e == (GolobulError::OutputSizeTooLarge {
                        req: (h, w),
                        avail: (old(ctx).target.height, old(ctx).target.width),
                    })) && final(ctx).output_size_override == Some(OutputSize { width: w, height: h })
                } else {
                    final(ctx).output_size_override == Some(OutputSize { width: w, height: h })
                        && (if bpp == old(ctx).target.fmt.spec_bytes_per_pixel() {
                        r is Ok && (if w == old(ctx).target.width && h == old(ctx).target.height {
                            final(ctx).proxy is None && final(ctx).target.data@
                                == crate::blit::spec_implant(
                                old(ctx).target.data@,
                                old(ctx).target.row_bytes(),
                                0,
                                0,
                                bytes,
                                h as int,
                                w as int * bpp,
                            )
                        } else {
                            final(ctx).proxy matches Some(p) && p@ == bytes
                        })
                    } else {
                        r matches Err(e) && e matches GolobulError::SizeMismatch { .. }
                    })
                }
            },
            None => {
                if old(ctx).spec_oversized() {
                    r matches Err(e) && e matches GolobulError::OutputSizeTooLarge { .. }
                } else {
                    r is Ok && (if old(ctx).spec_needs_proxy() {
                        final(ctx).proxy matches Some(p) && p@ == Seq::new(
                            old(ctx).spec_effective_len() as nat,
                            |i: int| 0u8,
                        )
                    } else {
                        final(ctx).proxy is None && final(ctx).target.data@ == (if old(
                            ctx,
                        ).target.width > 0 && old(ctx).target.height > 0 {
                            crate::blit::spec_implant(
                                old(ctx).target.data@,
                                old(ctx).target.row_bytes(),
                                0,
                                0,
                                Seq::new(old(ctx).spec_effective_len() as nat, |i: int| 0u8),
                                old(ctx).target.height as int,
                                old(ctx).target.width as int
                                    * old(ctx).target.fmt.spec_bytes_per_pixel(),
                            )
                        } else {
                            old(ctx).target.data@
                        })
                    })
                }
            },
        },
{
    let looked = ctx.get_input("input");
    match looked {
        Some(InputValue::Image(image)) => {
            let ghost w = image.width;
            let ghost h = image.height;
            let ghost bpp_in = image.fmt.spec_bytes_per_pixel() as int;
            let ghost bpp_out = ctx.target.fmt.spec_bytes_per_pixel() as int;
            proof {
                assert(spec_fallback_image(*ctx) matches Some(t) && t.0 == w && t.1 == h && t.2
                    == bpp_in && t.3 == image.data@);
                assert(0 <= (h as int) * ((w as int) * bpp_in)) by (nonlinear_arith)
                    requires
                        h >= 0,
                        w >= 0,
                        bpp_in >= 0,
                ;
                assert(image.data@.len() == (h as int) * ((w as int) * bpp_in));
                if bpp_in != bpp_out {
                    assert((h as int) * ((w as int) * bpp_in) != (h as int) * ((w as int)
                        * bpp_out)) by (nonlinear_arith)
                        requires
                            h >= 1,
                            w >= 1,
                            bpp_in >= 1,
                            bpp_out >= 1,
                            bpp_in != bpp_out,
                    ;
                }
            }
            match ctx.set_output_size(image.height, image.width) {
                Err(e) => Err(e),
                Ok(()) => {
                    proof {
                        assert(ctx.wf());
                        assert(ctx.spec_effective_dims() == (h as int, w as int));
                        assert(ctx.spec_effective_len() == (h as int) * ((w as int) * bpp_out));
                    }
                    ctx.write_output(image.data)
                },
            }
        },
        _ => ctx.fill_output(0),
    }
}

} // verus!
