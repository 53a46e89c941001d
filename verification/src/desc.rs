use crate::errors::GolobulError;
use vstd::prelude::*;

verus! {

/// The pixel formats a buffer may use: three element widths, each in
/// either RGBA or ARGB channel order. Every format carries four channels.
#[derive(Debug, Copy, Clone, PartialEq, Eq, Structural)]
pub enum ImageFormat {
    Rgba8,
    Argb8,
    Argb16ae,
    Rgba16,
    Argb32,
    Rgba32,
}

impl ImageFormat {
    /// Bytes of one whole pixel.
    pub open spec fn spec_bytes_per_pixel(&self) -> usize {
        match self {
            ImageFormat::Rgba8 | ImageFormat::Argb8 => 4usize,
            ImageFormat::Argb16ae | ImageFormat::Rgba16 => 8usize,
            ImageFormat::Argb32 | ImageFormat::Rgba32 => 16usize,
        }
    }

    #[verifier::when_used_as_spec(spec_bytes_per_pixel)]
    pub fn bytes_per_pixel(&self) -> (r: usize)
        ensures
            r == self.spec_bytes_per_pixel(),
    {
        match self {
            ImageFormat::Rgba8 | ImageFormat::Argb8 => 4,
            ImageFormat::Argb16ae | ImageFormat::Rgba16 => 8,
            ImageFormat::Argb32 | ImageFormat::Rgba32 => 16,
        }
    }

    /// True for the formats whose leading channel is alpha; these are the
    /// formats that color correction reorders at the script boundary.
    pub open spec fn spec_is_argb(&self) -> bool {
        match self {
            ImageFormat::Argb8 | ImageFormat::Argb16ae | ImageFormat::Argb32 => true,
            _ => false,
        }
    }

    #[verifier::when_used_as_spec(spec_is_argb)]
    pub fn is_argb(&self) -> (r: bool)
        ensures
            r == self.spec_is_argb(),
    {
        match self {
            ImageFormat::Argb8 | ImageFormat::Argb16ae | ImageFormat::Argb32 => true,
            _ => false,
        }
    }
}

/// A read-only image handed into one render pass: pixel bytes plus the
/// format, dimensions, and optional row stride describing their layout.
#[derive(Debug, Clone, PartialEq)]
pub struct InDesc {
    pub fmt: ImageFormat,
    pub data: Vec<u8>,
    pub width: u32,
    pub height: u32,
    /// Row pitch in bytes; `None` means tightly packed (`width` pixels).
    pub stride: Option<u32>,
}

/// The output image of one render pass. The buffer is surrendered to the
/// pass and handed back, possibly rewritten, when the pass completes.
#[derive(Debug, PartialEq)]
pub struct OutDesc {
    pub fmt: ImageFormat,
    pub data: Vec<u8>,
    pub width: u32,
    pub height: u32,
    /// Row pitch in bytes; `None` means tightly packed (`width` pixels).
    pub stride: Option<u32>,
}

/// Row pitch in bytes of a descriptor with the given layout fields.
pub open spec fn spec_row_bytes(fmt: ImageFormat, width: u32, stride: Option<u32>) -> int {
    match stride {
        Some(s) => s as int,
        None => width * fmt.spec_bytes_per_pixel(),
    }
}

/// A layout a verified writer can rely on: nonzero dimensions, a row
/// pitch that holds a whole row of pixels, and a data length that is
/// exactly the pitch times the height.
pub open spec fn spec_laid_out(
    fmt: ImageFormat,
    data: Seq<u8>,
    width: u32,
    height: u32,
    stride: Option<u32>,
) -> bool {
    &&& width > 0
    &&& height > 0
    &&& spec_row_bytes(fmt, width, stride) >= width * fmt.spec_bytes_per_pixel()
    &&& data.len() == spec_row_bytes(fmt, width, stride) * height
}

impl InDesc {
    pub open spec fn row_bytes(&self) -> int {
        spec_row_bytes(self.fmt, self.width, self.stride)
    }

    pub open spec fn laid_out(&self) -> bool {
        spec_laid_out(self.fmt, self.data@, self.width, self.height, self.stride)
    }
}

impl OutDesc {
    pub open spec fn row_bytes(&self) -> int {
        spec_row_bytes(self.fmt, self.width, self.stride)
    }

    pub open spec fn laid_out(&self) -> bool {
        spec_laid_out(self.fmt, self.data@, self.width, self.height, self.stride)
    }

    /// The placeholder descriptor bound to a declare-phase context, where
    /// no caller buffer exists yet.
    pub fn empty() -> (r: OutDesc)
        ensures
            r.fmt == ImageFormat::Rgba8,
            r.data@ == Seq::<u8>::empty(),
            r.width == 0,
            r.height == 0,
            r.stride is None,
    {
        OutDesc { fmt: ImageFormat::Rgba8, data: Vec::new(), width: 0, height: 0, stride: None }
    }

    /// The data length the descriptor's layout fields call for, saturated
    /// at the machine limit.
    pub open spec fn spec_expected_size(&self) -> int {
        let exact = self.row_bytes() * self.height;
        if exact > usize::MAX {
            usize::MAX as int
        } else {
            exact
        }
    }

    /// Checks the descriptor before any script code runs: both dimensions
    /// must be nonzero, the row pitch must hold a whole row, and the data
    /// length must be exactly the pitch times the height.
    pub fn is_well_structured(&self) -> (r: Result<(), GolobulError>)
        ensures
            r is Ok <==> self.laid_out(),
            self.width == 0 || self.height == 0 ==> r == Result::<(), GolobulError>::Err(
                GolobulError::ZeroDimension,
            ),
            self.width > 0 && self.height > 0 && !self.laid_out() ==> r == Result::<
                (),
                GolobulError,
            >::Err(
                GolobulError::SizeMismatch {
                    expected: self.spec_expected_size() as usize,
                    found: self.data.len(),
                },
            ),
    {
        let bytes_per_pixel = self.fmt.bytes_per_pixel();
        let row_size = (self.width as u128) * (bytes_per_pixel as u128);
        proof {
            assert((self.width as u128) * (bytes_per_pixel as u128) <= 0xFFFF_FFFFu128 * 16)
                by (nonlinear_arith)
                requires
                    (self.width as u128) <= 0xFFFF_FFFFu128,
                    (bytes_per_pixel as u128) <= 16,
            ;
        }
        let padded_row_size: u128 = match self.stride {
            Some(s) => s as u128,
            None => row_size,
        };
        proof {
            assert(padded_row_size * (self.height as u128) <= 0xF_FFFF_FFF0u128 * 0xFFFF_FFFFu128)
                by (nonlinear_arith)
                requires
                    padded_row_size <= 0xF_FFFF_FFF0u128,
                    (self.height as u128) <= 0xFFFF_FFFFu128,
            ;
        }
        let exact_size: u128 = padded_row_size * (self.height as u128);
        let expected_data_size: usize = if exact_size > usize::MAX as u128 {
            usize::MAX
        } else {
            exact_size as usize
        };

        if self.width == 0 || self.height == 0 {
            return Err(GolobulError::ZeroDimension);
        }

        if padded_row_size < row_size {
            return Err(
                GolobulError::SizeMismatch { expected: expected_data_size, found: self.data.len() },
            );
        }

        if (self.data.len() as u128) != exact_size {
            return Err(
                GolobulError::SizeMismatch { expected: expected_data_size, found: self.data.len() },
            );
        }

        Ok(())
    }
}

/// A script-requested render size; absent means "render at exactly the
/// size the caller provided".
#[derive(Debug, Clone, Copy, PartialEq, Eq, Structural)]
pub struct OutputSize {
    pub width: u32,
    pub height: u32,
}

/// The element type of the three-axis view an interpreter array presents
/// over a pixel buffer.
#[derive(Debug, Clone, Copy, PartialEq, Eq, Structural)]
pub enum ViewElement {
    /// One byte per channel.
    Byte,
    /// One 16-bit word per channel.
    Word,
    /// One 32-bit word per channel.
    Quad,
}

impl ImageFormat {
    /// The element type of this format's channels.
    pub open spec fn spec_view_element(&self) -> ViewElement {
        match self {
            ImageFormat::Rgba8 | ImageFormat::Argb8 => ViewElement::Byte,
            ImageFormat::Rgba16 | ImageFormat::Argb16ae => ViewElement::Word,
            ImageFormat::Argb32 | ImageFormat::Rgba32 => ViewElement::Quad,
        }
    }
}

/// The shape and byte strides of the `[height, width, channel]` view an
/// interpreter-side array presents over a buffer with this layout: one
/// row per `row_bytes`, one pixel per `bytes_per_pixel`, one channel per
/// quarter pixel, with the element type picked by the format.
pub fn view_layout(fmt: ImageFormat, width: u32, height: u32, stride: Option<u32>) -> (r: (
    [u64; 3],
    [u64; 3],
    ViewElement,
))
    ensures
        r.0@ == seq![height as u64, width as u64, 4u64],
        r.1@ == seq![
            spec_row_bytes(fmt, width, stride) as u64,
            fmt.spec_bytes_per_pixel() as u64,
            (fmt.spec_bytes_per_pixel() / 4) as u64,
        ],
        r.2 == fmt.spec_view_element(),
{
    let bytes_per_pixel = fmt.bytes_per_pixel() as u64;
    proof {
        assert((width as u64) * bytes_per_pixel <= 0xFFFF_FFFFu64 * 16) by (nonlinear_arith)
            requires
                (width as u64) <= 0xFFFF_FFFFu64,
                bytes_per_pixel <= 16,
        ;
    }
    let row: u64 = match stride {
        Some(s) => s as u64,
        None => (width as u64) * bytes_per_pixel,
    };
    let dims = [height as u64, width as u64, 4u64];
    let strides = [row, bytes_per_pixel, bytes_per_pixel / 4];
    let element = match fmt {
        ImageFormat::Rgba8 | ImageFormat::Argb8 => ViewElement::Byte,
        ImageFormat::Rgba16 | ImageFormat::Argb16ae => ViewElement::Word,
        ImageFormat::Argb32 | ImageFormat::Rgba32 => ViewElement::Quad,
    };
    proof {
        assert(dims@ =~= seq![height as u64, width as u64, 4u64]);
        assert(strides@ =~= seq![
            spec_row_bytes(fmt, width, stride) as u64,
            fmt.spec_bytes_per_pixel() as u64,
            (fmt.spec_bytes_per_pixel() / 4) as u64,
        ]);
    }
    (dims, strides, element)
}

} // verus!
