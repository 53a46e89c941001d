//! Bookkeeping for sequential background render jobs: the job status a
//! worker reports, the staging image buffers it renders from, and the
//! description of the frame sequence it writes.

use crate::desc::ImageFormat;
use crate::errors::GolobulError;
use vstd::prelude::*;
use vstd::string::StringExecFns;

verus! {

/// Where a background render job stands.
#[derive(Debug)]
pub enum TaskStatus {
    Done,
    Cancelled,
    Busy,
    Ready,
    Error { stdout: Option<String>, error: String },
}

impl TaskStatus {
    /// The status a failed render pass leaves a job in: a script failure
    /// carries its message and captured output; every other error carries
    /// its variant's name.
    pub fn from_error(e: GolobulError) -> (r: TaskStatus)
        ensures
            match e {
                GolobulError::RuntimeError { stderr, stdout } => r == (TaskStatus::Error {
                    stdout,
                    error: stderr,
                }),
                _ => r matches TaskStatus::Error { stdout, .. } && stdout is None,
            },
    {
        match e {
            GolobulError::RuntimeError { stderr, stdout } => TaskStatus::Error {
                stdout,
                error: stderr,
            },
            GolobulError::OutputSizeTooLarge { .. } => TaskStatus::Error {
                stdout: None,
                error: String::from_str("OutputSizeTooLarge"),
            },
            GolobulError::DllSearchError => TaskStatus::Error {
                stdout: None,
                error: String::from_str("DllSearchError"),
            },
            GolobulError::InvalidModule(m) => TaskStatus::Error { stdout: None, error: m },
            GolobulError::MissingSetup => TaskStatus::Error {
                stdout: None,
                error: String::from_str("MissingSetup"),
            },
            GolobulError::MissingRun => TaskStatus::Error {
                stdout: None,
                error: String::from_str("MissingRun"),
            },
            GolobulError::SizeMismatch { .. } => TaskStatus::Error {
                stdout: None,
                error: String::from_str("SizeMismatch"),
            },
            GolobulError::ZeroDimension => TaskStatus::Error {
                stdout: None,
                error: String::from_str("ZeroDimension"),
            },
            GolobulError::CastingError => TaskStatus::Error {
                stdout: None,
                error: String::from_str("CastingError"),
            },
            GolobulError::Noncontiguous => TaskStatus::Error {
                stdout: None,
                error: String::from_str("Noncontiguous"),
            },
            GolobulError::PathUpdateError => TaskStatus::Error {
                stdout: None,
                error: String::from_str("PathUpdateError"),
            },
            GolobulError::BoundError => TaskStatus::Error {
                stdout: None,
                error: String::from_str("BoundError"),
            },
            GolobulError::Asio => TaskStatus::Error {
                stdout: None,
                error: String::from_str("Asio"),
            },
            GolobulError::TypeMismatch => TaskStatus::Error {
                stdout: None,
                error: String::from_str("TypeMismatch"),
            },
            GolobulError::MissingVar(n) => TaskStatus::Error { stdout: None, error: n },
        }
    }
}

/// A staging copy of one named image input held for a background job.
#[derive(Debug)]
pub struct ImageBuffer {
    pub name: String,
    pub format: ImageFormat,
    pub data: Vec<u8>,
    pub width: u32,
    pub height: u32,
    pub stride: u32,
}

impl ImageBuffer {
    /// An empty placeholder buffer under `name`, to be filled by the
    /// host before the job renders.
    pub fn blank(name: String) -> (r: ImageBuffer)
        ensures
            r.name == name,
            r.format == ImageFormat::Argb8,
            r.data@ == Seq::<u8>::empty(),
            r.width == 0,
            r.height == 0,
            r.stride == 0,
    {
        ImageBuffer {
            name,
            format: ImageFormat::Argb8,
            data: Vec::new(),
            width: 0,
            height: 0,
            stride: 0,
        }
    }
}

/// Where a background job writes its frames, and at what size and format.
#[derive(Debug)]
pub struct OutputDesc {
    pub fmt: ImageFormat,
    pub directory: String,
    pub last_frame: u32,
    pub width: u32,
    pub height: u32,
}

impl OutputDesc {
    /// The byte length of one tightly packed output frame.
    pub fn buffer_len(&self) -> (r: usize)
        requires
            self.width * self.height * self.fmt.spec_bytes_per_pixel() <= usize::MAX,
        ensures
            r == self.width * self.height * self.fmt.spec_bytes_per_pixel(),
    {
        proof {
            assert((self.width as int) * (self.height as int) <= (self.width as int) * (self.height
                as int) * self.fmt.spec_bytes_per_pixel() && 0 <= (self.width as int) * (self.height
                as int)) by (nonlinear_arith)
                requires
                    self.fmt.spec_bytes_per_pixel() >= 1,
                    self.width >= 0,
                    self.height >= 0,
            ;
        }
        (self.width as usize) * (self.height as usize) * self.fmt.bytes_per_pixel()
    }
}

} // verus!
