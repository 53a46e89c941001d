use vstd::prelude::*;
use vstd::string::StringExecFns;

verus! {

/// The error taxonomy of the runner core.
///
/// Script-originated failures always carry whatever standard output the
/// script produced before failing, so the host can show both together.
#[derive(Debug)]
pub enum GolobulError {
    /// A run-phase size request exceeded the caller-provided buffer.
    /// Both pairs are (height, width). Recoverable: the request is
    /// remembered so the next pass can allocate correctly.
    OutputSizeTooLarge { req: (u32, u32), avail: (u32, u32) },
    /// The dynamic-library search path could not be updated.
    DllSearchError,
    /// The script source failed to compile or instantiate.
    InvalidModule(String),
    /// The loaded module was missing a callable `setup` entry point.
    MissingSetup,
    /// The loaded module was missing a callable `run` entry point.
    MissingRun,
    /// A failure raised while the script was executing; `stderr` is the
    /// formatted message, `stdout` whatever output was captured before it.
    RuntimeError { stderr: String, stdout: Option<String> },
    /// The output descriptor's data length does not match its dimensions.
    SizeMismatch { expected: usize, found: usize },
    /// The output descriptor has a zero width or height.
    ZeroDimension,
    /// A value could not be converted at the interpreter boundary.
    CastingError,
    /// A buffer view over noncontiguous memory was requested.
    Noncontiguous,
    /// The module search path could not be updated.
    PathUpdateError,
    /// An interpreter-side object could not be created.
    BoundError,
    /// The background execution channel failed.
    Asio,
    /// Adoption was attempted across two different parameter kinds.
    TypeMismatch,
    /// A value was set on a parameter name that is not registered.
    MissingVar(String),
}

/// Accumulates the text a script writes to standard output during one
/// declare- or run-phase invocation.
#[derive(Debug, Default)]
pub struct StdOutCatcher {
    pub output: Option<String>,
}

impl StdOutCatcher {
    /// A catcher that has seen no output yet.
    pub fn new() -> (r: StdOutCatcher)
        ensures
            r.output is None,
    {
        StdOutCatcher { output: None }
    }

    /// Appends one chunk of script output, starting the buffer on first use.
    pub fn write(&mut self, data: &str)
        ensures
            final(self).output is Some,
            final(self).output->0@ == match old(self).output {
                Some(prior) => prior@ + data@,
                None => data@,
            },
    {
        match &mut self.output {
            Some(out) => {
                out.append(data);
            }
            None => {
                self.output = Some(data.to_owned());
            }
        }
    }

    /// Surrenders the captured text, leaving the catcher empty.
    pub fn take(&mut self) -> (r: Option<String>)
        ensures
            r == old(self).output,
            final(self).output is None,
    {
        self.output.take()
    }
}

} // verus!
