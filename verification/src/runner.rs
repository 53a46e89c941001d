//! The script runner: the per-instance state machine behind the two-phase
//! script contract. The embedding application compiles script modules and
//! invokes their entry points; this type makes every decision around those
//! invocations — validating modules and buffers, building the context a
//! phase runs against, committing or discarding state when a phase
//! completes or fails, and negotiating output sizes across passes.

use crate::blit::{blit_centered, spec_blit};
use crate::context::{spec_swizzle_strided, PyContext};
use crate::desc::{InDesc, OutDesc, OutputSize};
use crate::errors::GolobulError;
use crate::registry::{
    lemma_insert_keeps_unique_keys, map_entries, reg_entries, reg_get, reg_insert, reg_new,
    spec_entries_insert, spec_has_key, spec_key_index, spec_unique_keys, VarMap,
};
use crate::variant::{spec_adopt, Variant, VariantV};
use vstd::prelude::*;
use vstd::string::StringExecFns;

verus! {

/// What the application found when it compiled a script module.
#[derive(Debug)]
pub enum ModuleShape {
    /// The source failed to compile or instantiate; the payload is the
    /// interpreter's message.
    CompileFailed(String),
    /// The module compiled; the flags say whether callable `run` and
    /// `setup` entry points were found.
    Loaded { run_is_callable: bool, setup_is_callable: bool },
}

/// Which execution path served a run-phase invocation.
#[derive(Debug, Clone, Copy, PartialEq, Eq, Structural)]
pub enum ExecutionPath {
    /// The entry point returned its result immediately.
    Immediate,
    /// The entry point suspended and was driven to completion on the
    /// background execution thread.
    Background,
}

/// How a declare-phase invocation ended.
#[derive(Debug)]
pub enum SetupOutcome {
    Completed,
    Raised { stderr: String },
}

/// How a run-phase invocation ended.
#[derive(Debug)]
pub enum RunOutcome {
    Completed { path: ExecutionPath },
    Raised { stderr: String },
}

/// What one entry of the reconciled registry holds: the freshly declared
/// parameter, with the previously stored parameter's state adopted into
/// it where name and kind still agree.
pub open spec fn spec_reconciled(
    declared: Seq<(Seq<char>, VariantV)>,
    prior: Seq<(Seq<char>, VariantV)>,
) -> Seq<(Seq<char>, VariantV)> {
    declared.map_values(
        |p: (Seq<char>, VariantV)|
            (
                p.0,
                if spec_has_key(prior, p.0) {
                    match spec_adopt(p.1, prior[spec_key_index(prior, p.0)].1) {
                        Some(v) => v,
                        None => p.1,
                    }
                } else {
                    p.1
                },
            ),
    )
}

/// The caller-buffer bytes of a completed pass: the proxy, when one was
/// rendered into, blitted centered into the caller's buffer; then, for
/// the alpha-first formats under color correction, every pixel's channels
/// rotated back to ARGB order.
pub open spec fn spec_finalized_target(ctx: PyContext) -> Seq<u8> {
    let after_blit = match ctx.proxy {
        Some(p) => spec_blit(
            p@,
            ctx.spec_effective_dims().1,
            ctx.spec_effective_dims().0,
            ctx.target.data@,
            ctx.target.width as int,
            ctx.target.height as int,
            ctx.target.row_bytes(),
            ctx.target.fmt.spec_bytes_per_pixel() as int,
        ),
        None => ctx.target.data@,
    };
    if ctx.target.fmt.spec_is_argb() && ctx.uses_automatic_color_correction && ctx.target.width > 0
        && ctx.target.height > 0 {
        spec_swizzle_strided(
            after_blit,
            ctx.target.width as int,
            ctx.target.height as int,
            ctx.target.row_bytes(),
            ctx.target.fmt.spec_bytes_per_pixel() as int,
        )
    } else {
        after_blit
    }
}

/// The caller-buffer bytes a pass hands back for each way it can end:
/// a completed pass finalizes as [`spec_finalized_target`] describes —
/// through either execution path — and a failed pass hands the buffer
/// back untouched.
pub open spec fn spec_run_result_bytes(ctx: PyContext, outcome: RunOutcome) -> Seq<u8> {
    match outcome {
        RunOutcome::Completed { .. } => spec_finalized_target(ctx),
        RunOutcome::Raised { .. } => ctx.target.data@,
    }
}

/// Async equivalence: a suspendable run and an immediate run that reach
/// completion over the same context finalize byte-identical output; the
/// execution path that served the pass never touches the pixels.
pub proof fn lemma_async_equivalence(ctx: PyContext)
    ensures
        spec_run_result_bytes(ctx, RunOutcome::Completed { path: ExecutionPath::Immediate })
            == spec_run_result_bytes(
            ctx,
            RunOutcome::Completed { path: ExecutionPath::Background },
        ),
{
}

/// Relies on uuid's `Uuid::new_v4` and its simple formatting: a freshly
/// drawn random 128-bit module identity, rendered as 32 hexadecimal
/// characters. Nothing more is promised of a random value.
#[verifier::external_body]
pub fn fresh_module_identity() -> (r: String)
    ensures
        r@.len() == 32,
{
    uuid::Uuid::new_v4().simple().to_string()
}

/// One render pass being assembled: named inputs and the output buffer
/// they render into.
#[derive(Debug)]
pub struct RenderPass {
    pub inputs: Vec<(String, InDesc)>,
    pub output: OutDesc,
}

impl RenderPass {
    /// Loads `input` under `name`, replacing an input already loaded
    /// under that name and otherwise appending.
    pub fn load_input(&mut self, input: InDesc, name: &str)
        ensures
            final(self).output == old(self).output,
            final(self).inputs@ == (match crate::context::spec_input_index(
                old(self).inputs@,
                name@,
            ) {
                Some(i) => old(self).inputs@.update(i, (final(self).inputs@[i].0, input)),
                None => old(self).inputs@.push((final(self).inputs@[old(
                    self,
                ).inputs@.len() as int].0, input)),
            }),
            forall|i: int|
                0 <= i < final(self).inputs@.len() ==> #[trigger] final(self).inputs@[i].0@
                    == (if i < old(self).inputs@.len() {
                    old(self).inputs@[i].0@
                } else {
                    name@
                }),
    {
        let found = crate::context::find_input_index(&self.inputs, name);
        match found {
            Some(i) => {
                self.inputs[i] = (name.to_owned(), input);
                proof {
                    assert(final(self).inputs@ =~= old(self).inputs@.update(
                        i as int,
                        (final(self).inputs@[i as int].0, input),
                    ));
                }
            },
            None => {
                self.inputs.push((name.to_owned(), input));
            },
        }
    }

    /// Hands the assembled pass to the runner: checks the output
    /// descriptor before any script code runs and, when it is sound,
    /// builds the run-phase context the script executes against. On a
    /// malformed descriptor the buffer comes back untouched with the
    /// error.
    pub fn submit(self, runner: &PythonRunner) -> (r: Result<PyContext, (OutDesc, GolobulError)>)
        requires
            runner.wf(),
        ensures
            !self.output.laid_out() ==> (r matches Err((out, e)) && out == self.output && (e
                matches GolobulError::ZeroDimension || e matches GolobulError::SizeMismatch {
                ..
            })),
            self.output.laid_out() ==> (r matches Ok(ctx) && ctx.wf() && ctx.target == self.output
                && ctx.inputs == self.inputs && ctx.proxy is None && ctx.entries() == (
            if runner.initialized {
                runner.entries()
            } else {
                Seq::<(Seq<char>, VariantV)>::empty()
            }) && ctx.time_bits == runner.time_bits && ctx.output_size_override
                == runner.output_size && ctx.is_in_setup == !runner.initialized
                && ctx.is_sequential_mode == runner.is_sequential
                && ctx.uses_automatic_color_correction
                == runner.uses_automatic_color_correction),
    {
        match self.output.is_well_structured() {
            Err(e) => Err((self.output, e)),
            Ok(()) => {
                let registry = if runner.initialized {
                    crate::registry::reg_clone(&runner.registry)
                } else {
                    reg_new()
                };
                Ok(
                    PyContext::new(
                        self.output,
                        self.inputs,
                        registry,
                        runner.time_bits,
                        runner.output_size,
                        !runner.initialized,
                        runner.is_sequential,
                        runner.uses_automatic_color_correction,
                    ),
                )
            },
        }
    }
}

/// The runner state that persists across passes and reloads.
#[derive(Debug)]
pub struct PythonRunner {
    /// The unique module name the current script is loaded under, once a
    /// load has succeeded; the application evicts it from the module
    /// cache before loading a replacement.
    pub module_identity: Option<String>,
    /// The parameters the current script declared, with adopted state.
    pub registry: VarMap,
    /// Host-set render time, as an IEEE-754 bit pattern.
    pub time_bits: u32,
    /// The script's remembered output-size request.
    pub output_size: Option<OutputSize>,
    /// Auxiliary module search path; applied at the next load.
    pub pyenv_path: Option<String>,
    /// The loaded script's parent directory; applied at the next load.
    pub script_parent_directory: Option<String>,
    pub is_sequential: bool,
    pub uses_automatic_color_correction: bool,
    /// True once a declare phase has completed for the loaded module.
    pub initialized: bool,
}

impl PythonRunner {
    /// The registered parameters, by name, in registration order.
    pub open spec fn entries(&self) -> Seq<(Seq<char>, VariantV)> {
        map_entries(self.registry)
    }

    /// Parameter names never repeat, and a remembered size request never
    /// holds a zero dimension.
    pub open spec fn wf(&self) -> bool {
        &&& spec_unique_keys(self.entries())
        &&& (self.output_size matches Some(s) ==> s.width > 0 && s.height > 0)
    }

    /// Begins assembling a render pass against the given output buffer.
    pub fn create_render_pass(&self, output: OutDesc) -> (r: RenderPass)
        ensures
            r.output == output,
            r.inputs@.len() == 0,
    {
        RenderPass { inputs: Vec::new(), output }
    }

    /// Records the auxiliary module search path; it takes effect at the
    /// next script load, never for the currently loaded script.
    pub fn set_venv_path(&mut self, path: String)
        ensures
            *final(self) == (PythonRunner { pyenv_path: Some(path), ..*old(self) }),
    {
        self.pyenv_path = Some(path);
    }

    /// Clears the auxiliary module search path for the next load.
    pub fn clear_venv_path(&mut self) -> (r: Result<(), GolobulError>)
        ensures
            r is Ok,
            *final(self) == (PythonRunner { pyenv_path: None, ..*old(self) }),
    {
        self.pyenv_path = None;
        Ok(())
    }

    /// Records the script's parent directory as a module search path for
    /// the next load.
    pub fn set_script_parent_directory(&mut self, path: String)
        ensures
            *final(self) == (PythonRunner { script_parent_directory: Some(path), ..*old(self) }),
    {
        self.script_parent_directory = Some(path);
    }

    /// Clears the script-parent-directory search path for the next load.
    pub fn clear_script_parent_directory(&mut self) -> (r: Result<(), GolobulError>)
        ensures
            r is Ok,
            *final(self) == (PythonRunner { script_parent_directory: None, ..*old(self) }),
    {
        self.script_parent_directory = None;
        Ok(())
    }

    /// Sets the render time handed to the next pass (an IEEE-754 bit
    /// pattern).
    pub fn set_time(&mut self, time_bits: u32)
        ensures
            *final(self) == (PythonRunner { time_bits, ..*old(self) }),
    {
        self.time_bits = time_bits;
    }

    /// The size the script asked to render at; a caller that respects it
    /// avoids the proxy-buffer allocation on the next pass.
    pub fn requested_output_resize(&self) -> (r: Option<OutputSize>)
        ensures
            r == self.output_size,
    {
        self.output_size
    }

    /// True when the script flagged itself sequential during setup.
    pub fn is_sequential(&self) -> (r: bool)
        ensures
            r == self.is_sequential,
    {
        self.is_sequential
    }

    /// The registered parameters, cloned, in registration order.
    pub fn iter_inputs(&self) -> (r: Vec<(String, Variant)>)
        ensures
            r@.len() == self.entries().len(),
            forall|i: int|
                0 <= i < r@.len() ==> r@[i].0@ == self.entries()[i].0 && #[trigger] r@[i].1@
                    == self.entries()[i].1,
    {
        let r = reg_entries(&self.registry);
        proof {
            assert forall|i: int|
                0 <= i < r@.len() implies r@[i].0@ == self.entries()[i].0 && #[trigger] r@[i].1@
                == self.entries()[i].1 by {
                assert(r@[i].0@ == map_entries(self.registry)[i].0 && r@[i].1@ == map_entries(
                    self.registry,
                )[i].1);
            }
        }
        r
    }

    /// Overwrites the parameter stored under `name` with the given
    /// state, without adoption checks: the host UI writes slider state
    /// back this way. An unregistered name fails with `MissingVar`.
    pub fn set_var_direct(&mut self, name: &str, value: Variant) -> (r: Result<(), GolobulError>)
        requires
            old(self).wf(),
        ensures
            final(self).wf(),
            *final(self) == (PythonRunner { registry: final(self).registry, ..*old(self) }),
            !spec_has_key(old(self).entries(), name@) ==> (r matches Err(e) && e matches
                GolobulError::MissingVar(n) && n@ == name@) && final(self).entries() == old(
                self,
            ).entries(),
            spec_has_key(old(self).entries(), name@) ==> r is Ok && final(self).entries() == old(
                self,
            ).entries().update(
                spec_key_index(old(self).entries(), name@),
                (old(self).entries()[spec_key_index(old(self).entries(), name@)].0, value@),
            ),
    {
        let ghost entries0 = self.entries();
        let current: Option<&Variant> = reg_get(&self.registry, name);
        match current {
            None => Err(GolobulError::MissingVar(name.to_owned())),
            Some(_) => {
                proof {
                    lemma_insert_keeps_unique_keys(entries0, name@, value@);
                    assert(entries0[spec_key_index(entries0, name@)].0 == name@);
                }
                reg_insert(&mut self.registry, name.to_owned(), value);
                proof {
                    let idx = spec_key_index(entries0, name@);
                    assert(self.entries() =~= entries0.update(idx, (entries0[idx].0, value@)));
                }
                Ok(())
            },
        }
    }

    /// Sets the parameter registered under `name` through the adoption
    /// rules: the stored parameter adopts `value`, so a value of the
    /// wrong kind fails with `TypeMismatch` and an out-of-range value
    /// quietly leaves the stored state in place. An unregistered name
    /// fails with `MissingVar`.
    pub fn try_set_var(&mut self, name: &str, value: Variant) -> (r: Result<(), GolobulError>)
        requires
            old(self).wf(),
        ensures
            final(self).wf(),
            *final(self) == (PythonRunner { registry: final(self).registry, ..*old(self) }),
            !spec_has_key(old(self).entries(), name@) ==> (r matches Err(e) && e matches
                GolobulError::MissingVar(n) && n@ == name@) && final(self).entries() == old(
                self,
            ).entries(),
            spec_has_key(old(self).entries(), name@) ==> {
                let idx = spec_key_index(old(self).entries(), name@);
                match spec_adopt(old(self).entries()[idx].1, value@) {
                    Some(v) => r is Ok && final(self).entries() == old(self).entries().update(
                        idx,
                        (old(self).entries()[idx].0, v),
                    ),
                    None => (r matches Err(e) && e is TypeMismatch) && final(self).entries()
                        == old(self).entries(),
                }
            },
    {
        let ghost entries0 = self.entries();
        let current: Option<&Variant> = reg_get(&self.registry, name);
        match current {
            None => Err(GolobulError::MissingVar(name.to_owned())),
            Some(entry) => {
                let mut adopted = entry.clone();
                match adopted.adopt(&value) {
                    Err(e) => Err(e),
                    Ok(()) => {
                        proof {
                            lemma_insert_keeps_unique_keys(entries0, name@, adopted@);
                            assert(entries0[spec_key_index(entries0, name@)].0 == name@);
                        }
                        reg_insert(&mut self.registry, name.to_owned(), adopted);
                        proof {
                            let idx = spec_key_index(entries0, name@);
                            assert(self.entries() =~= entries0.update(
                                idx,
                                (entries0[idx].0, adopted@),
                            ));
                        }
                        Ok(())
                    },
                }
            },
        }
    }

    /// Validates a freshly compiled module and, when it has both entry
    /// points, hands back the declare-phase context its `setup` runs
    /// against: empty registry, placeholder output, and the runner's
    /// remembered size request and mode flags. A module that failed to
    /// compile, or lacks a callable `run` or `setup`, is rejected with
    /// the matching error, and the runner keeps its current state.
    pub fn begin_setup(&self, shape: ModuleShape) -> (r: Result<PyContext, GolobulError>)
        requires
            self.wf(),
        ensures
            match shape {
                ModuleShape::CompileFailed(m) => r matches Err(e) && e
                    == GolobulError::InvalidModule(m),
                ModuleShape::Loaded { run_is_callable, setup_is_callable } => {
                    if !run_is_callable {
                        r matches Err(e) && e is MissingRun
                    } else if !setup_is_callable {
                        r matches Err(e) && e is MissingSetup
                    } else {
                        r matches Ok(ctx) && ctx.wf() && ctx.entries() == Seq::<
                            (Seq<char>, VariantV),
                        >::empty() && ctx.target.width == 0 && ctx.target.height == 0
                            && ctx.target.data@.len() == 0 && ctx.inputs@.len() == 0 && ctx.proxy
                            is None && ctx.time_bits == self.time_bits
                            && ctx.output_size_override == self.output_size && ctx.is_in_setup
                            && ctx.is_sequential_mode == self.is_sequential
                            && ctx.uses_automatic_color_correction
                            == self.uses_automatic_color_correction
                    }
                },
            },
    {
        match shape {
            ModuleShape::CompileFailed(m) => Err(GolobulError::InvalidModule(m)),
            ModuleShape::Loaded { run_is_callable, setup_is_callable } => {
                if !run_is_callable {
                    return Err(GolobulError::MissingRun);
                }
                if !setup_is_callable {
                    return Err(GolobulError::MissingSetup);
                }
                Ok(
                    PyContext::new(
                        OutDesc::empty(),
                        Vec::new(),
                        reg_new(),
                        self.time_bits,
                        self.output_size,
                        true,
                        self.is_sequential,
                        self.uses_automatic_color_correction,
                    ),
                )
            },
        }
    }

    /// Commits or discards a declare phase. On success the runner adopts
    /// compatible prior parameter state into the freshly declared
    /// registry, records the context's size request and mode flags,
    /// stores the new module identity, marks itself initialized, and
    /// hands back the captured output. On failure it stays exactly as it
    /// was and surfaces the error with whatever output was captured.
    pub fn complete_setup(
        &mut self,
        ctx: PyContext,
        outcome: SetupOutcome,
        stdout: Option<String>,
        identity: String,
    ) -> (r: Result<Option<String>, GolobulError>)
        requires
            old(self).wf(),
            ctx.wf(),
            spec_unique_keys(ctx.entries()),
        ensures
            final(self).wf(),
            match outcome {
                SetupOutcome::Raised { stderr } => (r matches Err(e) && e
                    == (GolobulError::RuntimeError { stderr, stdout })) && *final(self) == *old(
                    self,
                ),
                SetupOutcome::Completed => r == Result::<Option<String>, GolobulError>::Ok(stdout)
                    && final(self).entries() == spec_reconciled(ctx.entries(), old(self).entries())
                    && *final(self) == (PythonRunner {
                    module_identity: Some(identity),
                    registry: final(self).registry,
                    output_size: ctx.output_size_override,
                    is_sequential: ctx.is_sequential_mode,
                    uses_automatic_color_correction: ctx.uses_automatic_color_correction,
                    initialized: true,
                    ..*old(self)
                }),
            },
    {
        match outcome {
            SetupOutcome::Raised { stderr } => Err(GolobulError::RuntimeError { stderr, stdout }),
            SetupOutcome::Completed => {
                let ghost declared = ctx.entries();
                let ghost prior = self.entries();
                let ghost target = spec_reconciled(declared, prior);
                let pairs = reg_entries(&ctx.registry);
                proof {
                    assert forall|j: int|
                        0 <= j < pairs@.len() implies pairs@[j].0@ == declared[j].0
                        && #[trigger] pairs@[j].1@ == declared[j].1 by {
                        assert(pairs@[j].0@ == map_entries(ctx.registry)[j].0 && pairs@[j].1@
                            == map_entries(ctx.registry)[j].1);
                    }
                }
                let mut fresh = reg_new();
                let mut i: usize = 0;
                let n = pairs.len();
                while i < n
                    invariant
                        n == pairs@.len(),
                        pairs@.len() == declared.len(),
                        0 <= i <= n,
                        spec_unique_keys(declared),
                        spec_unique_keys(prior),
                        forall|j: int|
                            0 <= j < n ==> pairs@[j].0@ == declared[j].0 && #[trigger] pairs@[j].1@
                                == declared[j].1,
                        target == spec_reconciled(declared, prior),
                        prior == self.entries(),
                        map_entries(fresh).len() == i,
                        forall|j: int| 0 <= j < i ==> #[trigger] map_entries(fresh)[j] == target[j],
                    decreases n - i,
                {
                    let name = pairs[i].0.clone();
                    let mut value = pairs[i].1.clone();
                    match reg_get(&self.registry, name.as_str()) {
                        Some(old_entry) => {
                            let _ = value.adopt(old_entry);
                        },
                        None => {},
                    }
                    proof {
                        assert(target[i as int].0 == declared[i as int].0);
                        assert(target[i as int].1 == value@);
                        assert(!spec_has_key(map_entries(fresh), name@)) by {
                            if spec_has_key(map_entries(fresh), name@) {
                                let j = spec_key_index(map_entries(fresh), name@);
                                assert(map_entries(fresh)[j] == target[j]);
                                assert(declared[j].0 == declared[i as int].0);
                                assert(j < i as int);
                                assert(false);
                            }
                        }
                    }
                    reg_insert(&mut fresh, name, value);
                    i = i + 1;
                    proof {
                        assert forall|j: int|
                            0 <= j < i implies #[trigger] map_entries(fresh)[j] == target[j] by {}
                    }
                }
                proof {
                    assert(map_entries(fresh) =~= target);
                    assert forall|a: int, b: int|
                        0 <= a < b < target.len() implies target[a].0 != target[b].0 by {
                        assert(declared[a].0 != declared[b].0);
                    }
                }
                self.registry = fresh;
                self.output_size = ctx.output_size_requested();
                self.is_sequential = ctx.is_sequential_mode();
                self.uses_automatic_color_correction = ctx.uses_automatic_color_correction;
                self.initialized = true;
                self.module_identity = Some(identity);
                Ok(stdout)
            },
        }
    }
}

impl PythonRunner {
    /// Commits or discards a run phase and hands the caller's buffer
    /// back. A completed pass finalizes the buffer as
    /// [`spec_finalized_target`] describes and records the script's size
    /// request. A failed pass leaves the buffer and the runner untouched,
    /// except that a failure under an oversized size request records the
    /// request — so the next pass can allocate correctly — and surfaces
    /// the recoverable `OutputSizeTooLarge` with the exact requested and
    /// available dimensions; any other failure surfaces `RuntimeError`
    /// with the captured output attached.
    pub fn complete_run(&mut self, ctx: PyContext, outcome: RunOutcome, stdout: Option<String>)
        -> (r: (OutDesc, Result<Option<String>, GolobulError>))
        requires
            old(self).wf(),
            ctx.wf(),
        ensures
            final(self).wf(),
            r.0 == (OutDesc { data: r.0.data, ..ctx.target }),
            r.0.data@ == spec_run_result_bytes(ctx, outcome),
            match outcome {
                RunOutcome::Raised { stderr } => {
                    if ctx.spec_oversized() {
                        (r.1 matches Err(e) && e == (GolobulError::OutputSizeTooLarge {
                            req: (
                                ctx.output_size_override->0.height,
                                ctx.output_size_override->0.width,
                            ),
                            avail: (ctx.target.height, ctx.target.width),
                        })) && *final(self) == (PythonRunner {
                            output_size: ctx.output_size_override,
                            ..*old(self)
                        })
                    } else {
                        (r.1 matches Err(e) && e == (GolobulError::RuntimeError { stderr, stdout }))
                            && *final(self) == *old(self)
                    }
                },
                RunOutcome::Completed { .. } => r.1 == Result::<Option<String>, GolobulError>::Ok(
                    stdout,
                ) && *final(self) == (PythonRunner {
                    output_size: (match ctx.output_size_override {
                        Some(s) => Some(s),
                        None => old(self).output_size,
                    }),
                    ..*old(self)
                }),
            },
    {
        match outcome {
            RunOutcome::Raised { stderr } => {
                let oversized = match ctx.output_size_override {
                    Some(s) => s.width > ctx.target.width || s.height > ctx.target.height,
                    None => false,
                };
                if oversized {
                    let s = match ctx.output_size_override {
                        Some(s) => s,
                        None => OutputSize { width: 0, height: 0 },
                    };
                    self.output_size = Some(s);
                    let err = GolobulError::OutputSizeTooLarge {
                        req: (s.height, s.width),
                        avail: (ctx.target.height, ctx.target.width),
                    };
                    (ctx.target, Err(err))
                } else {
                    (ctx.target, Err(GolobulError::RuntimeError { stderr, stdout }))
                }
            },
            RunOutcome::Completed { .. } => {
                let ghost ctx0 = ctx;
                let mut ctx = ctx;
                let proxy_taken = ctx.proxy.take();
                match proxy_taken {
                    Some(p) => {
                        let s = match ctx.output_size_override {
                            Some(s) => s,
                            None => OutputSize { width: 0, height: 0 },
                        };
                        let bpp = ctx.target.fmt.bytes_per_pixel();
                        let tw = ctx.target.width as usize;
                        let th = ctx.target.height as usize;
                        let target_len: usize = ctx.target.data.len();
                        proof {
                            assert(tw * bpp <= ctx.target.row_bytes() && ctx.target.row_bytes()
                                <= target_len && ctx.target.row_bytes() * th <= target_len)
                                by (nonlinear_arith)
                                requires
                                    ctx.target.row_bytes() >= tw * bpp,
                                    target_len == ctx.target.row_bytes() * th,
                                    tw >= 1,
                                    th >= 1,
                                    bpp >= 1,
                            ;
                        }
                        let row: usize = match ctx.target.stride {
                            Some(st) => st as usize,
                            None => tw * bpp,
                        };
                        proof {
                            assert(target_len == th * row) by (nonlinear_arith)
                                requires
                                    target_len == row * th,
                            ;
                        }
                        blit_centered(
                            &p,
                            s.width as usize,
                            s.height as usize,
                            &mut ctx.target.data,
                            tw,
                            th,
                            row,
                            bpp,
                        );
                    },
                    None => {},
                }
                if ctx.target.fmt.is_argb() && ctx.uses_automatic_color_correction {
                    ctx.swizzle_output_to_argb();
                }
                proof {
                    assert(ctx.target.data@ == spec_finalized_target(ctx0));
                }
                match ctx.output_size_requested() {
                    Some(s) => {
                        self.output_size = Some(s);
                    },
                    None => {},
                }
                (ctx.target, Ok(stdout))
            },
        }
    }
}

/// Identity round-trip: for a tightly packed RGBA image, normalization
/// at the script boundary hands the script exactly the stored bytes;
/// writing those bytes back fills the caller's equally-sized buffer with
/// exactly them; and finalizing a pass that needed no proxy and no
/// channel reorder hands them back unchanged. A script that copies its
/// input verbatim therefore reproduces the input byte for byte.
pub proof fn lemma_identity_round_trip(
    input: Seq<u8>,
    target0: Seq<u8>,
    w: int,
    h: int,
    bpp: int,
    ctx: PyContext,
)
    requires
        w > 0,
        h > 0,
        bpp > 0,
        input.len() == h * (w * bpp),
        target0.len() == h * (w * bpp),
        ctx.proxy is None,
        !ctx.target.fmt.spec_is_argb() || !ctx.uses_automatic_color_correction,
        ctx.target.data@ == input,
    ensures
        crate::context::spec_normalized_bytes(input, w, h, w * bpp, bpp, false) == input,
        crate::blit::spec_implant(target0, w * bpp, 0, 0, input, h, w * bpp) == input,
        spec_finalized_target(ctx) == input,
{
    let row = w * bpp;
    let ext = crate::blit::spec_extract(input, row, 0, 0, h, row);
    assert forall|k: int| 0 <= k < ext.len() implies ext[k] == input[k] by {
        vstd::arithmetic::div_mod::lemma_fundamental_div_mod(k, row);
        assert(row * (k / row) == (k / row) * row) by (nonlinear_arith);
        assert((0 + k / row) * row + 0 + k % row == k);
    }
    assert(ext =~= input);

    let imp = crate::blit::spec_implant(target0, row, 0, 0, input, h, row);
    assert forall|i: int| 0 <= i < imp.len() implies imp[i] == input[i] by {
        let y = i / row;
        let rr = i % row;
        assert(0 <= y < h && 0 <= rr < row) by (nonlinear_arith)
            requires
                0 <= i < h * row,
                row > 0,
                y == i / row,
                rr == i % row,
        ;
        vstd::arithmetic::div_mod::lemma_fundamental_div_mod(i, row);
        assert(row * y == y * row) by (nonlinear_arith);
        assert((y - 0) * row + (rr - 0) == i);
    }
    assert(imp =~= input);
}

impl Default for PythonRunner {
    /// A runner with no script loaded: empty registry, no size request,
    /// color correction on, and nothing initialized.
    fn default() -> (r: PythonRunner)
        ensures
            r.wf(),
            r.module_identity is None,
            r.entries() == Seq::<(Seq<char>, VariantV)>::empty(),
            r.time_bits == 0,
            r.output_size is None,
            r.pyenv_path is None,
            r.script_parent_directory is None,
            !r.is_sequential,
            r.uses_automatic_color_correction,
            !r.initialized,
    {
        PythonRunner {
            module_identity: None,
            registry: reg_new(),
            time_bits: 0,
            output_size: None,
            pyenv_path: None,
            script_parent_directory: None,
            is_sequential: false,
            uses_automatic_color_correction: true,
            initialized: false,
        }
    }
}

} // verus!
