use golob_lib::default_script;
use golob_lib::{
    Cfg, DiscreteCfg, ExecutionPath, GolobulError, Image, ImageFormat, InDesc, ModuleShape,
    OutDesc, OutputSize, PythonRunner, RunOutcome, SetupOutcome, StdOutCatcher, Variant,
};

fn well_formed_module() -> ModuleShape {
    ModuleShape::Loaded {
        run_is_callable: true,
        setup_is_callable: true,
    }
}

/// Loads the built-in fallback script: registers the image input named
/// `input` during the declare phase and commits it.
fn load_identity_script(runner: &mut PythonRunner) -> Option<String> {
    let mut ctx = runner.begin_setup(well_formed_module()).unwrap();
    default_script::setup(&mut ctx).unwrap();
    runner
        .complete_setup(ctx, SetupOutcome::Completed, None, "identity".to_owned())
        .unwrap()
}

fn identity_pass(
    runner: &mut PythonRunner,
    input: &[u8],
    output: Vec<u8>,
    width: u32,
    height: u32,
    path: ExecutionPath,
) -> (OutDesc, Result<Option<String>, GolobulError>) {
    let i = InDesc {
        fmt: ImageFormat::Rgba8,
        data: input.to_vec(),
        width,
        height,
        stride: None,
    };
    let o = OutDesc {
        fmt: ImageFormat::Rgba8,
        data: output,
        width,
        height,
        stride: None,
    };
    let mut pass = runner.create_render_pass(o);
    pass.load_input(i, "input");
    let mut ctx = pass.submit(runner).unwrap();
    default_script::run(&mut ctx).unwrap();
    runner.complete_run(ctx, RunOutcome::Completed { path }, None)
}

#[test]
fn q_ident() {
    let mut runner = PythonRunner::default();
    load_identity_script(&mut runner);

    let input = vec![110u8; 10 * 4];
    let output = vec![0u8; 10 * 4];

    let (out, result) = identity_pass(
        &mut runner,
        &input,
        output,
        1,
        10,
        ExecutionPath::Immediate,
    );
    result.unwrap();
    assert_eq!(input, out.data);
}

#[test]
fn async_ident() {
    let mut runner = PythonRunner::default();
    load_identity_script(&mut runner);

    let input = vec![110u8; 100 * 100 * 4];
    let output = vec![0u8; 100 * 100 * 4];

    let (out, result) = identity_pass(
        &mut runner,
        &input,
        output,
        100,
        100,
        ExecutionPath::Background,
    );
    result.unwrap();
    assert_eq!(input, out.data);
}

#[test]
fn stdout() {
    let mut runner = PythonRunner::default();

    let mut ctx = runner.begin_setup(well_formed_module()).unwrap();
    default_script::setup(&mut ctx).unwrap();
    let mut catcher = StdOutCatcher::new();
    catcher.write("Hello! World.\n");
    let captured = catcher.take();
    let out = runner
        .complete_setup(ctx, SetupOutcome::Completed, captured, "greeter".to_owned())
        .unwrap();

    assert_eq!(Some("Hello! World.\n".to_owned()), out);
}

#[test]
fn seq_mode() {
    let mut runner = PythonRunner::default();
    let mut ctx = runner.begin_setup(well_formed_module()).unwrap();
    ctx.set_sequential_mode(true).unwrap();
    runner
        .complete_setup(ctx, SetupOutcome::Completed, None, "m1".to_owned())
        .unwrap();
    assert!(runner.is_sequential());
}

#[test]
fn not_seq_mode() {
    let mut runner = PythonRunner::default();
    let mut ctx = runner.begin_setup(well_formed_module()).unwrap();
    ctx.set_sequential_mode(false).unwrap();
    runner
        .complete_setup(ctx, SetupOutcome::Completed, None, "m2".to_owned())
        .unwrap();
    assert!(!runner.is_sequential());
}

#[test]
fn error_logging() {
    let mut runner = PythonRunner::default();
    load_identity_script(&mut runner);

    let data = vec![0u8; 40 * 40 * 4];
    let o = OutDesc {
        fmt: ImageFormat::Rgba8,
        width: 40,
        data,
        height: 40,
        stride: None,
    };

    let pass = runner.create_render_pass(o);
    let ctx = pass.submit(&runner).unwrap();
    let mut catcher = StdOutCatcher::new();
    catcher.write("Hello! World.\n");
    let captured = catcher.take();
    let (_, error) = runner.complete_run(
        ctx,
        RunOutcome::Raised {
            stderr: "line 8: name 'this_undeclared_variable_will_cause_a_panic' is not defined"
                .to_owned(),
        },
        captured,
    );

    assert!(error.is_err());

    assert!(matches!(
        error,
        Err(GolobulError::RuntimeError {
            stdout: Some(_),
            ..
        }),
    ));
}

#[test]
fn registry() {
    let mut runner = PythonRunner::default();

    let mut ctx = runner.begin_setup(well_formed_module()).unwrap();
    ctx.register_float(
        "float 1",
        (-100.0f32).to_bits(),
        100.0f32.to_bits(),
        0.0f32.to_bits(),
    )
    .unwrap();
    ctx.register_float(
        "float 2",
        100.0f32.to_bits(),
        1000.0f32.to_bits(),
        200.0f32.to_bits(),
    )
    .unwrap();
    ctx.register_image_input("input").unwrap();
    runner
        .complete_setup(ctx, SetupOutcome::Completed, None, "m3".to_owned())
        .unwrap();

    {
        let inputs = runner.iter_inputs();
        let next = inputs.iter().find(|(n, _)| *n == "float 1").unwrap();
        assert_eq!(
            next.1,
            Variant::Float(Cfg::new(
                0.0f32.to_bits(),
                (-100.0f32).to_bits(),
                100.0f32.to_bits()
            ))
        );

        let next = inputs.iter().find(|(n, _)| *n == "float 2").unwrap();
        assert_eq!(
            next.1,
            Variant::Float(Cfg::new(
                200.0f32.to_bits(),
                100.0f32.to_bits(),
                1000.0f32.to_bits()
            ))
        );

        let next = inputs.iter().find(|(n, _)| *n == "input").unwrap();
        assert_eq!(next.1, Variant::Image(DiscreteCfg::new(Image::Input)));
    }
}

#[test]
fn size_config() {
    let mut runner = PythonRunner::default();
    let mut ctx = runner.begin_setup(well_formed_module()).unwrap();
    ctx.set_output_size(20, 20).unwrap();
    runner
        .complete_setup(ctx, SetupOutcome::Completed, None, "m4".to_owned())
        .unwrap();

    assert_eq!(
        runner.requested_output_resize(),
        Some(OutputSize {
            width: 20,
            height: 20
        })
    );

    let wrong_out = vec![0u8; 40 * 40 * 4];

    let o = OutDesc {
        fmt: ImageFormat::Rgba8,
        data: wrong_out,
        width: 40,
        height: 40,
        stride: None,
    };

    let pass = runner.create_render_pass(o);
    let mut ctx = pass.submit(&runner).unwrap();
    ctx.output().unwrap();
    let (_, result) = runner.complete_run(
        ctx,
        RunOutcome::Completed {
            path: ExecutionPath::Immediate,
        },
        None,
    );
    result.unwrap();

    let right_out = vec![0u8; 20 * 20 * 4];

    let o = OutDesc {
        fmt: ImageFormat::Rgba8,
        data: right_out,
        width: 20,
        height: 20,
        stride: None,
    };

    let pass = runner.create_render_pass(o);
    let mut ctx = pass.submit(&runner).unwrap();
    ctx.output().unwrap();
    let (_, result) = runner.complete_run(
        ctx,
        RunOutcome::Completed {
            path: ExecutionPath::Immediate,
        },
        None,
    );
    result.unwrap();
}

#[test]
fn bad_setup() {
    let runner = PythonRunner::default();

    // empty source: the module compiles but has neither entry point
    assert!(runner
        .begin_setup(ModuleShape::Loaded {
            run_is_callable: false,
            setup_is_callable: false,
        })
        .is_err());

    // missing setup
    assert!(runner
        .begin_setup(ModuleShape::Loaded {
            run_is_callable: true,
            setup_is_callable: false,
        })
        .is_err());

    // missing run
    assert!(runner
        .begin_setup(ModuleShape::Loaded {
            run_is_callable: false,
            setup_is_callable: true,
        })
        .is_err());
}
