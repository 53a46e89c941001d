use golob_lib::default_script;
use golob_lib::{
    Cfg, ExecutionPath, GolobulError, ImageFormat, InDesc, InputValue, ModuleShape, OutDesc,
    OutputSize, PythonRunner, RunOutcome, SetupOutcome, Variant,
};

fn well_formed_module() -> ModuleShape {
    ModuleShape::Loaded {
        run_is_callable: true,
        setup_is_callable: true,
    }
}

/// Loads a script whose declare phase registers one float parameter.
fn load_float_script(runner: &mut PythonRunner, min: f32, max: f32, default: f32) {
    let mut ctx = runner.begin_setup(well_formed_module()).unwrap();
    ctx.register_float("f", min.to_bits(), max.to_bits(), default.to_bits())
        .unwrap();
    runner
        .complete_setup(ctx, SetupOutcome::Completed, None, "reload".to_owned())
        .unwrap();
}

fn current_of(runner: &PythonRunner, name: &str) -> u32 {
    let inputs = runner.iter_inputs();
    let entry = inputs.iter().find(|(n, _)| *n == name).unwrap();
    match &entry.1 {
        Variant::Float(cfg) => cfg.current,
        other => panic!("expected a float parameter, got {other:?}"),
    }
}

#[test]
fn registry_adoption_drops_stale_value() {
    let mut runner = PythonRunner::default();
    load_float_script(&mut runner, -100.0, 100.0, 0.0);

    // the user moves the slider to 50
    runner
        .try_set_var("f", Variant::Float(Cfg::new(50.0f32.to_bits(), 0, 0)))
        .unwrap();
    assert_eq!(current_of(&runner, "f"), 50.0f32.to_bits());

    // the reload narrows the range to (100, 1000): 50 no longer fits,
    // so the parameter resets to the new default
    load_float_script(&mut runner, 100.0, 1000.0, 200.0);
    assert_eq!(current_of(&runner, "f"), 200.0f32.to_bits());
}

#[test]
fn registry_adoption_keeps_fitting_value() {
    let mut runner = PythonRunner::default();
    load_float_script(&mut runner, -100.0, 100.0, 0.0);

    // the host UI writes 150 straight into the parameter's state, the
    // way slider edits land, without range validation
    runner
        .set_var_direct(
            "f",
            Variant::Float(Cfg {
                default: 0.0f32.to_bits(),
                current: 150.0f32.to_bits(),
                min: (-100.0f32).to_bits(),
                max: 100.0f32.to_bits(),
            }),
        )
        .unwrap();

    // 150 lies inside the new (100, 1000) range, so it survives
    load_float_script(&mut runner, 100.0, 1000.0, 200.0);
    assert_eq!(current_of(&runner, "f"), 150.0f32.to_bits());
}

/// Renders one pass at the requested size into the given output buffer
/// and returns the finalized buffer bytes.
fn blit_pass(
    runner: &mut PythonRunner,
    output: OutDesc,
    pattern: &[u8],
) -> (OutDesc, Result<Option<String>, GolobulError>) {
    let pass = runner.create_render_pass(output);
    let mut ctx = pass.submit(runner).unwrap();
    ctx.output().unwrap();
    ctx.write_output(pattern.to_vec()).unwrap();
    runner.complete_run(
        ctx,
        RunOutcome::Completed {
            path: ExecutionPath::Immediate,
        },
        None,
    )
}

fn load_sized_script(runner: &mut PythonRunner, height: u32, width: u32) {
    let mut ctx = runner.begin_setup(well_formed_module()).unwrap();
    ctx.set_output_size(height, width).unwrap();
    runner
        .complete_setup(ctx, SetupOutcome::Completed, None, "sized".to_owned())
        .unwrap();
}

fn pattern(len: usize) -> Vec<u8> {
    (0..len).map(|i| (i * 7 % 251) as u8).collect()
}

/// The blit writes identical pixel rows whether the destination is
/// tightly packed or a strided sub-region of a larger buffer.
fn assert_blit_stride_agnostic(req_h: u32, req_w: u32, out_h: u32, out_w: u32) {
    let bpp = 4usize;
    let row = out_w as usize * bpp;
    let pad = 12usize;
    let px = pattern(req_h as usize * req_w as usize * bpp);

    let mut runner = PythonRunner::default();
    load_sized_script(&mut runner, req_h, req_w);

    let tight = OutDesc {
        fmt: ImageFormat::Rgba8,
        data: vec![0u8; out_h as usize * row],
        width: out_w,
        height: out_h,
        stride: None,
    };
    let (tight_out, r1) = blit_pass(&mut runner, tight, &px);
    r1.unwrap();

    let strided = OutDesc {
        fmt: ImageFormat::Rgba8,
        data: vec![0u8; out_h as usize * (row + pad)],
        width: out_w,
        height: out_h,
        stride: Some((row + pad) as u32),
    };
    let (strided_out, r2) = blit_pass(&mut runner, strided, &px);
    r2.unwrap();

    for y in 0..out_h as usize {
        let t = &tight_out.data[y * row..y * row + row];
        let s = &strided_out.data[y * (row + pad)..y * (row + pad) + row];
        assert_eq!(t, s, "row {y} differs between tight and strided layouts");
    }
}

#[test]
fn blit_smaller_request_is_stride_agnostic() {
    assert_blit_stride_agnostic(3, 5, 8, 9);
}

#[test]
fn blit_equal_request_is_stride_agnostic() {
    assert_blit_stride_agnostic(6, 6, 6, 6);
}

#[test]
fn blit_centers_smaller_image() {
    // a 1x1 pixel written into a 3x3 output lands in the middle
    let mut runner = PythonRunner::default();
    load_sized_script(&mut runner, 1, 1);

    let out = OutDesc {
        fmt: ImageFormat::Rgba8,
        data: vec![0u8; 3 * 3 * 4],
        width: 3,
        height: 3,
        stride: None,
    };
    let (out, r) = blit_pass(&mut runner, out, &[9, 8, 7, 6]);
    r.unwrap();
    let mut expected = vec![0u8; 3 * 3 * 4];
    expected[(3 + 1) * 4..(3 + 1) * 4 + 4].copy_from_slice(&[9, 8, 7, 6]);
    assert_eq!(out.data, expected);
}

#[test]
fn oversized_request_is_recoverable() {
    let mut runner = PythonRunner::default();
    {
        let ctx = runner.begin_setup(well_formed_module()).unwrap();
        runner
            .complete_setup(ctx, SetupOutcome::Completed, None, "clamp".to_owned())
            .unwrap();
    }

    // the script requests 20x20 during a run against a 10x10 buffer
    let pass = runner.create_render_pass(OutDesc {
        fmt: ImageFormat::Rgba8,
        data: vec![0u8; 10 * 10 * 4],
        width: 10,
        height: 10,
        stride: None,
    });
    let mut ctx = pass.submit(&runner).unwrap();
    let denied = ctx.set_output_size(20, 20);
    assert!(matches!(
        denied,
        Err(GolobulError::OutputSizeTooLarge {
            req: (20, 20),
            avail: (10, 10)
        })
    ));

    // the script surfaces the failure; the request is still recorded so
    // the next caller can allocate correctly
    let (_, result) = runner.complete_run(
        ctx,
        RunOutcome::Raised {
            stderr: "output too large".to_owned(),
        },
        None,
    );
    assert!(matches!(
        result,
        Err(GolobulError::OutputSizeTooLarge {
            req: (20, 20),
            avail: (10, 10)
        })
    ));
    assert_eq!(
        runner.requested_output_resize(),
        Some(OutputSize {
            width: 20,
            height: 20
        })
    );

    // a correctly sized retry succeeds
    let pass = runner.create_render_pass(OutDesc {
        fmt: ImageFormat::Rgba8,
        data: vec![0u8; 20 * 20 * 4],
        width: 20,
        height: 20,
        stride: None,
    });
    let mut ctx = pass.submit(&runner).unwrap();
    ctx.write_output(vec![1u8; 20 * 20 * 4]).unwrap();
    let (out, result) = runner.complete_run(
        ctx,
        RunOutcome::Completed {
            path: ExecutionPath::Immediate,
        },
        None,
    );
    result.unwrap();
    assert_eq!(out.data, vec![1u8; 20 * 20 * 4]);
}

#[test]
fn argb_output_is_swizzled_on_finalize() {
    let mut runner = PythonRunner::default();
    {
        let ctx = runner.begin_setup(well_formed_module()).unwrap();
        runner
            .complete_setup(ctx, SetupOutcome::Completed, None, "argb".to_owned())
            .unwrap();
    }

    let pass = runner.create_render_pass(OutDesc {
        fmt: ImageFormat::Argb8,
        data: vec![0u8; 2 * 4],
        width: 2,
        height: 1,
        stride: None,
    });
    let mut ctx = pass.submit(&runner).unwrap();
    // the script writes RGBA pixels; finalize restores ARGB order
    ctx.write_output(vec![1, 2, 3, 4, 5, 6, 7, 8]).unwrap();
    let (out, result) = runner.complete_run(
        ctx,
        RunOutcome::Completed {
            path: ExecutionPath::Immediate,
        },
        None,
    );
    result.unwrap();
    assert_eq!(out.data, vec![4, 1, 2, 3, 8, 5, 6, 7]);
}

#[test]
fn argb_input_is_normalized_for_the_script() {
    let mut runner = PythonRunner::default();
    {
        let mut ctx = runner.begin_setup(well_formed_module()).unwrap();
        ctx.register_image_input("input").unwrap();
        runner
            .complete_setup(ctx, SetupOutcome::Completed, None, "argbin".to_owned())
            .unwrap();
    }

    let mut pass = runner.create_render_pass(OutDesc {
        fmt: ImageFormat::Rgba8,
        data: vec![0u8; 4],
        width: 1,
        height: 1,
        stride: None,
    });
    pass.load_input(
        InDesc {
            fmt: ImageFormat::Argb8,
            data: vec![40, 10, 20, 30],
            width: 1,
            height: 1,
            stride: None,
        },
        "input",
    );
    let ctx = pass.submit(&runner).unwrap();
    match ctx.get_input("input") {
        Some(InputValue::Image(d)) => {
            // ARGB [40,10,20,30] exposed to the script as RGBA [10,20,30,40]
            assert_eq!(d.data, vec![10, 20, 30, 40]);
        }
        other => panic!("expected an image, got {other:?}"),
    }
}

#[test]
fn sixteen_bit_argb_swizzles_whole_channels() {
    let mut runner = PythonRunner::default();
    {
        let ctx = runner.begin_setup(well_formed_module()).unwrap();
        runner
            .complete_setup(ctx, SetupOutcome::Completed, None, "argb16".to_owned())
            .unwrap();
    }

    let pass = runner.create_render_pass(OutDesc {
        fmt: ImageFormat::Argb16ae,
        data: vec![0u8; 8],
        width: 1,
        height: 1,
        stride: None,
    });
    let mut ctx = pass.submit(&runner).unwrap();
    ctx.write_output(vec![1, 2, 3, 4, 5, 6, 7, 8]).unwrap();
    let (out, result) = runner.complete_run(
        ctx,
        RunOutcome::Completed {
            path: ExecutionPath::Immediate,
        },
        None,
    );
    result.unwrap();
    // two-byte channels rotate whole: RGBA words [12,34,56,78] -> ARGB [78,12,34,56]
    assert_eq!(out.data, vec![7, 8, 1, 2, 3, 4, 5, 6]);
}

#[test]
fn zero_fill_when_no_input_loaded() {
    let mut runner = PythonRunner::default();
    {
        let mut ctx = runner.begin_setup(well_formed_module()).unwrap();
        default_script::setup(&mut ctx).unwrap();
        runner
            .complete_setup(ctx, SetupOutcome::Completed, None, "fill".to_owned())
            .unwrap();
    }

    let pass = runner.create_render_pass(OutDesc {
        fmt: ImageFormat::Rgba8,
        data: vec![9u8; 2 * 2 * 4],
        width: 2,
        height: 2,
        stride: None,
    });
    let mut ctx = pass.submit(&runner).unwrap();
    default_script::run(&mut ctx).unwrap();
    let (out, result) = runner.complete_run(
        ctx,
        RunOutcome::Completed {
            path: ExecutionPath::Immediate,
        },
        None,
    );
    result.unwrap();
    assert_eq!(out.data, vec![0u8; 2 * 2 * 4]);
}
