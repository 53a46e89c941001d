use golob_lib::default_script;
use golob_lib::{view_layout, ViewElement};
use golob_lib::{
    as_param_index, compare_bits, is_nan_bits, lt_bits, lt_bits2, AeVariant, Cfg, DiscreteCfg,
    FloatOrder, GolobulError, Image, ImageBuffer, ImageFormat, InDesc, InputValue, ModuleShape,
    OutDesc, OutputDesc, ParamIdx, PythonRunner, SetupOutcome, StdOutCatcher, TaggedInt,
    TaskStatus, Variant,
};

fn bits(v: f32) -> u32 {
    v.to_bits()
}

#[test]
fn float_bit_ordering_matches_hardware() {
    let cases: [(f32, f32); 8] = [
        (1.0, 2.0),
        (-1.0, 1.0),
        (-2.5, -1.25),
        (-0.0, 0.0),
        (0.0, -0.0),
        (f32::NAN, 1.0),
        (1.0, f32::NAN),
        (5.5, 5.5),
    ];
    for (a, b) in cases {
        assert_eq!(
            lt_bits(bits(a), bits(b)),
            a < b,
            "lt mismatch for {a} < {b}"
        );
    }
}

#[test]
fn float_bit_compare_classifies() {
    assert_eq!(compare_bits(bits(1.0), bits(2.0)), FloatOrder::Less);
    assert_eq!(compare_bits(bits(2.0), bits(1.0)), FloatOrder::Greater);
    assert_eq!(compare_bits(bits(-0.0), bits(0.0)), FloatOrder::Equal);
    assert_eq!(
        compare_bits(bits(f32::NAN), bits(f32::NAN)),
        FloatOrder::Unordered
    );
    assert!(is_nan_bits(bits(f32::NAN)));
    assert!(!is_nan_bits(bits(f32::INFINITY)));
}

#[test]
fn vector_bit_ordering_is_lexicographic() {
    let pairs: [([f32; 2], [f32; 2]); 4] = [
        ([1.0, 9.0], [2.0, 0.0]),
        ([1.0, 1.0], [1.0, 2.0]),
        ([2.0, 0.0], [1.0, 9.0]),
        ([1.0, f32::NAN], [1.0, 0.0]),
    ];
    for (a, b) in pairs {
        let ab = [bits(a[0]), bits(a[1])];
        let bb = [bits(b[0]), bits(b[1])];
        assert_eq!(lt_bits2(&ab, &bb), a < b, "lt2 mismatch for {a:?} < {b:?}");
    }
}

#[test]
fn adopt_copies_discrete_kinds() {
    let mut b = Variant::Bool(DiscreteCfg::new(false));
    b.adopt(&Variant::Bool(DiscreteCfg::new(true))).unwrap();
    assert_eq!(b, Variant::Bool(DiscreteCfg { current: true, default: false }));

    let mut c = Variant::Color(DiscreteCfg::new([1, 2, 3, 4]));
    c.adopt(&Variant::Color(DiscreteCfg::new([9, 9, 9, 9])))
        .unwrap();
    assert_eq!(
        c,
        Variant::Color(DiscreteCfg { current: [9, 9, 9, 9], default: [1, 2, 3, 4] })
    );
}

#[test]
fn adopt_uses_an_open_interval() {
    // the boundary value is dropped: 100 is not strictly inside (0, 100)
    let mut i = Variant::Int(Cfg::new(5, 0, 100));
    i.adopt(&Variant::Int(Cfg::new(100, 0, 0))).unwrap();
    assert_eq!(i, Variant::Int(Cfg::new(5, 0, 100)));

    let mut i = Variant::Int(Cfg::new(5, 0, 100));
    i.adopt(&Variant::Int(Cfg::new(99, 0, 0))).unwrap();
    assert_eq!(
        i,
        Variant::Int(Cfg { default: 5, current: 99, min: 0, max: 100 })
    );
}

#[test]
fn adopt_rejects_mismatched_kinds() {
    let mut i = Variant::Int(Cfg::new(5, 0, 100));
    let r = i.adopt(&Variant::Float(Cfg::new(bits(1.0), bits(0.0), bits(2.0))));
    assert!(matches!(r, Err(GolobulError::TypeMismatch)));
    assert_eq!(i, Variant::Int(Cfg::new(5, 0, 100)));
}

#[test]
fn adopt_checks_tag_names_not_codes() {
    let old_tags = vec![("left".to_owned(), 1), ("right".to_owned(), 2)];
    let new_tags = vec![("left".to_owned(), 1), ("center".to_owned(), 2)];

    // the stored value 2 named "right", which the new tag set no longer
    // has, so the stale code is not carried over
    let mut cur = Variant::TaggedInt(TaggedInt::new(1, new_tags.clone()));
    let mut old = TaggedInt::new(1, old_tags.clone());
    old.value = 2;
    cur.adopt(&Variant::TaggedInt(old)).unwrap();
    match &cur {
        Variant::TaggedInt(t) => assert_eq!(t.value, 1),
        other => panic!("unexpected {other:?}"),
    }

    // value 1 still names "left" in both sets, so it survives
    let mut cur = Variant::TaggedInt(TaggedInt::new(2, new_tags));
    let mut old = TaggedInt::new(2, old_tags);
    old.value = 1;
    cur.adopt(&Variant::TaggedInt(old)).unwrap();
    match &cur {
        Variant::TaggedInt(t) => assert_eq!(t.value, 1),
        other => panic!("unexpected {other:?}"),
    }
}

#[test]
fn well_structured_checks() {
    let ok = OutDesc {
        fmt: ImageFormat::Rgba8,
        data: vec![0u8; 2 * 3 * 4],
        width: 3,
        height: 2,
        stride: None,
    };
    assert!(ok.is_well_structured().is_ok());

    let zero = OutDesc {
        fmt: ImageFormat::Rgba8,
        data: vec![],
        width: 0,
        height: 2,
        stride: None,
    };
    assert!(matches!(
        zero.is_well_structured(),
        Err(GolobulError::ZeroDimension)
    ));

    let short = OutDesc {
        fmt: ImageFormat::Rgba8,
        data: vec![0u8; 10],
        width: 3,
        height: 2,
        stride: None,
    };
    assert!(matches!(
        short.is_well_structured(),
        Err(GolobulError::SizeMismatch {
            expected: 24,
            found: 10
        })
    ));

    let strided = OutDesc {
        fmt: ImageFormat::Rgba8,
        data: vec![0u8; 2 * 16],
        width: 3,
        height: 2,
        stride: Some(16),
    };
    assert!(strided.is_well_structured().is_ok());

    let understrided = OutDesc {
        fmt: ImageFormat::Rgba8,
        data: vec![0u8; 2 * 8],
        width: 3,
        height: 2,
        stride: Some(8),
    };
    assert!(understrided.is_well_structured().is_err());
}

#[test]
fn bytes_per_pixel_by_format() {
    assert_eq!(ImageFormat::Rgba8.bytes_per_pixel(), 4);
    assert_eq!(ImageFormat::Argb8.bytes_per_pixel(), 4);
    assert_eq!(ImageFormat::Rgba16.bytes_per_pixel(), 8);
    assert_eq!(ImageFormat::Argb16ae.bytes_per_pixel(), 8);
    assert_eq!(ImageFormat::Rgba32.bytes_per_pixel(), 16);
    assert_eq!(ImageFormat::Argb32.bytes_per_pixel(), 16);
}

#[test]
fn missing_var_and_type_mismatch() {
    let mut runner = PythonRunner::default();
    let r = runner.try_set_var("nope", Variant::Bool(DiscreteCfg::new(true)));
    assert!(matches!(r, Err(GolobulError::MissingVar(n)) if n == "nope"));
}

#[test]
fn invalid_module_reports_compiler_message() {
    let runner = PythonRunner::default();
    let r = runner.begin_setup(ModuleShape::CompileFailed("SyntaxError: line 1".to_owned()));
    assert!(matches!(r, Err(GolobulError::InvalidModule(m)) if m == "SyntaxError: line 1"));
}

#[test]
fn missing_entry_points_are_distinct() {
    let runner = PythonRunner::default();
    assert!(matches!(
        runner.begin_setup(ModuleShape::Loaded {
            run_is_callable: false,
            setup_is_callable: true
        }),
        Err(GolobulError::MissingRun)
    ));
    assert!(matches!(
        runner.begin_setup(ModuleShape::Loaded {
            run_is_callable: true,
            setup_is_callable: false
        }),
        Err(GolobulError::MissingSetup)
    ));
}

#[test]
fn registration_outside_setup_fails() {
    let runner = PythonRunner::default();
    let pass = runner.create_render_pass(OutDesc {
        fmt: ImageFormat::Rgba8,
        data: vec![0u8; 4],
        width: 1,
        height: 1,
        stride: None,
    });
    let mut ctx = pass.submit(&runner).unwrap();
    // an uninitialized runner leaves the context in declare mode, so
    // initialize the flag the way a completed setup would
    ctx.is_in_setup = false;
    let r = ctx.register_bool("late", true);
    assert!(matches!(r, Err(GolobulError::RuntimeError { .. })));
    let r = ctx.set_sequential_mode(true);
    assert!(matches!(r, Err(GolobulError::RuntimeError { .. })));
}

#[test]
fn write_output_rejects_wrong_length() {
    let runner = PythonRunner::default();
    let pass = runner.create_render_pass(OutDesc {
        fmt: ImageFormat::Rgba8,
        data: vec![0u8; 4],
        width: 1,
        height: 1,
        stride: None,
    });
    let mut ctx = pass.submit(&runner).unwrap();
    let r = ctx.write_output(vec![1, 2, 3]);
    assert!(matches!(
        r,
        Err(GolobulError::SizeMismatch {
            expected: 4,
            found: 3
        })
    ));
}

#[test]
fn zero_output_size_request_is_fatal() {
    let runner = PythonRunner::default();
    let pass = runner.create_render_pass(OutDesc {
        fmt: ImageFormat::Rgba8,
        data: vec![0u8; 4],
        width: 1,
        height: 1,
        stride: None,
    });
    let mut ctx = pass.submit(&runner).unwrap();
    assert!(matches!(
        ctx.set_output_size(0, 5),
        Err(GolobulError::ZeroDimension)
    ));
    assert_eq!(ctx.output_size_requested(), None);
}

#[test]
fn stdout_catcher_appends() {
    let mut catcher = StdOutCatcher::new();
    assert_eq!(catcher.take(), None);
    catcher.write("Hello! ");
    catcher.write("World.\n");
    assert_eq!(catcher.take(), Some("Hello! World.\n".to_owned()));
    assert_eq!(catcher.take(), None);
}

#[test]
fn param_slot_layout() {
    assert_eq!(ParamIdx::ScriptGroupStart.idx(), 1);
    assert_eq!(ParamIdx::IsImageFilter.idx(), 18);
    assert_eq!(ParamIdx::ParametersEnd.idx(), 243);
    assert_eq!(ParamIdx::Dynamic(77).idx(), 77);

    assert_eq!(ParamIdx::from(9usize), ParamIdx::ShowDebug);
    assert_eq!(ParamIdx::from(243usize), ParamIdx::ParametersEnd);
    assert_eq!(ParamIdx::from(50usize), ParamIdx::Dynamic(50));

    assert_eq!(AeVariant::Float.offset(), 0);
    assert_eq!(AeVariant::Image.offset(), 6);

    let float = Variant::Float(Cfg::new(0, 0, 0));
    assert_eq!(as_param_index(2, &float), ParamIdx::Dynamic(2 * 7 + 19));
    let img = Variant::Image(DiscreteCfg::new(Image::Input));
    assert_eq!(as_param_index(0, &img), ParamIdx::Dynamic(19 + 6));
}

#[test]
fn scalar_inputs_come_back_from_the_context() {
    let mut runner = PythonRunner::default();
    let mut ctx = runner
        .begin_setup(ModuleShape::Loaded {
            run_is_callable: true,
            setup_is_callable: true,
        })
        .unwrap();
    ctx.register_int("count", 0, 10, 3).unwrap();
    ctx.register_enum(
        "mode",
        2,
        vec![("fast".to_owned(), 1), ("slow".to_owned(), 2)],
    )
    .unwrap();
    ctx.register_vector("offset", [0, 0], [0, 0], [7, 9]).unwrap();
    runner
        .complete_setup(ctx, SetupOutcome::Completed, None, "scalars".to_owned())
        .unwrap();

    let pass = runner.create_render_pass(OutDesc {
        fmt: ImageFormat::Rgba8,
        data: vec![0u8; 4],
        width: 1,
        height: 1,
        stride: None,
    });
    let ctx = pass.submit(&runner).unwrap();
    assert!(matches!(ctx.get_input("count"), Some(InputValue::Int(3))));
    assert!(matches!(
        ctx.get_input("mode"),
        Some(InputValue::TaggedInt(2))
    ));
    assert!(matches!(
        ctx.get_input("offset"),
        Some(InputValue::Vector2([7, 9]))
    ));
    assert!(ctx.get_input("absent").is_none());
}

#[test]
fn mismatched_pixel_width_is_a_size_mismatch() {
    let mut runner = PythonRunner::default();
    let mut ctx = runner
        .begin_setup(ModuleShape::Loaded {
            run_is_callable: true,
            setup_is_callable: true,
        })
        .unwrap();
    default_script::setup(&mut ctx).unwrap();
    runner
        .complete_setup(ctx, SetupOutcome::Completed, None, "mismatch".to_owned())
        .unwrap();

    // a 16-bit input copied verbatim cannot fill an 8-bit output
    let mut pass = runner.create_render_pass(OutDesc {
        fmt: ImageFormat::Rgba8,
        data: vec![0u8; 2 * 2 * 4],
        width: 2,
        height: 2,
        stride: None,
    });
    pass.load_input(
        InDesc {
            fmt: ImageFormat::Rgba16,
            data: vec![0u8; 2 * 2 * 8],
            width: 2,
            height: 2,
            stride: None,
        },
        "input",
    );
    let mut ctx = pass.submit(&runner).unwrap();
    let r = default_script::run(&mut ctx);
    assert!(matches!(r, Err(GolobulError::SizeMismatch { .. })));
}

#[test]
fn view_layout_strides() {
    let (dims, strides, elem) = view_layout(ImageFormat::Rgba16, 10, 6, None);
    assert_eq!(dims, [6, 10, 4]);
    assert_eq!(strides, [10 * 8, 8, 2]);
    assert_eq!(elem, ViewElement::Word);

    let (dims, strides, elem) = view_layout(ImageFormat::Rgba8, 10, 6, Some(48));
    assert_eq!(dims, [6, 10, 4]);
    assert_eq!(strides, [48, 4, 1]);
    assert_eq!(elem, ViewElement::Byte);
}

#[test]
fn task_bookkeeping() {
    let b = ImageBuffer::blank("layer".to_owned());
    assert_eq!(b.name, "layer");
    assert!(b.data.is_empty());
    assert_eq!(b.width, 0);

    let d = OutputDesc {
        fmt: ImageFormat::Rgba8,
        directory: "frames".to_owned(),
        last_frame: 10,
        width: 4,
        height: 3,
    };
    assert_eq!(d.buffer_len(), 48);

    let s = TaskStatus::from_error(GolobulError::RuntimeError {
        stderr: "boom".to_owned(),
        stdout: Some("partial".to_owned()),
    });
    match s {
        TaskStatus::Error { stdout, error } => {
            assert_eq!(error, "boom");
            assert_eq!(stdout, Some("partial".to_owned()));
        }
        other => panic!("unexpected {other:?}"),
    }
}
