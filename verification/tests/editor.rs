use nih_plug_slint::editor::{GlConfig, OpenStep, SlintEditor, WindowScalePolicy};
use nih_plug_slint::event::WindowEvent;
use nih_plug_slint::geometry::{LogicalSize, PhysicalLength, Scalar};
use nih_plug_slint::state::SlintEditorState;

type Editor = SlintEditor<&'static str, u8, u16, u32, f32>;

#[test]
fn new_editor_has_no_handlers_and_scale_one() {
    let editor: Editor = SlintEditor::new("state", 7);
    assert_eq!(editor.state, "state");
    assert_eq!(editor.component_factory, 7);
    assert_eq!(editor.setup_handler, None);
    assert_eq!(editor.event_loop_handler, None);
    assert_eq!(editor.host_scale_factor, Scalar::Whole(1));
}

#[test]
fn builders_set_one_handler_each() {
    let editor: Editor = SlintEditor::new("state", 7);
    let editor = editor.with_setup(11).with_event_loop(22).with_setup(33);
    assert_eq!(editor.setup_handler, Some(33));
    assert_eq!(editor.event_loop_handler, Some(22));
    assert_eq!(editor.state, "state");
    assert_eq!(editor.component_factory, 7);
    assert_eq!(editor.host_scale_factor, Scalar::Whole(1));
}

#[test]
fn scale_factor_of_the_host_is_agreed_to() {
    let mut editor: Editor = SlintEditor::new("state", 7);
    assert!(editor.set_scale_factor(1.25));
    assert_eq!(editor.host_scale_factor, Scalar::Given(1.25));
    assert!(editor.set_scale_factor(2.0));
    assert_eq!(editor.host_scale_factor, Scalar::Given(2.0));
}

#[test]
fn spawned_window_has_the_size_on_record() {
    let editor: Editor = SlintEditor::new("state", 7);
    let state = SlintEditorState::new(640, 480);
    assert_eq!(editor.size(&state), (640, 480));
    let options = editor.spawn(&state);
    assert_eq!((options.width, options.height), (640, 480));
    assert_eq!(options.title, "Plug-in");
    assert_eq!(options.scale, WindowScalePolicy::SystemScaleFactor);
    assert_eq!(
        options.gl_config,
        GlConfig {
            version_major: 3,
            version_minor: 2,
            red_bits: 8,
            blue_bits: 8,
            green_bits: 8,
            alpha_bits: 8,
            depth_bits: 24,
            stencil_bits: 8,
            samples: None,
            srgb: true,
            double_buffer: true,
            vsync: false,
        }
    );
}

#[test]
fn opening_tells_scale_then_size_then_creates() {
    let mut editor: Editor = SlintEditor::new("state", 7);
    editor.set_scale_factor(2.0);
    let (handler, steps) = editor.open_window(300, 360);
    assert_eq!(
        steps,
        vec![
            OpenStep::MakeContextCurrent,
            OpenStep::LoadGlFunctions,
            OpenStep::RegisterAdapter,
            OpenStep::InstallPlatform,
            OpenStep::Dispatch(WindowEvent::ScaleFactorChanged {
                scale_factor: Scalar::Given(2.0),
            }),
            OpenStep::Dispatch(WindowEvent::Resized {
                size: LogicalSize { width: Scalar::Whole(300), height: Scalar::Whole(360) },
            }),
            OpenStep::CreateComponent,
        ]
    );
    assert_eq!(handler.adapter().scale_factor, Scalar::Given(2.0));
    assert_eq!(
        handler.adapter().size().width,
        PhysicalLength::Scaled { logical: 300, scale_factor: Scalar::Given(2.0) }
    );
    assert_eq!(
        handler.adapter().size().height,
        PhysicalLength::Scaled { logical: 360, scale_factor: Scalar::Given(2.0) }
    );
    assert!(handler.pending_resizes().is_empty());
}

#[test]
fn opening_without_host_scale_uses_one() {
    let editor: Editor = SlintEditor::new("state", 7);
    let (handler, steps) = editor.open_window(400, 300);
    assert_eq!(
        steps[4],
        OpenStep::Dispatch(WindowEvent::ScaleFactorChanged { scale_factor: Scalar::Whole(1) })
    );
    assert_eq!(handler.adapter().scale_factor, Scalar::Whole(1));
}

#[test]
fn next_window_opens_at_the_size_of_the_last() {
    let editor: Editor = SlintEditor::new("state", 7);
    let mut state = SlintEditorState::default();
    let options = editor.spawn(&state);
    let (mut handler, _) = editor.open_window(options.width, options.height);
    let mut effects = Vec::new();
    handler.resize(&mut state, &mut effects, 1024, 768);
    assert_eq!(editor.size(&state), (1024, 768));
    let options = editor.spawn(&state);
    assert_eq!((options.width, options.height), (1024, 768));
}
