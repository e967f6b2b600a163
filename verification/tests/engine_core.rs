use highrock_engine::texture::{texture_upload, upload_from_rgba8};
use highrock_engine::config::{InstanceDebugging, RendererConfig, SurfaceFormat};
use highrock_engine::frame_clock::{FrameClock, SAMPLE_SLOTS};
use highrock_engine::gui::GuiFrameState;
use highrock_engine::input::{input_action, InputAction, InputEvent, Key};
use highrock_engine::runner::{
    engine_entry, ControlFlowMode, EngineEvent, EngineRunner, Platform, Resume, RunnerAction,
    WindowEventKind,
};
use highrock_engine::scene::{entry, MyScene, UserScene};
use highrock_engine::surface::{
    choose_surface_format, frame_action, pick_surface_format, rgba_copy_layout, FrameAction, SurfaceSize,
    SurfaceStatus,
};
use wgpu::TextureFormat;

#[test]
fn surface_size_for_window_raises_zero_sides() {
    let size = SurfaceSize::for_window(0, 720);
    assert_eq!((size.width, size.height), (1, 720));
    let size = SurfaceSize::for_window(1280, 0);
    assert_eq!((size.width, size.height), (1280, 1));
    let size = SurfaceSize::for_window(1280, 720);
    assert_eq!((size.width, size.height), (1280, 720));
}

#[test]
fn resize_to_same_size_changes_nothing() {
    let mut size = SurfaceSize::for_window(1280, 720);
    assert!(!size.resize(1280, 720));
    assert_eq!((size.width, size.height), (1280, 720));
}

#[test]
fn resize_to_new_size_takes_it_on_and_is_idempotent() {
    let mut size = SurfaceSize::for_window(1280, 720);
    assert!(size.resize(1920, 1080));
    assert_eq!((size.width, size.height), (1920, 1080));
    assert!(!size.resize(1920, 1080));
    assert!(size.resize(1920, 1200));
    assert_eq!((size.width, size.height), (1920, 1200));
}

#[test]
fn preferred_format_wins_when_supported() {
    let formats = vec![TextureFormat::Rgba8UnormSrgb, TextureFormat::Bgra8UnormSrgb];
    assert_eq!(
        choose_surface_format(&formats, TextureFormat::Bgra8UnormSrgb),
        TextureFormat::Bgra8UnormSrgb
    );
}

#[test]
fn first_srgb_format_when_preferred_missing() {
    let formats = vec![
        TextureFormat::Rgba16Float,
        TextureFormat::Bgra8Unorm,
        TextureFormat::Rgba8UnormSrgb,
        TextureFormat::Bgra8UnormSrgb,
    ];
    assert_eq!(
        choose_surface_format(&formats, TextureFormat::Rgba32Float),
        TextureFormat::Rgba8UnormSrgb
    );
}

#[test]
fn first_format_when_none_is_srgb() {
    let formats = vec![TextureFormat::Rgba16Float, TextureFormat::Bgra8Unorm];
    assert_eq!(
        choose_surface_format(&formats, TextureFormat::Bgra8UnormSrgb),
        TextureFormat::Rgba16Float
    );
}

#[test]
fn pick_follows_the_given_srgb_flags() {
    let formats = vec![TextureFormat::Rgba16Float, TextureFormat::Bgra8Unorm, TextureFormat::Rgba8Unorm];
    assert_eq!(
        pick_surface_format(&formats, &vec![false, true, true], TextureFormat::Rgba32Float),
        TextureFormat::Bgra8Unorm
    );
    assert_eq!(
        pick_surface_format(&formats, &vec![false, false, false], TextureFormat::Rgba32Float),
        TextureFormat::Rgba16Float
    );
    assert_eq!(
        pick_surface_format(&formats, &vec![true, true, true], TextureFormat::Rgba8Unorm),
        TextureFormat::Rgba8Unorm
    );
}

#[test]
fn frame_action_per_surface_status() {
    assert_eq!(frame_action(SurfaceStatus::Acquired), FrameAction::Render);
    assert_eq!(frame_action(SurfaceStatus::Lost), FrameAction::Skip);
    assert_eq!(frame_action(SurfaceStatus::Outdated), FrameAction::Skip);
    assert_eq!(frame_action(SurfaceStatus::Timeout), FrameAction::SkipAndReport);
    assert_eq!(frame_action(SurfaceStatus::OutOfMemory), FrameAction::SkipAndReport);
    assert_eq!(frame_action(SurfaceStatus::Other), FrameAction::SkipAndReport);
}

#[test]
fn rgba_layout_has_four_bytes_a_pixel() {
    assert_eq!(rgba_copy_layout(256, 128), (1024, 128));
    assert_eq!(rgba_copy_layout(0, 0), (0, 0));
}

#[test]
fn default_config_prefers_bgra_srgb_and_validates() {
    let config = RendererConfig::default();
    assert_eq!(config.preferred_format(), SurfaceFormat::Bgra8UnormSrgb);
    assert_eq!(config.surface_format(), TextureFormat::Bgra8UnormSrgb);
    assert!(config.surface_format().is_srgb());
    assert!(config.vsync());
    assert_eq!(config.instance_debugging(), InstanceDebugging::Debugging);
}

#[test]
fn first_frame_records_no_round_trip() {
    let mut clock = FrameClock::new(0u32);
    clock.start_frame(99);
    assert!(clock.samples().iter().all(|&s| s == 0));
    clock.finish_frame();
    assert_eq!(clock.frame_count(), 1);
    clock.start_frame(7);
    assert_eq!(clock.samples()[0], 7);
    assert!(clock.samples()[1..].iter().all(|&s| s == 0));
}

#[test]
fn clock_starts_with_a_full_ring_of_zeros() {
    let clock = FrameClock::new(0.0f32);
    assert_eq!(clock.samples().len(), SAMPLE_SLOTS);
    assert_eq!(clock.samples().len(), 64);
    assert_eq!(clock.frame_count(), 0);
    assert_eq!(clock.samples().iter().sum::<f32>(), 0.0);
}

#[test]
fn ring_keeps_the_latest_round_trips() {
    let mut clock = FrameClock::new(0u32);
    clock.start_frame(0);
    clock.finish_frame();
    for t in 1..=70u32 {
        clock.start_frame(t);
        clock.finish_frame();
    }
    assert_eq!(clock.frame_count(), 71);
    // 70 samples went into 64 slots: slot i holds the latest sample written there.
    let samples = clock.samples();
    for k in 0..64u32 {
        let latest = 70 - k;
        let slot = ((latest - 1) % 64) as usize;
        assert_eq!(samples[slot], latest);
    }
    let total: u32 = samples.iter().sum();
    assert_eq!(total, (7..=70).sum::<u32>());
}

#[test]
fn escape_press_exits_unless_gui_consumes_it() {
    let escape = InputEvent::Keyboard { key: Some(Key::Escape), pressed: true };
    assert_eq!(input_action(false, escape), InputAction::Exit);
    assert_eq!(input_action(true, escape), InputAction::Ignore);
    let release = InputEvent::Keyboard { key: Some(Key::Escape), pressed: false };
    assert_eq!(input_action(false, release), InputAction::Ignore);
    let other = InputEvent::Keyboard { key: Some(Key::Other), pressed: true };
    assert_eq!(input_action(false, other), InputAction::Ignore);
    let unknown = InputEvent::Keyboard { key: None, pressed: true };
    assert_eq!(input_action(false, unknown), InputAction::Ignore);
    assert_eq!(input_action(false, InputEvent::Other), InputAction::Ignore);
}

#[test]
fn gui_context_only_inside_a_frame() {
    let mut gui = GuiFrameState::new();
    assert!(!gui.context_available());
    gui.begin_frame();
    assert!(gui.context_available());
    gui.end_frame();
    assert!(!gui.context_available());
}

#[test]
fn control_flow_per_platform() {
    let native: EngineRunner<u8, MyScene> = engine_entry(MyScene, Platform::Native);
    assert_eq!(native.control_flow(), ControlFlowMode::Poll);
    let web: EngineRunner<u8, MyScene> = engine_entry(MyScene, Platform::Web);
    assert_eq!(web.control_flow(), ControlFlowMode::Wait);
}

#[test]
fn entry_starts_the_engine_on_my_scene() {
    let runner: EngineRunner<u8, MyScene> = entry(Platform::Native);
    assert!(runner.engine.is_none());
    assert_eq!(runner.scene, Some(MyScene));
    assert_eq!(runner.platform, Platform::Native);
    let mut scene = MyScene;
    scene.setup();
    assert_eq!(scene, MyScene);
}

#[test]
fn scene_is_handed_out_once() {
    let mut runner: EngineRunner<u8, &str> = engine_entry("scene", Platform::Native);
    assert!(matches!(runner.resumed(), Resume::Launch("scene")));
    assert!(runner.scene.is_none());
    assert!(runner.engine.is_none());
    runner.user_event(EngineEvent::EngineReady(3));
    assert_eq!(runner.engine, Some(3));
    assert!(matches!(runner.resumed(), Resume::AlreadyRunning));
}

#[test]
fn nothing_runs_before_engine_is_ready() {
    for platform in [Platform::Native, Platform::Web] {
        let runner: EngineRunner<u8, &str> = engine_entry("scene", platform);
        assert_eq!(runner.about_to_wait(), RunnerAction::Nothing);
        assert!(!runner.engine_loop());
        assert_eq!(runner.window_event(WindowEventKind::CloseRequested), RunnerAction::Exit);
        assert_eq!(
            runner.window_event(WindowEventKind::Resized { width: 5, height: 6 }),
            RunnerAction::Nothing
        );
        assert_eq!(runner.window_event(WindowEventKind::RedrawRequested), RunnerAction::Nothing);
        assert_eq!(runner.window_event(WindowEventKind::Other), RunnerAction::Nothing);
    }
}

#[test]
fn ready_engine_gets_frames_events_and_resizes() {
    let mut native: EngineRunner<u8, &str> = engine_entry("scene", Platform::Native);
    native.user_event(EngineEvent::EngineReady(1));
    assert!(native.engine_loop());
    assert_eq!(native.about_to_wait(), RunnerAction::RunFrame);
    assert_eq!(
        native.window_event(WindowEventKind::Resized { width: 800, height: 600 }),
        RunnerAction::Resize { width: 800, height: 600 }
    );
    assert_eq!(native.window_event(WindowEventKind::RedrawRequested), RunnerAction::HandleInput);
    assert_eq!(native.window_event(WindowEventKind::Other), RunnerAction::HandleInput);
    assert_eq!(native.window_event(WindowEventKind::CloseRequested), RunnerAction::Exit);

    let mut web: EngineRunner<u8, &str> = engine_entry("scene", Platform::Web);
    web.user_event(EngineEvent::EngineReady(1));
    assert_eq!(web.about_to_wait(), RunnerAction::RequestRedraw);
    assert_eq!(web.window_event(WindowEventKind::RedrawRequested), RunnerAction::RunFrame);
}

#[test]
fn texture_upload_decodes_png_to_rgba() {
    let mut image = image::RgbaImage::new(2, 3);
    image.put_pixel(0, 0, image::Rgba([1, 2, 3, 4]));
    image.put_pixel(1, 2, image::Rgba([250, 251, 252, 253]));
    let mut encoded = std::io::Cursor::new(Vec::new());
    image.write_to(&mut encoded, image::ImageFormat::Png).unwrap();
    let upload = texture_upload(encoded.get_ref()).expect("a valid png decodes");
    assert_eq!((upload.width, upload.height), (2, 3));
    assert_eq!((upload.bytes_per_row, upload.rows_per_image), (8, 3));
    assert_eq!(upload.pixels.len(), 24);
    assert_eq!(&upload.pixels[0..4], &[1, 2, 3, 4]);
    assert_eq!(&upload.pixels[20..24], &[250, 251, 252, 253]);
    assert_eq!(upload.pixels, image.into_raw());
}

#[test]
fn texture_upload_refuses_bytes_that_are_no_image() {
    assert!(texture_upload(b"not an image").is_none());
    assert!(texture_upload(&[]).is_none());
}

#[test]
fn cursor_follows_frame_count() {
    let mut clock = FrameClock::new(0u32);
    for frame in 0..200u32 {
        clock.start_frame(frame);
        clock.finish_frame();
        let frames = clock.frame_count();
        let cursor_slot = ((frames - 1) % 64) as usize;
        // the slot before the cursor holds the latest time, once one was written
        if frames > 1 {
            let latest = (cursor_slot + 63) % 64;
            assert_eq!(clock.samples()[latest], frame);
        }
    }
}

#[test]
fn surface_size_stays_positive_over_resizes() {
    let mut size = SurfaceSize::for_window(0, 0);
    assert_eq!((size.width, size.height), (1, 1));
    assert!(!size.resize(1, 1));
    assert!(size.resize(3, 4));
    assert!(size.width >= 1 && size.height >= 1);
}

#[test]
fn upload_from_rgba8_lays_out_rows() {
    let upload = upload_from_rgba8(3, 2, vec![7u8; 24]).expect("narrow image");
    assert_eq!((upload.width, upload.height), (3, 2));
    assert_eq!((upload.bytes_per_row, upload.rows_per_image), (12, 2));
    assert_eq!(upload.pixels, vec![7u8; 24]);
    assert!(upload_from_rgba8(u32::MAX / 4 + 1, 1, Vec::new()).is_none());
    assert!(upload_from_rgba8(u32::MAX / 4, 1, Vec::new()).is_some());
}

#[test]
fn gui_context_stays_available_until_frame_ends() {
    let mut gui = GuiFrameState::new();
    gui.begin_frame();
    assert!(gui.context_available());
    assert!(gui.context_available());
    gui.begin_frame();
    assert!(gui.context_available());
    gui.end_frame();
    assert!(!gui.context_available());
    gui.end_frame();
    assert!(!gui.context_available());
}
