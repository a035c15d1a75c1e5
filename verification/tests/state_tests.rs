use piksell::error::{PiksellError, PiksellSurfaceError};
use piksell::state::{
    created_surface, granted_device, PiksellLoadOp, PiksellRenderPass, PiksellState,
    PiksellStateBuilder, RENDER_ENCODER_LABEL, RENDER_PASS_LABEL,
};
use piksell::surface::PiksellSurfaceCapabilities;
use piksell::util::{PiksellColor, PiksellSize};
use wgpu::{CompositeAlphaMode, PresentMode, TextureFormat, TextureUsages};

type MockState = PiksellState<&'static str, &'static str, &'static str, &'static str, &'static str>;

fn capabilities() -> PiksellSurfaceCapabilities {
    PiksellSurfaceCapabilities {
        formats: vec![TextureFormat::Bgra8UnormSrgb, TextureFormat::Bgra8Unorm],
        present_modes: vec![PresentMode::Fifo],
        alpha_modes: vec![CompositeAlphaMode::Opaque],
        usages: TextureUsages::RENDER_ATTACHMENT,
    }
}

fn built(width: u32, height: u32) -> MockState {
    PiksellStateBuilder::new().build(
        PiksellSize::new(width, height),
        "instance",
        "surface",
        "adapter",
        "device",
        "queue",
        capabilities(),
    )
}

fn configured(width: u32, height: u32) -> MockState {
    let mut state = built(width, height);
    assert_eq!(state.resize(PiksellSize::new(width, height)), Ok(()));
    state
}

#[test]
fn resize_takes_the_new_size_into_the_configuration() {
    let mut state = configured(800, 600);
    assert_eq!(state.resize(PiksellSize::new(1024, 768)), Ok(()));
    assert_eq!(state.window_size(), PiksellSize::new(1024, 768));
    assert_eq!(state.surface_configuration().width, 1024);
    assert_eq!(state.surface_configuration().height, 768);
}

#[test]
fn resize_changes_nothing_but_the_size() {
    let mut state = configured(800, 600);
    assert_eq!(state.resize(PiksellSize::new(1024, 768)), Ok(()));
    let configuration = state.surface_configuration();
    assert_eq!(configuration.usage, TextureUsages::RENDER_ATTACHMENT);
    assert_eq!(configuration.format, TextureFormat::Bgra8UnormSrgb);
    assert_eq!(configuration.present_mode, PresentMode::Fifo);
    assert_eq!(configuration.alpha_mode, CompositeAlphaMode::Opaque);
    assert_eq!(configuration.view_formats, vec![]);
    assert_eq!(state.get_surface_capabilities(), capabilities());
    assert_eq!(*state.get_instance(), "instance");
    assert_eq!(*state.get_adapter(), "adapter");
}

#[test]
fn first_resize_configures_the_surface() {
    let mut state = built(800, 600);
    assert!(!state.is_configured());
    assert_eq!(state.resize(PiksellSize::new(800, 600)), Ok(()));
    assert!(state.is_configured());
}

#[test]
fn resize_twice_is_resize_once() {
    let size = PiksellSize::new(1280, 720);
    let mut once = configured(800, 600);
    assert_eq!(once.resize(size), Ok(()));
    let mut twice = configured(800, 600);
    assert_eq!(twice.resize(size), Ok(()));
    assert_eq!(twice.resize(size), Ok(()));
    assert_eq!(once.window_size(), twice.window_size());
    assert_eq!(once.surface_configuration(), twice.surface_configuration());
    assert_eq!(once.is_configured(), twice.is_configured());
    assert_eq!(once.get_surface_capabilities(), twice.get_surface_capabilities());
    assert_eq!(twice.surface_configuration().width, 1280);
    assert_eq!(twice.surface_configuration().height, 720);
}

#[test]
fn resize_to_zero_width_is_rejected() {
    let mut state = configured(800, 600);
    assert_eq!(state.resize(PiksellSize::new(0, 600)), Err(PiksellError::InvalidSize));
    assert_eq!(state.window_size(), PiksellSize::new(800, 600));
    assert_eq!(state.surface_configuration().width, 800);
    assert_eq!(state.surface_configuration().height, 600);
    assert!(state.is_configured());
}

#[test]
fn resize_to_zero_height_is_rejected() {
    let mut state = configured(800, 600);
    assert_eq!(state.resize(PiksellSize::new(800, 0)), Err(PiksellError::InvalidSize));
    assert_eq!(state.window_size(), PiksellSize::new(800, 600));
}

#[test]
fn rejected_resize_does_not_configure() {
    let mut state = built(0, 0);
    assert_eq!(state.resize(PiksellSize::new(0, 0)), Err(PiksellError::InvalidSize));
    assert!(!state.is_configured());
    assert_eq!(state.surface_configuration().width, 0);
}

#[test]
fn resize_accepts_the_smallest_and_the_largest_size() {
    let mut state = configured(800, 600);
    assert_eq!(state.resize(PiksellSize::new(1, 1)), Ok(()));
    assert_eq!(state.window_size(), PiksellSize::new(1, 1));
    assert_eq!(state.resize(PiksellSize::new(u32::MAX, u32::MAX)), Ok(()));
    assert_eq!(state.surface_configuration().width, u32::MAX);
}

#[test]
fn render_with_a_color_clears_to_it() {
    let state = configured(800, 600);
    let blue = PiksellColor { r: 0.0, g: 0.0, b: 1.0, a: 1.0 };
    let outcome = state.render(Some(blue), Ok("frame"));
    let expected = PiksellRenderPass { load: PiksellLoadOp::Clear(blue), store: true };
    assert_eq!(outcome, Ok(("frame", expected)));
}

#[test]
fn render_without_a_color_keeps_the_contents() {
    let state = configured(800, 600);
    let outcome = state.render(None, Ok("frame"));
    assert_eq!(outcome, Ok(("frame", PiksellRenderPass { load: PiksellLoadOp::Load, store: true })));
}

#[test]
fn render_hands_the_color_on_as_it_is() {
    let state = configured(800, 600);
    let odd = PiksellColor { r: 2.5, g: -1.0, b: 0.25, a: 7.0 };
    let (_, pass) = state.render(Some(odd), Ok(())).unwrap();
    assert_eq!(pass.load, PiksellLoadOp::Clear(odd));
}

#[test]
fn render_after_resize_still_clears() {
    let mut state = configured(800, 600);
    let blue = PiksellColor { r: 0.0, g: 0.0, b: 1.0, a: 1.0 };
    assert!(state.render(Some(blue), Ok(0u8)).is_ok());
    assert_eq!(state.resize(PiksellSize::new(1024, 768)), Ok(()));
    let red = PiksellColor { r: 1.0, g: 0.0, b: 0.0, a: 1.0 };
    let (frame, pass) = state.render(Some(red), Ok(1u8)).unwrap();
    assert_eq!(frame, 1);
    assert_eq!(pass.load, PiksellLoadOp::Clear(red));
    assert_eq!(state.surface_configuration().width, 1024);
    assert_eq!(state.surface_configuration().height, 768);
}

#[test]
fn render_on_an_outdated_surface_fails_and_recovers_after_resize() {
    let mut state = configured(800, 600);
    let outcome = state.render::<()>(None, Err(PiksellSurfaceError::Outdated));
    assert_eq!(outcome, Err(PiksellError::SurfaceAcquire(PiksellSurfaceError::Outdated)));
    assert_eq!(state.resize(PiksellSize::new(800, 600)), Ok(()));
    assert!(state.render(None, Ok(())).is_ok());
}

#[test]
fn render_keeps_every_acquire_reason() {
    let state = configured(800, 600);
    let black = PiksellColor { r: 0.0, g: 0.0, b: 0.0, a: 1.0 };
    for reason in [
        PiksellSurfaceError::Timeout,
        PiksellSurfaceError::Outdated,
        PiksellSurfaceError::Lost,
        PiksellSurfaceError::OutOfMemory,
    ] {
        let outcome = state.render::<u8>(Some(black), Err(reason));
        assert_eq!(outcome, Err(PiksellError::SurfaceAcquire(reason)));
    }
}

#[test]
fn render_does_not_touch_the_context() {
    let state = configured(800, 600);
    let before = state.surface_configuration().width;
    let _ = state.render::<()>(None, Err(PiksellSurfaceError::Lost));
    let _ = state.render(None, Ok(()));
    assert_eq!(state.surface_configuration().width, before);
    assert_eq!(state.window_size(), PiksellSize::new(800, 600));
    assert!(state.is_configured());
}

#[test]
fn labels_name_the_encoder_and_the_pass() {
    assert_eq!(RENDER_ENCODER_LABEL, "Piksell Render Encoder");
    assert_eq!(RENDER_PASS_LABEL, "Piksell State Render Pass");
}

#[test]
fn created_surface_passes_the_surface_on() {
    let outcome: Result<&str, ()> = Ok("surface");
    assert_eq!(created_surface(outcome), Ok("surface"));
}

#[test]
fn refused_surface_is_a_surface_creation_failure() {
    let outcome: Result<u8, &str> = Err("no such window");
    assert_eq!(created_surface(outcome), Err(PiksellError::SurfaceCreation));
}

#[test]
fn granted_device_passes_device_and_queue_on() {
    let outcome: Result<(&str, u8), ()> = Ok(("device", 9));
    assert_eq!(granted_device(outcome), Ok(("device", 9)));
}

#[test]
fn refused_device_is_a_device_request_failure() {
    let outcome: Result<((), ()), String> = Err(String::from("unsupported feature"));
    assert_eq!(granted_device(outcome), Err(PiksellError::DeviceRequest));
}
