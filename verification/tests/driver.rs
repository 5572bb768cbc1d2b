use frame_lifecycle::driver::{Command, ControlFlow, FrameDriver, EXIT_CODE};
use frame_lifecycle::error::RenderError;
use frame_lifecycle::event::{ElementState, Event, KeyCode, WindowEvent};
use frame_lifecycle::size::Size;
use frame_lifecycle::surface::{PresentMode, SurfaceCapabilities, SurfaceConfig, TextureUsage};
use frame_lifecycle::RenderContext;

const WINDOW: u64 = 41;
const ELSEWHERE: u64 = 42;

fn driver() -> FrameDriver<u32, u8> {
    let caps = SurfaceCapabilities { formats: vec![23, 18], alpha_modes: vec![1, 0] };
    FrameDriver::new(RenderContext::new(Size::new(800, 600), &caps).unwrap(), WINDOW)
}

fn config_of(width: u32, height: u32) -> SurfaceConfig<u32, u8> {
    SurfaceConfig {
        usage: TextureUsage::RenderAttachment,
        format: 23,
        width,
        height,
        present_mode: PresentMode::Fifo,
        alpha_mode: 1,
    }
}

fn own(event: WindowEvent) -> Event {
    Event::WindowEvent { window: WINDOW, event }
}

fn key(state: ElementState, key: Option<KeyCode>) -> Event {
    own(WindowEvent::KeyboardInput { state, key })
}

fn assert_untouched(driver: &FrameDriver<u32, u8>) {
    assert_eq!(driver.window(), WINDOW);
    assert_eq!(driver.control_flow(), ControlFlow::Poll);
    assert_eq!(driver.context().size(), Size::new(800, 600));
    assert_eq!(driver.context().config(), config_of(800, 600));
}

#[test]
fn new_driver_polls() {
    let driver = driver();
    assert_untouched(&driver);
}

#[test]
fn exit_code_is_zero() {
    assert_eq!(EXIT_CODE, 0);
}

#[test]
fn cleared_events_request_a_redraw() {
    let mut driver = driver();
    assert_eq!(driver.handle_event(&Event::MainEventsCleared), Command::RequestRedraw);
    assert_untouched(&driver);
}

#[test]
fn redraw_request_renders() {
    let mut driver = driver();
    assert_eq!(driver.handle_event(&Event::RedrawRequested { window: WINDOW }), Command::Render);
    assert_untouched(&driver);
}

#[test]
fn redraw_request_for_another_window_is_ignored() {
    let mut driver = driver();
    assert_eq!(driver.handle_event(&Event::RedrawRequested { window: ELSEWHERE }), Command::Idle);
    assert_untouched(&driver);
}

#[test]
fn other_events_are_ignored() {
    let mut driver = driver();
    assert_eq!(driver.handle_event(&Event::Other), Command::Idle);
    assert_eq!(driver.handle_event(&own(WindowEvent::Other)), Command::Idle);
    assert_untouched(&driver);
}

#[test]
fn resized_window_is_configured() {
    let mut driver = driver();
    let command = driver.handle_event(&own(WindowEvent::Resized(Size::new(1280, 720))));
    assert_eq!(command, Command::Configure(config_of(1280, 720)));
    assert_eq!(driver.context().size(), Size::new(1280, 720));
    assert_eq!(driver.context().config(), config_of(1280, 720));
    assert_eq!(driver.control_flow(), ControlFlow::Poll);
}

#[test]
fn scale_factor_change_is_configured() {
    let mut driver = driver();
    let command = driver.handle_event(&own(WindowEvent::ScaleFactorChanged {
        new_inner_size: Size::new(1600, 1200),
    }));
    assert_eq!(command, Command::Configure(config_of(1600, 1200)));
    assert_eq!(driver.context().size(), Size::new(1600, 1200));
    assert_eq!(driver.context().config(), config_of(1600, 1200));
}

#[test]
fn minimised_window_is_left_alone() {
    let mut driver = driver();
    for size in [Size::new(0, 0), Size::new(0, 600), Size::new(800, 0)] {
        assert_eq!(driver.handle_event(&own(WindowEvent::Resized(size))), Command::Idle);
        assert_eq!(
            driver.handle_event(&own(WindowEvent::ScaleFactorChanged { new_inner_size: size })),
            Command::Idle
        );
        assert_untouched(&driver);
    }
}

#[test]
fn events_of_another_window_are_ignored() {
    let mut driver = driver();
    let events = [
        WindowEvent::Resized(Size::new(1280, 720)),
        WindowEvent::ScaleFactorChanged { new_inner_size: Size::new(1280, 720) },
        WindowEvent::CloseRequested,
        WindowEvent::KeyboardInput { state: ElementState::Released, key: Some(KeyCode::Escape) },
    ];
    for event in events {
        let command = driver.handle_event(&Event::WindowEvent { window: ELSEWHERE, event });
        assert_eq!(command, Command::Idle);
        assert_untouched(&driver);
    }
}

#[test]
fn close_request_exits_with_zero() {
    let mut driver = driver();
    assert_eq!(driver.handle_event(&own(WindowEvent::CloseRequested)), Command::Exit(0));
    assert_eq!(driver.control_flow(), ControlFlow::ExitWithCode(0));
    assert_eq!(driver.context().config(), config_of(800, 600));
}

#[test]
fn escape_released_exits_with_zero() {
    let mut driver = driver();
    let command = driver.handle_event(&key(ElementState::Released, Some(KeyCode::Escape)));
    assert_eq!(command, Command::Exit(0));
    assert_eq!(driver.control_flow(), ControlFlow::ExitWithCode(0));
}

#[test]
fn other_keyboard_input_is_ignored() {
    let mut driver = driver();
    let events = [
        key(ElementState::Pressed, Some(KeyCode::Escape)),
        key(ElementState::Released, Some(KeyCode::Other)),
        key(ElementState::Pressed, Some(KeyCode::Other)),
        key(ElementState::Released, None),
        key(ElementState::Pressed, None),
    ];
    for event in events {
        assert_eq!(driver.handle_event(&event), Command::Idle);
        assert_untouched(&driver);
    }
}

#[test]
fn presented_frame_needs_nothing() {
    let mut driver = driver();
    assert_eq!(driver.frame_finished(Ok(())), Command::Idle);
    assert_untouched(&driver);
}

#[test]
fn lost_surface_is_configured_once_for_the_current_size() {
    let mut driver = driver();
    driver.handle_event(&own(WindowEvent::Resized(Size::new(1024, 768))));
    assert_eq!(driver.handle_event(&Event::RedrawRequested { window: WINDOW }), Command::Render);
    let command = driver.frame_finished(Err(RenderError::Lost));
    assert_eq!(command, Command::Configure(config_of(1024, 768)));
    assert_eq!(driver.context().size(), Size::new(1024, 768));
    assert_eq!(driver.context().config(), config_of(1024, 768));
    assert_eq!(driver.control_flow(), ControlFlow::Poll);
    assert_eq!(driver.handle_event(&Event::MainEventsCleared), Command::RequestRedraw);
    assert_eq!(driver.handle_event(&Event::RedrawRequested { window: WINDOW }), Command::Render);
}

#[test]
fn out_of_memory_exits_with_zero() {
    let mut driver = driver();
    assert_eq!(driver.handle_event(&Event::RedrawRequested { window: WINDOW }), Command::Render);
    assert_eq!(driver.frame_finished(Err(RenderError::OutOfMemory)), Command::Exit(0));
    assert_eq!(driver.control_flow(), ControlFlow::ExitWithCode(0));
    assert_eq!(driver.context().size(), Size::new(800, 600));
    assert_eq!(driver.context().config(), config_of(800, 600));
}

#[test]
fn nothing_is_rendered_after_out_of_memory() {
    let mut driver = driver();
    driver.frame_finished(Err(RenderError::OutOfMemory));
    let events = [
        Event::MainEventsCleared,
        Event::RedrawRequested { window: WINDOW },
        own(WindowEvent::Resized(Size::new(1280, 720))),
        own(WindowEvent::CloseRequested),
        Event::Other,
    ];
    for event in events {
        assert_eq!(driver.handle_event(&event), Command::Idle);
        assert_eq!(driver.control_flow(), ControlFlow::ExitWithCode(0));
        assert_eq!(driver.context().config(), config_of(800, 600));
    }
    for outcome in [Ok(()), Err(RenderError::Lost), Err(RenderError::Timeout)] {
        assert_eq!(driver.frame_finished(outcome), Command::Idle);
        assert_eq!(driver.control_flow(), ControlFlow::ExitWithCode(0));
    }
}

#[test]
fn nothing_is_rendered_after_close() {
    let mut driver = driver();
    driver.handle_event(&own(WindowEvent::CloseRequested));
    assert_eq!(driver.handle_event(&Event::MainEventsCleared), Command::Idle);
    assert_eq!(driver.handle_event(&Event::RedrawRequested { window: WINDOW }), Command::Idle);
    assert_eq!(driver.control_flow(), ControlFlow::ExitWithCode(0));
}

#[test]
fn transient_errors_are_reported_and_the_loop_goes_on() {
    for error in [RenderError::Outdated, RenderError::Timeout, RenderError::Other] {
        let mut driver = driver();
        assert_eq!(driver.frame_finished(Err(error)), Command::Report(error));
        assert_untouched(&driver);
        assert_eq!(driver.handle_event(&Event::MainEventsCleared), Command::RequestRedraw);
        assert_eq!(
            driver.handle_event(&Event::RedrawRequested { window: WINDOW }),
            Command::Render
        );
    }
}

#[test]
fn a_session_from_start_to_close() {
    let mut driver = driver();
    let mut commands = Vec::new();
    commands.push(driver.handle_event(&Event::MainEventsCleared));
    commands.push(driver.handle_event(&Event::RedrawRequested { window: WINDOW }));
    commands.push(driver.frame_finished(Ok(())));
    commands.push(driver.handle_event(&own(WindowEvent::Resized(Size::new(0, 0)))));
    commands.push(driver.handle_event(&own(WindowEvent::Resized(Size::new(400, 300)))));
    commands.push(driver.handle_event(&Event::RedrawRequested { window: WINDOW }));
    commands.push(driver.frame_finished(Err(RenderError::Outdated)));
    commands.push(driver.handle_event(&Event::RedrawRequested { window: WINDOW }));
    commands.push(driver.frame_finished(Err(RenderError::Lost)));
    commands.push(driver.handle_event(&key(ElementState::Pressed, Some(KeyCode::Escape))));
    commands.push(driver.handle_event(&key(ElementState::Released, Some(KeyCode::Escape))));
    commands.push(driver.handle_event(&Event::RedrawRequested { window: WINDOW }));
    assert_eq!(
        commands,
        vec![
            Command::RequestRedraw,
            Command::Render,
            Command::Idle,
            Command::Idle,
            Command::Configure(config_of(400, 300)),
            Command::Render,
            Command::Report(RenderError::Outdated),
            Command::Render,
            Command::Configure(config_of(400, 300)),
            Command::Idle,
            Command::Exit(0),
            Command::Idle,
        ]
    );
    assert_eq!(driver.control_flow(), ControlFlow::ExitWithCode(0));
    assert_eq!(driver.context().size(), Size::new(400, 300));
}
