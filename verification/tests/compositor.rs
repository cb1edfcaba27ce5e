use kiri::compositor::{
    check_grab, commit_xdg_shell_surface, determine_backend, frame_step, handle_pointer_button_event,
    resolve_backend, window_events, x11_frame_step, ButtonPlan, ButtonState, Cli, ClientState,
    CommitActions, CommitTarget, DisplayBackend, FrameStep, OutputMode, PointerButton, Rect,
    RenderStep, RenderedFrame, WindowEvent,
};
use kiri::compositor::{
    dispatch_input_event, handle_device_added_event, InputEventKind, InputRoute, KeyRepeat, SeatDevices,
};

#[test]
fn backend_from_environment() {
    assert_eq!(determine_backend(true, false), DisplayBackend::Winit);
    assert_eq!(determine_backend(false, true), DisplayBackend::Winit);
    assert_eq!(determine_backend(true, true), DisplayBackend::Winit);
    assert_eq!(determine_backend(false, false), DisplayBackend::TtyUdev);
}

#[test]
fn explicit_backend_is_kept() {
    for b in [DisplayBackend::Winit, DisplayBackend::TtyUdev, DisplayBackend::X11] {
        assert_eq!(resolve_backend(b, true, true), b);
        assert_eq!(resolve_backend(b, false, false), b);
    }
}

#[test]
fn auto_backend_is_resolved() {
    let cli = Cli { backend: DisplayBackend::Auto };
    assert_eq!(resolve_backend(cli.backend, false, true), DisplayBackend::Winit);
    assert_eq!(resolve_backend(cli.backend, false, false), DisplayBackend::TtyUdev);
}

#[test]
fn press_focuses_window_under_pointer() {
    let forward = PointerButton { button: 272, state: ButtonState::Pressed, serial: 9, time: 1000 };
    assert_eq!(
        handle_pointer_button_event(ButtonState::Pressed, false, Some(7u32), 272, 9, 1000),
        ButtonPlan {
            raise: Some(7),
            deactivate_all: false,
            keyboard_focus: Some(Some(7)),
            configure_all: true,
            forward,
        }
    );
    assert_eq!(
        handle_pointer_button_event::<u32>(ButtonState::Pressed, false, None, 272, 9, 1000),
        ButtonPlan {
            raise: None,
            deactivate_all: true,
            keyboard_focus: Some(None),
            configure_all: true,
            forward,
        }
    );
}

#[test]
fn release_or_grab_only_forwards() {
    let released = handle_pointer_button_event(ButtonState::Released, false, Some(7u32), 273, 4, 50);
    assert_eq!(
        released,
        ButtonPlan {
            raise: None,
            deactivate_all: false,
            keyboard_focus: None,
            configure_all: false,
            forward: PointerButton { button: 273, state: ButtonState::Released, serial: 4, time: 50 },
        }
    );
    let grabbed = handle_pointer_button_event(ButtonState::Pressed, true, Some(7u32), 272, 5, 60);
    assert_eq!(
        grabbed,
        ButtonPlan {
            raise: None,
            deactivate_all: false,
            keyboard_focus: None,
            configure_all: false,
            forward: PointerButton { button: 272, state: ButtonState::Pressed, serial: 5, time: 60 },
        }
    );
}

#[test]
fn client_state_is_plain() {
    let _state = ClientState::default();
}

#[test]
fn popup_commit_sends_owed_configure() {
    let owed = commit_xdg_shell_surface(CommitTarget::Popup, Some(false));
    assert_eq!(owed, CommitActions { send_configure: true, resize_commit: false, handled: false });
    let sent = commit_xdg_shell_surface(CommitTarget::Popup, Some(true));
    assert_eq!(sent, CommitActions { send_configure: false, resize_commit: false, handled: false });
    let unreadable = commit_xdg_shell_surface(CommitTarget::Popup, None);
    assert_eq!(unreadable, CommitActions { send_configure: false, resize_commit: false, handled: false });
}

#[test]
fn window_commit_is_handled() {
    let owed = commit_xdg_shell_surface(CommitTarget::Window, Some(false));
    assert_eq!(owed, CommitActions { send_configure: true, resize_commit: true, handled: true });
    let sent = commit_xdg_shell_surface(CommitTarget::Window, Some(true));
    assert_eq!(sent, CommitActions { send_configure: false, resize_commit: true, handled: true });
    let unreadable = commit_xdg_shell_surface(CommitTarget::Window, None);
    assert_eq!(unreadable, CommitActions { send_configure: false, resize_commit: false, handled: false });
    let other = commit_xdg_shell_surface(CommitTarget::Other, Some(false));
    assert_eq!(other, CommitActions { send_configure: false, resize_commit: false, handled: false });
}

#[test]
fn grab_needs_matching_pointer_grab_and_client() {
    assert_eq!(check_grab(Some(true), Some(5u8), Some(true)), Some(5));
    assert_eq!(check_grab(None, Some(5u8), Some(true)), None);
    assert_eq!(check_grab(Some(false), Some(5u8), Some(true)), None);
    assert_eq!(check_grab::<u8>(Some(true), None, Some(true)), None);
    assert_eq!(check_grab(Some(true), Some(5u8), None), None);
    assert_eq!(check_grab(Some(true), Some(5u8), Some(false)), None);
}

#[test]
fn frame_step_counts_down_and_stops() {
    assert_eq!(frame_step(true, 3, 800, 600), FrameStep::Stop);
    let winit_steps = vec![
        RenderStep::Bind,
        RenderStep::RenderOutput,
        RenderStep::Submit(Some(Rect { x: 0, y: 0, width: 800, height: 600 })),
        RenderStep::SendFrames,
        RenderStep::RefreshSpace,
        RenderStep::FlushClients,
    ];
    assert_eq!(
        frame_step(false, 3, 800, 600),
        FrameStep::Render(RenderedFrame { full_redraw: 2, steps: winit_steps.clone(), next_in_ms: 16 })
    );
    assert_eq!(
        frame_step(false, 0, 800, 600),
        FrameStep::Render(RenderedFrame { full_redraw: 0, steps: winit_steps, next_in_ms: 16 })
    );
}

#[test]
fn x11_frame_never_stops() {
    let frame = x11_frame_step(1);
    assert_eq!(frame.full_redraw, 0);
    assert_eq!(frame.next_in_ms, 16);
    assert_eq!(
        frame.steps,
        vec![
            RenderStep::AcquireBuffer,
            RenderStep::Bind,
            RenderStep::RenderOutput,
            RenderStep::Submit(None),
            RenderStep::SendFrames,
            RenderStep::RefreshSpace,
            RenderStep::FlushClients,
        ]
    );
    assert_eq!(x11_frame_step(0).full_redraw, 0);
}

#[test]
fn window_events_keep_inputs_in_order_and_last_resize() {
    let handled = window_events(vec![
        WindowEvent::Input(1u8),
        WindowEvent::Resized { width: 640, height: 480 },
        WindowEvent::Other,
        WindowEvent::Input(2u8),
        WindowEvent::Resized { width: 1024, height: 768 },
        WindowEvent::Input(3u8),
    ]);
    assert_eq!(handled.inputs, vec![1, 2, 3]);
    assert_eq!(handled.output_mode, Some(OutputMode { width: 1024, height: 768, refresh_mhz: 60_000 }));
    let quiet = window_events(vec![WindowEvent::Other, WindowEvent::Input(4u8)]);
    assert_eq!(quiet.inputs, vec![4]);
    assert_eq!(quiet.output_mode, None);
    assert_eq!(window_events::<u8>(vec![]).inputs, Vec::<u8>::new());
}

#[test]
fn input_events_reach_their_handlers() {
    assert_eq!(dispatch_input_event(InputEventKind::Keyboard), InputRoute::KeyboardKey);
    assert_eq!(dispatch_input_event(InputEventKind::DeviceAdded), InputRoute::DeviceAdded);
    assert_eq!(dispatch_input_event(InputEventKind::PointerButton), InputRoute::PointerButton);
    assert_eq!(
        dispatch_input_event(InputEventKind::PointerMotionAbsolute),
        InputRoute::PointerMotionAbsolute
    );
    assert_eq!(dispatch_input_event(InputEventKind::PointerAxis), InputRoute::PointerScroll);
    assert_eq!(dispatch_input_event(InputEventKind::PointerMotion), InputRoute::Ignore);
    assert_eq!(dispatch_input_event(InputEventKind::DeviceRemoved), InputRoute::Ignore);
    assert_eq!(dispatch_input_event(InputEventKind::Other), InputRoute::Ignore);
}

#[test]
fn added_device_brings_its_capabilities() {
    assert_eq!(
        handle_device_added_event(true, true, false),
        SeatDevices { keyboard: Some(KeyRepeat { delay_ms: 200, rate: 25 }), pointer: true, touch: false }
    );
    assert_eq!(
        handle_device_added_event(false, false, true),
        SeatDevices { keyboard: None, pointer: false, touch: true }
    );
}
