//! Decisions of the `gyaku` compositor, taken on plain values.

use vstd::prelude::*;

verus! {

/// Per-client data the compositor attaches to each Wayland client.
#[derive(Debug, Clone, Copy, Default)]
pub struct ClientState;

/// The display backends the compositor can run on.
#[derive(Debug, Clone, Copy, PartialEq, Eq, Structural)]
pub enum DisplayBackend {
    Winit,
    TtyUdev,
    X11,
    Auto,
}

/// The compositor's command line.
#[derive(Debug, Clone, Copy)]
pub struct Cli {
    /// Backend asked for with `--backend` / `-B` (default `auto`).
    pub backend: DisplayBackend,
}

/// The backend chosen from the environment: a nested (winit) backend when a
/// display server is already running, the TTY otherwise.
pub open spec fn spec_determine_backend(display_set: bool, wayland_display_set: bool) -> DisplayBackend {
    if display_set || wayland_display_set {
        DisplayBackend::Winit
    } else {
        DisplayBackend::TtyUdev
    }
}

/// Automatically determines the backend from whether `DISPLAY` and
/// `WAYLAND_DISPLAY` are set.
pub fn determine_backend(display_set: bool, wayland_display_set: bool) -> (backend: DisplayBackend)
    ensures
        backend == spec_determine_backend(display_set, wayland_display_set),
{
    if display_set || wayland_display_set {
        DisplayBackend::Winit
    } else {
        DisplayBackend::TtyUdev
    }
}

/// The backend the `kiri` launcher starts the compositor on: the one asked
/// for with `--backend`, or for `Auto` the one [`determine_backend`] picks
/// from the environment.
pub open spec fn spec_resolve_backend(
    requested: DisplayBackend,
    display_set: bool,
    wayland_display_set: bool,
) -> DisplayBackend {
    if requested == DisplayBackend::Auto {
        spec_determine_backend(display_set, wayland_display_set)
    } else {
        requested
    }
}

/// Resolves the backend given on the launcher's command line against the
/// environment.
pub fn resolve_backend(requested: DisplayBackend, display_set: bool, wayland_display_set: bool) -> (backend:
    DisplayBackend)
    ensures
        backend == spec_resolve_backend(requested, display_set, wayland_display_set),
{
    match requested {
        DisplayBackend::Auto => determine_backend(display_set, wayland_display_set),
        other => other,
    }
}

/// Whether a pointer button went down or up.
#[derive(Debug, Clone, Copy, PartialEq, Eq, Structural)]
pub enum ButtonState {
    Released,
    Pressed,
}

/// A pointer button event as it is passed on to the clients.
#[derive(Debug, Clone, Copy, PartialEq, Eq, Structural)]
pub struct PointerButton {
    pub button: u32,
    pub state: ButtonState,
    pub serial: u32,
    pub time: u32,
}

/// What the compositor does for a pointer button event.
#[derive(Debug, Clone, Copy, PartialEq, Eq)]
pub struct ButtonPlan<W> {
    /// The window to raise to the top and activate; `None` leaves the
    /// stacking order and every window's activation as they are.
    pub raise: Option<W>,
    /// Deactivate every window.
    pub deactivate_all: bool,
    /// The new keyboard focus (a window, or none), set with the event's
    /// serial where the seat has a keyboard; `None` leaves the focus alone.
    pub keyboard_focus: Option<Option<W>>,
    /// Send a configure to every window.
    pub configure_all: bool,
    /// The button event passed on to the pointer's clients.
    pub forward: PointerButton,
}

/// The plan for a button event with the given `state`, on a pointer that is
/// `pointer_grabbed` or not, over `window_under`, with button code `button`,
/// the fresh `serial` drawn for it and its `time`.
///
/// A press on a free pointer over a window raises and activates that window,
/// focuses the keyboard on it and configures every window; over no window it
/// deactivates every window, clears the keyboard focus and configures every
/// window, leaving the stacking order alone. A release, or any event on a
/// grabbed pointer, changes none of this. In every case the event is passed
/// on, once, with its button code, state, serial and time.
pub open spec fn spec_pointer_button<W>(
    state: ButtonState,
    pointer_grabbed: bool,
    window_under: Option<W>,
    button: u32,
    serial: u32,
    time: u32,
) -> ButtonPlan<W> {
    let forward = PointerButton { button, state, serial, time };
    if state == ButtonState::Pressed && !pointer_grabbed {
        match window_under {
            Some(w) => ButtonPlan {
                raise: Some(w),
                deactivate_all: false,
                keyboard_focus: Some(Some(w)),
                configure_all: true,
                forward,
            },
            None => ButtonPlan {
                raise: None,
                deactivate_all: true,
                keyboard_focus: Some(None),
                configure_all: true,
                forward,
            },
        }
    } else {
        ButtonPlan { raise: None, deactivate_all: false, keyboard_focus: None, configure_all: false, forward }
    }
}

/// Decides what a pointer button event does. Drawing the serial, finding the
/// window under the pointer and carrying out the plan are left to the caller.
pub fn handle_pointer_button_event<W: Copy>(
    state: ButtonState,
    pointer_grabbed: bool,
    window_under: Option<W>,
    button: u32,
    serial: u32,
    time: u32,
) -> (plan: ButtonPlan<W>)
    ensures
        plan == spec_pointer_button(state, pointer_grabbed, window_under, button, serial, time),
{
    let forward = PointerButton { button, state, serial, time };
    let pressed = match state {
        ButtonState::Pressed => true,
        ButtonState::Released => false,
    };
    if pressed && !pointer_grabbed {
        match window_under {
            Some(w) => ButtonPlan {
                raise: Some(w),
                deactivate_all: false,
                keyboard_focus: Some(Some(w)),
                configure_all: true,
                forward,
            },
            None => ButtonPlan {
                raise: None,
                deactivate_all: true,
                keyboard_focus: Some(None),
                configure_all: true,
                forward,
            },
        }
    } else {
        ButtonPlan { raise: None, deactivate_all: false, keyboard_focus: None, configure_all: false, forward }
    }
}

/// Focus, stacking, activation and configures change only on a press on a
/// free pointer; the button event is passed on unchanged in every case.
pub proof fn lemma_button_changes_only_on_free_press<W>(
    state: ButtonState,
    pointer_grabbed: bool,
    window_under: Option<W>,
    button: u32,
    serial: u32,
    time: u32,
)
    ensures
        ({
            let plan = spec_pointer_button(state, pointer_grabbed, window_under, button, serial, time);
            &&& plan.forward == PointerButton { button, state, serial, time }
            &&& !(state == ButtonState::Pressed && !pointer_grabbed) ==> {
                &&& plan.raise is None
                &&& !plan.deactivate_all
                &&& plan.keyboard_focus is None
                &&& !plan.configure_all
            }
            &&& (state == ButtonState::Pressed && !pointer_grabbed) ==> plan.configure_all
                && plan.keyboard_focus is Some
        }),
{
}

/// What a committed surface turned out to be.
#[derive(Debug, Clone, Copy, PartialEq, Eq, Structural)]
pub enum CommitTarget {
    /// An xdg popup tracked by the popup manager.
    Popup,
    /// The toplevel of a mapped window.
    Window,
    /// Neither.
    Other,
}

/// What the compositor does for a commit on an xdg surface.
#[derive(Debug, Clone, Copy, PartialEq, Eq, Structural)]
pub struct CommitActions {
    /// Send the initial configure to the surface.
    pub send_configure: bool,
    /// Let an ongoing interactive resize follow the commit.
    pub resize_commit: bool,
    /// The commit was handled as a window's (the `Some(())` of the handler).
    pub handled: bool,
}

/// The actions for a commit on `target`, given whether its initial
/// configure was sent (`None` when that state cannot be read): a popup or a
/// window gets its initial configure if it is still owed; only a window with
/// readable state goes on to the resize logic and counts as handled.
pub open spec fn spec_commit_actions(target: CommitTarget, initial_configure_sent: Option<bool>) -> CommitActions {
    match target {
        CommitTarget::Popup => CommitActions {
            send_configure: initial_configure_sent == Some(false),
            resize_commit: false,
            handled: false,
        },
        CommitTarget::Window => CommitActions {
            send_configure: initial_configure_sent == Some(false),
            resize_commit: initial_configure_sent is Some,
            handled: initial_configure_sent is Some,
        },
        CommitTarget::Other => CommitActions { send_configure: false, resize_commit: false, handled: false },
    }
}

/// Decides what to do for a commit on an xdg surface. Finding the popup or
/// window, reading its state and sending the configure are left to the caller.
pub fn commit_xdg_shell_surface(target: CommitTarget, initial_configure_sent: Option<bool>) -> (actions:
    CommitActions)
    ensures
        actions == spec_commit_actions(target, initial_configure_sent),
{
    match target {
        CommitTarget::Popup => {
            let send = match initial_configure_sent {
                Some(sent) => !sent,
                None => false,
            };
            CommitActions { send_configure: send, resize_commit: false, handled: false }
        },
        CommitTarget::Window => match initial_configure_sent {
            Some(sent) => CommitActions { send_configure: !sent, resize_commit: true, handled: true },
            None => CommitActions { send_configure: false, resize_commit: false, handled: false },
        },
        CommitTarget::Other => CommitActions { send_configure: false, resize_commit: false, handled: false },
    }
}

/// Whether a move or resize request may start an interactive grab: the seat
/// has a pointer whose grab matches the request's serial, the grab has start
/// data, and that data's focus belongs to the client of the requesting surface.
/// The start data is handed back where all of this holds.
pub open spec fn spec_check_grab<D>(
    pointer_has_grab: Option<bool>,
    start_data: Option<D>,
    focus_same_client: Option<bool>,
) -> Option<D> {
    if pointer_has_grab == Some(true) && focus_same_client == Some(true) {
        start_data
    } else {
        None
    }
}

/// Checks a grab request: `pointer_has_grab` is `None` without a pointer,
/// `focus_same_client` is `None` when the start data has no focus. Querying
/// the pointer and comparing the clients are left to the caller.
pub fn check_grab<D>(pointer_has_grab: Option<bool>, start_data: Option<D>, focus_same_client: Option<bool>) -> (grab:
    Option<D>)
    ensures
        grab == spec_check_grab(pointer_has_grab, start_data, focus_same_client),
{
    match pointer_has_grab {
        Some(true) => {},
        _ => return None,
    }
    let data = match start_data {
        Some(data) => data,
        None => return None,
    };
    match focus_same_client {
        Some(true) => Some(data),
        _ => None,
    }
}

/// A rectangle of an output, in physical pixels.
#[derive(Debug, Clone, Copy, PartialEq, Eq, Structural)]
pub struct Rect {
    pub x: i32,
    pub y: i32,
    pub width: i32,
    pub height: i32,
}

/// One step of rendering a frame, in the order the backend performs them.
#[derive(Debug, Clone, Copy, PartialEq, Eq, Structural)]
pub enum RenderStep {
    /// Take the next buffer of the backend's surface.
    AcquireBuffer,
    /// Bind the renderer to the backend's target.
    Bind,
    /// Render the space onto the output.
    RenderOutput,
    /// Present the frame, with the damaged region where the backend takes one.
    Submit(Option<Rect>),
    /// Send a frame callback for the output to every window of the space.
    SendFrames,
    /// Refresh the space.
    RefreshSpace,
    /// Flush the clients' pending events.
    FlushClients,
}

/// A frame to render: the new full-redraw countdown, the steps in order, and
/// the delay before the next dispatch, in milliseconds.
#[derive(Debug, PartialEq, Eq)]
pub struct RenderedFrame {
    pub full_redraw: u8,
    pub steps: Vec<RenderStep>,
    pub next_in_ms: u64,
}

/// The outcome of one dispatch of the winit backend.
#[derive(Debug, PartialEq, Eq)]
pub enum FrameStep {
    /// The window was closed: the backend's timer is dropped.
    Stop,
    /// A frame is rendered.
    Render(RenderedFrame),
}

/// Delay between two frames of a windowed backend, in milliseconds.
pub open spec fn frame_interval_ms() -> u64 {
    16
}

/// The full-redraw countdown after one frame: one lower, never below zero.
pub open spec fn spec_count_down(full_redraw: u8) -> u8 {
    if full_redraw == 0 {
        0
    } else {
        (full_redraw - 1) as u8
    }
}

/// The damage of a whole-window frame: the rectangle at the origin with the
/// window's size.
pub open spec fn whole_window(width: i32, height: i32) -> Rect {
    Rect { x: 0, y: 0, width, height }
}

/// The steps of a winit frame: bind the window, render, submit with the
/// whole window as damage, send frame callbacks, refresh, flush; each once.
pub open spec fn spec_winit_steps(width: i32, height: i32) -> Seq<RenderStep> {
    seq![
        RenderStep::Bind,
        RenderStep::RenderOutput,
        RenderStep::Submit(Some(whole_window(width, height))),
        RenderStep::SendFrames,
        RenderStep::RefreshSpace,
        RenderStep::FlushClients,
    ]
}

/// The steps of a nested X11 frame: take a buffer of the surface, bind it,
/// render, submit the surface (it takes no damage), send frame callbacks,
/// refresh, flush; each once.
pub open spec fn spec_x11_steps() -> Seq<RenderStep> {
    seq![
        RenderStep::AcquireBuffer,
        RenderStep::Bind,
        RenderStep::RenderOutput,
        RenderStep::Submit(None),
        RenderStep::SendFrames,
        RenderStep::RefreshSpace,
        RenderStep::FlushClients,
    ]
}

/// Whether `frame` is the frame rendered with countdown `full_redraw` and
/// the steps `steps`.
pub open spec fn is_frame(frame: RenderedFrame, full_redraw: u8, steps: Seq<RenderStep>) -> bool {
    &&& frame.full_redraw == spec_count_down(full_redraw)
    &&& frame.steps@ == steps
    &&& frame.next_in_ms == frame_interval_ms()
}

/// Decides one dispatch of the winit backend, after its events were handled:
/// stop once the window is closed, otherwise count a full redraw down and
/// render the window of size `width` x `height`, then come back after one
/// frame interval. Performing the steps, stopping at the first that fails,
/// is left to the caller.
pub fn frame_step(window_closed: bool, full_redraw: u8, width: i32, height: i32) -> (step: FrameStep)
    ensures
        window_closed ==> step == FrameStep::Stop,
        !window_closed ==> (step matches FrameStep::Render(frame) && is_frame(
            frame,
            full_redraw,
            spec_winit_steps(width, height),
        )),
{
    if window_closed {
        FrameStep::Stop
    } else {
        let mut steps: Vec<RenderStep> = Vec::new();
        steps.push(RenderStep::Bind);
        steps.push(RenderStep::RenderOutput);
        steps.push(RenderStep::Submit(Some(Rect { x: 0, y: 0, width, height })));
        steps.push(RenderStep::SendFrames);
        steps.push(RenderStep::RefreshSpace);
        steps.push(RenderStep::FlushClients);
        assert(steps@ =~= spec_winit_steps(width, height));
        FrameStep::Render(
            RenderedFrame { full_redraw: full_redraw.saturating_sub(1), steps, next_in_ms: 16 },
        )
    }
}

/// Decides one dispatch of the nested X11 backend, which never stops: count
/// a full redraw down, render a frame, and come back after one frame interval.
/// Performing the steps, stopping at the first that fails, is left to the caller.
pub fn x11_frame_step(full_redraw: u8) -> (frame: RenderedFrame)
    ensures
        is_frame(frame, full_redraw, spec_x11_steps()),
{
    let mut steps: Vec<RenderStep> = Vec::new();
    steps.push(RenderStep::AcquireBuffer);
    steps.push(RenderStep::Bind);
    steps.push(RenderStep::RenderOutput);
    steps.push(RenderStep::Submit(None));
    steps.push(RenderStep::SendFrames);
    steps.push(RenderStep::RefreshSpace);
    steps.push(RenderStep::FlushClients);
    assert(steps@ =~= spec_x11_steps());
    RenderedFrame { full_redraw: full_redraw.saturating_sub(1), steps, next_in_ms: 16 }
}

/// The full-redraw countdown only goes down: each rendered frame lowers a
/// positive count by one and leaves zero at zero.
pub proof fn lemma_full_redraw_counts_down(full_redraw: u8)
    ensures
        full_redraw == 0 ==> spec_count_down(full_redraw) == 0,
        full_redraw > 0 ==> spec_count_down(full_redraw) == full_redraw - 1,
{
}

/// The mode an output takes on a resize: the new size at 60 Hz.
#[derive(Debug, Clone, Copy, PartialEq, Eq, Structural)]
pub struct OutputMode {
    pub width: i32,
    pub height: i32,
    /// Refresh rate in millihertz.
    pub refresh_mhz: i32,
}

/// Events of the winit window, with the input events carried as `I`.
#[derive(Debug, PartialEq, Eq)]
pub enum WindowEvent<I> {
    /// The window now has this physical size.
    Resized { width: i32, height: i32 },
    /// An input event.
    Input(I),
    /// Any other event (focus, redraw requests, ...): no effect.
    Other,
}

/// What a batch of window events does: the input events to dispatch, in the
/// order they came, and the output mode to set, if any event resized the window.
#[derive(Debug, PartialEq, Eq)]
pub struct WindowEvents<I> {
    pub inputs: Vec<I>,
    pub output_mode: Option<OutputMode>,
}

/// The input events of a batch, in order.
pub open spec fn spec_window_inputs<I>(events: Seq<WindowEvent<I>>) -> Seq<I>
    decreases events.len(),
{
    if events.len() == 0 {
        Seq::empty()
    } else {
        let before = spec_window_inputs(events.drop_last());
        match events.last() {
            WindowEvent::Input(i) => before.push(i),
            _ => before,
        }
    }
}

/// The output mode a batch sets: the size of its last resize at 60 Hz
/// (60000 mHz), or none without a resize.
pub open spec fn spec_window_mode<I>(events: Seq<WindowEvent<I>>) -> Option<OutputMode>
    decreases events.len(),
{
    if events.len() == 0 {
        None
    } else {
        match events.last() {
            WindowEvent::Resized { width, height } => Some(
                OutputMode { width, height, refresh_mhz: 60_000 },
            ),
            _ => spec_window_mode(events.drop_last()),
        }
    }
}

/// Sorts a batch of window events into the inputs to dispatch and the output
/// mode to set. Dispatching the inputs and setting the mode (keeping the
/// output's transform, scale and location) are left to the caller.
pub fn window_events<I>(events: Vec<WindowEvent<I>>) -> (handled: WindowEvents<I>)
    ensures
        handled.inputs@ == spec_window_inputs(events@),
        handled.output_mode == spec_window_mode(events@),
{
    let ghost all = events@;
    let total = events.len();
    let mut rest = events;
    let mut inputs: Vec<I> = Vec::new();
    let mut output_mode: Option<OutputMode> = None;
    let mut k: usize = 0;
    while rest.len() > 0
        invariant
            k + rest@.len() == all.len(),
            all.len() == total,
            rest@ == all.skip(k as int),
            inputs@ == spec_window_inputs(all.take(k as int)),
            output_mode == spec_window_mode(all.take(k as int)),
        decreases rest@.len(),
    {
        let event = rest.remove(0);
        proof {
            assert(event == all[k as int]);
            assert(all.take(k + 1).drop_last() =~= all.take(k as int));
            assert(all.take(k + 1).last() == all[k as int]);
            assert(rest@ =~= all.skip(k + 1));
        }
        match event {
            WindowEvent::Resized { width, height } => {
                output_mode = Some(OutputMode { width, height, refresh_mhz: 60_000 });
            },
            WindowEvent::Input(i) => {
                inputs.push(i);
            },
            WindowEvent::Other => {},
        }
        k = k + 1;
    }
    assert(all.take(k as int) =~= all);
    WindowEvents { inputs, output_mode }
}

/// Kinds of input events a backend delivers.
#[derive(Debug, Clone, Copy, PartialEq, Eq, Structural)]
pub enum InputEventKind {
    Keyboard,
    DeviceAdded,
    DeviceRemoved,
    PointerButton,
    PointerMotion,
    PointerMotionAbsolute,
    PointerAxis,
    Other,
}

/// The handler an input event goes to.
#[derive(Debug, Clone, Copy, PartialEq, Eq, Structural)]
pub enum InputRoute {
    KeyboardKey,
    DeviceAdded,
    PointerButton,
    PointerMotionAbsolute,
    PointerScroll,
    /// Dropped: relative pointer motion, device removal and all other events.
    Ignore,
}

/// The handler of each kind of input event; relative pointer motion, device
/// removal and every other event are dropped.
pub open spec fn spec_input_route(kind: InputEventKind) -> InputRoute {
    match kind {
        InputEventKind::Keyboard => InputRoute::KeyboardKey,
        InputEventKind::DeviceAdded => InputRoute::DeviceAdded,
        InputEventKind::PointerButton => InputRoute::PointerButton,
        InputEventKind::PointerMotionAbsolute => InputRoute::PointerMotionAbsolute,
        InputEventKind::PointerAxis => InputRoute::PointerScroll,
        _ => InputRoute::Ignore,
    }
}

/// Routes an input event to its handler; reading the event is left to the caller.
pub fn dispatch_input_event(kind: InputEventKind) -> (route: InputRoute)
    ensures
        route == spec_input_route(kind),
{
    match kind {
        InputEventKind::Keyboard => InputRoute::KeyboardKey,
        InputEventKind::DeviceAdded => InputRoute::DeviceAdded,
        InputEventKind::PointerButton => InputRoute::PointerButton,
        InputEventKind::PointerMotionAbsolute => InputRoute::PointerMotionAbsolute,
        InputEventKind::PointerAxis => InputRoute::PointerScroll,
        _ => InputRoute::Ignore,
    }
}

/// Key repeat of a keyboard added to the seat.
#[derive(Debug, Clone, Copy, PartialEq, Eq, Structural)]
pub struct KeyRepeat {
    /// Delay before a held key repeats, in milliseconds.
    pub delay_ms: i32,
    /// Repeats per second.
    pub rate: i32,
}

/// What a newly added input device brings to the seat.
#[derive(Debug, Clone, Copy, PartialEq, Eq, Structural)]
pub struct SeatDevices {
    /// A keyboard, with its key repeat.
    pub keyboard: Option<KeyRepeat>,
    pub pointer: bool,
    pub touch: bool,
}

/// The seat devices for a device with the given capabilities: a keyboard
/// repeating after 200 ms at 25 per second, a pointer, and touch, each
/// exactly where the device has that capability.
pub open spec fn spec_handle_device_added(keyboard: bool, pointer: bool, touch: bool) -> SeatDevices {
    SeatDevices {
        keyboard: if keyboard {
            Some(KeyRepeat { delay_ms: 200, rate: 25 })
        } else {
            None
        },
        pointer,
        touch,
    }
}

/// Decides which devices a newly added input device adds to the seat; adding
/// them (with the default keymap) is left to the caller.
pub fn handle_device_added_event(keyboard: bool, pointer: bool, touch: bool) -> (devices: SeatDevices)
    ensures
        devices == spec_handle_device_added(keyboard, pointer, touch),
{
    SeatDevices {
        keyboard: if keyboard {
            Some(KeyRepeat { delay_ms: 200, rate: 25 })
        } else {
            None
        },
        pointer,
        touch,
    }
}


/// The environment decides the backend: a nested winit backend exactly when
/// `DISPLAY` or `WAYLAND_DISPLAY` is set, the TTY otherwise; never X11 or `Auto`.
pub proof fn lemma_determine_backend_by_environment(display_set: bool, wayland_display_set: bool)
    ensures
        spec_determine_backend(display_set, wayland_display_set) == DisplayBackend::Winit <==> (
        display_set || wayland_display_set),
        spec_determine_backend(display_set, wayland_display_set) == DisplayBackend::TtyUdev <==> (
        !display_set && !wayland_display_set),
{
}

/// The resolved backend is never `Auto`; a backend asked for by name is the
/// one used whatever the environment; for `Auto` it is winit exactly when
/// `DISPLAY` or `WAYLAND_DISPLAY` is set, and the TTY otherwise.
pub proof fn lemma_resolved_backend_is_concrete(
    requested: DisplayBackend,
    display_set: bool,
    wayland_display_set: bool,
)
    ensures
        spec_resolve_backend(requested, display_set, wayland_display_set) != DisplayBackend::Auto,
        requested != DisplayBackend::Auto ==> spec_resolve_backend(
            requested,
            display_set,
            wayland_display_set,
        ) == requested,
        requested == DisplayBackend::Auto ==> (spec_resolve_backend(
            requested,
            display_set,
            wayland_display_set,
        ) == DisplayBackend::Winit <==> (display_set || wayland_display_set)),
        requested == DisplayBackend::Auto ==> (spec_resolve_backend(
            requested,
            display_set,
            wayland_display_set,
        ) == DisplayBackend::TtyUdev <==> (!display_set && !wayland_display_set)),
{
}

/// What a press on a free pointer does depends on the window under the
/// pointer and not on the button: over a window `w` it raises `w`, focuses
/// the keyboard on `w` and deactivates nothing; over no window it raises
/// nothing, deactivates every window and clears the keyboard focus; either
/// way every window is configured. Two events that differ only in their
/// button code get the same plan but for the code they pass on.
pub proof fn lemma_press_follows_window_under<W>(
    window_under: Option<W>,
    button: u32,
    other_button: u32,
    serial: u32,
    time: u32,
)
    ensures
        ({
            let plan = spec_pointer_button(ButtonState::Pressed, false, window_under, button, serial, time);
            &&& plan.configure_all
            &&& plan.forward == PointerButton { button, state: ButtonState::Pressed, serial, time }
            &&& window_under matches Some(w) ==> {
                &&& plan.raise == Some(w)
                &&& plan.keyboard_focus == Some(Some(w))
                &&& !plan.deactivate_all
            }
            &&& window_under is None ==> {
                &&& plan.raise is None
                &&& plan.keyboard_focus == Some(None::<W>)
                &&& plan.deactivate_all
            }
        }),
        ({
            let a = spec_pointer_button(ButtonState::Pressed, false, window_under, button, serial, time);
            let b = spec_pointer_button(ButtonState::Pressed, false, window_under, other_button, serial, time);
            &&& a.raise == b.raise
            &&& a.keyboard_focus == b.keyboard_focus
            &&& a.deactivate_all == b.deactivate_all
            &&& a.configure_all == b.configure_all
        }),
{
}

/// The output mode of a batch of window events is the size of its last
/// resize at 60000 mHz, and there is none exactly when no event resized the
/// window; focus, redraw and input events never change it.
pub proof fn lemma_window_mode_is_last_resize<I>(events: Seq<WindowEvent<I>>)
    ensures
        spec_window_mode(events) is None <==> (forall|j: int|
            0 <= j < events.len() ==> !(#[trigger] events[j] is Resized)),
        forall|j: int|
            0 <= j < events.len() && (events[j] matches WindowEvent::Resized { width, height })
                && (forall|k: int| j < k < events.len() ==> !(#[trigger] events[k] is Resized))
                ==> spec_window_mode(events) == Some(
                OutputMode {
                    width: events[j]->width,
                    height: events[j]->height,
                    refresh_mhz: 60_000,
                },
            ),
        spec_window_mode(events.push(WindowEvent::Other)) == spec_window_mode(events),
        forall|i: I| spec_window_mode(events.push(WindowEvent::Input(i))) == spec_window_mode(events),
        forall|width: i32, height: i32|
            spec_window_mode(events.push(WindowEvent::Resized { width, height })) == Some(
                OutputMode { width, height, refresh_mhz: 60_000 },
            ),
    decreases events.len(),
{
    if events.len() > 0 {
        let rest = events.drop_last();
        lemma_window_mode_is_last_resize(rest);
        let last = events.len() - 1;
        assert forall|j: int| 0 <= j < rest.len() implies rest[j] == events[j] by {}
        if !(events[last] is Resized) {
            assert(spec_window_mode(events) == spec_window_mode(rest));
        }
    }
    assert(events.push(WindowEvent::Other).drop_last() =~= events);
    assert forall|i: I| spec_window_mode(events.push(WindowEvent::Input(i))) == spec_window_mode(events) by {
        assert(events.push(WindowEvent::Input(i)).drop_last() =~= events);
    }
}

/// The inputs of a batch of window events are its input events, each once,
/// in the order they came: appending an input event appends it, and resize,
/// focus and redraw events add none.
pub proof fn lemma_window_inputs_in_order<I>(events: Seq<WindowEvent<I>>)
    ensures
        spec_window_inputs(events.push(WindowEvent::Other)) == spec_window_inputs(events),
        forall|i: I| spec_window_inputs(events.push(WindowEvent::Input(i))) == spec_window_inputs(events).push(i),
        forall|width: i32, height: i32|
            spec_window_inputs(events.push(WindowEvent::Resized { width, height })) == spec_window_inputs(events),
        spec_window_inputs(events).len() <= events.len(),
    decreases events.len(),
{
    if events.len() > 0 {
        lemma_window_inputs_in_order(events.drop_last());
    }
    assert(events.push(WindowEvent::Other).drop_last() =~= events);
    assert forall|i: I| spec_window_inputs(events.push(WindowEvent::Input(i))) == spec_window_inputs(events).push(i) by {
        assert(events.push(WindowEvent::Input(i)).drop_last() =~= events);
    }
    assert forall|width: i32, height: i32|
        spec_window_inputs(events.push(WindowEvent::Resized { width, height })) == spec_window_inputs(events) by {
        assert(events.push(WindowEvent::Resized { width, height }).drop_last() =~= events);
    }
}

/// A new device brings to the seat exactly the capabilities it has: a
/// pointer exactly when it can point, touch exactly when it can touch, and a
/// keyboard, repeating after 200 ms at 25 per second, exactly when it has keys.
pub proof fn lemma_device_brings_its_capabilities(keyboard: bool, pointer: bool, touch: bool)
    ensures
        spec_handle_device_added(keyboard, pointer, touch).pointer == pointer,
        spec_handle_device_added(keyboard, pointer, touch).touch == touch,
        spec_handle_device_added(keyboard, pointer, touch).keyboard is Some <==> keyboard,
        spec_handle_device_added(keyboard, pointer, touch).keyboard matches Some(repeat) ==> repeat
            == (KeyRepeat { delay_ms: 200, rate: 25 }),
{
}

} // verus!
