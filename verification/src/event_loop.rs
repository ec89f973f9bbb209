use vstd::prelude::*;

verus! {

/// What the window system reports, reduced to what the engine decides on.
/// Payloads the engine only passes on (key codes, mouse deltas, cursor
/// positions) stay with the caller.
#[derive(Debug, Clone, Copy, PartialEq, Eq, Structural)]
pub enum LoopInput {
    /// The mouse moved by some delta.
    MouseMotion,
    CloseRequested,
    Resized { width: u32, height: u32 },
    /// A key with a key code went down or up.
    KeyboardInput { escape: bool, pressed: bool },
    /// A mouse button went down or up.
    MouseInput { left: bool, pressed: bool },
    /// The cursor moved to some position.
    CursorMoved,
    /// Any other window event.
    OtherWindowEvent,
    LoopDestroyed,
    /// All pending events were handled; `second_elapsed` tells whether a
    /// second has passed since the frame counter was last reset.
    MainEventsCleared { second_elapsed: bool },
    RedrawRequested,
    /// Any other event.
    Other,
}

/// What the loop does in answer.
#[derive(Debug, Clone, Copy, PartialEq, Eq, Structural)]
pub enum LoopAction {
    Exit,
    /// Adds the reported mouse delta to the frame's input.
    AddMouseDelta,
    ResizeRenderer { width: u32, height: u32 },
    SendWindowResized { width: u32, height: u32 },
    ShowCursor,
    ReleaseCursorGrab,
    HideCursor,
    /// Locks the cursor to the window, or confines it where locking fails.
    GrabCursor,
    SetMouseCaptured(bool),
    /// Passes the key event on, as a press or a release.
    SendKey { pressed: bool },
    /// Passes the mouse button event on, as a press or a release.
    SendMouseButton { pressed: bool },
    /// Passes the cursor position on.
    SendMouseMoved,
    PrintShutdown,
    PrintFps(i32),
    RequestRedraw,
    /// Runs every system for one frame.
    UpdateSystems,
    /// Hands the window event to the editor's interface.
    UpdateGui,
    /// Builds the editor's interface for the frame.
    CreateUi,
    /// Draws the frame.
    Render,
    ClearFrameEvents,
}

/// An action that shows, frees or releases the cursor.
pub open spec fn releases_cursor(a: LoopAction) -> bool {
    a is ShowCursor || a is ReleaseCursorGrab || a == LoopAction::SetMouseCaptured(false)
}

/// An action that hides, grabs or captures the cursor.
pub open spec fn captures_cursor(a: LoopAction) -> bool {
    a is HideCursor || a is GrabCursor || a == LoopAction::SetMouseCaptured(true)
}

/// What the engine may do with the cursor in answer to `input`: it lets the
/// cursor go only on a press of Escape and captures it only on a press of
/// the left button; any other key or button event is only passed on.
pub open spec fn engine_cursor_rules(input: LoopInput, actions: Seq<LoopAction>) -> bool {
    &&& forall|i: int| 0 <= i < actions.len() && releases_cursor(#[trigger] actions[i]) ==>
        input == (LoopInput::KeyboardInput { escape: true, pressed: true })
    &&& forall|i: int| 0 <= i < actions.len() && captures_cursor(#[trigger] actions[i]) ==>
        input == (LoopInput::MouseInput { left: true, pressed: true })
    &&& forall|escape: bool, pressed: bool| input == (LoopInput::KeyboardInput { escape, pressed }) ==> {
        &&& actions.len() > 0
        &&& actions.last() == (LoopAction::SendKey { pressed })
        &&& !(escape && pressed) ==> actions == seq![LoopAction::SendKey { pressed }]
    }
    &&& forall|left: bool, pressed: bool| input == (LoopInput::MouseInput { left, pressed }) ==> {
        &&& actions.len() > 0
        &&& actions.last() == (LoopAction::SendMouseButton { pressed })
        &&& !(left && pressed) ==> actions == seq![LoopAction::SendMouseButton { pressed }]
    }
}

/// What the editor may do with the cursor in answer to `input`: never
/// anything; key and button events go to the interface and are passed on.
pub open spec fn editor_cursor_rules(input: LoopInput, actions: Seq<LoopAction>) -> bool {
    &&& forall|i: int| 0 <= i < actions.len() ==>
        !releases_cursor(#[trigger] actions[i]) && !captures_cursor(actions[i])
    &&& forall|escape: bool, pressed: bool| input == (LoopInput::KeyboardInput { escape, pressed }) ==>
        actions == seq![LoopAction::UpdateGui, LoopAction::SendKey { pressed }]
    &&& forall|left: bool, pressed: bool| input == (LoopInput::MouseInput { left, pressed }) ==>
        actions == seq![LoopAction::UpdateGui, LoopAction::SendMouseButton { pressed }]
}

/// The engine lets the cursor go only when Escape is pressed, captures it
/// only when the left button is pressed, and passes every other key and
/// button event on untouched, whatever the frame count and capture state.
pub proof fn law_engine_cursor(frames: i32, input: LoopInput, mouse_captured: bool)
    ensures
        engine_cursor_rules(input, engine_response(frames, input, mouse_captured).1),
{
}

/// The editor never shows, hides, grabs, frees or captures the cursor, and a
/// key or mouse button event reaches the interface and is passed on.
pub proof fn law_editor_never_captures(input: LoopInput)
    ensures
        editor_cursor_rules(input, editor_response(input)),
{
}

/// The engine's answer to `input`, with `frames` frames counted since the
/// counter was last reset and the mouse captured or not: the new count and
/// the actions, in order.
pub open spec fn engine_response(frames: i32, input: LoopInput, mouse_captured: bool) -> (int, Seq<LoopAction>) {
    match input {
        LoopInput::MouseMotion => (frames as int, if mouse_captured { seq![LoopAction::AddMouseDelta] } else { seq![] }),
        LoopInput::CloseRequested => (frames as int, seq![LoopAction::Exit]),
        LoopInput::Resized { width, height } => (frames as int, seq![
            LoopAction::ResizeRenderer { width, height },
            LoopAction::SendWindowResized { width, height },
        ]),
        LoopInput::KeyboardInput { escape, pressed } => (frames as int,
            if escape && pressed {
                seq![
                    LoopAction::ShowCursor,
                    LoopAction::ReleaseCursorGrab,
                    LoopAction::SetMouseCaptured(false),
                    LoopAction::SendKey { pressed },
                ]
            } else {
                seq![LoopAction::SendKey { pressed }]
            }),
        LoopInput::MouseInput { left, pressed } => (frames as int,
            if left && pressed {
                seq![
                    LoopAction::HideCursor,
                    LoopAction::GrabCursor,
                    LoopAction::SetMouseCaptured(true),
                    LoopAction::SendMouseButton { pressed },
                ]
            } else {
                seq![LoopAction::SendMouseButton { pressed }]
            }),
        LoopInput::CursorMoved => (frames as int, seq![LoopAction::SendMouseMoved]),
        LoopInput::OtherWindowEvent => (frames as int, seq![]),
        LoopInput::LoopDestroyed => (frames as int, seq![LoopAction::PrintShutdown]),
        LoopInput::MainEventsCleared { second_elapsed } =>
            if second_elapsed {
                (0, seq![LoopAction::PrintFps((frames + 1) as i32), LoopAction::RequestRedraw])
            } else {
                (frames + 1, seq![LoopAction::RequestRedraw])
            },
        LoopInput::RedrawRequested => (frames as int, seq![
            LoopAction::UpdateSystems,
            LoopAction::Render,
            LoopAction::ClearFrameEvents,
        ]),
        LoopInput::Other => (frames as int, seq![]),
    }
}

/// The editor's answer to `input`: every window event first goes to the
/// interface; the mouse is never captured and no frame rate is printed.
pub open spec fn editor_response(input: LoopInput) -> Seq<LoopAction> {
    match input {
        LoopInput::MouseMotion => seq![LoopAction::AddMouseDelta],
        LoopInput::CloseRequested => seq![LoopAction::UpdateGui, LoopAction::Exit],
        LoopInput::Resized { width, height } => seq![
            LoopAction::UpdateGui,
            LoopAction::ResizeRenderer { width, height },
            LoopAction::SendWindowResized { width, height },
        ],
        LoopInput::KeyboardInput { escape, pressed } => seq![LoopAction::UpdateGui, LoopAction::SendKey { pressed }],
        LoopInput::MouseInput { left, pressed } => seq![LoopAction::UpdateGui, LoopAction::SendMouseButton { pressed }],
        LoopInput::CursorMoved => seq![LoopAction::UpdateGui, LoopAction::SendMouseMoved],
        LoopInput::OtherWindowEvent => seq![LoopAction::UpdateGui],
        LoopInput::LoopDestroyed => seq![LoopAction::PrintShutdown],
        LoopInput::MainEventsCleared { second_elapsed } => seq![LoopAction::RequestRedraw],
        LoopInput::RedrawRequested => seq![
            LoopAction::UpdateSystems,
            LoopAction::CreateUi,
            LoopAction::Render,
            LoopAction::ClearFrameEvents,
        ],
        LoopInput::Other => seq![],
    }
}

/// The engine's main loop: counts frames and decides what each event leads
/// to. The caller performs the actions.
pub struct EngineLoop {
    frame_count: i32,
}

impl EngineLoop {
    /// The frame count is never negative.
    #[verifier::type_invariant]
    spec fn count_nonnegative(&self) -> bool {
        self.frame_count >= 0
    }

    /// Frames counted since the counter was last reset.
    pub closed spec fn frames(&self) -> i32 {
        self.frame_count
    }

    /// A loop with no frame counted.
    pub fn new() -> (l: Self)
        ensures
            l.frames() == 0,
    {
        Self { frame_count: 0 }
    }

    /// Frames counted since the counter was last reset.
    pub fn frame_count(&self) -> (n: i32)
        ensures
            n == self.frames(),
    {
        self.frame_count
    }

    /// The actions that answer `input`, in order.
    pub fn handle(&mut self, input: LoopInput, mouse_captured: bool) -> (actions: Vec<LoopAction>)
        requires
            old(self).frames() < i32::MAX,
        ensures
            final(self).frames() == engine_response(old(self).frames(), input, mouse_captured).0,
            actions@ == engine_response(old(self).frames(), input, mouse_captured).1,
            engine_cursor_rules(input, actions@),
    {
        proof { use_type_invariant(&*self); }
        let mut actions: Vec<LoopAction> = Vec::new();
        match input {
            LoopInput::MouseMotion => {
                if mouse_captured {
                    actions.push(LoopAction::AddMouseDelta);
                }
            },
            LoopInput::CloseRequested => {
                actions.push(LoopAction::Exit);
            },
            LoopInput::Resized { width, height } => {
                actions.push(LoopAction::ResizeRenderer { width, height });
                actions.push(LoopAction::SendWindowResized { width, height });
            },
            LoopInput::KeyboardInput { escape, pressed } => {
                if escape && pressed {
                    actions.push(LoopAction::ShowCursor);
                    actions.push(LoopAction::ReleaseCursorGrab);
                    actions.push(LoopAction::SetMouseCaptured(false));
                }
                actions.push(LoopAction::SendKey { pressed });
            },
            LoopInput::MouseInput { left, pressed } => {
                if left && pressed {
                    actions.push(LoopAction::HideCursor);
                    actions.push(LoopAction::GrabCursor);
                    actions.push(LoopAction::SetMouseCaptured(true));
                }
                actions.push(LoopAction::SendMouseButton { pressed });
            },
            LoopInput::CursorMoved => {
                actions.push(LoopAction::SendMouseMoved);
            },
            LoopInput::OtherWindowEvent => {},
            LoopInput::LoopDestroyed => {
                actions.push(LoopAction::PrintShutdown);
            },
            LoopInput::MainEventsCleared { second_elapsed } => {
                self.frame_count = self.frame_count + 1;
                if second_elapsed {
                    actions.push(LoopAction::PrintFps(self.frame_count));
                    self.frame_count = 0;
                }
                actions.push(LoopAction::RequestRedraw);
            },
            LoopInput::RedrawRequested => {
                actions.push(LoopAction::UpdateSystems);
                actions.push(LoopAction::Render);
                actions.push(LoopAction::ClearFrameEvents);
            },
            LoopInput::Other => {},
        }
        assert(actions@ =~= engine_response(old(self).frames(), input, mouse_captured).1);
        actions
    }
}

/// The editor's answer to `input`, in order.
pub fn editor_actions(input: LoopInput) -> (actions: Vec<LoopAction>)
    ensures
        actions@ == editor_response(input),
        editor_cursor_rules(input, actions@),
{
    let mut actions: Vec<LoopAction> = Vec::new();
    match input {
        LoopInput::MouseMotion => {
            actions.push(LoopAction::AddMouseDelta);
        },
        LoopInput::LoopDestroyed => {
            actions.push(LoopAction::PrintShutdown);
        },
        LoopInput::MainEventsCleared { second_elapsed } => {
            actions.push(LoopAction::RequestRedraw);
        },
        LoopInput::RedrawRequested => {
            actions.push(LoopAction::UpdateSystems);
            actions.push(LoopAction::CreateUi);
            actions.push(LoopAction::Render);
            actions.push(LoopAction::ClearFrameEvents);
        },
        LoopInput::Other => {},
        _ => {
            actions.push(LoopAction::UpdateGui);
            match input {
                LoopInput::CloseRequested => {
                    actions.push(LoopAction::Exit);
                },
                LoopInput::Resized { width, height } => {
                    actions.push(LoopAction::ResizeRenderer { width, height });
                    actions.push(LoopAction::SendWindowResized { width, height });
                },
                LoopInput::KeyboardInput { escape, pressed } => {
                    actions.push(LoopAction::SendKey { pressed });
                },
                LoopInput::MouseInput { left, pressed } => {
                    actions.push(LoopAction::SendMouseButton { pressed });
                },
                LoopInput::CursorMoved => {
                    actions.push(LoopAction::SendMouseMoved);
                },
                _ => {},
            }
        },
    }
    assert(actions@ =~= editor_response(input));
    actions
}

} // verus!
