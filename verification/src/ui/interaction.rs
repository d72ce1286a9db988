use vstd::prelude::*;
use super::SimTool;
use crate::events::PlayPauseStepEvent;

verus! {

/// The mouse button a tool is used with.
#[derive(Debug, Clone, Copy, PartialEq, Eq, Structural)]
pub enum ToolButton {
    Left,
    Right,
}

/// What one frame of keyboard and mouse input asks for.
#[derive(Debug, Clone, Copy, PartialEq, Eq, Structural)]
pub enum InputAction {
    /// Reset the simulation; `clear_ui_request` tells whether the interface's reset request
    /// was the cause and must be cleared.
    Reset { clear_ui_request: bool },
    /// Send a play/pause/step event.
    PlayPauseStep(PlayPauseStepEvent),
    /// Go on with the frame: use the selected tool with the given button, if any is held, and
    /// update gravity from the arrow keys.
    Interact { tool_button: Option<ToolButton> },
}

/// The action that a frame's input asks for, by priority: the R key resets; then a reset
/// requested by the interface resets (and is cleared); then Space toggles play/pause; then F
/// steps once; otherwise the frame goes on, using the tool with the left button if it is held,
/// else with the right one if that is held.
pub open spec fn spec_input_action(
    r_key_pressed: bool,
    ui_reset_requested: bool,
    space_pressed: bool,
    f_key_pressed: bool,
    left_mouse_pressed: bool,
    right_mouse_pressed: bool,
) -> InputAction {
    if r_key_pressed {
        InputAction::Reset { clear_ui_request: false }
    } else if ui_reset_requested {
        InputAction::Reset { clear_ui_request: true }
    } else if space_pressed {
        InputAction::PlayPauseStep(PlayPauseStepEvent { is_step_event: false })
    } else if f_key_pressed {
        InputAction::PlayPauseStep(PlayPauseStepEvent { is_step_event: true })
    } else if left_mouse_pressed {
        InputAction::Interact { tool_button: Some(ToolButton::Left) }
    } else if right_mouse_pressed {
        InputAction::Interact { tool_button: Some(ToolButton::Right) }
    } else {
        InputAction::Interact { tool_button: None }
    }
}

/// Decide what a frame's keyboard and mouse input asks the simulation to do.
pub fn decide_input_action(
    r_key_pressed: bool,
    ui_reset_requested: bool,
    space_pressed: bool,
    f_key_pressed: bool,
    left_mouse_pressed: bool,
    right_mouse_pressed: bool,
) -> (action: InputAction)
    ensures
        action == spec_input_action(
            r_key_pressed,
            ui_reset_requested,
            space_pressed,
            f_key_pressed,
            left_mouse_pressed,
            right_mouse_pressed,
        ),
{
    if r_key_pressed {
        return InputAction::Reset { clear_ui_request: false };
    }
    if ui_reset_requested {
        return InputAction::Reset { clear_ui_request: true };
    }
    if space_pressed {
        return InputAction::PlayPauseStep(PlayPauseStepEvent::new(false));
    }
    if f_key_pressed {
        return InputAction::PlayPauseStep(PlayPauseStepEvent::new(true));
    }
    if left_mouse_pressed || right_mouse_pressed {
        let mouse_button: ToolButton;
        if left_mouse_pressed {
            mouse_button = ToolButton::Left;
        } else {
            mouse_button = ToolButton::Right;
        }
        return InputAction::Interact { tool_button: Some(mouse_button) };
    }
    InputAction::Interact { tool_button: None }
}

/// The shapes the mouse cursor can take.
#[derive(Debug, Clone, Copy, PartialEq, Eq, Structural)]
pub enum CursorKind {
    Default,
    Move,
    ZoomIn,
    Hand,
    Wait,
    Grabbing,
}

/// The cursor a selected tool shows.
pub open spec fn spec_tool_cursor(tool: SimTool) -> CursorKind {
    match tool {
        SimTool::Camera => CursorKind::Move,
        SimTool::Zoom => CursorKind::ZoomIn,
        SimTool::Gravity => CursorKind::Default,
        _ => CursorKind::Hand,
    }
}

/// The cursor for a frame: the waiting cursor while a reset is under way; otherwise the
/// grabbing hand if the grab tool was used this frame, else the cursor of the selected tool.
pub open spec fn spec_cursor(reset_requested: bool, selected_tool: SimTool, used_tools: Seq<SimTool>) -> CursorKind {
    if reset_requested {
        CursorKind::Wait
    } else if used_tools.contains(SimTool::Grab) {
        CursorKind::Grabbing
    } else {
        spec_tool_cursor(selected_tool)
    }
}

/// Choose the mouse cursor from a pending reset, the selected tool and the tools used this frame.
pub fn choose_cursor_icon(reset_requested: bool, selected_tool: SimTool, used_tools: &Vec<SimTool>) -> (cursor: CursorKind)
    ensures
        cursor == spec_cursor(reset_requested, selected_tool, used_tools@),
        cursor == CursorKind::Grabbing <==> !reset_requested && used_tools@.contains(SimTool::Grab),
{
    if reset_requested {
        return CursorKind::Wait;
    }
    let mut cursor = match selected_tool {
        SimTool::Camera => CursorKind::Move,
        SimTool::Zoom => CursorKind::ZoomIn,
        SimTool::Gravity => CursorKind::Default,
        _ => CursorKind::Hand,
    };
    let mut i: usize = 0;
    while i < used_tools.len()
        invariant
            i <= used_tools@.len(),
            (exists|k: int| 0 <= k < i && #[trigger] used_tools@[k] == SimTool::Grab)
                ==> cursor == CursorKind::Grabbing,
            !(exists|k: int| 0 <= k < i && #[trigger] used_tools@[k] == SimTool::Grab)
                ==> cursor == spec_tool_cursor(selected_tool),
        decreases used_tools@.len() - i,
    {
        match used_tools[i] {
            SimTool::Grab => cursor = CursorKind::Grabbing,
            _ => {},
        }
        i = i + 1;
    }
    cursor
}

/// A pending reset always shows the waiting cursor. The grabbing hand shows exactly when the
/// grab tool was used this frame, never merely because it is selected; otherwise every tool but
/// the camera, zoom and gravity tools (the grab tool included) shows the open hand.
pub proof fn lemma_cursor_choice(reset_requested: bool, selected_tool: SimTool, used_tools: Seq<SimTool>)
    ensures
        reset_requested ==> spec_cursor(reset_requested, selected_tool, used_tools) == CursorKind::Wait,
        spec_cursor(reset_requested, selected_tool, used_tools) == CursorKind::Grabbing
            <==> !reset_requested && used_tools.contains(SimTool::Grab),
        !reset_requested && !used_tools.contains(SimTool::Grab) && selected_tool != SimTool::Camera
            && selected_tool != SimTool::Zoom && selected_tool != SimTool::Gravity
            ==> spec_cursor(reset_requested, selected_tool, used_tools) == CursorKind::Hand,
        !reset_requested && !used_tools.contains(SimTool::Grab) && selected_tool == SimTool::Camera
            ==> spec_cursor(reset_requested, selected_tool, used_tools) == CursorKind::Move,
        !reset_requested && !used_tools.contains(SimTool::Grab) && selected_tool == SimTool::Zoom
            ==> spec_cursor(reset_requested, selected_tool, used_tools) == CursorKind::ZoomIn,
        !reset_requested && !used_tools.contains(SimTool::Grab) && selected_tool == SimTool::Gravity
            ==> spec_cursor(reset_requested, selected_tool, used_tools) == CursorKind::Default,
{
}

} // verus!
