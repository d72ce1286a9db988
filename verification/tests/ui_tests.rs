use juicebox::ui::{edit_menu_action, file_menu_action, view_menu_action, MenuAction};
use juicebox::juice_renderer::FluidColorRenderType;
use juicebox::events::{PlayPauseOutcome, PlayPauseStepEvent};
use juicebox::ui::interaction::{choose_cursor_icon, decide_input_action, CursorKind, InputAction, ToolButton};
use juicebox::ui::{SimTool, UI_ICON_COUNT};

#[test]
fn tool_indices_round_trip() {
    for i in 0..UI_ICON_COUNT {
        let tool = SimTool::from_index(i);
        assert_eq!(tool.index(), i);
        let converted: SimTool = i.into();
        assert_eq!(converted, tool);
    }
    assert_eq!(SimTool::from_index(0), SimTool::Camera);
    assert_eq!(SimTool::from_index(11), SimTool::RemoveDrain);
    assert_eq!(SimTool::from_index(12), SimTool::Grab);
    assert_eq!(SimTool::from(99), SimTool::Grab);
}

#[test]
fn tool_names() {
    assert_eq!(SimTool::Camera.as_str(), "Camera");
    assert_eq!(SimTool::AddFluid.as_str(), "Add Fluid");
    assert_eq!(SimTool::RemoveFaucet.as_str(), "Remove Faucet");
    assert_eq!(SimTool::RemoveDrain.as_str(), "Remove Drain");
}

#[test]
fn play_pause_step_outcomes() {
    let step = PlayPauseStepEvent::new(true);
    let toggle = PlayPauseStepEvent::new(false);
    assert!(step.is_step_event);
    assert_eq!(step.outcome(true), PlayPauseOutcome { paused: true, step_once: true });
    assert_eq!(step.outcome(false), PlayPauseOutcome { paused: true, step_once: true });
    assert_eq!(toggle.outcome(true), PlayPauseOutcome { paused: false, step_once: false });
    assert_eq!(toggle.outcome(false), PlayPauseOutcome { paused: true, step_once: false });
}

#[test]
fn input_priorities() {
    assert_eq!(
        decide_input_action(true, true, true, true, true, true),
        InputAction::Reset { clear_ui_request: false }
    );
    assert_eq!(
        decide_input_action(false, true, true, true, true, false),
        InputAction::Reset { clear_ui_request: true }
    );
    assert_eq!(
        decide_input_action(false, false, true, true, false, false),
        InputAction::PlayPauseStep(PlayPauseStepEvent::new(false))
    );
    assert_eq!(
        decide_input_action(false, false, false, true, true, false),
        InputAction::PlayPauseStep(PlayPauseStepEvent::new(true))
    );
    assert_eq!(
        decide_input_action(false, false, false, false, true, true),
        InputAction::Interact { tool_button: Some(ToolButton::Left) }
    );
    assert_eq!(
        decide_input_action(false, false, false, false, false, true),
        InputAction::Interact { tool_button: Some(ToolButton::Right) }
    );
    assert_eq!(
        decide_input_action(false, false, false, false, false, false),
        InputAction::Interact { tool_button: None }
    );
}

#[test]
fn cursor_icons() {
    assert_eq!(choose_cursor_icon(true, SimTool::Camera, &vec![SimTool::Grab]), CursorKind::Wait);
    assert_eq!(choose_cursor_icon(false, SimTool::Camera, &vec![]), CursorKind::Move);
    assert_eq!(choose_cursor_icon(false, SimTool::Zoom, &vec![]), CursorKind::ZoomIn);
    assert_eq!(choose_cursor_icon(false, SimTool::Gravity, &vec![]), CursorKind::Default);
    assert_eq!(choose_cursor_icon(false, SimTool::AddWall, &vec![SimTool::AddWall]), CursorKind::Hand);
    assert_eq!(
        choose_cursor_icon(false, SimTool::Grab, &vec![SimTool::AddFluid, SimTool::Grab]),
        CursorKind::Grabbing
    );
}

#[test]
fn checked_tool_index() {
    assert_eq!(SimTool::checked_from_index(0), Some(SimTool::Camera));
    assert_eq!(SimTool::checked_from_index(11), Some(SimTool::RemoveDrain));
    assert_eq!(SimTool::checked_from_index(12), None);
}

#[test]
fn menu_actions() {
    assert_eq!(file_menu_action(0), None);
    assert_eq!(file_menu_action(1), Some(MenuAction::NewScene));
    assert_eq!(file_menu_action(2), Some(MenuAction::LoadScene));
    assert_eq!(file_menu_action(3), Some(MenuAction::SaveScene));
    assert_eq!(file_menu_action(4), Some(MenuAction::SaveSceneAs));
    assert_eq!(file_menu_action(5), None);
    assert_eq!(edit_menu_action(1), Some(MenuAction::ResetScene));
    assert_eq!(edit_menu_action(0), None);
    assert_eq!(view_menu_action(1), Some(MenuAction::ToggleCurrentTool));
    assert_eq!(view_menu_action(2), Some(MenuAction::ToggleVisualization));
    assert_eq!(view_menu_action(3), Some(MenuAction::ToggleInformational));
    assert_eq!(view_menu_action(4), None);
}

#[test]
fn color_by_list_positions() {
    assert_eq!(FluidColorRenderType::from_ui_index(0), FluidColorRenderType::Velocity);
    assert_eq!(FluidColorRenderType::from_ui_index(1), FluidColorRenderType::Density);
    assert_eq!(FluidColorRenderType::from_ui_index(2), FluidColorRenderType::Spume);
    assert_eq!(FluidColorRenderType::from_ui_index(3), FluidColorRenderType::Arbitrary);
}
