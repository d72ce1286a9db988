use vstd::prelude::*;

pub mod interaction;

verus! {

/// The number of tools the interface offers.
pub const UI_ICON_COUNT: usize = 12;

/// The tools the user can pick, in the order of their icons.
#[derive(Debug, Clone, Copy, PartialEq, Eq, Structural)]
pub enum SimTool {
    Camera,
    Zoom,
    Gravity,
    Grab,
    AddFluid,
    RemoveFluid,
    AddWall,
    RemoveWall,
    AddFaucet,
    RemoveFaucet,
    AddDrain,
    RemoveDrain,
}

/// The tool at a position of the tool bar; positions past the last tool give `Grab`.
pub open spec fn spec_tool_from_index(index: usize) -> SimTool {
    if index == 0 {
        SimTool::Camera
    } else if index == 1 {
        SimTool::Zoom
    } else if index == 2 {
        SimTool::Gravity
    } else if index == 3 {
        SimTool::Grab
    } else if index == 4 {
        SimTool::AddFluid
    } else if index == 5 {
        SimTool::RemoveFluid
    } else if index == 6 {
        SimTool::AddWall
    } else if index == 7 {
        SimTool::RemoveWall
    } else if index == 8 {
        SimTool::AddFaucet
    } else if index == 9 {
        SimTool::RemoveFaucet
    } else if index == 10 {
        SimTool::AddDrain
    } else if index == 11 {
        SimTool::RemoveDrain
    } else {
        SimTool::Grab
    }
}

/// The position of a tool in the tool bar.
pub open spec fn spec_tool_index(tool: SimTool) -> usize {
    match tool {
        SimTool::Camera => 0,
        SimTool::Zoom => 1,
        SimTool::Gravity => 2,
        SimTool::Grab => 3,
        SimTool::AddFluid => 4,
        SimTool::RemoveFluid => 5,
        SimTool::AddWall => 6,
        SimTool::RemoveWall => 7,
        SimTool::AddFaucet => 8,
        SimTool::RemoveFaucet => 9,
        SimTool::AddDrain => 10,
        SimTool::RemoveDrain => 11,
    }
}

/// The name a tool is shown under.
pub open spec fn spec_tool_name(tool: SimTool) -> Seq<char> {
    match tool {
        SimTool::Camera => "Camera"@,
        SimTool::Zoom => "Zoom"@,
        SimTool::Gravity => "Gravity"@,
        SimTool::Grab => "Grab"@,
        SimTool::AddFluid => "Add Fluid"@,
        SimTool::RemoveFluid => "Remove Fluid"@,
        SimTool::AddWall => "Add Wall"@,
        SimTool::RemoveWall => "Remove Wall"@,
        SimTool::AddFaucet => "Add Faucet"@,
        SimTool::RemoveFaucet => "Remove Faucet"@,
        SimTool::AddDrain => "Add Drain"@,
        SimTool::RemoveDrain => "Remove Drain"@,
    }
}

impl SimTool {
    /// The tool at a position of the tool bar; an invalid position gives `Grab`.
    pub fn from_index(index: usize) -> (tool: SimTool)
        ensures
            tool == spec_tool_from_index(index),
    {
        match index {
            0 => SimTool::Camera,
            1 => SimTool::Zoom,
            2 => SimTool::Gravity,
            3 => SimTool::Grab,
            4 => SimTool::AddFluid,
            5 => SimTool::RemoveFluid,
            6 => SimTool::AddWall,
            7 => SimTool::RemoveWall,
            8 => SimTool::AddFaucet,
            9 => SimTool::RemoveFaucet,
            10 => SimTool::AddDrain,
            11 => SimTool::RemoveDrain,
            _ => SimTool::Grab,
        }
    }

    /// The position of this tool in the tool bar.
    pub fn index(&self) -> (index: usize)
        ensures
            index == spec_tool_index(*self),
    {
        match self {
            SimTool::Camera => 0,
            SimTool::Zoom => 1,
            SimTool::Gravity => 2,
            SimTool::Grab => 3,
            SimTool::AddFluid => 4,
            SimTool::RemoveFluid => 5,
            SimTool::AddWall => 6,
            SimTool::RemoveWall => 7,
            SimTool::AddFaucet => 8,
            SimTool::RemoveFaucet => 9,
            SimTool::AddDrain => 10,
            SimTool::RemoveDrain => 11,
        }
    }

    /// The name this tool is shown under.
    pub fn as_str(&self) -> (name: &'static str)
        ensures
            name@ == spec_tool_name(*self),
    {
        match self {
            SimTool::Camera => "Camera",
            SimTool::Zoom => "Zoom",
            SimTool::Gravity => "Gravity",
            SimTool::Grab => "Grab",
            SimTool::AddFluid => "Add Fluid",
            SimTool::RemoveFluid => "Remove Fluid",
            SimTool::AddWall => "Add Wall",
            SimTool::RemoveWall => "Remove Wall",
            SimTool::AddFaucet => "Add Faucet",
            SimTool::RemoveFaucet => "Remove Faucet",
            SimTool::AddDrain => "Add Drain",
            SimTool::RemoveDrain => "Remove Drain",
        }
    }
}

impl From<usize> for SimTool {
    fn from(index: usize) -> (tool: SimTool) {
        SimTool::from_index(index)
    }
}

impl vstd::std_specs::convert::FromSpecImpl<usize> for SimTool {
    open spec fn obeys_from_spec() -> bool {
        true
    }

    open spec fn from_spec(index: usize) -> SimTool {
        spec_tool_from_index(index)
    }
}

impl SimTool {
    /// The tool at a position of the tool bar, or `None` for a position past the last tool.
    pub fn checked_from_index(index: usize) -> (tool: Option<SimTool>)
        ensures
            index < UI_ICON_COUNT ==> tool == Some(spec_tool_from_index(index)),
            index >= UI_ICON_COUNT ==> tool is None,
    {
        if index < UI_ICON_COUNT {
            Some(SimTool::from_index(index))
        } else {
            None
        }
    }
}

/// What a choice in one of the scene manager's drop-down menus asks for.
#[derive(Debug, Clone, Copy, PartialEq, Eq, Structural)]
pub enum MenuAction {
    NewScene,
    LoadScene,
    SaveScene,
    SaveSceneAs,
    ResetScene,
    ToggleCurrentTool,
    ToggleVisualization,
    ToggleInformational,
}

/// The "File" menu: New, Load, Save, Save as at positions 1 to 4, each asking for the scene
/// operation it is labelled with; the title (0) does nothing.
pub open spec fn spec_file_menu_action(selection: usize) -> Option<MenuAction> {
    if selection == 1 {
        Some(MenuAction::NewScene)
    } else if selection == 2 {
        Some(MenuAction::LoadScene)
    } else if selection == 3 {
        Some(MenuAction::SaveScene)
    } else if selection == 4 {
        Some(MenuAction::SaveSceneAs)
    } else {
        None
    }
}

/// The "Edit" menu: Reset at position 1 asks for a reset of the scene; the title (0) and any
/// other position do nothing.
pub open spec fn spec_edit_menu_action(selection: usize) -> Option<MenuAction> {
    if selection == 1 { Some(MenuAction::ResetScene) } else { None }
}

/// The "View" menu: toggle the tool options, the visualization options or the controls and
/// information window at positions 1 to 3; the title (0) does nothing.
pub open spec fn spec_view_menu_action(selection: usize) -> Option<MenuAction> {
    if selection == 1 {
        Some(MenuAction::ToggleCurrentTool)
    } else if selection == 2 {
        Some(MenuAction::ToggleVisualization)
    } else if selection == 3 {
        Some(MenuAction::ToggleInformational)
    } else {
        None
    }
}

/// What a choice in the "File" menu asks for.
pub fn file_menu_action(selection: usize) -> (action: Option<MenuAction>)
    ensures
        action == spec_file_menu_action(selection),
        action is Some <==> 1 <= selection <= 4,
{
    match selection {
        1 => Some(MenuAction::NewScene),
        2 => Some(MenuAction::LoadScene),
        3 => Some(MenuAction::SaveScene),
        4 => Some(MenuAction::SaveSceneAs),
        _ => None,
    }
}

/// What a choice in the "Edit" menu asks for.
pub fn edit_menu_action(selection: usize) -> (action: Option<MenuAction>)
    ensures
        action == spec_edit_menu_action(selection),
        action is Some <==> selection == 1,
{
    match selection {
        1 => Some(MenuAction::ResetScene),
        _ => None,
    }
}

/// What a choice in the "View" menu asks for.
pub fn view_menu_action(selection: usize) -> (action: Option<MenuAction>)
    ensures
        action == spec_view_menu_action(selection),
        action is Some <==> 1 <= selection <= 3,
{
    match selection {
        1 => Some(MenuAction::ToggleCurrentTool),
        2 => Some(MenuAction::ToggleVisualization),
        3 => Some(MenuAction::ToggleInformational),
        _ => None,
    }
}

/// The labels of the tool bar, left to right: Camera, Zoom, Gravity, Grab, then the add and
/// remove tools for fluid, walls, faucets and drains.
pub open spec fn tool_bar_labels() -> Seq<Seq<char>> {
    seq![
        "Camera"@,
        "Zoom"@,
        "Gravity"@,
        "Grab"@,
        "Add Fluid"@,
        "Remove Fluid"@,
        "Add Wall"@,
        "Remove Wall"@,
        "Add Faucet"@,
        "Remove Faucet"@,
        "Add Drain"@,
        "Remove Drain"@,
    ]
}

/// The tool at each position of the tool bar is the one whose label stands there, and every
/// tool's position is where its label stands.
pub proof fn lemma_tool_bar_order(index: usize, tool: SimTool)
    ensures
        tool_bar_labels().len() == UI_ICON_COUNT,
        index < UI_ICON_COUNT ==> spec_tool_name(spec_tool_from_index(index)) == tool_bar_labels()[index as int],
        tool_bar_labels()[spec_tool_index(tool) as int] == spec_tool_name(tool),
{
}

/// Every tool is shown under its own name: no two tools share one.
pub proof fn lemma_tool_names_distinct(a: SimTool, b: SimTool)
    ensures
        spec_tool_name(a) == spec_tool_name(b) ==> a == b,
{
    reveal_strlit("Camera");
    reveal_strlit("Zoom");
    reveal_strlit("Gravity");
    reveal_strlit("Grab");
    reveal_strlit("Add Fluid");
    reveal_strlit("Remove Fluid");
    reveal_strlit("Add Wall");
    reveal_strlit("Remove Wall");
    reveal_strlit("Add Faucet");
    reveal_strlit("Remove Faucet");
    reveal_strlit("Add Drain");
    reveal_strlit("Remove Drain");
    let na = spec_tool_name(a);
    let nb = spec_tool_name(b);
    if na == nb {
        assert(na.len() == nb.len());
        assert(na[0] == nb[0]);
        if na.len() > 7 {
            assert(na[4] == nb[4]);
            assert(na[7] == nb[7]);
        }
    }
}

/// Whether an action is one of the scene file operations.
pub open spec fn is_file_operation(action: MenuAction) -> bool {
    action == MenuAction::NewScene || action == MenuAction::LoadScene || action == MenuAction::SaveScene
        || action == MenuAction::SaveSceneAs
}

/// Whether an action toggles one of the interface's windows.
pub open spec fn is_window_toggle(action: MenuAction) -> bool {
    action == MenuAction::ToggleCurrentTool || action == MenuAction::ToggleVisualization
        || action == MenuAction::ToggleInformational
}

/// A menu's title (position 0) and every position past its last entry ask for nothing; each
/// entry asks for something of its own menu's kind, and different entries of a menu ask for
/// different things.
pub proof fn lemma_menu_actions(a: usize, b: usize)
    ensures
        spec_file_menu_action(a) is Some <==> 1 <= a <= 4,
        spec_edit_menu_action(a) is Some <==> a == 1,
        spec_view_menu_action(a) is Some <==> 1 <= a <= 3,
        spec_file_menu_action(a) matches Some(x) ==> is_file_operation(x),
        spec_edit_menu_action(a) matches Some(x) ==> x == MenuAction::ResetScene,
        spec_view_menu_action(a) matches Some(x) ==> is_window_toggle(x),
        spec_file_menu_action(a) is Some && spec_file_menu_action(a) == spec_file_menu_action(b) ==> a == b,
        spec_view_menu_action(a) is Some && spec_view_menu_action(a) == spec_view_menu_action(b) ==> a == b,
{
}

/// Every tool sits at a position below the tool count, and that position gives the tool back;
/// every position below the tool count holds a tool whose position it is.
pub proof fn lemma_tool_index_round_trip(tool: SimTool, index: usize)
    ensures
        spec_tool_index(tool) < UI_ICON_COUNT,
        spec_tool_from_index(spec_tool_index(tool)) == tool,
        index < UI_ICON_COUNT ==> spec_tool_index(spec_tool_from_index(index)) == index,
{
}

} // verus!
