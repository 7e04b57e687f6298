use vstd::prelude::*;
use crate::actions::Direction;
use crate::actions::InputMode;
use crate::actions::ResizeAction;
use crate::descriptors::CommandToRun;
use crate::descriptors::FileToOpen;
use crate::descriptors::PluginMessage;
use crate::events::EventType;
use crate::permissions::PermissionType;

verus! {

/// The description of a session to connect to.  The pane identifier pair
/// is a single optional value here, so a domain value cannot even express
/// the asymmetric shape the wire format could carry.
#[derive(Clone, Debug, PartialEq, Eq)]
pub struct ConnectToSession {
    pub name: Option<String>,
    pub tab_position: Option<usize>,
    pub pane_id: Option<(u32, bool)>,
}

/// A command a plugin issues to its host: the strongly typed domain side
/// of the codec, one variant per tag of the vocabulary.
#[derive(Clone, Debug, PartialEq, Eq)]
pub enum PluginCommand {
    Subscribe(Vec<EventType>),
    Unsubscribe(Vec<EventType>),
    SetSelectable(bool),
    GetPluginIds,
    GetHostVersion,
    OpenFile(FileToOpen),
    OpenFileFloating(FileToOpen),
    OpenTerminal(FileToOpen),
    OpenTerminalFloating(FileToOpen),
    OpenCommandPane(CommandToRun),
    OpenCommandPaneFloating(CommandToRun),
    SwitchTabTo(u32),
    SetTimeout(u64),
    ExecCmd(Vec<String>),
    PostMessageTo(PluginMessage),
    PostMessageToPlugin(PluginMessage),
    HideSelf,
    ShowSelf(bool),
    SwitchToMode(InputMode),
    NewTabsWithLayout(String),
    NewTab,
    GoToNextTab,
    GoToPreviousTab,
    Resize(ResizeAction),
    ResizeWithDirection(ResizeAction),
    FocusNextPane,
    FocusPreviousPane,
    MoveFocus(Direction),
    MoveFocusOrTab(Direction),
    Detach,
    EditScrollback,
    Write(Vec<u8>),
    WriteChars(String),
    ToggleTab,
    MovePane,
    MovePaneWithDirection(Direction),
    ClearScreen,
    ScrollUp,
    ScrollDown,
    ScrollToTop,
    ScrollToBottom,
    PageScrollUp,
    PageScrollDown,
    ToggleFocusFullscreen,
    TogglePaneFrames,
    TogglePaneEmbedOrEject,
    UndoRenamePane,
    CloseFocus,
    ToggleActiveTabSync,
    CloseFocusedTab,
    UndoRenameTab,
    QuitHost,
    PreviousSwapLayout,
    NextSwapLayout,
    GoToTabName(String),
    FocusOrCreateTab(String),
    GoToTab(u32),
    StartOrReloadPlugin(String),
    CloseTerminalPane(u32),
    ClosePluginPane(u32),
    FocusTerminalPane(u32, bool),
    FocusPluginPane(u32, bool),
    RenameTerminalPane(u32, String),
    RenamePluginPane(u32, String),
    RenameTab(u32, String),
    ReportPanic(String),
    RequestPluginPermissions(Vec<PermissionType>),
    SwitchSession(ConnectToSession),
}

/// Equality of two commands up to the abstract contents of their list
/// payloads: commands that carry an event or permission list are compared
/// by what the lists hold, every other command by plain equality.
pub open spec fn cmd_equiv(a: PluginCommand, b: PluginCommand) -> bool {
    match (a, b) {
        (PluginCommand::Subscribe(x), PluginCommand::Subscribe(y)) => x@ == y@,
        (PluginCommand::Unsubscribe(x), PluginCommand::Unsubscribe(y)) => x@ == y@,
        (
            PluginCommand::RequestPluginPermissions(x),
            PluginCommand::RequestPluginPermissions(y),
        ) => x@ == y@,
        _ => a == b,
    }
}

} // verus!
