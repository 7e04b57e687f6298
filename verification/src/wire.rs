use vstd::prelude::*;
use crate::descriptors::WireFile;
use crate::descriptors::WireMessage;
use crate::descriptors::WireRunCommand;
use crate::events::WireEventList;
use crate::tags::CommandTag;

verus! {

/// The wire container of a subscription request.
#[derive(Clone, Debug, PartialEq, Eq)]
pub struct SubscribePayload {
    pub subscriptions: Option<WireEventList>,
}

/// The wire container of an unsubscription request.
#[derive(Clone, Debug, PartialEq, Eq)]
pub struct UnsubscribePayload {
    pub subscriptions: Option<WireEventList>,
}

/// The wire container of a file-opening command.
#[derive(Clone, Debug, PartialEq, Eq)]
pub struct OpenFilePayload {
    pub file_to_open: Option<WireFile>,
}

/// The wire container of a command-pane command.
#[derive(Clone, Debug, PartialEq, Eq)]
pub struct OpenCommandPanePayload {
    pub command_to_run: Option<WireRunCommand>,
}

/// The wire container of a tab switch by index.
#[derive(Clone, Copy, Debug, PartialEq, Eq)]
pub struct SwitchTabToPayload {
    pub tab_index: i32,
}

/// The wire container of a timeout request.
#[derive(Clone, Copy, Debug, PartialEq, Eq)]
pub struct SetTimeoutPayload {
    pub seconds: u64,
}

/// The wire container of a command line to execute.
#[derive(Clone, Debug, PartialEq, Eq)]
pub struct ExecCmdPayload {
    pub command_line: Vec<String>,
}

/// The wire container of a message to another plugin or worker.
#[derive(Clone, Debug, PartialEq, Eq)]
pub struct PluginMessagePayload {
    pub message: Option<WireMessage>,
}

/// The wire container of an input-mode switch.
#[derive(Clone, Copy, Debug, PartialEq, Eq)]
pub struct SwitchToModePayload {
    pub input_mode: Option<i32>,
}

/// The wire container of a resize command.
#[derive(Clone, Copy, Debug, PartialEq, Eq)]
pub struct ResizePayload {
    pub resize: Option<i32>,
}

/// The wire container of a movement command.
#[derive(Clone, Copy, Debug, PartialEq, Eq)]
pub struct MovePayload {
    pub direction: Option<i32>,
}

/// The wire container of a pane focus command.
#[derive(Clone, Copy, Debug, PartialEq, Eq)]
pub struct PaneIdAndShouldFloat {
    pub pane_id: i32,
    pub should_float: bool,
}

/// The wire container of a rename command.
#[derive(Clone, Debug, PartialEq, Eq)]
pub struct IdAndNewName {
    pub id: i32,
    pub new_name: String,
}

/// The wire container of a permission request: raw permission codes.
#[derive(Clone, Debug, PartialEq, Eq)]
pub struct RequestPluginPermissionPayload {
    pub permissions: Vec<i32>,
}

/// The wire container of a session switch.  The pane identifier and its
/// is-plugin flag are separate optional fields here; the codec enforces
/// that they come together or not at all.
#[derive(Clone, Debug, PartialEq, Eq)]
pub struct SwitchSessionPayload {
    pub name: Option<String>,
    pub tab_position: Option<u32>,
    pub pane_id: Option<u32>,
    pub pane_id_is_plugin: Option<bool>,
}

/// The one-of payload container: one arm for each tag that carries data.
#[derive(Clone, Debug, PartialEq, Eq)]
pub enum WirePayload {
    Subscribe(SubscribePayload),
    Unsubscribe(UnsubscribePayload),
    SetSelectable(bool),
    OpenFile(OpenFilePayload),
    OpenFileFloating(OpenFilePayload),
    OpenTerminal(OpenFilePayload),
    OpenTerminalFloating(OpenFilePayload),
    OpenCommandPane(OpenCommandPanePayload),
    OpenCommandPaneFloating(OpenCommandPanePayload),
    SwitchTabTo(SwitchTabToPayload),
    SetTimeout(SetTimeoutPayload),
    ExecCmd(ExecCmdPayload),
    PostMessageTo(PluginMessagePayload),
    PostMessageToPlugin(PluginMessagePayload),
    ShowSelf(bool),
    SwitchToMode(SwitchToModePayload),
    NewTabsWithLayout(String),
    Resize(ResizePayload),
    ResizeWithDirection(ResizePayload),
    MoveFocus(MovePayload),
    MoveFocusOrTab(MovePayload),
    Write(Vec<u8>),
    WriteChars(String),
    MovePaneWithDirection(MovePayload),
    GoToTabName(String),
    FocusOrCreateTab(String),
    GoToTab(i32),
    StartOrReloadPlugin(String),
    CloseTerminalPane(i32),
    ClosePluginPane(i32),
    FocusTerminalPane(PaneIdAndShouldFloat),
    FocusPluginPane(PaneIdAndShouldFloat),
    RenameTerminalPane(IdAndNewName),
    RenamePluginPane(IdAndNewName),
    RenameTab(IdAndNewName),
    ReportCrash(String),
    RequestPluginPermissions(RequestPluginPermissionPayload),
    SwitchSession(SwitchSessionPayload),
}

/// A wire envelope: the integer tag and the optional payload container.
#[derive(Clone, Debug, PartialEq, Eq)]
pub struct WireEnvelope {
    pub tag: i32,
    pub payload: Option<WirePayload>,
}

/// The identity of a payload arm, used to state which single arm a tag
/// may legally carry.
#[derive(Clone, Copy, Debug, PartialEq, Eq, Structural)]
pub enum PayloadArm {
    Subscribe,
    Unsubscribe,
    SetSelectable,
    OpenFile,
    OpenFileFloating,
    OpenTerminal,
    OpenTerminalFloating,
    OpenCommandPane,
    OpenCommandPaneFloating,
    SwitchTabTo,
    SetTimeout,
    ExecCmd,
    PostMessageTo,
    PostMessageToPlugin,
    ShowSelf,
    SwitchToMode,
    NewTabsWithLayout,
    Resize,
    ResizeWithDirection,
    MoveFocus,
    MoveFocusOrTab,
    Write,
    WriteChars,
    MovePaneWithDirection,
    GoToTabName,
    FocusOrCreateTab,
    GoToTab,
    StartOrReloadPlugin,
    CloseTerminalPane,
    ClosePluginPane,
    FocusTerminalPane,
    FocusPluginPane,
    RenameTerminalPane,
    RenamePluginPane,
    RenameTab,
    ReportCrash,
    RequestPluginPermissions,
    SwitchSession,
}

/// The arm a payload value uses.
pub open spec fn arm_of(p: WirePayload) -> PayloadArm {
    match p {
        WirePayload::Subscribe(_) => PayloadArm::Subscribe,
        WirePayload::Unsubscribe(_) => PayloadArm::Unsubscribe,
        WirePayload::SetSelectable(_) => PayloadArm::SetSelectable,
        WirePayload::OpenFile(_) => PayloadArm::OpenFile,
        WirePayload::OpenFileFloating(_) => PayloadArm::OpenFileFloating,
        WirePayload::OpenTerminal(_) => PayloadArm::OpenTerminal,
        WirePayload::OpenTerminalFloating(_) => PayloadArm::OpenTerminalFloating,
        WirePayload::OpenCommandPane(_) => PayloadArm::OpenCommandPane,
        WirePayload::OpenCommandPaneFloating(_) => PayloadArm::OpenCommandPaneFloating,
        WirePayload::SwitchTabTo(_) => PayloadArm::SwitchTabTo,
        WirePayload::SetTimeout(_) => PayloadArm::SetTimeout,
        WirePayload::ExecCmd(_) => PayloadArm::ExecCmd,
        WirePayload::PostMessageTo(_) => PayloadArm::PostMessageTo,
        WirePayload::PostMessageToPlugin(_) => PayloadArm::PostMessageToPlugin,
        WirePayload::ShowSelf(_) => PayloadArm::ShowSelf,
        WirePayload::SwitchToMode(_) => PayloadArm::SwitchToMode,
        WirePayload::NewTabsWithLayout(_) => PayloadArm::NewTabsWithLayout,
        WirePayload::Resize(_) => PayloadArm::Resize,
        WirePayload::ResizeWithDirection(_) => PayloadArm::ResizeWithDirection,
        WirePayload::MoveFocus(_) => PayloadArm::MoveFocus,
        WirePayload::MoveFocusOrTab(_) => PayloadArm::MoveFocusOrTab,
        WirePayload::Write(_) => PayloadArm::Write,
        WirePayload::WriteChars(_) => PayloadArm::WriteChars,
        WirePayload::MovePaneWithDirection(_) => PayloadArm::MovePaneWithDirection,
        WirePayload::GoToTabName(_) => PayloadArm::GoToTabName,
        WirePayload::FocusOrCreateTab(_) => PayloadArm::FocusOrCreateTab,
        WirePayload::GoToTab(_) => PayloadArm::GoToTab,
        WirePayload::StartOrReloadPlugin(_) => PayloadArm::StartOrReloadPlugin,
        WirePayload::CloseTerminalPane(_) => PayloadArm::CloseTerminalPane,
        WirePayload::ClosePluginPane(_) => PayloadArm::ClosePluginPane,
        WirePayload::FocusTerminalPane(_) => PayloadArm::FocusTerminalPane,
        WirePayload::FocusPluginPane(_) => PayloadArm::FocusPluginPane,
        WirePayload::RenameTerminalPane(_) => PayloadArm::RenameTerminalPane,
        WirePayload::RenamePluginPane(_) => PayloadArm::RenamePluginPane,
        WirePayload::RenameTab(_) => PayloadArm::RenameTab,
        WirePayload::ReportCrash(_) => PayloadArm::ReportCrash,
        WirePayload::RequestPluginPermissions(_) => PayloadArm::RequestPluginPermissions,
        WirePayload::SwitchSession(_) => PayloadArm::SwitchSession,
    }
}

/// Reads the arm a payload value uses.
pub fn arm_kind(p: &WirePayload) -> (r: PayloadArm)
    ensures
        r == arm_of(*p),
{
    match p {
        WirePayload::Subscribe(_) => PayloadArm::Subscribe,
        WirePayload::Unsubscribe(_) => PayloadArm::Unsubscribe,
        WirePayload::SetSelectable(_) => PayloadArm::SetSelectable,
        WirePayload::OpenFile(_) => PayloadArm::OpenFile,
        WirePayload::OpenFileFloating(_) => PayloadArm::OpenFileFloating,
        WirePayload::OpenTerminal(_) => PayloadArm::OpenTerminal,
        WirePayload::OpenTerminalFloating(_) => PayloadArm::OpenTerminalFloating,
        WirePayload::OpenCommandPane(_) => PayloadArm::OpenCommandPane,
        WirePayload::OpenCommandPaneFloating(_) => PayloadArm::OpenCommandPaneFloating,
        WirePayload::SwitchTabTo(_) => PayloadArm::SwitchTabTo,
        WirePayload::SetTimeout(_) => PayloadArm::SetTimeout,
        WirePayload::ExecCmd(_) => PayloadArm::ExecCmd,
        WirePayload::PostMessageTo(_) => PayloadArm::PostMessageTo,
        WirePayload::PostMessageToPlugin(_) => PayloadArm::PostMessageToPlugin,
        WirePayload::ShowSelf(_) => PayloadArm::ShowSelf,
        WirePayload::SwitchToMode(_) => PayloadArm::SwitchToMode,
        WirePayload::NewTabsWithLayout(_) => PayloadArm::NewTabsWithLayout,
        WirePayload::Resize(_) => PayloadArm::Resize,
        WirePayload::ResizeWithDirection(_) => PayloadArm::ResizeWithDirection,
        WirePayload::MoveFocus(_) => PayloadArm::MoveFocus,
        WirePayload::MoveFocusOrTab(_) => PayloadArm::MoveFocusOrTab,
        WirePayload::Write(_) => PayloadArm::Write,
        WirePayload::WriteChars(_) => PayloadArm::WriteChars,
        WirePayload::MovePaneWithDirection(_) => PayloadArm::MovePaneWithDirection,
        WirePayload::GoToTabName(_) => PayloadArm::GoToTabName,
        WirePayload::FocusOrCreateTab(_) => PayloadArm::FocusOrCreateTab,
        WirePayload::GoToTab(_) => PayloadArm::GoToTab,
        WirePayload::StartOrReloadPlugin(_) => PayloadArm::StartOrReloadPlugin,
        WirePayload::CloseTerminalPane(_) => PayloadArm::CloseTerminalPane,
        WirePayload::ClosePluginPane(_) => PayloadArm::ClosePluginPane,
        WirePayload::FocusTerminalPane(_) => PayloadArm::FocusTerminalPane,
        WirePayload::FocusPluginPane(_) => PayloadArm::FocusPluginPane,
        WirePayload::RenameTerminalPane(_) => PayloadArm::RenameTerminalPane,
        WirePayload::RenamePluginPane(_) => PayloadArm::RenamePluginPane,
        WirePayload::RenameTab(_) => PayloadArm::RenameTab,
        WirePayload::ReportCrash(_) => PayloadArm::ReportCrash,
        WirePayload::RequestPluginPermissions(_) => PayloadArm::RequestPluginPermissions,
        WirePayload::SwitchSession(_) => PayloadArm::SwitchSession,
    }
}

/// The vocabulary table: the single payload arm a tag carries, or none.
/// Both codec directions are checked against this one table.
pub open spec fn expected_arm(t: CommandTag) -> Option<PayloadArm> {
    match t {
        CommandTag::Subscribe => Some(PayloadArm::Subscribe),
        CommandTag::Unsubscribe => Some(PayloadArm::Unsubscribe),
        CommandTag::SetSelectable => Some(PayloadArm::SetSelectable),
        CommandTag::GetPluginIds => None,
        CommandTag::GetHostVersion => None,
        CommandTag::OpenFile => Some(PayloadArm::OpenFile),
        CommandTag::OpenFileFloating => Some(PayloadArm::OpenFileFloating),
        CommandTag::OpenTerminal => Some(PayloadArm::OpenTerminal),
        CommandTag::OpenTerminalFloating => Some(PayloadArm::OpenTerminalFloating),
        CommandTag::OpenCommandPane => Some(PayloadArm::OpenCommandPane),
        CommandTag::OpenCommandPaneFloating => Some(PayloadArm::OpenCommandPaneFloating),
        CommandTag::SwitchTabTo => Some(PayloadArm::SwitchTabTo),
        CommandTag::SetTimeout => Some(PayloadArm::SetTimeout),
        CommandTag::ExecCmd => Some(PayloadArm::ExecCmd),
        CommandTag::PostMessageTo => Some(PayloadArm::PostMessageTo),
        CommandTag::PostMessageToPlugin => Some(PayloadArm::PostMessageToPlugin),
        CommandTag::HideSelf => None,
        CommandTag::ShowSelf => Some(PayloadArm::ShowSelf),
        CommandTag::SwitchToMode => Some(PayloadArm::SwitchToMode),
        CommandTag::NewTabsWithLayout => Some(PayloadArm::NewTabsWithLayout),
        CommandTag::NewTab => None,
        CommandTag::GoToNextTab => None,
        CommandTag::GoToPreviousTab => None,
        CommandTag::Resize => Some(PayloadArm::Resize),
        CommandTag::ResizeWithDirection => Some(PayloadArm::ResizeWithDirection),
        CommandTag::FocusNextPane => None,
        CommandTag::FocusPreviousPane => None,
        CommandTag::MoveFocus => Some(PayloadArm::MoveFocus),
        CommandTag::MoveFocusOrTab => Some(PayloadArm::MoveFocusOrTab),
        CommandTag::Detach => None,
        CommandTag::EditScrollback => None,
        CommandTag::Write => Some(PayloadArm::Write),
        CommandTag::WriteChars => Some(PayloadArm::WriteChars),
        CommandTag::ToggleTab => None,
        CommandTag::MovePane => None,
        CommandTag::MovePaneWithDirection => Some(PayloadArm::MovePaneWithDirection),
        CommandTag::ClearScreen => None,
        CommandTag::ScrollUp => None,
        CommandTag::ScrollDown => None,
        CommandTag::ScrollToTop => None,
        CommandTag::ScrollToBottom => None,
        CommandTag::PageScrollUp => None,
        CommandTag::PageScrollDown => None,
        CommandTag::ToggleFocusFullscreen => None,
        CommandTag::TogglePaneFrames => None,
        CommandTag::TogglePaneEmbedOrEject => None,
        CommandTag::UndoRenamePane => None,
        CommandTag::CloseFocus => None,
        CommandTag::ToggleActiveTabSync => None,
        CommandTag::CloseFocusedTab => None,
        CommandTag::UndoRenameTab => None,
        CommandTag::QuitHost => None,
        CommandTag::PreviousSwapLayout => None,
        CommandTag::NextSwapLayout => None,
        CommandTag::GoToTabName => Some(PayloadArm::GoToTabName),
        CommandTag::FocusOrCreateTab => Some(PayloadArm::FocusOrCreateTab),
        CommandTag::GoToTab => Some(PayloadArm::GoToTab),
        CommandTag::StartOrReloadPlugin => Some(PayloadArm::StartOrReloadPlugin),
        CommandTag::CloseTerminalPane => Some(PayloadArm::CloseTerminalPane),
        CommandTag::ClosePluginPane => Some(PayloadArm::ClosePluginPane),
        CommandTag::FocusTerminalPane => Some(PayloadArm::FocusTerminalPane),
        CommandTag::FocusPluginPane => Some(PayloadArm::FocusPluginPane),
        CommandTag::RenameTerminalPane => Some(PayloadArm::RenameTerminalPane),
        CommandTag::RenamePluginPane => Some(PayloadArm::RenamePluginPane),
        CommandTag::RenameTab => Some(PayloadArm::RenameTab),
        CommandTag::ReportCrash => Some(PayloadArm::ReportCrash),
        CommandTag::RequestPluginPermissions => Some(PayloadArm::RequestPluginPermissions),
        CommandTag::SwitchSession => Some(PayloadArm::SwitchSession),
    }
}

/// Looks a tag up in the vocabulary table.
pub fn expected_arm_of(t: CommandTag) -> (r: Option<PayloadArm>)
    ensures
        r == expected_arm(t),
{
    match t {
        CommandTag::Subscribe => Some(PayloadArm::Subscribe),
        CommandTag::Unsubscribe => Some(PayloadArm::Unsubscribe),
        CommandTag::SetSelectable => Some(PayloadArm::SetSelectable),
        CommandTag::GetPluginIds => None,
        CommandTag::GetHostVersion => None,
        CommandTag::OpenFile => Some(PayloadArm::OpenFile),
        CommandTag::OpenFileFloating => Some(PayloadArm::OpenFileFloating),
        CommandTag::OpenTerminal => Some(PayloadArm::OpenTerminal),
        CommandTag::OpenTerminalFloating => Some(PayloadArm::OpenTerminalFloating),
        CommandTag::OpenCommandPane => Some(PayloadArm::OpenCommandPane),
        CommandTag::OpenCommandPaneFloating => Some(PayloadArm::OpenCommandPaneFloating),
        CommandTag::SwitchTabTo => Some(PayloadArm::SwitchTabTo),
        CommandTag::SetTimeout => Some(PayloadArm::SetTimeout),
        CommandTag::ExecCmd => Some(PayloadArm::ExecCmd),
        CommandTag::PostMessageTo => Some(PayloadArm::PostMessageTo),
        CommandTag::PostMessageToPlugin => Some(PayloadArm::PostMessageToPlugin),
        CommandTag::HideSelf => None,
        CommandTag::ShowSelf => Some(PayloadArm::ShowSelf),
        CommandTag::SwitchToMode => Some(PayloadArm::SwitchToMode),
        CommandTag::NewTabsWithLayout => Some(PayloadArm::NewTabsWithLayout),
        CommandTag::NewTab => None,
        CommandTag::GoToNextTab => None,
        CommandTag::GoToPreviousTab => None,
        CommandTag::Resize => Some(PayloadArm::Resize),
        CommandTag::ResizeWithDirection => Some(PayloadArm::ResizeWithDirection),
        CommandTag::FocusNextPane => None,
        CommandTag::FocusPreviousPane => None,
        CommandTag::MoveFocus => Some(PayloadArm::MoveFocus),
        CommandTag::MoveFocusOrTab => Some(PayloadArm::MoveFocusOrTab),
        CommandTag::Detach => None,
        CommandTag::EditScrollback => None,
        CommandTag::Write => Some(PayloadArm::Write),
        CommandTag::WriteChars => Some(PayloadArm::WriteChars),
        CommandTag::ToggleTab => None,
        CommandTag::MovePane => None,
        CommandTag::MovePaneWithDirection => Some(PayloadArm::MovePaneWithDirection),
        CommandTag::ClearScreen => None,
        CommandTag::ScrollUp => None,
        CommandTag::ScrollDown => None,
        CommandTag::ScrollToTop => None,
        CommandTag::ScrollToBottom => None,
        CommandTag::PageScrollUp => None,
        CommandTag::PageScrollDown => None,
        CommandTag::ToggleFocusFullscreen => None,
        CommandTag::TogglePaneFrames => None,
        CommandTag::TogglePaneEmbedOrEject => None,
        CommandTag::UndoRenamePane => None,
        CommandTag::CloseFocus => None,
        CommandTag::ToggleActiveTabSync => None,
        CommandTag::CloseFocusedTab => None,
        CommandTag::UndoRenameTab => None,
        CommandTag::QuitHost => None,
        CommandTag::PreviousSwapLayout => None,
        CommandTag::NextSwapLayout => None,
        CommandTag::GoToTabName => Some(PayloadArm::GoToTabName),
        CommandTag::FocusOrCreateTab => Some(PayloadArm::FocusOrCreateTab),
        CommandTag::GoToTab => Some(PayloadArm::GoToTab),
        CommandTag::StartOrReloadPlugin => Some(PayloadArm::StartOrReloadPlugin),
        CommandTag::CloseTerminalPane => Some(PayloadArm::CloseTerminalPane),
        CommandTag::ClosePluginPane => Some(PayloadArm::ClosePluginPane),
        CommandTag::FocusTerminalPane => Some(PayloadArm::FocusTerminalPane),
        CommandTag::FocusPluginPane => Some(PayloadArm::FocusPluginPane),
        CommandTag::RenameTerminalPane => Some(PayloadArm::RenameTerminalPane),
        CommandTag::RenamePluginPane => Some(PayloadArm::RenamePluginPane),
        CommandTag::RenameTab => Some(PayloadArm::RenameTab),
        CommandTag::ReportCrash => Some(PayloadArm::ReportCrash),
        CommandTag::RequestPluginPermissions => Some(PayloadArm::RequestPluginPermissions),
        CommandTag::SwitchSession => Some(PayloadArm::SwitchSession),
    }
}

} // verus!
