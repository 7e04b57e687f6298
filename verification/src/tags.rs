use vstd::prelude::*;

verus! {

/// The closed, versioned vocabulary of command tags.  The integer code
/// of each tag is the discriminator an envelope carries on the wire.
#[derive(Clone, Copy, Debug, PartialEq, Eq, Structural)]
pub enum CommandTag {
    Subscribe,
    Unsubscribe,
    SetSelectable,
    GetPluginIds,
    GetHostVersion,
    OpenFile,
    OpenFileFloating,
    OpenTerminal,
    OpenTerminalFloating,
    OpenCommandPane,
    OpenCommandPaneFloating,
    SwitchTabTo,
    SetTimeout,
    ExecCmd,
    PostMessageTo,
    PostMessageToPlugin,
    HideSelf,
    ShowSelf,
    SwitchToMode,
    NewTabsWithLayout,
    NewTab,
    GoToNextTab,
    GoToPreviousTab,
    Resize,
    ResizeWithDirection,
    FocusNextPane,
    FocusPreviousPane,
    MoveFocus,
    MoveFocusOrTab,
    Detach,
    EditScrollback,
    Write,
    WriteChars,
    ToggleTab,
    MovePane,
    MovePaneWithDirection,
    ClearScreen,
    ScrollUp,
    ScrollDown,
    ScrollToTop,
    ScrollToBottom,
    PageScrollUp,
    PageScrollDown,
    ToggleFocusFullscreen,
    TogglePaneFrames,
    TogglePaneEmbedOrEject,
    UndoRenamePane,
    CloseFocus,
    ToggleActiveTabSync,
    CloseFocusedTab,
    UndoRenameTab,
    QuitHost,
    PreviousSwapLayout,
    NextSwapLayout,
    GoToTabName,
    FocusOrCreateTab,
    GoToTab,
    StartOrReloadPlugin,
    CloseTerminalPane,
    ClosePluginPane,
    FocusTerminalPane,
    FocusPluginPane,
    RenameTerminalPane,
    RenamePluginPane,
    RenameTab,
    ReportCrash,
    RequestPluginPermissions,
    SwitchSession,
}

/// The wire code of a tag.
pub open spec fn tag_code(t: CommandTag) -> i32 {
    match t {
        CommandTag::Subscribe => 0,
        CommandTag::Unsubscribe => 1,
        CommandTag::SetSelectable => 2,
        CommandTag::GetPluginIds => 3,
        CommandTag::GetHostVersion => 4,
        CommandTag::OpenFile => 5,
        CommandTag::OpenFileFloating => 6,
        CommandTag::OpenTerminal => 7,
        CommandTag::OpenTerminalFloating => 8,
        CommandTag::OpenCommandPane => 9,
        CommandTag::OpenCommandPaneFloating => 10,
        CommandTag::SwitchTabTo => 11,
        CommandTag::SetTimeout => 12,
        CommandTag::ExecCmd => 13,
        CommandTag::PostMessageTo => 14,
        CommandTag::PostMessageToPlugin => 15,
        CommandTag::HideSelf => 16,
        CommandTag::ShowSelf => 17,
        CommandTag::SwitchToMode => 18,
        CommandTag::NewTabsWithLayout => 19,
        CommandTag::NewTab => 20,
        CommandTag::GoToNextTab => 21,
        CommandTag::GoToPreviousTab => 22,
        CommandTag::Resize => 23,
        CommandTag::ResizeWithDirection => 24,
        CommandTag::FocusNextPane => 25,
        CommandTag::FocusPreviousPane => 26,
        CommandTag::MoveFocus => 27,
        CommandTag::MoveFocusOrTab => 28,
        CommandTag::Detach => 29,
        CommandTag::EditScrollback => 30,
        CommandTag::Write => 31,
        CommandTag::WriteChars => 32,
        CommandTag::ToggleTab => 33,
        CommandTag::MovePane => 34,
        CommandTag::MovePaneWithDirection => 35,
        CommandTag::ClearScreen => 36,
        CommandTag::ScrollUp => 37,
        CommandTag::ScrollDown => 38,
        CommandTag::ScrollToTop => 39,
        CommandTag::ScrollToBottom => 40,
        CommandTag::PageScrollUp => 41,
        CommandTag::PageScrollDown => 42,
        CommandTag::ToggleFocusFullscreen => 43,
        CommandTag::TogglePaneFrames => 44,
        CommandTag::TogglePaneEmbedOrEject => 45,
        CommandTag::UndoRenamePane => 46,
        CommandTag::CloseFocus => 47,
        CommandTag::ToggleActiveTabSync => 48,
        CommandTag::CloseFocusedTab => 49,
        CommandTag::UndoRenameTab => 50,
        CommandTag::QuitHost => 51,
        CommandTag::PreviousSwapLayout => 52,
        CommandTag::NextSwapLayout => 53,
        CommandTag::GoToTabName => 54,
        CommandTag::FocusOrCreateTab => 55,
        CommandTag::GoToTab => 56,
        CommandTag::StartOrReloadPlugin => 57,
        CommandTag::CloseTerminalPane => 58,
        CommandTag::ClosePluginPane => 59,
        CommandTag::FocusTerminalPane => 60,
        CommandTag::FocusPluginPane => 61,
        CommandTag::RenameTerminalPane => 62,
        CommandTag::RenamePluginPane => 63,
        CommandTag::RenameTab => 64,
        CommandTag::ReportCrash => 65,
        CommandTag::RequestPluginPermissions => 66,
        CommandTag::SwitchSession => 67,
    }
}

/// The tag a wire code stands for, if any.
pub open spec fn tag_of_code(code: i32) -> Option<CommandTag> {
    if code == 0 {
        Some(CommandTag::Subscribe)
    } else if code == 1 {
        Some(CommandTag::Unsubscribe)
    } else if code == 2 {
        Some(CommandTag::SetSelectable)
    } else if code == 3 {
        Some(CommandTag::GetPluginIds)
    } else if code == 4 {
        Some(CommandTag::GetHostVersion)
    } else if code == 5 {
        Some(CommandTag::OpenFile)
    } else if code == 6 {
        Some(CommandTag::OpenFileFloating)
    } else if code == 7 {
        Some(CommandTag::OpenTerminal)
    } else if code == 8 {
        Some(CommandTag::OpenTerminalFloating)
    } else if code == 9 {
        Some(CommandTag::OpenCommandPane)
    } else if code == 10 {
        Some(CommandTag::OpenCommandPaneFloating)
    } else if code == 11 {
        Some(CommandTag::SwitchTabTo)
    } else if code == 12 {
        Some(CommandTag::SetTimeout)
    } else if code == 13 {
        Some(CommandTag::ExecCmd)
    } else if code == 14 {
        Some(CommandTag::PostMessageTo)
    } else if code == 15 {
        Some(CommandTag::PostMessageToPlugin)
    } else if code == 16 {
        Some(CommandTag::HideSelf)
    } else if code == 17 {
        Some(CommandTag::ShowSelf)
    } else if code == 18 {
        Some(CommandTag::SwitchToMode)
    } else if code == 19 {
        Some(CommandTag::NewTabsWithLayout)
    } else if code == 20 {
        Some(CommandTag::NewTab)
    } else if code == 21 {
        Some(CommandTag::GoToNextTab)
    } else if code == 22 {
        Some(CommandTag::GoToPreviousTab)
    } else if code == 23 {
        Some(CommandTag::Resize)
    } else if code == 24 {
        Some(CommandTag::ResizeWithDirection)
    } else if code == 25 {
        Some(CommandTag::FocusNextPane)
    } else if code == 26 {
        Some(CommandTag::FocusPreviousPane)
    } else if code == 27 {
        Some(CommandTag::MoveFocus)
    } else if code == 28 {
        Some(CommandTag::MoveFocusOrTab)
    } else if code == 29 {
        Some(CommandTag::Detach)
    } else if code == 30 {
        Some(CommandTag::EditScrollback)
    } else if code == 31 {
        Some(CommandTag::Write)
    } else if code == 32 {
        Some(CommandTag::WriteChars)
    } else if code == 33 {
        Some(CommandTag::ToggleTab)
    } else if code == 34 {
        Some(CommandTag::MovePane)
    } else if code == 35 {
        Some(CommandTag::MovePaneWithDirection)
    } else if code == 36 {
        Some(CommandTag::ClearScreen)
    } else if code == 37 {
        Some(CommandTag::ScrollUp)
    } else if code == 38 {
        Some(CommandTag::ScrollDown)
    } else if code == 39 {
        Some(CommandTag::ScrollToTop)
    } else if code == 40 {
        Some(CommandTag::ScrollToBottom)
    } else if code == 41 {
        Some(CommandTag::PageScrollUp)
    } else if code == 42 {
        Some(CommandTag::PageScrollDown)
    } else if code == 43 {
        Some(CommandTag::ToggleFocusFullscreen)
    } else if code == 44 {
        Some(CommandTag::TogglePaneFrames)
    } else if code == 45 {
        Some(CommandTag::TogglePaneEmbedOrEject)
    } else if code == 46 {
        Some(CommandTag::UndoRenamePane)
    } else if code == 47 {
        Some(CommandTag::CloseFocus)
    } else if code == 48 {
        Some(CommandTag::ToggleActiveTabSync)
    } else if code == 49 {
        Some(CommandTag::CloseFocusedTab)
    } else if code == 50 {
        Some(CommandTag::UndoRenameTab)
    } else if code == 51 {
        Some(CommandTag::QuitHost)
    } else if code == 52 {
        Some(CommandTag::PreviousSwapLayout)
    } else if code == 53 {
        Some(CommandTag::NextSwapLayout)
    } else if code == 54 {
        Some(CommandTag::GoToTabName)
    } else if code == 55 {
        Some(CommandTag::FocusOrCreateTab)
    } else if code == 56 {
        Some(CommandTag::GoToTab)
    } else if code == 57 {
        Some(CommandTag::StartOrReloadPlugin)
    } else if code == 58 {
        Some(CommandTag::CloseTerminalPane)
    } else if code == 59 {
        Some(CommandTag::ClosePluginPane)
    } else if code == 60 {
        Some(CommandTag::FocusTerminalPane)
    } else if code == 61 {
        Some(CommandTag::FocusPluginPane)
    } else if code == 62 {
        Some(CommandTag::RenameTerminalPane)
    } else if code == 63 {
        Some(CommandTag::RenamePluginPane)
    } else if code == 64 {
        Some(CommandTag::RenameTab)
    } else if code == 65 {
        Some(CommandTag::ReportCrash)
    } else if code == 66 {
        Some(CommandTag::RequestPluginPermissions)
    } else if code == 67 {
        Some(CommandTag::SwitchSession)
    } else {
        None
    }
}

/// Encodes a tag into its wire code.
pub fn code_of_tag(t: CommandTag) -> (r: i32)
    ensures
        r == tag_code(t),
{
    match t {
        CommandTag::Subscribe => 0,
        CommandTag::Unsubscribe => 1,
        CommandTag::SetSelectable => 2,
        CommandTag::GetPluginIds => 3,
        CommandTag::GetHostVersion => 4,
        CommandTag::OpenFile => 5,
        CommandTag::OpenFileFloating => 6,
        CommandTag::OpenTerminal => 7,
        CommandTag::OpenTerminalFloating => 8,
        CommandTag::OpenCommandPane => 9,
        CommandTag::OpenCommandPaneFloating => 10,
        CommandTag::SwitchTabTo => 11,
        CommandTag::SetTimeout => 12,
        CommandTag::ExecCmd => 13,
        CommandTag::PostMessageTo => 14,
        CommandTag::PostMessageToPlugin => 15,
        CommandTag::HideSelf => 16,
        CommandTag::ShowSelf => 17,
        CommandTag::SwitchToMode => 18,
        CommandTag::NewTabsWithLayout => 19,
        CommandTag::NewTab => 20,
        CommandTag::GoToNextTab => 21,
        CommandTag::GoToPreviousTab => 22,
        CommandTag::Resize => 23,
        CommandTag::ResizeWithDirection => 24,
        CommandTag::FocusNextPane => 25,
        CommandTag::FocusPreviousPane => 26,
        CommandTag::MoveFocus => 27,
        CommandTag::MoveFocusOrTab => 28,
        CommandTag::Detach => 29,
        CommandTag::EditScrollback => 30,
        CommandTag::Write => 31,
        CommandTag::WriteChars => 32,
        CommandTag::ToggleTab => 33,
        CommandTag::MovePane => 34,
        CommandTag::MovePaneWithDirection => 35,
        CommandTag::ClearScreen => 36,
        CommandTag::ScrollUp => 37,
        CommandTag::ScrollDown => 38,
        CommandTag::ScrollToTop => 39,
        CommandTag::ScrollToBottom => 40,
        CommandTag::PageScrollUp => 41,
        CommandTag::PageScrollDown => 42,
        CommandTag::ToggleFocusFullscreen => 43,
        CommandTag::TogglePaneFrames => 44,
        CommandTag::TogglePaneEmbedOrEject => 45,
        CommandTag::UndoRenamePane => 46,
        CommandTag::CloseFocus => 47,
        CommandTag::ToggleActiveTabSync => 48,
        CommandTag::CloseFocusedTab => 49,
        CommandTag::UndoRenameTab => 50,
        CommandTag::QuitHost => 51,
        CommandTag::PreviousSwapLayout => 52,
        CommandTag::NextSwapLayout => 53,
        CommandTag::GoToTabName => 54,
        CommandTag::FocusOrCreateTab => 55,
        CommandTag::GoToTab => 56,
        CommandTag::StartOrReloadPlugin => 57,
        CommandTag::CloseTerminalPane => 58,
        CommandTag::ClosePluginPane => 59,
        CommandTag::FocusTerminalPane => 60,
        CommandTag::FocusPluginPane => 61,
        CommandTag::RenameTerminalPane => 62,
        CommandTag::RenamePluginPane => 63,
        CommandTag::RenameTab => 64,
        CommandTag::ReportCrash => 65,
        CommandTag::RequestPluginPermissions => 66,
        CommandTag::SwitchSession => 67,
    }
}

/// Looks a wire code up in the tag vocabulary.
pub fn tag_from_code(code: i32) -> (r: Option<CommandTag>)
    ensures
        r == tag_of_code(code),
{
    if code == 0 {
        Some(CommandTag::Subscribe)
    } else if code == 1 {
        Some(CommandTag::Unsubscribe)
    } else if code == 2 {
        Some(CommandTag::SetSelectable)
    } else if code == 3 {
        Some(CommandTag::GetPluginIds)
    } else if code == 4 {
        Some(CommandTag::GetHostVersion)
    } else if code == 5 {
        Some(CommandTag::OpenFile)
    } else if code == 6 {
        Some(CommandTag::OpenFileFloating)
    } else if code == 7 {
        Some(CommandTag::OpenTerminal)
    } else if code == 8 {
        Some(CommandTag::OpenTerminalFloating)
    } else if code == 9 {
        Some(CommandTag::OpenCommandPane)
    } else if code == 10 {
        Some(CommandTag::OpenCommandPaneFloating)
    } else if code == 11 {
        Some(CommandTag::SwitchTabTo)
    } else if code == 12 {
        Some(CommandTag::SetTimeout)
    } else if code == 13 {
        Some(CommandTag::ExecCmd)
    } else if code == 14 {
        Some(CommandTag::PostMessageTo)
    } else if code == 15 {
        Some(CommandTag::PostMessageToPlugin)
    } else if code == 16 {
        Some(CommandTag::HideSelf)
    } else if code == 17 {
        Some(CommandTag::ShowSelf)
    } else if code == 18 {
        Some(CommandTag::SwitchToMode)
    } else if code == 19 {
        Some(CommandTag::NewTabsWithLayout)
    } else if code == 20 {
        Some(CommandTag::NewTab)
    } else if code == 21 {
        Some(CommandTag::GoToNextTab)
    } else if code == 22 {
        Some(CommandTag::GoToPreviousTab)
    } else if code == 23 {
        Some(CommandTag::Resize)
    } else if code == 24 {
        Some(CommandTag::ResizeWithDirection)
    } else if code == 25 {
        Some(CommandTag::FocusNextPane)
    } else if code == 26 {
        Some(CommandTag::FocusPreviousPane)
    } else if code == 27 {
        Some(CommandTag::MoveFocus)
    } else if code == 28 {
        Some(CommandTag::MoveFocusOrTab)
    } else if code == 29 {
        Some(CommandTag::Detach)
    } else if code == 30 {
        Some(CommandTag::EditScrollback)
    } else if code == 31 {
        Some(CommandTag::Write)
    } else if code == 32 {
        Some(CommandTag::WriteChars)
    } else if code == 33 {
        Some(CommandTag::ToggleTab)
    } else if code == 34 {
        Some(CommandTag::MovePane)
    } else if code == 35 {
        Some(CommandTag::MovePaneWithDirection)
    } else if code == 36 {
        Some(CommandTag::ClearScreen)
    } else if code == 37 {
        Some(CommandTag::ScrollUp)
    } else if code == 38 {
        Some(CommandTag::ScrollDown)
    } else if code == 39 {
        Some(CommandTag::ScrollToTop)
    } else if code == 40 {
        Some(CommandTag::ScrollToBottom)
    } else if code == 41 {
        Some(CommandTag::PageScrollUp)
    } else if code == 42 {
        Some(CommandTag::PageScrollDown)
    } else if code == 43 {
        Some(CommandTag::ToggleFocusFullscreen)
    } else if code == 44 {
        Some(CommandTag::TogglePaneFrames)
    } else if code == 45 {
        Some(CommandTag::TogglePaneEmbedOrEject)
    } else if code == 46 {
        Some(CommandTag::UndoRenamePane)
    } else if code == 47 {
        Some(CommandTag::CloseFocus)
    } else if code == 48 {
        Some(CommandTag::ToggleActiveTabSync)
    } else if code == 49 {
        Some(CommandTag::CloseFocusedTab)
    } else if code == 50 {
        Some(CommandTag::UndoRenameTab)
    } else if code == 51 {
        Some(CommandTag::QuitHost)
    } else if code == 52 {
        Some(CommandTag::PreviousSwapLayout)
    } else if code == 53 {
        Some(CommandTag::NextSwapLayout)
    } else if code == 54 {
        Some(CommandTag::GoToTabName)
    } else if code == 55 {
        Some(CommandTag::FocusOrCreateTab)
    } else if code == 56 {
        Some(CommandTag::GoToTab)
    } else if code == 57 {
        Some(CommandTag::StartOrReloadPlugin)
    } else if code == 58 {
        Some(CommandTag::CloseTerminalPane)
    } else if code == 59 {
        Some(CommandTag::ClosePluginPane)
    } else if code == 60 {
        Some(CommandTag::FocusTerminalPane)
    } else if code == 61 {
        Some(CommandTag::FocusPluginPane)
    } else if code == 62 {
        Some(CommandTag::RenameTerminalPane)
    } else if code == 63 {
        Some(CommandTag::RenamePluginPane)
    } else if code == 64 {
        Some(CommandTag::RenameTab)
    } else if code == 65 {
        Some(CommandTag::ReportCrash)
    } else if code == 66 {
        Some(CommandTag::RequestPluginPermissions)
    } else if code == 67 {
        Some(CommandTag::SwitchSession)
    } else {
        None
    }
}

/// Every tag is the tag of its own wire code.
pub broadcast proof fn lemma_tag_code_round_trip(t: CommandTag)
    ensures
        tag_of_code(#[trigger] tag_code(t)) == Some(t),
{
}

/// The name of a tag, as rendered into diagnostics.
pub open spec fn tag_text(t: CommandTag) -> Seq<char> {
    match t {
        CommandTag::Subscribe => "Subscribe"@,
        CommandTag::Unsubscribe => "Unsubscribe"@,
        CommandTag::SetSelectable => "SetSelectable"@,
        CommandTag::GetPluginIds => "GetPluginIds"@,
        CommandTag::GetHostVersion => "GetHostVersion"@,
        CommandTag::OpenFile => "OpenFile"@,
        CommandTag::OpenFileFloating => "OpenFileFloating"@,
        CommandTag::OpenTerminal => "OpenTerminal"@,
        CommandTag::OpenTerminalFloating => "OpenTerminalFloating"@,
        CommandTag::OpenCommandPane => "OpenCommandPane"@,
        CommandTag::OpenCommandPaneFloating => "OpenCommandPaneFloating"@,
        CommandTag::SwitchTabTo => "SwitchTabTo"@,
        CommandTag::SetTimeout => "SetTimeout"@,
        CommandTag::ExecCmd => "ExecCmd"@,
        CommandTag::PostMessageTo => "PostMessageTo"@,
        CommandTag::PostMessageToPlugin => "PostMessageToPlugin"@,
        CommandTag::HideSelf => "HideSelf"@,
        CommandTag::ShowSelf => "ShowSelf"@,
        CommandTag::SwitchToMode => "SwitchToMode"@,
        CommandTag::NewTabsWithLayout => "NewTabsWithLayout"@,
        CommandTag::NewTab => "NewTab"@,
        CommandTag::GoToNextTab => "GoToNextTab"@,
        CommandTag::GoToPreviousTab => "GoToPreviousTab"@,
        CommandTag::Resize => "Resize"@,
        CommandTag::ResizeWithDirection => "ResizeWithDirection"@,
        CommandTag::FocusNextPane => "FocusNextPane"@,
        CommandTag::FocusPreviousPane => "FocusPreviousPane"@,
        CommandTag::MoveFocus => "MoveFocus"@,
        CommandTag::MoveFocusOrTab => "MoveFocusOrTab"@,
        CommandTag::Detach => "Detach"@,
        CommandTag::EditScrollback => "EditScrollback"@,
        CommandTag::Write => "Write"@,
        CommandTag::WriteChars => "WriteChars"@,
        CommandTag::ToggleTab => "ToggleTab"@,
        CommandTag::MovePane => "MovePane"@,
        CommandTag::MovePaneWithDirection => "MovePaneWithDirection"@,
        CommandTag::ClearScreen => "ClearScreen"@,
        CommandTag::ScrollUp => "ScrollUp"@,
        CommandTag::ScrollDown => "ScrollDown"@,
        CommandTag::ScrollToTop => "ScrollToTop"@,
        CommandTag::ScrollToBottom => "ScrollToBottom"@,
        CommandTag::PageScrollUp => "PageScrollUp"@,
        CommandTag::PageScrollDown => "PageScrollDown"@,
        CommandTag::ToggleFocusFullscreen => "ToggleFocusFullscreen"@,
        CommandTag::TogglePaneFrames => "TogglePaneFrames"@,
        CommandTag::TogglePaneEmbedOrEject => "TogglePaneEmbedOrEject"@,
        CommandTag::UndoRenamePane => "UndoRenamePane"@,
        CommandTag::CloseFocus => "CloseFocus"@,
        CommandTag::ToggleActiveTabSync => "ToggleActiveTabSync"@,
        CommandTag::CloseFocusedTab => "CloseFocusedTab"@,
        CommandTag::UndoRenameTab => "UndoRenameTab"@,
        CommandTag::QuitHost => "QuitHost"@,
        CommandTag::PreviousSwapLayout => "PreviousSwapLayout"@,
        CommandTag::NextSwapLayout => "NextSwapLayout"@,
        CommandTag::GoToTabName => "GoToTabName"@,
        CommandTag::FocusOrCreateTab => "FocusOrCreateTab"@,
        CommandTag::GoToTab => "GoToTab"@,
        CommandTag::StartOrReloadPlugin => "StartOrReloadPlugin"@,
        CommandTag::CloseTerminalPane => "CloseTerminalPane"@,
        CommandTag::ClosePluginPane => "ClosePluginPane"@,
        CommandTag::FocusTerminalPane => "FocusTerminalPane"@,
        CommandTag::FocusPluginPane => "FocusPluginPane"@,
        CommandTag::RenameTerminalPane => "RenameTerminalPane"@,
        CommandTag::RenamePluginPane => "RenamePluginPane"@,
        CommandTag::RenameTab => "RenameTab"@,
        CommandTag::ReportCrash => "ReportCrash"@,
        CommandTag::RequestPluginPermissions => "RequestPluginPermissions"@,
        CommandTag::SwitchSession => "SwitchSession"@,
    }
}

/// Renders a tag's name for a diagnostic.
pub fn tag_name(t: CommandTag) -> (r: &'static str)
    ensures
        r@ == tag_text(t),
{
    match t {
        CommandTag::Subscribe => "Subscribe",
        CommandTag::Unsubscribe => "Unsubscribe",
        CommandTag::SetSelectable => "SetSelectable",
        CommandTag::GetPluginIds => "GetPluginIds",
        CommandTag::GetHostVersion => "GetHostVersion",
        CommandTag::OpenFile => "OpenFile",
        CommandTag::OpenFileFloating => "OpenFileFloating",
        CommandTag::OpenTerminal => "OpenTerminal",
        CommandTag::OpenTerminalFloating => "OpenTerminalFloating",
        CommandTag::OpenCommandPane => "OpenCommandPane",
        CommandTag::OpenCommandPaneFloating => "OpenCommandPaneFloating",
        CommandTag::SwitchTabTo => "SwitchTabTo",
        CommandTag::SetTimeout => "SetTimeout",
        CommandTag::ExecCmd => "ExecCmd",
        CommandTag::PostMessageTo => "PostMessageTo",
        CommandTag::PostMessageToPlugin => "PostMessageToPlugin",
        CommandTag::HideSelf => "HideSelf",
        CommandTag::ShowSelf => "ShowSelf",
        CommandTag::SwitchToMode => "SwitchToMode",
        CommandTag::NewTabsWithLayout => "NewTabsWithLayout",
        CommandTag::NewTab => "NewTab",
        CommandTag::GoToNextTab => "GoToNextTab",
        CommandTag::GoToPreviousTab => "GoToPreviousTab",
        CommandTag::Resize => "Resize",
        CommandTag::ResizeWithDirection => "ResizeWithDirection",
        CommandTag::FocusNextPane => "FocusNextPane",
        CommandTag::FocusPreviousPane => "FocusPreviousPane",
        CommandTag::MoveFocus => "MoveFocus",
        CommandTag::MoveFocusOrTab => "MoveFocusOrTab",
        CommandTag::Detach => "Detach",
        CommandTag::EditScrollback => "EditScrollback",
        CommandTag::Write => "Write",
        CommandTag::WriteChars => "WriteChars",
        CommandTag::ToggleTab => "ToggleTab",
        CommandTag::MovePane => "MovePane",
        CommandTag::MovePaneWithDirection => "MovePaneWithDirection",
        CommandTag::ClearScreen => "ClearScreen",
        CommandTag::ScrollUp => "ScrollUp",
        CommandTag::ScrollDown => "ScrollDown",
        CommandTag::ScrollToTop => "ScrollToTop",
        CommandTag::ScrollToBottom => "ScrollToBottom",
        CommandTag::PageScrollUp => "PageScrollUp",
        CommandTag::PageScrollDown => "PageScrollDown",
        CommandTag::ToggleFocusFullscreen => "ToggleFocusFullscreen",
        CommandTag::TogglePaneFrames => "TogglePaneFrames",
        CommandTag::TogglePaneEmbedOrEject => "TogglePaneEmbedOrEject",
        CommandTag::UndoRenamePane => "UndoRenamePane",
        CommandTag::CloseFocus => "CloseFocus",
        CommandTag::ToggleActiveTabSync => "ToggleActiveTabSync",
        CommandTag::CloseFocusedTab => "CloseFocusedTab",
        CommandTag::UndoRenameTab => "UndoRenameTab",
        CommandTag::QuitHost => "QuitHost",
        CommandTag::PreviousSwapLayout => "PreviousSwapLayout",
        CommandTag::NextSwapLayout => "NextSwapLayout",
        CommandTag::GoToTabName => "GoToTabName",
        CommandTag::FocusOrCreateTab => "FocusOrCreateTab",
        CommandTag::GoToTab => "GoToTab",
        CommandTag::StartOrReloadPlugin => "StartOrReloadPlugin",
        CommandTag::CloseTerminalPane => "CloseTerminalPane",
        CommandTag::ClosePluginPane => "ClosePluginPane",
        CommandTag::FocusTerminalPane => "FocusTerminalPane",
        CommandTag::FocusPluginPane => "FocusPluginPane",
        CommandTag::RenameTerminalPane => "RenameTerminalPane",
        CommandTag::RenamePluginPane => "RenamePluginPane",
        CommandTag::RenameTab => "RenameTab",
        CommandTag::ReportCrash => "ReportCrash",
        CommandTag::RequestPluginPermissions => "RequestPluginPermissions",
        CommandTag::SwitchSession => "SwitchSession",
    }
}

} // verus!
