use vstd::prelude::*;
use crate::actions::direction_code;
use crate::actions::direction_to_code;
use crate::actions::mode_code;
use crate::actions::mode_to_code;
use crate::actions::resize_code;
use crate::actions::resize_to_code;
use crate::commands::PluginCommand;
use crate::descriptors::file_to_wire;
use crate::descriptors::message_to_wire;
use crate::descriptors::run_command_to_wire;
use crate::descriptors::wire_of_file;
use crate::descriptors::wire_of_message;
use crate::descriptors::wire_of_run_command;
use crate::error::CodecError;
use crate::events::events_to_codes;
use crate::events::events_to_wire;
use crate::numeric::as_wire_index;
use crate::numeric::position_code;
use crate::numeric::position_to_wire;
use crate::numeric::widen_index;
use crate::permissions::permission_codes_of;
use crate::permissions::permissions_to_wire;
use crate::tags::code_of_tag;
use crate::tags::tag_code;
use crate::tags::CommandTag;
use crate::wire::ExecCmdPayload;
use crate::wire::IdAndNewName;
use crate::wire::MovePayload;
use crate::wire::OpenCommandPanePayload;
use crate::wire::OpenFilePayload;
use crate::wire::PaneIdAndShouldFloat;
use crate::wire::PluginMessagePayload;
use crate::wire::RequestPluginPermissionPayload;
use crate::wire::ResizePayload;
use crate::wire::SetTimeoutPayload;
use crate::wire::SubscribePayload;
use crate::wire::SwitchSessionPayload;
use crate::wire::SwitchTabToPayload;
use crate::wire::SwitchToModePayload;
use crate::wire::UnsubscribePayload;
use crate::wire::WireEnvelope;
use crate::wire::WirePayload;

verus! {

/// What encoding a command yields.  A command with no payload becomes its
/// tag with an empty payload slot; every other command is wrapped in the
/// one arm the vocabulary assigns to its tag, so this direction cannot
/// produce a shape mismatch; it fails only when a nested conversion does.
pub open spec fn encodes_to(c: PluginCommand, r: Result<WireEnvelope, CodecError>) -> bool {
    match c {
        PluginCommand::Subscribe(evs) => match events_to_codes(evs@) {
            Ok(codes) => {
                &&& r matches Ok(env)
                &&& env.tag == tag_code(CommandTag::Subscribe)
                &&& env.payload matches Some(WirePayload::Subscribe(sp))
                &&& sp.subscriptions matches Some(el)
                &&& el.event_codes@ == codes
            },
            Err(e) => r == Err::<WireEnvelope, CodecError>(CodecError::NestedConversionFailed(e)),
        },
        PluginCommand::Unsubscribe(evs) => match events_to_codes(evs@) {
            Ok(codes) => {
                &&& r matches Ok(env)
                &&& env.tag == tag_code(CommandTag::Unsubscribe)
                &&& env.payload matches Some(WirePayload::Unsubscribe(sp))
                &&& sp.subscriptions matches Some(el)
                &&& el.event_codes@ == codes
            },
            Err(e) => r == Err::<WireEnvelope, CodecError>(CodecError::NestedConversionFailed(e)),
        },
        PluginCommand::SetSelectable(b) => r == Ok::<WireEnvelope, CodecError>(WireEnvelope {
            tag: tag_code(CommandTag::SetSelectable),
            payload: Some(WirePayload::SetSelectable(b)),
        }),
        PluginCommand::GetPluginIds => r == Ok::<WireEnvelope, CodecError>(WireEnvelope {
            tag: tag_code(CommandTag::GetPluginIds),
            payload: None,
        }),
        PluginCommand::GetHostVersion => r == Ok::<WireEnvelope, CodecError>(WireEnvelope {
            tag: tag_code(CommandTag::GetHostVersion),
            payload: None,
        }),
        PluginCommand::OpenFile(f) => r == Ok::<WireEnvelope, CodecError>(WireEnvelope {
            tag: tag_code(CommandTag::OpenFile),
            payload: Some(WirePayload::OpenFile(OpenFilePayload { file_to_open: Some(wire_of_file(f)) })),
        }),
        PluginCommand::OpenFileFloating(f) => r == Ok::<WireEnvelope, CodecError>(WireEnvelope {
            tag: tag_code(CommandTag::OpenFileFloating),
            payload: Some(WirePayload::OpenFileFloating(OpenFilePayload { file_to_open: Some(wire_of_file(f)) })),
        }),
        PluginCommand::OpenTerminal(f) => r == Ok::<WireEnvelope, CodecError>(WireEnvelope {
            tag: tag_code(CommandTag::OpenTerminal),
            payload: Some(WirePayload::OpenTerminal(OpenFilePayload { file_to_open: Some(wire_of_file(f)) })),
        }),
        PluginCommand::OpenTerminalFloating(f) => r == Ok::<WireEnvelope, CodecError>(WireEnvelope {
            tag: tag_code(CommandTag::OpenTerminalFloating),
            payload: Some(WirePayload::OpenTerminalFloating(OpenFilePayload { file_to_open: Some(wire_of_file(f)) })),
        }),
        PluginCommand::OpenCommandPane(c) => r == Ok::<WireEnvelope, CodecError>(WireEnvelope {
            tag: tag_code(CommandTag::OpenCommandPane),
            payload: Some(WirePayload::OpenCommandPane(OpenCommandPanePayload { command_to_run: Some(wire_of_run_command(c)) })),
        }),
        PluginCommand::OpenCommandPaneFloating(c) => r == Ok::<WireEnvelope, CodecError>(WireEnvelope {
            tag: tag_code(CommandTag::OpenCommandPaneFloating),
            payload: Some(WirePayload::OpenCommandPaneFloating(OpenCommandPanePayload { command_to_run: Some(wire_of_run_command(c)) })),
        }),
        PluginCommand::SwitchTabTo(n) => r == Ok::<WireEnvelope, CodecError>(WireEnvelope {
            tag: tag_code(CommandTag::SwitchTabTo),
            payload: Some(WirePayload::SwitchTabTo(SwitchTabToPayload { tab_index: as_wire_index(n) })),
        }),
        PluginCommand::SetTimeout(secs) => r == Ok::<WireEnvelope, CodecError>(WireEnvelope {
            tag: tag_code(CommandTag::SetTimeout),
            payload: Some(WirePayload::SetTimeout(SetTimeoutPayload { seconds: secs })),
        }),
        PluginCommand::ExecCmd(cl) => r == Ok::<WireEnvelope, CodecError>(WireEnvelope {
            tag: tag_code(CommandTag::ExecCmd),
            payload: Some(WirePayload::ExecCmd(ExecCmdPayload { command_line: cl })),
        }),
        PluginCommand::PostMessageTo(m) => r == Ok::<WireEnvelope, CodecError>(WireEnvelope {
            tag: tag_code(CommandTag::PostMessageTo),
            payload: Some(WirePayload::PostMessageTo(PluginMessagePayload { message: Some(wire_of_message(m)) })),
        }),
        PluginCommand::PostMessageToPlugin(m) => r == Ok::<WireEnvelope, CodecError>(WireEnvelope {
            tag: tag_code(CommandTag::PostMessageToPlugin),
            payload: Some(WirePayload::PostMessageToPlugin(PluginMessagePayload { message: Some(wire_of_message(m)) })),
        }),
        PluginCommand::HideSelf => r == Ok::<WireEnvelope, CodecError>(WireEnvelope {
            tag: tag_code(CommandTag::HideSelf),
            payload: None,
        }),
        PluginCommand::ShowSelf(b) => r == Ok::<WireEnvelope, CodecError>(WireEnvelope {
            tag: tag_code(CommandTag::ShowSelf),
            payload: Some(WirePayload::ShowSelf(b)),
        }),
        PluginCommand::SwitchToMode(m) => r == Ok::<WireEnvelope, CodecError>(WireEnvelope {
            tag: tag_code(CommandTag::SwitchToMode),
            payload: Some(WirePayload::SwitchToMode(SwitchToModePayload { input_mode: Some(mode_code(m)) })),
        }),
        PluginCommand::NewTabsWithLayout(s) => r == Ok::<WireEnvelope, CodecError>(WireEnvelope {
            tag: tag_code(CommandTag::NewTabsWithLayout),
            payload: Some(WirePayload::NewTabsWithLayout(s)),
        }),
        PluginCommand::NewTab => r == Ok::<WireEnvelope, CodecError>(WireEnvelope {
            tag: tag_code(CommandTag::NewTab),
            payload: None,
        }),
        PluginCommand::GoToNextTab => r == Ok::<WireEnvelope, CodecError>(WireEnvelope {
            tag: tag_code(CommandTag::GoToNextTab),
            payload: None,
        }),
        PluginCommand::GoToPreviousTab => r == Ok::<WireEnvelope, CodecError>(WireEnvelope {
            tag: tag_code(CommandTag::GoToPreviousTab),
            payload: None,
        }),
        PluginCommand::Resize(ra) => r == Ok::<WireEnvelope, CodecError>(WireEnvelope {
            tag: tag_code(CommandTag::Resize),
            payload: Some(WirePayload::Resize(ResizePayload { resize: Some(resize_code(ra)) })),
        }),
        PluginCommand::ResizeWithDirection(ra) => r == Ok::<WireEnvelope, CodecError>(WireEnvelope {
            tag: tag_code(CommandTag::ResizeWithDirection),
            payload: Some(WirePayload::ResizeWithDirection(ResizePayload { resize: Some(resize_code(ra)) })),
        }),
        PluginCommand::FocusNextPane => r == Ok::<WireEnvelope, CodecError>(WireEnvelope {
            tag: tag_code(CommandTag::FocusNextPane),
            payload: None,
        }),
        PluginCommand::FocusPreviousPane => r == Ok::<WireEnvelope, CodecError>(WireEnvelope {
            tag: tag_code(CommandTag::FocusPreviousPane),
            payload: None,
        }),
        PluginCommand::MoveFocus(dr) => r == Ok::<WireEnvelope, CodecError>(WireEnvelope {
            tag: tag_code(CommandTag::MoveFocus),
            payload: Some(WirePayload::MoveFocus(MovePayload { direction: Some(direction_code(dr)) })),
        }),
        PluginCommand::MoveFocusOrTab(dr) => r == Ok::<WireEnvelope, CodecError>(WireEnvelope {
            tag: tag_code(CommandTag::MoveFocusOrTab),
            payload: Some(WirePayload::MoveFocusOrTab(MovePayload { direction: Some(direction_code(dr)) })),
        }),
        PluginCommand::Detach => r == Ok::<WireEnvelope, CodecError>(WireEnvelope {
            tag: tag_code(CommandTag::Detach),
            payload: None,
        }),
        PluginCommand::EditScrollback => r == Ok::<WireEnvelope, CodecError>(WireEnvelope {
            tag: tag_code(CommandTag::EditScrollback),
            payload: None,
        }),
        PluginCommand::Write(bs) => r == Ok::<WireEnvelope, CodecError>(WireEnvelope {
            tag: tag_code(CommandTag::Write),
            payload: Some(WirePayload::Write(bs)),
        }),
        PluginCommand::WriteChars(s) => r == Ok::<WireEnvelope, CodecError>(WireEnvelope {
            tag: tag_code(CommandTag::WriteChars),
            payload: Some(WirePayload::WriteChars(s)),
        }),
        PluginCommand::ToggleTab => r == Ok::<WireEnvelope, CodecError>(WireEnvelope {
            tag: tag_code(CommandTag::ToggleTab),
            payload: None,
        }),
        PluginCommand::MovePane => r == Ok::<WireEnvelope, CodecError>(WireEnvelope {
            tag: tag_code(CommandTag::MovePane),
            payload: None,
        }),
        PluginCommand::MovePaneWithDirection(dr) => r == Ok::<WireEnvelope, CodecError>(WireEnvelope {
            tag: tag_code(CommandTag::MovePaneWithDirection),
            payload: Some(WirePayload::MovePaneWithDirection(MovePayload { direction: Some(direction_code(dr)) })),
        }),
        PluginCommand::ClearScreen => r == Ok::<WireEnvelope, CodecError>(WireEnvelope {
            tag: tag_code(CommandTag::ClearScreen),
            payload: None,
        }),
        PluginCommand::ScrollUp => r == Ok::<WireEnvelope, CodecError>(WireEnvelope {
            tag: tag_code(CommandTag::ScrollUp),
            payload: None,
        }),
        PluginCommand::ScrollDown => r == Ok::<WireEnvelope, CodecError>(WireEnvelope {
            tag: tag_code(CommandTag::ScrollDown),
            payload: None,
        }),
        PluginCommand::ScrollToTop => r == Ok::<WireEnvelope, CodecError>(WireEnvelope {
            tag: tag_code(CommandTag::ScrollToTop),
            payload: None,
        }),
        PluginCommand::ScrollToBottom => r == Ok::<WireEnvelope, CodecError>(WireEnvelope {
            tag: tag_code(CommandTag::ScrollToBottom),
            payload: None,
        }),
        PluginCommand::PageScrollUp => r == Ok::<WireEnvelope, CodecError>(WireEnvelope {
            tag: tag_code(CommandTag::PageScrollUp),
            payload: None,
        }),
        PluginCommand::PageScrollDown => r == Ok::<WireEnvelope, CodecError>(WireEnvelope {
            tag: tag_code(CommandTag::PageScrollDown),
            payload: None,
        }),
        PluginCommand::ToggleFocusFullscreen => r == Ok::<WireEnvelope, CodecError>(WireEnvelope {
            tag: tag_code(CommandTag::ToggleFocusFullscreen),
            payload: None,
        }),
        PluginCommand::TogglePaneFrames => r == Ok::<WireEnvelope, CodecError>(WireEnvelope {
            tag: tag_code(CommandTag::TogglePaneFrames),
            payload: None,
        }),
        PluginCommand::TogglePaneEmbedOrEject => r == Ok::<WireEnvelope, CodecError>(WireEnvelope {
            tag: tag_code(CommandTag::TogglePaneEmbedOrEject),
            payload: None,
        }),
        PluginCommand::UndoRenamePane => r == Ok::<WireEnvelope, CodecError>(WireEnvelope {
            tag: tag_code(CommandTag::UndoRenamePane),
            payload: None,
        }),
        PluginCommand::CloseFocus => r == Ok::<WireEnvelope, CodecError>(WireEnvelope {
            tag: tag_code(CommandTag::CloseFocus),
            payload: None,
        }),
        PluginCommand::ToggleActiveTabSync => r == Ok::<WireEnvelope, CodecError>(WireEnvelope {
            tag: tag_code(CommandTag::ToggleActiveTabSync),
            payload: None,
        }),
        PluginCommand::CloseFocusedTab => r == Ok::<WireEnvelope, CodecError>(WireEnvelope {
            tag: tag_code(CommandTag::CloseFocusedTab),
            payload: None,
        }),
        PluginCommand::UndoRenameTab => r == Ok::<WireEnvelope, CodecError>(WireEnvelope {
            tag: tag_code(CommandTag::UndoRenameTab),
            payload: None,
        }),
        PluginCommand::QuitHost => r == Ok::<WireEnvelope, CodecError>(WireEnvelope {
            tag: tag_code(CommandTag::QuitHost),
            payload: None,
        }),
        PluginCommand::PreviousSwapLayout => r == Ok::<WireEnvelope, CodecError>(WireEnvelope {
            tag: tag_code(CommandTag::PreviousSwapLayout),
            payload: None,
        }),
        PluginCommand::NextSwapLayout => r == Ok::<WireEnvelope, CodecError>(WireEnvelope {
            tag: tag_code(CommandTag::NextSwapLayout),
            payload: None,
        }),
        PluginCommand::GoToTabName(s) => r == Ok::<WireEnvelope, CodecError>(WireEnvelope {
            tag: tag_code(CommandTag::GoToTabName),
            payload: Some(WirePayload::GoToTabName(s)),
        }),
        PluginCommand::FocusOrCreateTab(s) => r == Ok::<WireEnvelope, CodecError>(WireEnvelope {
            tag: tag_code(CommandTag::FocusOrCreateTab),
            payload: Some(WirePayload::FocusOrCreateTab(s)),
        }),
        PluginCommand::GoToTab(n) => r == Ok::<WireEnvelope, CodecError>(WireEnvelope {
            tag: tag_code(CommandTag::GoToTab),
            payload: Some(WirePayload::GoToTab(as_wire_index(n))),
        }),
        PluginCommand::StartOrReloadPlugin(s) => r == Ok::<WireEnvelope, CodecError>(WireEnvelope {
            tag: tag_code(CommandTag::StartOrReloadPlugin),
            payload: Some(WirePayload::StartOrReloadPlugin(s)),
        }),
        PluginCommand::CloseTerminalPane(n) => r == Ok::<WireEnvelope, CodecError>(WireEnvelope {
            tag: tag_code(CommandTag::CloseTerminalPane),
            payload: Some(WirePayload::CloseTerminalPane(as_wire_index(n))),
        }),
        PluginCommand::ClosePluginPane(n) => r == Ok::<WireEnvelope, CodecError>(WireEnvelope {
            tag: tag_code(CommandTag::ClosePluginPane),
            payload: Some(WirePayload::ClosePluginPane(as_wire_index(n))),
        }),
        PluginCommand::FocusTerminalPane(id, fl) => r == Ok::<WireEnvelope, CodecError>(WireEnvelope {
            tag: tag_code(CommandTag::FocusTerminalPane),
            payload: Some(WirePayload::FocusTerminalPane(PaneIdAndShouldFloat { pane_id: as_wire_index(id), should_float: fl })),
        }),
        PluginCommand::FocusPluginPane(id, fl) => r == Ok::<WireEnvelope, CodecError>(WireEnvelope {
            tag: tag_code(CommandTag::FocusPluginPane),
            payload: Some(WirePayload::FocusPluginPane(PaneIdAndShouldFloat { pane_id: as_wire_index(id), should_float: fl })),
        }),
        PluginCommand::RenameTerminalPane(id, name) => r == Ok::<WireEnvelope, CodecError>(WireEnvelope {
            tag: tag_code(CommandTag::RenameTerminalPane),
            payload: Some(WirePayload::RenameTerminalPane(IdAndNewName { id: as_wire_index(id), new_name: name })),
        }),
        PluginCommand::RenamePluginPane(id, name) => r == Ok::<WireEnvelope, CodecError>(WireEnvelope {
            tag: tag_code(CommandTag::RenamePluginPane),
            payload: Some(WirePayload::RenamePluginPane(IdAndNewName { id: as_wire_index(id), new_name: name })),
        }),
        PluginCommand::RenameTab(id, name) => r == Ok::<WireEnvelope, CodecError>(WireEnvelope {
            tag: tag_code(CommandTag::RenameTab),
            payload: Some(WirePayload::RenameTab(IdAndNewName { id: as_wire_index(id), new_name: name })),
        }),
        PluginCommand::ReportPanic(s) => r == Ok::<WireEnvelope, CodecError>(WireEnvelope {
            tag: tag_code(CommandTag::ReportCrash),
            payload: Some(WirePayload::ReportCrash(s)),
        }),
        PluginCommand::RequestPluginPermissions(ps) => match permission_codes_of(ps@) {
            Ok(codes) => {
                &&& r matches Ok(env)
                &&& env.tag == tag_code(CommandTag::RequestPluginPermissions)
                &&& env.payload matches Some(WirePayload::RequestPluginPermissions(pp))
                &&& pp.permissions@ == codes
            },
            Err(e) => r == Err::<WireEnvelope, CodecError>(CodecError::NestedConversionFailed(e)),
        },
        PluginCommand::SwitchSession(cs) => r == Ok::<WireEnvelope, CodecError>(WireEnvelope {
            tag: tag_code(CommandTag::SwitchSession),
            payload: Some(WirePayload::SwitchSession(SwitchSessionPayload {
                name: cs.name,
                tab_position: (match cs.tab_position {
                    Some(t) => Some(position_code(t)),
                    None => None,
                }),
                pane_id: (match cs.pane_id {
                    Some(pid) => Some(pid.0),
                    None => None,
                }),
                pane_id_is_plugin: (match cs.pane_id {
                    Some(pid) => Some(pid.1),
                    None => None,
                }),
            })),
        }),
    }
}

/// Encodes a domain command into the wire envelope that carries it, or
/// the failure of the one nested conversion it delegated to.
pub fn encode(command: PluginCommand) -> (r: Result<WireEnvelope, CodecError>)
    ensures
        encodes_to(command, r),
{
    match command {
        PluginCommand::Subscribe(evs) => match events_to_wire(&evs) {
            Ok(el) => Ok(WireEnvelope {
            tag: code_of_tag(CommandTag::Subscribe),
            payload: Some(WirePayload::Subscribe(SubscribePayload { subscriptions: Some(el) })),
        }),
            Err(e) => Err(CodecError::NestedConversionFailed(e)),
        },
        PluginCommand::Unsubscribe(evs) => match events_to_wire(&evs) {
            Ok(el) => Ok(WireEnvelope {
            tag: code_of_tag(CommandTag::Unsubscribe),
            payload: Some(WirePayload::Unsubscribe(UnsubscribePayload { subscriptions: Some(el) })),
        }),
            Err(e) => Err(CodecError::NestedConversionFailed(e)),
        },
        PluginCommand::SetSelectable(b) => Ok(WireEnvelope {
            tag: code_of_tag(CommandTag::SetSelectable),
            payload: Some(WirePayload::SetSelectable(b)),
        }),
        PluginCommand::GetPluginIds => Ok(WireEnvelope {
            tag: code_of_tag(CommandTag::GetPluginIds),
            payload: None,
        }),
        PluginCommand::GetHostVersion => Ok(WireEnvelope {
            tag: code_of_tag(CommandTag::GetHostVersion),
            payload: None,
        }),
        PluginCommand::OpenFile(f) => Ok(WireEnvelope {
            tag: code_of_tag(CommandTag::OpenFile),
            payload: Some(WirePayload::OpenFile(OpenFilePayload { file_to_open: Some(file_to_wire(f)) })),
        }),
        PluginCommand::OpenFileFloating(f) => Ok(WireEnvelope {
            tag: code_of_tag(CommandTag::OpenFileFloating),
            payload: Some(WirePayload::OpenFileFloating(OpenFilePayload { file_to_open: Some(file_to_wire(f)) })),
        }),
        PluginCommand::OpenTerminal(f) => Ok(WireEnvelope {
            tag: code_of_tag(CommandTag::OpenTerminal),
            payload: Some(WirePayload::OpenTerminal(OpenFilePayload { file_to_open: Some(file_to_wire(f)) })),
        }),
        PluginCommand::OpenTerminalFloating(f) => Ok(WireEnvelope {
            tag: code_of_tag(CommandTag::OpenTerminalFloating),
            payload: Some(WirePayload::OpenTerminalFloating(OpenFilePayload { file_to_open: Some(file_to_wire(f)) })),
        }),
        PluginCommand::OpenCommandPane(c) => Ok(WireEnvelope {
            tag: code_of_tag(CommandTag::OpenCommandPane),
            payload: Some(WirePayload::OpenCommandPane(OpenCommandPanePayload { command_to_run: Some(run_command_to_wire(c)) })),
        }),
        PluginCommand::OpenCommandPaneFloating(c) => Ok(WireEnvelope {
            tag: code_of_tag(CommandTag::OpenCommandPaneFloating),
            payload: Some(WirePayload::OpenCommandPaneFloating(OpenCommandPanePayload { command_to_run: Some(run_command_to_wire(c)) })),
        }),
        PluginCommand::SwitchTabTo(n) => Ok(WireEnvelope {
            tag: code_of_tag(CommandTag::SwitchTabTo),
            payload: Some(WirePayload::SwitchTabTo(SwitchTabToPayload { tab_index: widen_index(n) })),
        }),
        PluginCommand::SetTimeout(secs) => Ok(WireEnvelope {
            tag: code_of_tag(CommandTag::SetTimeout),
            payload: Some(WirePayload::SetTimeout(SetTimeoutPayload { seconds: secs })),
        }),
        PluginCommand::ExecCmd(cl) => Ok(WireEnvelope {
            tag: code_of_tag(CommandTag::ExecCmd),
            payload: Some(WirePayload::ExecCmd(ExecCmdPayload { command_line: cl })),
        }),
        PluginCommand::PostMessageTo(m) => Ok(WireEnvelope {
            tag: code_of_tag(CommandTag::PostMessageTo),
            payload: Some(WirePayload::PostMessageTo(PluginMessagePayload { message: Some(message_to_wire(m)) })),
        }),
        PluginCommand::PostMessageToPlugin(m) => Ok(WireEnvelope {
            tag: code_of_tag(CommandTag::PostMessageToPlugin),
            payload: Some(WirePayload::PostMessageToPlugin(PluginMessagePayload { message: Some(message_to_wire(m)) })),
        }),
        PluginCommand::HideSelf => Ok(WireEnvelope {
            tag: code_of_tag(CommandTag::HideSelf),
            payload: None,
        }),
        PluginCommand::ShowSelf(b) => Ok(WireEnvelope {
            tag: code_of_tag(CommandTag::ShowSelf),
            payload: Some(WirePayload::ShowSelf(b)),
        }),
        PluginCommand::SwitchToMode(m) => Ok(WireEnvelope {
            tag: code_of_tag(CommandTag::SwitchToMode),
            payload: Some(WirePayload::SwitchToMode(SwitchToModePayload { input_mode: Some(mode_to_code(&m)) })),
        }),
        PluginCommand::NewTabsWithLayout(s) => Ok(WireEnvelope {
            tag: code_of_tag(CommandTag::NewTabsWithLayout),
            payload: Some(WirePayload::NewTabsWithLayout(s)),
        }),
        PluginCommand::NewTab => Ok(WireEnvelope {
            tag: code_of_tag(CommandTag::NewTab),
            payload: None,
        }),
        PluginCommand::GoToNextTab => Ok(WireEnvelope {
            tag: code_of_tag(CommandTag::GoToNextTab),
            payload: None,
        }),
        PluginCommand::GoToPreviousTab => Ok(WireEnvelope {
            tag: code_of_tag(CommandTag::GoToPreviousTab),
            payload: None,
        }),
        PluginCommand::Resize(ra) => Ok(WireEnvelope {
            tag: code_of_tag(CommandTag::Resize),
            payload: Some(WirePayload::Resize(ResizePayload { resize: Some(resize_to_code(&ra)) })),
        }),
        PluginCommand::ResizeWithDirection(ra) => Ok(WireEnvelope {
            tag: code_of_tag(CommandTag::ResizeWithDirection),
            payload: Some(WirePayload::ResizeWithDirection(ResizePayload { resize: Some(resize_to_code(&ra)) })),
        }),
        PluginCommand::FocusNextPane => Ok(WireEnvelope {
            tag: code_of_tag(CommandTag::FocusNextPane),
            payload: None,
        }),
        PluginCommand::FocusPreviousPane => Ok(WireEnvelope {
            tag: code_of_tag(CommandTag::FocusPreviousPane),
            payload: None,
        }),
        PluginCommand::MoveFocus(dr) => Ok(WireEnvelope {
            tag: code_of_tag(CommandTag::MoveFocus),
            payload: Some(WirePayload::MoveFocus(MovePayload { direction: Some(direction_to_code(&dr)) })),
        }),
        PluginCommand::MoveFocusOrTab(dr) => Ok(WireEnvelope {
            tag: code_of_tag(CommandTag::MoveFocusOrTab),
            payload: Some(WirePayload::MoveFocusOrTab(MovePayload { direction: Some(direction_to_code(&dr)) })),
        }),
        PluginCommand::Detach => Ok(WireEnvelope {
            tag: code_of_tag(CommandTag::Detach),
            payload: None,
        }),
        PluginCommand::EditScrollback => Ok(WireEnvelope {
            tag: code_of_tag(CommandTag::EditScrollback),
            payload: None,
        }),
        PluginCommand::Write(bs) => Ok(WireEnvelope {
            tag: code_of_tag(CommandTag::Write),
            payload: Some(WirePayload::Write(bs)),
        }),
        PluginCommand::WriteChars(s) => Ok(WireEnvelope {
            tag: code_of_tag(CommandTag::WriteChars),
            payload: Some(WirePayload::WriteChars(s)),
        }),
        PluginCommand::ToggleTab => Ok(WireEnvelope {
            tag: code_of_tag(CommandTag::ToggleTab),
            payload: None,
        }),
        PluginCommand::MovePane => Ok(WireEnvelope {
            tag: code_of_tag(CommandTag::MovePane),
            payload: None,
        }),
        PluginCommand::MovePaneWithDirection(dr) => Ok(WireEnvelope {
            tag: code_of_tag(CommandTag::MovePaneWithDirection),
            payload: Some(WirePayload::MovePaneWithDirection(MovePayload { direction: Some(direction_to_code(&dr)) })),
        }),
        PluginCommand::ClearScreen => Ok(WireEnvelope {
            tag: code_of_tag(CommandTag::ClearScreen),
            payload: None,
        }),
        PluginCommand::ScrollUp => Ok(WireEnvelope {
            tag: code_of_tag(CommandTag::ScrollUp),
            payload: None,
        }),
        PluginCommand::ScrollDown => Ok(WireEnvelope {
            tag: code_of_tag(CommandTag::ScrollDown),
            payload: None,
        }),
        PluginCommand::ScrollToTop => Ok(WireEnvelope {
            tag: code_of_tag(CommandTag::ScrollToTop),
            payload: None,
        }),
        PluginCommand::ScrollToBottom => Ok(WireEnvelope {
            tag: code_of_tag(CommandTag::ScrollToBottom),
            payload: None,
        }),
        PluginCommand::PageScrollUp => Ok(WireEnvelope {
            tag: code_of_tag(CommandTag::PageScrollUp),
            payload: None,
        }),
        PluginCommand::PageScrollDown => Ok(WireEnvelope {
            tag: code_of_tag(CommandTag::PageScrollDown),
            payload: None,
        }),
        PluginCommand::ToggleFocusFullscreen => Ok(WireEnvelope {
            tag: code_of_tag(CommandTag::ToggleFocusFullscreen),
            payload: None,
        }),
        PluginCommand::TogglePaneFrames => Ok(WireEnvelope {
            tag: code_of_tag(CommandTag::TogglePaneFrames),
            payload: None,
        }),
        PluginCommand::TogglePaneEmbedOrEject => Ok(WireEnvelope {
            tag: code_of_tag(CommandTag::TogglePaneEmbedOrEject),
            payload: None,
        }),
        PluginCommand::UndoRenamePane => Ok(WireEnvelope {
            tag: code_of_tag(CommandTag::UndoRenamePane),
            payload: None,
        }),
        PluginCommand::CloseFocus => Ok(WireEnvelope {
            tag: code_of_tag(CommandTag::CloseFocus),
            payload: None,
        }),
        PluginCommand::ToggleActiveTabSync => Ok(WireEnvelope {
            tag: code_of_tag(CommandTag::ToggleActiveTabSync),
            payload: None,
        }),
        PluginCommand::CloseFocusedTab => Ok(WireEnvelope {
            tag: code_of_tag(CommandTag::CloseFocusedTab),
            payload: None,
        }),
        PluginCommand::UndoRenameTab => Ok(WireEnvelope {
            tag: code_of_tag(CommandTag::UndoRenameTab),
            payload: None,
        }),
        PluginCommand::QuitHost => Ok(WireEnvelope {
            tag: code_of_tag(CommandTag::QuitHost),
            payload: None,
        }),
        PluginCommand::PreviousSwapLayout => Ok(WireEnvelope {
            tag: code_of_tag(CommandTag::PreviousSwapLayout),
            payload: None,
        }),
        PluginCommand::NextSwapLayout => Ok(WireEnvelope {
            tag: code_of_tag(CommandTag::NextSwapLayout),
            payload: None,
        }),
        PluginCommand::GoToTabName(s) => Ok(WireEnvelope {
            tag: code_of_tag(CommandTag::GoToTabName),
            payload: Some(WirePayload::GoToTabName(s)),
        }),
        PluginCommand::FocusOrCreateTab(s) => Ok(WireEnvelope {
            tag: code_of_tag(CommandTag::FocusOrCreateTab),
            payload: Some(WirePayload::FocusOrCreateTab(s)),
        }),
        PluginCommand::GoToTab(n) => Ok(WireEnvelope {
            tag: code_of_tag(CommandTag::GoToTab),
            payload: Some(WirePayload::GoToTab(widen_index(n))),
        }),
        PluginCommand::StartOrReloadPlugin(s) => Ok(WireEnvelope {
            tag: code_of_tag(CommandTag::StartOrReloadPlugin),
            payload: Some(WirePayload::StartOrReloadPlugin(s)),
        }),
        PluginCommand::CloseTerminalPane(n) => Ok(WireEnvelope {
            tag: code_of_tag(CommandTag::CloseTerminalPane),
            payload: Some(WirePayload::CloseTerminalPane(widen_index(n))),
        }),
        PluginCommand::ClosePluginPane(n) => Ok(WireEnvelope {
            tag: code_of_tag(CommandTag::ClosePluginPane),
            payload: Some(WirePayload::ClosePluginPane(widen_index(n))),
        }),
        PluginCommand::FocusTerminalPane(id, fl) => Ok(WireEnvelope {
            tag: code_of_tag(CommandTag::FocusTerminalPane),
            payload: Some(WirePayload::FocusTerminalPane(PaneIdAndShouldFloat { pane_id: widen_index(id), should_float: fl })),
        }),
        PluginCommand::FocusPluginPane(id, fl) => Ok(WireEnvelope {
            tag: code_of_tag(CommandTag::FocusPluginPane),
            payload: Some(WirePayload::FocusPluginPane(PaneIdAndShouldFloat { pane_id: widen_index(id), should_float: fl })),
        }),
        PluginCommand::RenameTerminalPane(id, name) => Ok(WireEnvelope {
            tag: code_of_tag(CommandTag::RenameTerminalPane),
            payload: Some(WirePayload::RenameTerminalPane(IdAndNewName { id: widen_index(id), new_name: name })),
        }),
        PluginCommand::RenamePluginPane(id, name) => Ok(WireEnvelope {
            tag: code_of_tag(CommandTag::RenamePluginPane),
            payload: Some(WirePayload::RenamePluginPane(IdAndNewName { id: widen_index(id), new_name: name })),
        }),
        PluginCommand::RenameTab(id, name) => Ok(WireEnvelope {
            tag: code_of_tag(CommandTag::RenameTab),
            payload: Some(WirePayload::RenameTab(IdAndNewName { id: widen_index(id), new_name: name })),
        }),
        PluginCommand::ReportPanic(s) => Ok(WireEnvelope {
            tag: code_of_tag(CommandTag::ReportCrash),
            payload: Some(WirePayload::ReportCrash(s)),
        }),
        PluginCommand::RequestPluginPermissions(ps) => match permissions_to_wire(&ps) {
            Ok(codes) => Ok(WireEnvelope {
                tag: code_of_tag(CommandTag::RequestPluginPermissions),
                payload: Some(WirePayload::RequestPluginPermissions(RequestPluginPermissionPayload { permissions: codes })),
            }),
            Err(e) => Err(CodecError::NestedConversionFailed(e)),
        },
        PluginCommand::SwitchSession(cs) => Ok(WireEnvelope {
            tag: code_of_tag(CommandTag::SwitchSession),
            payload: Some(WirePayload::SwitchSession(SwitchSessionPayload {
                name: cs.name,
                tab_position: (match cs.tab_position {
                    Some(t) => Some(position_to_wire(t)),
                    None => None,
                }),
                pane_id: (match cs.pane_id {
                    Some(pid) => Some(pid.0),
                    None => None,
                }),
                pane_id_is_plugin: (match cs.pane_id {
                    Some(pid) => Some(pid.1),
                    None => None,
                }),
            })),
        }),
    }
}

} // verus!
