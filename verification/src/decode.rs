use vstd::prelude::*;
use crate::actions::direction_from_code;
use crate::actions::direction_of_code;
use crate::actions::mode_from_code;
use crate::actions::mode_of_code;
use crate::actions::resize_from_code;
use crate::actions::resize_of_code;
use crate::commands::ConnectToSession;
use crate::commands::PluginCommand;
use crate::descriptors::file_from_wire;
use crate::descriptors::file_of_wire;
use crate::descriptors::message_from_wire;
use crate::descriptors::message_of_wire;
use crate::descriptors::run_command_from_wire;
use crate::descriptors::run_command_of_wire;
use crate::error::CodecError;
use crate::error::NestedError;
use crate::events::events_from_codes;
use crate::events::events_from_wire;
use crate::numeric::as_unsigned_index;
use crate::numeric::narrow_index;
use crate::permissions::permissions_from_wire;
use crate::permissions::permissions_of_codes;
use crate::tags::tag_from_code;
use crate::tags::tag_of_code;
use crate::tags::CommandTag;
use crate::wire::arm_kind;
use crate::wire::arm_of;
use crate::wire::expected_arm;
use crate::wire::expected_arm_of;
use crate::wire::WireEnvelope;
use crate::wire::WirePayload;

verus! {

/// What decoding an envelope with a known, payload-free wire tag yields:
/// the bare command for a tag that carries no payload, and a
/// `MissingPayload` failure for a tag that requires one.
pub open spec fn no_payload_decodes_to(t: CommandTag, r: Result<PluginCommand, CodecError>) -> bool {
    match t {
        CommandTag::Subscribe => r == Err::<PluginCommand, CodecError>(CodecError::MissingPayload(CommandTag::Subscribe)),
        CommandTag::Unsubscribe => r == Err::<PluginCommand, CodecError>(CodecError::MissingPayload(CommandTag::Unsubscribe)),
        CommandTag::SetSelectable => r == Err::<PluginCommand, CodecError>(CodecError::MissingPayload(CommandTag::SetSelectable)),
        CommandTag::GetPluginIds => r == Ok::<PluginCommand, CodecError>(PluginCommand::GetPluginIds),
        CommandTag::GetHostVersion => r == Ok::<PluginCommand, CodecError>(PluginCommand::GetHostVersion),
        CommandTag::OpenFile => r == Err::<PluginCommand, CodecError>(CodecError::MissingPayload(CommandTag::OpenFile)),
        CommandTag::OpenFileFloating => r == Err::<PluginCommand, CodecError>(CodecError::MissingPayload(CommandTag::OpenFileFloating)),
        CommandTag::OpenTerminal => r == Err::<PluginCommand, CodecError>(CodecError::MissingPayload(CommandTag::OpenTerminal)),
        CommandTag::OpenTerminalFloating => r == Err::<PluginCommand, CodecError>(CodecError::MissingPayload(CommandTag::OpenTerminalFloating)),
        CommandTag::OpenCommandPane => r == Err::<PluginCommand, CodecError>(CodecError::MissingPayload(CommandTag::OpenCommandPane)),
        CommandTag::OpenCommandPaneFloating => r == Err::<PluginCommand, CodecError>(CodecError::MissingPayload(CommandTag::OpenCommandPaneFloating)),
        CommandTag::SwitchTabTo => r == Err::<PluginCommand, CodecError>(CodecError::MissingPayload(CommandTag::SwitchTabTo)),
        CommandTag::SetTimeout => r == Err::<PluginCommand, CodecError>(CodecError::MissingPayload(CommandTag::SetTimeout)),
        CommandTag::ExecCmd => r == Err::<PluginCommand, CodecError>(CodecError::MissingPayload(CommandTag::ExecCmd)),
        CommandTag::PostMessageTo => r == Err::<PluginCommand, CodecError>(CodecError::MissingPayload(CommandTag::PostMessageTo)),
        CommandTag::PostMessageToPlugin => r == Err::<PluginCommand, CodecError>(CodecError::MissingPayload(CommandTag::PostMessageToPlugin)),
        CommandTag::HideSelf => r == Ok::<PluginCommand, CodecError>(PluginCommand::HideSelf),
        CommandTag::ShowSelf => r == Err::<PluginCommand, CodecError>(CodecError::MissingPayload(CommandTag::ShowSelf)),
        CommandTag::SwitchToMode => r == Err::<PluginCommand, CodecError>(CodecError::MissingPayload(CommandTag::SwitchToMode)),
        CommandTag::NewTabsWithLayout => r == Err::<PluginCommand, CodecError>(CodecError::MissingPayload(CommandTag::NewTabsWithLayout)),
        CommandTag::NewTab => r == Ok::<PluginCommand, CodecError>(PluginCommand::NewTab),
        CommandTag::GoToNextTab => r == Ok::<PluginCommand, CodecError>(PluginCommand::GoToNextTab),
        CommandTag::GoToPreviousTab => r == Ok::<PluginCommand, CodecError>(PluginCommand::GoToPreviousTab),
        CommandTag::Resize => r == Err::<PluginCommand, CodecError>(CodecError::MissingPayload(CommandTag::Resize)),
        CommandTag::ResizeWithDirection => r == Err::<PluginCommand, CodecError>(CodecError::MissingPayload(CommandTag::ResizeWithDirection)),
        CommandTag::FocusNextPane => r == Ok::<PluginCommand, CodecError>(PluginCommand::FocusNextPane),
        CommandTag::FocusPreviousPane => r == Ok::<PluginCommand, CodecError>(PluginCommand::FocusPreviousPane),
        CommandTag::MoveFocus => r == Err::<PluginCommand, CodecError>(CodecError::MissingPayload(CommandTag::MoveFocus)),
        CommandTag::MoveFocusOrTab => r == Err::<PluginCommand, CodecError>(CodecError::MissingPayload(CommandTag::MoveFocusOrTab)),
        CommandTag::Detach => r == Ok::<PluginCommand, CodecError>(PluginCommand::Detach),
        CommandTag::EditScrollback => r == Ok::<PluginCommand, CodecError>(PluginCommand::EditScrollback),
        CommandTag::Write => r == Err::<PluginCommand, CodecError>(CodecError::MissingPayload(CommandTag::Write)),
        CommandTag::WriteChars => r == Err::<PluginCommand, CodecError>(CodecError::MissingPayload(CommandTag::WriteChars)),
        CommandTag::ToggleTab => r == Ok::<PluginCommand, CodecError>(PluginCommand::ToggleTab),
        CommandTag::MovePane => r == Ok::<PluginCommand, CodecError>(PluginCommand::MovePane),
        CommandTag::MovePaneWithDirection => r == Err::<PluginCommand, CodecError>(CodecError::MissingPayload(CommandTag::MovePaneWithDirection)),
        CommandTag::ClearScreen => r == Ok::<PluginCommand, CodecError>(PluginCommand::ClearScreen),
        CommandTag::ScrollUp => r == Ok::<PluginCommand, CodecError>(PluginCommand::ScrollUp),
        CommandTag::ScrollDown => r == Ok::<PluginCommand, CodecError>(PluginCommand::ScrollDown),
        CommandTag::ScrollToTop => r == Ok::<PluginCommand, CodecError>(PluginCommand::ScrollToTop),
        CommandTag::ScrollToBottom => r == Ok::<PluginCommand, CodecError>(PluginCommand::ScrollToBottom),
        CommandTag::PageScrollUp => r == Ok::<PluginCommand, CodecError>(PluginCommand::PageScrollUp),
        CommandTag::PageScrollDown => r == Ok::<PluginCommand, CodecError>(PluginCommand::PageScrollDown),
        CommandTag::ToggleFocusFullscreen => r == Ok::<PluginCommand, CodecError>(PluginCommand::ToggleFocusFullscreen),
        CommandTag::TogglePaneFrames => r == Ok::<PluginCommand, CodecError>(PluginCommand::TogglePaneFrames),
        CommandTag::TogglePaneEmbedOrEject => r == Ok::<PluginCommand, CodecError>(PluginCommand::TogglePaneEmbedOrEject),
        CommandTag::UndoRenamePane => r == Ok::<PluginCommand, CodecError>(PluginCommand::UndoRenamePane),
        CommandTag::CloseFocus => r == Ok::<PluginCommand, CodecError>(PluginCommand::CloseFocus),
        CommandTag::ToggleActiveTabSync => r == Ok::<PluginCommand, CodecError>(PluginCommand::ToggleActiveTabSync),
        CommandTag::CloseFocusedTab => r == Ok::<PluginCommand, CodecError>(PluginCommand::CloseFocusedTab),
        CommandTag::UndoRenameTab => r == Ok::<PluginCommand, CodecError>(PluginCommand::UndoRenameTab),
        CommandTag::QuitHost => r == Ok::<PluginCommand, CodecError>(PluginCommand::QuitHost),
        CommandTag::PreviousSwapLayout => r == Ok::<PluginCommand, CodecError>(PluginCommand::PreviousSwapLayout),
        CommandTag::NextSwapLayout => r == Ok::<PluginCommand, CodecError>(PluginCommand::NextSwapLayout),
        CommandTag::GoToTabName => r == Err::<PluginCommand, CodecError>(CodecError::MissingPayload(CommandTag::GoToTabName)),
        CommandTag::FocusOrCreateTab => r == Err::<PluginCommand, CodecError>(CodecError::MissingPayload(CommandTag::FocusOrCreateTab)),
        CommandTag::GoToTab => r == Err::<PluginCommand, CodecError>(CodecError::MissingPayload(CommandTag::GoToTab)),
        CommandTag::StartOrReloadPlugin => r == Err::<PluginCommand, CodecError>(CodecError::MissingPayload(CommandTag::StartOrReloadPlugin)),
        CommandTag::CloseTerminalPane => r == Err::<PluginCommand, CodecError>(CodecError::MissingPayload(CommandTag::CloseTerminalPane)),
        CommandTag::ClosePluginPane => r == Err::<PluginCommand, CodecError>(CodecError::MissingPayload(CommandTag::ClosePluginPane)),
        CommandTag::FocusTerminalPane => r == Err::<PluginCommand, CodecError>(CodecError::MissingPayload(CommandTag::FocusTerminalPane)),
        CommandTag::FocusPluginPane => r == Err::<PluginCommand, CodecError>(CodecError::MissingPayload(CommandTag::FocusPluginPane)),
        CommandTag::RenameTerminalPane => r == Err::<PluginCommand, CodecError>(CodecError::MissingPayload(CommandTag::RenameTerminalPane)),
        CommandTag::RenamePluginPane => r == Err::<PluginCommand, CodecError>(CodecError::MissingPayload(CommandTag::RenamePluginPane)),
        CommandTag::RenameTab => r == Err::<PluginCommand, CodecError>(CodecError::MissingPayload(CommandTag::RenameTab)),
        CommandTag::ReportCrash => r == Err::<PluginCommand, CodecError>(CodecError::MissingPayload(CommandTag::ReportCrash)),
        CommandTag::RequestPluginPermissions => r == Err::<PluginCommand, CodecError>(CodecError::MissingPayload(CommandTag::RequestPluginPermissions)),
        CommandTag::SwitchSession => r == Err::<PluginCommand, CodecError>(CodecError::MissingPayload(CommandTag::SwitchSession)),
    }
}

/// What decoding a payload that already matches its tag's arm yields:
/// nested optionals unwrapped, numeric fields narrowed, and nested
/// conversion failures propagated unchanged.
pub open spec fn payload_decodes_to(p: WirePayload, r: Result<PluginCommand, CodecError>) -> bool {
    match p {
        WirePayload::Subscribe(sp) => match sp.subscriptions {
            Some(el) => match events_from_codes(el.event_codes@) {
                Ok(s) => {
                    &&& r matches Ok(c)
                    &&& c matches PluginCommand::Subscribe(v)
                    &&& v@ == s
                },
                Err(e) => r == Err::<PluginCommand, CodecError>(CodecError::NestedConversionFailed(e)),
            },
            None => r == Err::<PluginCommand, CodecError>(CodecError::MalformedPayload(CommandTag::Subscribe)),
        },
        WirePayload::Unsubscribe(sp) => match sp.subscriptions {
            Some(el) => match events_from_codes(el.event_codes@) {
                Ok(s) => {
                    &&& r matches Ok(c)
                    &&& c matches PluginCommand::Unsubscribe(v)
                    &&& v@ == s
                },
                Err(e) => r == Err::<PluginCommand, CodecError>(CodecError::NestedConversionFailed(e)),
            },
            None => r == Err::<PluginCommand, CodecError>(CodecError::MalformedPayload(CommandTag::Unsubscribe)),
        },
        WirePayload::SetSelectable(b) => r == Ok::<PluginCommand, CodecError>(PluginCommand::SetSelectable(b)),
        WirePayload::OpenFile(fp) => match fp.file_to_open {
            Some(f) => r == Ok::<PluginCommand, CodecError>(PluginCommand::OpenFile(file_of_wire(f))),
            None => r == Err::<PluginCommand, CodecError>(CodecError::MalformedPayload(CommandTag::OpenFile)),
        },
        WirePayload::OpenFileFloating(fp) => match fp.file_to_open {
            Some(f) => r == Ok::<PluginCommand, CodecError>(PluginCommand::OpenFileFloating(file_of_wire(f))),
            None => r == Err::<PluginCommand, CodecError>(CodecError::MalformedPayload(CommandTag::OpenFileFloating)),
        },
        WirePayload::OpenTerminal(fp) => match fp.file_to_open {
            Some(f) => r == Ok::<PluginCommand, CodecError>(PluginCommand::OpenTerminal(file_of_wire(f))),
            None => r == Err::<PluginCommand, CodecError>(CodecError::MalformedPayload(CommandTag::OpenTerminal)),
        },
        WirePayload::OpenTerminalFloating(fp) => match fp.file_to_open {
            Some(f) => r == Ok::<PluginCommand, CodecError>(PluginCommand::OpenTerminalFloating(file_of_wire(f))),
            None => r == Err::<PluginCommand, CodecError>(CodecError::MalformedPayload(CommandTag::OpenTerminalFloating)),
        },
        WirePayload::OpenCommandPane(cp) => match cp.command_to_run {
            Some(c) => r == Ok::<PluginCommand, CodecError>(PluginCommand::OpenCommandPane(run_command_of_wire(c))),
            None => r == Err::<PluginCommand, CodecError>(CodecError::MalformedPayload(CommandTag::OpenCommandPane)),
        },
        WirePayload::OpenCommandPaneFloating(cp) => match cp.command_to_run {
            Some(c) => r == Ok::<PluginCommand, CodecError>(PluginCommand::OpenCommandPaneFloating(run_command_of_wire(c))),
            None => r == Err::<PluginCommand, CodecError>(CodecError::MalformedPayload(CommandTag::OpenCommandPaneFloating)),
        },
        WirePayload::SwitchTabTo(p) => r == Ok::<PluginCommand, CodecError>(PluginCommand::SwitchTabTo(as_unsigned_index(p.tab_index))),
        WirePayload::SetTimeout(p) => r == Ok::<PluginCommand, CodecError>(PluginCommand::SetTimeout(p.seconds)),
        WirePayload::ExecCmd(p) => r == Ok::<PluginCommand, CodecError>(PluginCommand::ExecCmd(p.command_line)),
        WirePayload::PostMessageTo(mp) => match mp.message {
            Some(m) => r == Ok::<PluginCommand, CodecError>(PluginCommand::PostMessageTo(message_of_wire(m))),
            None => r == Err::<PluginCommand, CodecError>(CodecError::MalformedPayload(CommandTag::PostMessageTo)),
        },
        WirePayload::PostMessageToPlugin(mp) => match mp.message {
            Some(m) => r == Ok::<PluginCommand, CodecError>(PluginCommand::PostMessageToPlugin(message_of_wire(m))),
            None => r == Err::<PluginCommand, CodecError>(CodecError::MalformedPayload(CommandTag::PostMessageToPlugin)),
        },
        WirePayload::ShowSelf(b) => r == Ok::<PluginCommand, CodecError>(PluginCommand::ShowSelf(b)),
        WirePayload::SwitchToMode(mp) => match mp.input_mode {
            Some(code) => match mode_of_code(code) {
                Some(m) => r == Ok::<PluginCommand, CodecError>(PluginCommand::SwitchToMode(m)),
                None => r == Err::<PluginCommand, CodecError>(CodecError::NestedConversionFailed(NestedError::UnknownModeCode)),
            },
            None => r == Err::<PluginCommand, CodecError>(CodecError::MalformedPayload(CommandTag::SwitchToMode)),
        },
        WirePayload::NewTabsWithLayout(s) => r == Ok::<PluginCommand, CodecError>(PluginCommand::NewTabsWithLayout(s)),
        WirePayload::Resize(rp) => match rp.resize {
            Some(code) => match resize_of_code(code) {
                Some(ra) => r == Ok::<PluginCommand, CodecError>(PluginCommand::Resize(ra)),
                None => r == Err::<PluginCommand, CodecError>(CodecError::NestedConversionFailed(NestedError::UnknownResizeCode)),
            },
            None => r == Err::<PluginCommand, CodecError>(CodecError::MalformedPayload(CommandTag::Resize)),
        },
        WirePayload::ResizeWithDirection(rp) => match rp.resize {
            Some(code) => match resize_of_code(code) {
                Some(ra) => r == Ok::<PluginCommand, CodecError>(PluginCommand::ResizeWithDirection(ra)),
                None => r == Err::<PluginCommand, CodecError>(CodecError::NestedConversionFailed(NestedError::UnknownResizeCode)),
            },
            None => r == Err::<PluginCommand, CodecError>(CodecError::MalformedPayload(CommandTag::ResizeWithDirection)),
        },
        WirePayload::MoveFocus(mp) => match mp.direction {
            Some(code) => match direction_of_code(code) {
                Some(dr) => r == Ok::<PluginCommand, CodecError>(PluginCommand::MoveFocus(dr)),
                None => r == Err::<PluginCommand, CodecError>(CodecError::NestedConversionFailed(NestedError::UnknownDirectionCode)),
            },
            None => r == Err::<PluginCommand, CodecError>(CodecError::MalformedPayload(CommandTag::MoveFocus)),
        },
        WirePayload::MoveFocusOrTab(mp) => match mp.direction {
            Some(code) => match direction_of_code(code) {
                Some(dr) => r == Ok::<PluginCommand, CodecError>(PluginCommand::MoveFocusOrTab(dr)),
                None => r == Err::<PluginCommand, CodecError>(CodecError::NestedConversionFailed(NestedError::UnknownDirectionCode)),
            },
            None => r == Err::<PluginCommand, CodecError>(CodecError::MalformedPayload(CommandTag::MoveFocusOrTab)),
        },
        WirePayload::Write(bs) => r == Ok::<PluginCommand, CodecError>(PluginCommand::Write(bs)),
        WirePayload::WriteChars(s) => r == Ok::<PluginCommand, CodecError>(PluginCommand::WriteChars(s)),
        WirePayload::MovePaneWithDirection(mp) => match mp.direction {
            Some(code) => match direction_of_code(code) {
                Some(dr) => r == Ok::<PluginCommand, CodecError>(PluginCommand::MovePaneWithDirection(dr)),
                None => r == Err::<PluginCommand, CodecError>(CodecError::NestedConversionFailed(NestedError::UnknownDirectionCode)),
            },
            None => r == Err::<PluginCommand, CodecError>(CodecError::MalformedPayload(CommandTag::MovePaneWithDirection)),
        },
        WirePayload::GoToTabName(s) => r == Ok::<PluginCommand, CodecError>(PluginCommand::GoToTabName(s)),
        WirePayload::FocusOrCreateTab(s) => r == Ok::<PluginCommand, CodecError>(PluginCommand::FocusOrCreateTab(s)),
        WirePayload::GoToTab(n) => r == Ok::<PluginCommand, CodecError>(PluginCommand::GoToTab(as_unsigned_index(n))),
        WirePayload::StartOrReloadPlugin(s) => r == Ok::<PluginCommand, CodecError>(PluginCommand::StartOrReloadPlugin(s)),
        WirePayload::CloseTerminalPane(n) => r == Ok::<PluginCommand, CodecError>(PluginCommand::CloseTerminalPane(as_unsigned_index(n))),
        WirePayload::ClosePluginPane(n) => r == Ok::<PluginCommand, CodecError>(PluginCommand::ClosePluginPane(as_unsigned_index(n))),
        WirePayload::FocusTerminalPane(pf) => r == Ok::<PluginCommand, CodecError>(PluginCommand::FocusTerminalPane(as_unsigned_index(pf.pane_id), pf.should_float)),
        WirePayload::FocusPluginPane(pf) => r == Ok::<PluginCommand, CodecError>(PluginCommand::FocusPluginPane(as_unsigned_index(pf.pane_id), pf.should_float)),
        WirePayload::RenameTerminalPane(rn) => r == Ok::<PluginCommand, CodecError>(PluginCommand::RenameTerminalPane(as_unsigned_index(rn.id), rn.new_name)),
        WirePayload::RenamePluginPane(rn) => r == Ok::<PluginCommand, CodecError>(PluginCommand::RenamePluginPane(as_unsigned_index(rn.id), rn.new_name)),
        WirePayload::RenameTab(rn) => r == Ok::<PluginCommand, CodecError>(PluginCommand::RenameTab(as_unsigned_index(rn.id), rn.new_name)),
        WirePayload::ReportCrash(s) => r == Ok::<PluginCommand, CodecError>(PluginCommand::ReportPanic(s)),
        WirePayload::RequestPluginPermissions(pp) => {
            &&& r matches Ok(c)
            &&& c matches PluginCommand::RequestPluginPermissions(v)
            &&& v@ == permissions_of_codes(pp.permissions@)
        },
        WirePayload::SwitchSession(sp) => match (sp.pane_id, sp.pane_id_is_plugin) {
            (Some(pid), Some(ip)) => r == Ok::<PluginCommand, CodecError>(PluginCommand::SwitchSession(ConnectToSession {
                name: sp.name,
                tab_position: (match sp.tab_position {
                    Some(t) => Some(t as usize),
                    None => None,
                }),
                pane_id: Some((pid, ip)),
            })),
            (None, None) => r == Ok::<PluginCommand, CodecError>(PluginCommand::SwitchSession(ConnectToSession {
                name: sp.name,
                tab_position: (match sp.tab_position {
                    Some(t) => Some(t as usize),
                    None => None,
                }),
                pane_id: None,
            })),
            _ => r == Err::<PluginCommand, CodecError>(CodecError::MalformedSessionSwitch),
        },
    }
}

/// What decoding an envelope yields.  The structure follows the
/// vocabulary table: an unknown tag is rejected outright; a known tag is
/// then held to exactly the payload shape the table assigns it, and only a
/// payload in the right arm reaches the per-payload rules.
pub open spec fn decodes_to(envelope: WireEnvelope, r: Result<PluginCommand, CodecError>) -> bool {
    match tag_of_code(envelope.tag) {
        None => r == Err::<PluginCommand, CodecError>(CodecError::UnrecognizedCommand),
        Some(t) => match envelope.payload {
            None => no_payload_decodes_to(t, r),
            Some(p) => match expected_arm(t) {
                None => r == Err::<PluginCommand, CodecError>(CodecError::UnexpectedPayload(t)),
                Some(a) => if arm_of(p) == a {
                    payload_decodes_to(p, r)
                } else {
                    r == Err::<PluginCommand, CodecError>(CodecError::MismatchedPayload(t))
                },
            },
        },
    }
}

/// Decodes an envelope whose payload slot is empty.
fn decode_bare(t: CommandTag) -> (r: Result<PluginCommand, CodecError>)
    ensures
        no_payload_decodes_to(t, r),
{
    match t {
        CommandTag::Subscribe => Err(CodecError::MissingPayload(CommandTag::Subscribe)),
        CommandTag::Unsubscribe => Err(CodecError::MissingPayload(CommandTag::Unsubscribe)),
        CommandTag::SetSelectable => Err(CodecError::MissingPayload(CommandTag::SetSelectable)),
        CommandTag::GetPluginIds => Ok(PluginCommand::GetPluginIds),
        CommandTag::GetHostVersion => Ok(PluginCommand::GetHostVersion),
        CommandTag::OpenFile => Err(CodecError::MissingPayload(CommandTag::OpenFile)),
        CommandTag::OpenFileFloating => Err(CodecError::MissingPayload(CommandTag::OpenFileFloating)),
        CommandTag::OpenTerminal => Err(CodecError::MissingPayload(CommandTag::OpenTerminal)),
        CommandTag::OpenTerminalFloating => Err(CodecError::MissingPayload(CommandTag::OpenTerminalFloating)),
        CommandTag::OpenCommandPane => Err(CodecError::MissingPayload(CommandTag::OpenCommandPane)),
        CommandTag::OpenCommandPaneFloating => Err(CodecError::MissingPayload(CommandTag::OpenCommandPaneFloating)),
        CommandTag::SwitchTabTo => Err(CodecError::MissingPayload(CommandTag::SwitchTabTo)),
        CommandTag::SetTimeout => Err(CodecError::MissingPayload(CommandTag::SetTimeout)),
        CommandTag::ExecCmd => Err(CodecError::MissingPayload(CommandTag::ExecCmd)),
        CommandTag::PostMessageTo => Err(CodecError::MissingPayload(CommandTag::PostMessageTo)),
        CommandTag::PostMessageToPlugin => Err(CodecError::MissingPayload(CommandTag::PostMessageToPlugin)),
        CommandTag::HideSelf => Ok(PluginCommand::HideSelf),
        CommandTag::ShowSelf => Err(CodecError::MissingPayload(CommandTag::ShowSelf)),
        CommandTag::SwitchToMode => Err(CodecError::MissingPayload(CommandTag::SwitchToMode)),
        CommandTag::NewTabsWithLayout => Err(CodecError::MissingPayload(CommandTag::NewTabsWithLayout)),
        CommandTag::NewTab => Ok(PluginCommand::NewTab),
        CommandTag::GoToNextTab => Ok(PluginCommand::GoToNextTab),
        CommandTag::GoToPreviousTab => Ok(PluginCommand::GoToPreviousTab),
        CommandTag::Resize => Err(CodecError::MissingPayload(CommandTag::Resize)),
        CommandTag::ResizeWithDirection => Err(CodecError::MissingPayload(CommandTag::ResizeWithDirection)),
        CommandTag::FocusNextPane => Ok(PluginCommand::FocusNextPane),
        CommandTag::FocusPreviousPane => Ok(PluginCommand::FocusPreviousPane),
        CommandTag::MoveFocus => Err(CodecError::MissingPayload(CommandTag::MoveFocus)),
        CommandTag::MoveFocusOrTab => Err(CodecError::MissingPayload(CommandTag::MoveFocusOrTab)),
        CommandTag::Detach => Ok(PluginCommand::Detach),
        CommandTag::EditScrollback => Ok(PluginCommand::EditScrollback),
        CommandTag::Write => Err(CodecError::MissingPayload(CommandTag::Write)),
        CommandTag::WriteChars => Err(CodecError::MissingPayload(CommandTag::WriteChars)),
        CommandTag::ToggleTab => Ok(PluginCommand::ToggleTab),
        CommandTag::MovePane => Ok(PluginCommand::MovePane),
        CommandTag::MovePaneWithDirection => Err(CodecError::MissingPayload(CommandTag::MovePaneWithDirection)),
        CommandTag::ClearScreen => Ok(PluginCommand::ClearScreen),
        CommandTag::ScrollUp => Ok(PluginCommand::ScrollUp),
        CommandTag::ScrollDown => Ok(PluginCommand::ScrollDown),
        CommandTag::ScrollToTop => Ok(PluginCommand::ScrollToTop),
        CommandTag::ScrollToBottom => Ok(PluginCommand::ScrollToBottom),
        CommandTag::PageScrollUp => Ok(PluginCommand::PageScrollUp),
        CommandTag::PageScrollDown => Ok(PluginCommand::PageScrollDown),
        CommandTag::ToggleFocusFullscreen => Ok(PluginCommand::ToggleFocusFullscreen),
        CommandTag::TogglePaneFrames => Ok(PluginCommand::TogglePaneFrames),
        CommandTag::TogglePaneEmbedOrEject => Ok(PluginCommand::TogglePaneEmbedOrEject),
        CommandTag::UndoRenamePane => Ok(PluginCommand::UndoRenamePane),
        CommandTag::CloseFocus => Ok(PluginCommand::CloseFocus),
        CommandTag::ToggleActiveTabSync => Ok(PluginCommand::ToggleActiveTabSync),
        CommandTag::CloseFocusedTab => Ok(PluginCommand::CloseFocusedTab),
        CommandTag::UndoRenameTab => Ok(PluginCommand::UndoRenameTab),
        CommandTag::QuitHost => Ok(PluginCommand::QuitHost),
        CommandTag::PreviousSwapLayout => Ok(PluginCommand::PreviousSwapLayout),
        CommandTag::NextSwapLayout => Ok(PluginCommand::NextSwapLayout),
        CommandTag::GoToTabName => Err(CodecError::MissingPayload(CommandTag::GoToTabName)),
        CommandTag::FocusOrCreateTab => Err(CodecError::MissingPayload(CommandTag::FocusOrCreateTab)),
        CommandTag::GoToTab => Err(CodecError::MissingPayload(CommandTag::GoToTab)),
        CommandTag::StartOrReloadPlugin => Err(CodecError::MissingPayload(CommandTag::StartOrReloadPlugin)),
        CommandTag::CloseTerminalPane => Err(CodecError::MissingPayload(CommandTag::CloseTerminalPane)),
        CommandTag::ClosePluginPane => Err(CodecError::MissingPayload(CommandTag::ClosePluginPane)),
        CommandTag::FocusTerminalPane => Err(CodecError::MissingPayload(CommandTag::FocusTerminalPane)),
        CommandTag::FocusPluginPane => Err(CodecError::MissingPayload(CommandTag::FocusPluginPane)),
        CommandTag::RenameTerminalPane => Err(CodecError::MissingPayload(CommandTag::RenameTerminalPane)),
        CommandTag::RenamePluginPane => Err(CodecError::MissingPayload(CommandTag::RenamePluginPane)),
        CommandTag::RenameTab => Err(CodecError::MissingPayload(CommandTag::RenameTab)),
        CommandTag::ReportCrash => Err(CodecError::MissingPayload(CommandTag::ReportCrash)),
        CommandTag::RequestPluginPermissions => Err(CodecError::MissingPayload(CommandTag::RequestPluginPermissions)),
        CommandTag::SwitchSession => Err(CodecError::MissingPayload(CommandTag::SwitchSession)),
    }
}

/// Decodes a payload known to be in the right arm for its tag.
fn decode_payload(p: WirePayload) -> (r: Result<PluginCommand, CodecError>)
    ensures
        payload_decodes_to(p, r),
{
    match p {
        WirePayload::Subscribe(sp) => match sp.subscriptions {
            Some(el) => match events_from_wire(&el) {
                Ok(evs) => Ok(PluginCommand::Subscribe(evs)),
                Err(e) => Err(CodecError::NestedConversionFailed(e)),
            },
            None => Err(CodecError::MalformedPayload(CommandTag::Subscribe)),
        },
        WirePayload::Unsubscribe(sp) => match sp.subscriptions {
            Some(el) => match events_from_wire(&el) {
                Ok(evs) => Ok(PluginCommand::Unsubscribe(evs)),
                Err(e) => Err(CodecError::NestedConversionFailed(e)),
            },
            None => Err(CodecError::MalformedPayload(CommandTag::Unsubscribe)),
        },
        WirePayload::SetSelectable(b) => Ok(PluginCommand::SetSelectable(b)),
        WirePayload::OpenFile(fp) => match fp.file_to_open {
            Some(f) => Ok(PluginCommand::OpenFile(file_from_wire(f))),
            None => Err(CodecError::MalformedPayload(CommandTag::OpenFile)),
        },
        WirePayload::OpenFileFloating(fp) => match fp.file_to_open {
            Some(f) => Ok(PluginCommand::OpenFileFloating(file_from_wire(f))),
            None => Err(CodecError::MalformedPayload(CommandTag::OpenFileFloating)),
        },
        WirePayload::OpenTerminal(fp) => match fp.file_to_open {
            Some(f) => Ok(PluginCommand::OpenTerminal(file_from_wire(f))),
            None => Err(CodecError::MalformedPayload(CommandTag::OpenTerminal)),
        },
        WirePayload::OpenTerminalFloating(fp) => match fp.file_to_open {
            Some(f) => Ok(PluginCommand::OpenTerminalFloating(file_from_wire(f))),
            None => Err(CodecError::MalformedPayload(CommandTag::OpenTerminalFloating)),
        },
        WirePayload::OpenCommandPane(cp) => match cp.command_to_run {
            Some(c) => Ok(PluginCommand::OpenCommandPane(run_command_from_wire(c))),
            None => Err(CodecError::MalformedPayload(CommandTag::OpenCommandPane)),
        },
        WirePayload::OpenCommandPaneFloating(cp) => match cp.command_to_run {
            Some(c) => Ok(PluginCommand::OpenCommandPaneFloating(run_command_from_wire(c))),
            None => Err(CodecError::MalformedPayload(CommandTag::OpenCommandPaneFloating)),
        },
        WirePayload::SwitchTabTo(p) => Ok(PluginCommand::SwitchTabTo(narrow_index(p.tab_index))),
        WirePayload::SetTimeout(p) => Ok(PluginCommand::SetTimeout(p.seconds)),
        WirePayload::ExecCmd(p) => Ok(PluginCommand::ExecCmd(p.command_line)),
        WirePayload::PostMessageTo(mp) => match mp.message {
            Some(m) => Ok(PluginCommand::PostMessageTo(message_from_wire(m))),
            None => Err(CodecError::MalformedPayload(CommandTag::PostMessageTo)),
        },
        WirePayload::PostMessageToPlugin(mp) => match mp.message {
            Some(m) => Ok(PluginCommand::PostMessageToPlugin(message_from_wire(m))),
            None => Err(CodecError::MalformedPayload(CommandTag::PostMessageToPlugin)),
        },
        WirePayload::ShowSelf(b) => Ok(PluginCommand::ShowSelf(b)),
        WirePayload::SwitchToMode(mp) => match mp.input_mode {
            Some(code) => match mode_from_code(code) {
                Ok(m) => Ok(PluginCommand::SwitchToMode(m)),
                Err(e) => Err(CodecError::NestedConversionFailed(e)),
            },
            None => Err(CodecError::MalformedPayload(CommandTag::SwitchToMode)),
        },
        WirePayload::NewTabsWithLayout(s) => Ok(PluginCommand::NewTabsWithLayout(s)),
        WirePayload::Resize(rp) => match rp.resize {
            Some(code) => match resize_from_code(code) {
                Ok(ra) => Ok(PluginCommand::Resize(ra)),
                Err(e) => Err(CodecError::NestedConversionFailed(e)),
            },
            None => Err(CodecError::MalformedPayload(CommandTag::Resize)),
        },
        WirePayload::ResizeWithDirection(rp) => match rp.resize {
            Some(code) => match resize_from_code(code) {
                Ok(ra) => Ok(PluginCommand::ResizeWithDirection(ra)),
                Err(e) => Err(CodecError::NestedConversionFailed(e)),
            },
            None => Err(CodecError::MalformedPayload(CommandTag::ResizeWithDirection)),
        },
        WirePayload::MoveFocus(mp) => match mp.direction {
            Some(code) => match direction_from_code(code) {
                Ok(dr) => Ok(PluginCommand::MoveFocus(dr)),
                Err(e) => Err(CodecError::NestedConversionFailed(e)),
            },
            None => Err(CodecError::MalformedPayload(CommandTag::MoveFocus)),
        },
        WirePayload::MoveFocusOrTab(mp) => match mp.direction {
            Some(code) => match direction_from_code(code) {
                Ok(dr) => Ok(PluginCommand::MoveFocusOrTab(dr)),
                Err(e) => Err(CodecError::NestedConversionFailed(e)),
            },
            None => Err(CodecError::MalformedPayload(CommandTag::MoveFocusOrTab)),
        },
        WirePayload::Write(bs) => Ok(PluginCommand::Write(bs)),
        WirePayload::WriteChars(s) => Ok(PluginCommand::WriteChars(s)),
        WirePayload::MovePaneWithDirection(mp) => match mp.direction {
            Some(code) => match direction_from_code(code) {
                Ok(dr) => Ok(PluginCommand::MovePaneWithDirection(dr)),
                Err(e) => Err(CodecError::NestedConversionFailed(e)),
            },
            None => Err(CodecError::MalformedPayload(CommandTag::MovePaneWithDirection)),
        },
        WirePayload::GoToTabName(s) => Ok(PluginCommand::GoToTabName(s)),
        WirePayload::FocusOrCreateTab(s) => Ok(PluginCommand::FocusOrCreateTab(s)),
        WirePayload::GoToTab(n) => Ok(PluginCommand::GoToTab(narrow_index(n))),
        WirePayload::StartOrReloadPlugin(s) => Ok(PluginCommand::StartOrReloadPlugin(s)),
        WirePayload::CloseTerminalPane(n) => Ok(PluginCommand::CloseTerminalPane(narrow_index(n))),
        WirePayload::ClosePluginPane(n) => Ok(PluginCommand::ClosePluginPane(narrow_index(n))),
        WirePayload::FocusTerminalPane(pf) => Ok(PluginCommand::FocusTerminalPane(narrow_index(pf.pane_id), pf.should_float)),
        WirePayload::FocusPluginPane(pf) => Ok(PluginCommand::FocusPluginPane(narrow_index(pf.pane_id), pf.should_float)),
        WirePayload::RenameTerminalPane(rn) => Ok(PluginCommand::RenameTerminalPane(narrow_index(rn.id), rn.new_name)),
        WirePayload::RenamePluginPane(rn) => Ok(PluginCommand::RenamePluginPane(narrow_index(rn.id), rn.new_name)),
        WirePayload::RenameTab(rn) => Ok(PluginCommand::RenameTab(narrow_index(rn.id), rn.new_name)),
        WirePayload::ReportCrash(s) => Ok(PluginCommand::ReportPanic(s)),
        WirePayload::RequestPluginPermissions(pp) => Ok(PluginCommand::RequestPluginPermissions(permissions_from_wire(&pp.permissions))),
        WirePayload::SwitchSession(sp) => match (sp.pane_id, sp.pane_id_is_plugin) {
            (Some(pid), Some(ip)) => Ok(PluginCommand::SwitchSession(ConnectToSession {
                name: sp.name,
                tab_position: (match sp.tab_position {
                    Some(t) => Some(t as usize),
                    None => None,
                }),
                pane_id: Some((pid, ip)),
            })),
            (None, None) => Ok(PluginCommand::SwitchSession(ConnectToSession {
                name: sp.name,
                tab_position: (match sp.tab_position {
                    Some(t) => Some(t as usize),
                    None => None,
                }),
                pane_id: None,
            })),
            _ => Err(CodecError::MalformedSessionSwitch),
        },
    }
}

/// Decodes a wire envelope into the domain command it carries, or the
/// exact failure `decodes_to` assigns to it: `UnrecognizedCommand` for a
/// tag outside the vocabulary, `UnexpectedPayload`, `MissingPayload` or
/// `MismatchedPayload` for a payload shape the vocabulary table forbids,
/// and the per-payload failures beyond that.
pub fn decode(envelope: WireEnvelope) -> (r: Result<PluginCommand, CodecError>)
    ensures
        decodes_to(envelope, r),
{
    let tag_lookup = tag_from_code(envelope.tag);
    match tag_lookup {
        None => Err(CodecError::UnrecognizedCommand),
        Some(t) => match envelope.payload {
            None => decode_bare(t),
            Some(p) => match expected_arm_of(t) {
                None => Err(CodecError::UnexpectedPayload(t)),
                Some(a) => {
                    if arm_kind(&p) == a {
                        decode_payload(p)
                    } else {
                        Err(CodecError::MismatchedPayload(t))
                    }
                },
            },
        },
    }
}

} // verus!
