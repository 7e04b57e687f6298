use plugin_codec::actions::Direction;
use plugin_codec::actions::InputMode;
use plugin_codec::actions::ResizeAction;
use plugin_codec::commands::ConnectToSession;
use plugin_codec::commands::PluginCommand;
use plugin_codec::decode::decode;
use plugin_codec::descriptors::CommandToRun;
use plugin_codec::descriptors::FileToOpen;
use plugin_codec::descriptors::PluginMessage;
use plugin_codec::encode::encode;
use plugin_codec::error::CodecError;
use plugin_codec::error::NestedError;
use plugin_codec::events::EventType;
use plugin_codec::permissions::PermissionType;
use plugin_codec::wire::WireEnvelope;
use plugin_codec::wire::WirePayload;

fn roundtrip(c: PluginCommand) {
    let env = encode(c.clone()).expect("encoding should succeed");
    assert_eq!(decode(env), Ok(c));
}

#[test]
fn go_to_tab_concrete_scenario() {
    // encode GoToTab(3) -> envelope {tag = GoToTab, payload = GoToTabPayload(3)}
    let env = encode(PluginCommand::GoToTab(3)).unwrap();
    assert_eq!(
        env,
        WireEnvelope {
            tag: 56,
            payload: Some(WirePayload::GoToTab(3)),
        }
    );
    assert_eq!(decode(env), Ok(PluginCommand::GoToTab(3)));
}

#[test]
fn hide_self_concrete_scenario() {
    // encode HideSelf -> envelope {tag = HideSelf, payload = empty}
    let env = encode(PluginCommand::HideSelf).unwrap();
    assert_eq!(
        env,
        WireEnvelope {
            tag: 16,
            payload: None,
        }
    );
    assert_eq!(decode(env), Ok(PluginCommand::HideSelf));
}

#[test]
fn all_bare_commands_round_trip() {
    let bare = vec![
        PluginCommand::GetPluginIds,
        PluginCommand::GetHostVersion,
        PluginCommand::HideSelf,
        PluginCommand::NewTab,
        PluginCommand::GoToNextTab,
        PluginCommand::GoToPreviousTab,
        PluginCommand::FocusNextPane,
        PluginCommand::FocusPreviousPane,
        PluginCommand::Detach,
        PluginCommand::EditScrollback,
        PluginCommand::ToggleTab,
        PluginCommand::MovePane,
        PluginCommand::ClearScreen,
        PluginCommand::ScrollUp,
        PluginCommand::ScrollDown,
        PluginCommand::ScrollToTop,
        PluginCommand::ScrollToBottom,
        PluginCommand::PageScrollUp,
        PluginCommand::PageScrollDown,
        PluginCommand::ToggleFocusFullscreen,
        PluginCommand::TogglePaneFrames,
        PluginCommand::TogglePaneEmbedOrEject,
        PluginCommand::UndoRenamePane,
        PluginCommand::CloseFocus,
        PluginCommand::ToggleActiveTabSync,
        PluginCommand::CloseFocusedTab,
        PluginCommand::UndoRenameTab,
        PluginCommand::QuitHost,
        PluginCommand::PreviousSwapLayout,
        PluginCommand::NextSwapLayout,
    ];
    for c in bare {
        let env = encode(c.clone()).unwrap();
        assert_eq!(env.payload, None);
        assert_eq!(decode(env), Ok(c));
    }
}

#[test]
fn subscription_lists_round_trip() {
    roundtrip(PluginCommand::Subscribe(vec![]));
    roundtrip(PluginCommand::Subscribe(vec![
        EventType::ModeUpdate,
        EventType::Key,
        EventType::SessionUpdate,
    ]));
    roundtrip(PluginCommand::Unsubscribe(vec![
        EventType::TabUpdate,
        EventType::PaneUpdate,
        EventType::Mouse,
        EventType::Timer,
        EventType::Visible,
        EventType::CustomMessage,
        EventType::PermissionRequestResult,
    ]));
}

#[test]
fn scalar_payloads_round_trip() {
    roundtrip(PluginCommand::SetSelectable(true));
    roundtrip(PluginCommand::SetSelectable(false));
    roundtrip(PluginCommand::ShowSelf(true));
    roundtrip(PluginCommand::SwitchTabTo(7));
    roundtrip(PluginCommand::SetTimeout(30));
    roundtrip(PluginCommand::GoToTab(0));
    roundtrip(PluginCommand::CloseTerminalPane(9));
    roundtrip(PluginCommand::ClosePluginPane(2));
    roundtrip(PluginCommand::FocusTerminalPane(1, true));
    roundtrip(PluginCommand::FocusPluginPane(4, false));
}

#[test]
fn string_payloads_round_trip() {
    roundtrip(PluginCommand::NewTabsWithLayout("layout { pane }".to_string()));
    roundtrip(PluginCommand::WriteChars("hello".to_string()));
    roundtrip(PluginCommand::GoToTabName("editor".to_string()));
    roundtrip(PluginCommand::FocusOrCreateTab("logs".to_string()));
    roundtrip(PluginCommand::StartOrReloadPlugin("file:my-plugin.wasm".to_string()));
    roundtrip(PluginCommand::ReportPanic("it broke".to_string()));
    roundtrip(PluginCommand::ExecCmd(vec!["ls".to_string(), "-l".to_string()]));
    roundtrip(PluginCommand::Write(vec![0, 27, 91, 255]));
    roundtrip(PluginCommand::RenameTerminalPane(3, "build".to_string()));
    roundtrip(PluginCommand::RenamePluginPane(5, "status".to_string()));
    roundtrip(PluginCommand::RenameTab(1, "main".to_string()));
}

#[test]
fn nested_descriptors_round_trip() {
    roundtrip(PluginCommand::OpenFile(FileToOpen {
        path: "/tmp/notes.md".to_string(),
        line_number: Some(12),
        cwd: Some("/tmp".to_string()),
    }));
    roundtrip(PluginCommand::OpenFileFloating(FileToOpen {
        path: "README.md".to_string(),
        line_number: None,
        cwd: None,
    }));
    roundtrip(PluginCommand::OpenTerminal(FileToOpen {
        path: "/home".to_string(),
        line_number: None,
        cwd: None,
    }));
    roundtrip(PluginCommand::OpenTerminalFloating(FileToOpen {
        path: "/var".to_string(),
        line_number: Some(0),
        cwd: None,
    }));
    roundtrip(PluginCommand::OpenCommandPane(CommandToRun {
        path: "cargo".to_string(),
        args: vec!["build".to_string()],
        cwd: Some("/src".to_string()),
    }));
    roundtrip(PluginCommand::OpenCommandPaneFloating(CommandToRun {
        path: "make".to_string(),
        args: vec![],
        cwd: None,
    }));
    roundtrip(PluginCommand::PostMessageTo(PluginMessage {
        name: "ping".to_string(),
        payload: "{}".to_string(),
        worker_name: None,
    }));
    roundtrip(PluginCommand::PostMessageToPlugin(PluginMessage {
        name: "pong".to_string(),
        payload: "data".to_string(),
        worker_name: Some("worker".to_string()),
    }));
}

#[test]
fn modes_and_movements_round_trip() {
    roundtrip(PluginCommand::SwitchToMode(InputMode::Locked));
    roundtrip(PluginCommand::SwitchToMode(InputMode::Tmux));
    roundtrip(PluginCommand::Resize(ResizeAction::Increase));
    roundtrip(PluginCommand::ResizeWithDirection(ResizeAction::Decrease));
    roundtrip(PluginCommand::MoveFocus(Direction::Left));
    roundtrip(PluginCommand::MoveFocusOrTab(Direction::Right));
    roundtrip(PluginCommand::MovePaneWithDirection(Direction::Down));
}

#[test]
fn permission_list_round_trip() {
    roundtrip(PluginCommand::RequestPluginPermissions(vec![]));
    roundtrip(PluginCommand::RequestPluginPermissions(vec![
        PermissionType::ReadApplicationState,
        PermissionType::ChangeApplicationState,
        PermissionType::OpenFiles,
        PermissionType::RunCommands,
        PermissionType::OpenTerminalsOrPlugins,
        PermissionType::WriteToStdin,
    ]));
}

#[test]
fn session_switch_round_trip() {
    roundtrip(PluginCommand::SwitchSession(ConnectToSession {
        name: Some("work".to_string()),
        tab_position: Some(5),
        pane_id: Some((7, true)),
    }));
    roundtrip(PluginCommand::SwitchSession(ConnectToSession {
        name: None,
        tab_position: None,
        pane_id: None,
    }));
}

#[test]
fn narrowing_wraps_deliberately() {
    // Indices above i32::MAX wrap onto the signed wire field and back.
    let env = encode(PluginCommand::GoToTab(4294967295)).unwrap();
    assert_eq!(env.payload, Some(WirePayload::GoToTab(-1)));
    assert_eq!(decode(env), Ok(PluginCommand::GoToTab(4294967295)));
}

#[test]
fn unrepresentable_permission_fails_encoding() {
    // WebAccess has no wire code: encoding is strict and fails the whole
    // request rather than silently thinning it.  (Decoding stays lenient;
    // the asymmetry is deliberate.)
    let r = encode(PluginCommand::RequestPluginPermissions(vec![
        PermissionType::ReadApplicationState,
        PermissionType::WebAccess,
    ]));
    assert_eq!(
        r,
        Err(CodecError::NestedConversionFailed(NestedError::PermissionNotRepresentable))
    );
}
