use plugin_codec::commands::PluginCommand;
use plugin_codec::decode::decode;
use plugin_codec::encode::encode;
use plugin_codec::error::CodecError;
use plugin_codec::error::NestedError;
use plugin_codec::events::EventType;
use plugin_codec::events::WireEventList;
use plugin_codec::permissions::PermissionType;
use plugin_codec::tags::CommandTag;
use plugin_codec::wire::MovePayload;
use plugin_codec::wire::OpenFilePayload;
use plugin_codec::wire::RequestPluginPermissionPayload;
use plugin_codec::wire::ResizePayload;
use plugin_codec::wire::SubscribePayload;
use plugin_codec::wire::SwitchSessionPayload;
use plugin_codec::wire::SwitchToModePayload;
use plugin_codec::wire::WireEnvelope;
use plugin_codec::wire::WirePayload;

fn session_envelope(pane_id: Option<u32>, pane_id_is_plugin: Option<bool>) -> WireEnvelope {
    WireEnvelope {
        tag: 67,
        payload: Some(WirePayload::SwitchSession(SwitchSessionPayload {
            name: Some("work".to_string()),
            tab_position: Some(2),
            pane_id,
            pane_id_is_plugin,
        })),
    }
}

#[test]
fn unknown_tag_rejected() {
    let env = WireEnvelope {
        tag: 9999,
        payload: None,
    };
    assert_eq!(decode(env), Err(CodecError::UnrecognizedCommand));
    let env = WireEnvelope {
        tag: -1,
        payload: Some(WirePayload::GoToTab(3)),
    };
    assert_eq!(decode(env), Err(CodecError::UnrecognizedCommand));
}

#[test]
fn payloadless_tag_rejects_any_payload() {
    // HideSelf (tag 16) carries no payload: any non-empty arm must fail.
    let env = WireEnvelope {
        tag: 16,
        payload: Some(WirePayload::Write(vec![1, 2])),
    };
    assert_eq!(
        decode(env),
        Err(CodecError::UnexpectedPayload(CommandTag::HideSelf))
    );
    let env = WireEnvelope {
        tag: 20,
        payload: Some(WirePayload::GoToTabName("x".to_string())),
    };
    assert_eq!(
        decode(env),
        Err(CodecError::UnexpectedPayload(CommandTag::NewTab))
    );
}

#[test]
fn wrong_arm_rejected_as_mismatched() {
    // Subscribe (tag 0) expects the subscribe arm; a write payload is a
    // protocol bug, reported as a mismatch, not as a missing optional.
    let env = WireEnvelope {
        tag: 0,
        payload: Some(WirePayload::Write(vec![9])),
    };
    assert_eq!(
        decode(env),
        Err(CodecError::MismatchedPayload(CommandTag::Subscribe))
    );
    // GoToTab (tag 56) with GoToTabName's arm.
    let env = WireEnvelope {
        tag: 56,
        payload: Some(WirePayload::GoToTabName("three".to_string())),
    };
    assert_eq!(
        decode(env),
        Err(CodecError::MismatchedPayload(CommandTag::GoToTab))
    );
}

#[test]
fn required_payload_missing_rejected() {
    let env = WireEnvelope {
        tag: 0,
        payload: None,
    };
    assert_eq!(
        decode(env),
        Err(CodecError::MissingPayload(CommandTag::Subscribe))
    );
}

#[test]
fn empty_nested_field_rejected_as_malformed() {
    let env = WireEnvelope {
        tag: 5,
        payload: Some(WirePayload::OpenFile(OpenFilePayload { file_to_open: None })),
    };
    assert_eq!(
        decode(env),
        Err(CodecError::MalformedPayload(CommandTag::OpenFile))
    );
    let env = WireEnvelope {
        tag: 18,
        payload: Some(WirePayload::SwitchToMode(SwitchToModePayload { input_mode: None })),
    };
    assert_eq!(
        decode(env),
        Err(CodecError::MalformedPayload(CommandTag::SwitchToMode))
    );
    let env = WireEnvelope {
        tag: 0,
        payload: Some(WirePayload::Subscribe(SubscribePayload { subscriptions: None })),
    };
    assert_eq!(
        decode(env),
        Err(CodecError::MalformedPayload(CommandTag::Subscribe))
    );
}

#[test]
fn nested_conversion_failures_propagate() {
    // An unknown event code fails the whole subscription list, strictly.
    let env = WireEnvelope {
        tag: 0,
        payload: Some(WirePayload::Subscribe(SubscribePayload {
            subscriptions: Some(WireEventList {
                event_codes: vec![0, 999],
            }),
        })),
    };
    assert_eq!(
        decode(env),
        Err(CodecError::NestedConversionFailed(NestedError::UnknownEventCode))
    );
    let env = WireEnvelope {
        tag: 18,
        payload: Some(WirePayload::SwitchToMode(SwitchToModePayload {
            input_mode: Some(99),
        })),
    };
    assert_eq!(
        decode(env),
        Err(CodecError::NestedConversionFailed(NestedError::UnknownModeCode))
    );
    let env = WireEnvelope {
        tag: 27,
        payload: Some(WirePayload::MoveFocus(MovePayload { direction: Some(47) })),
    };
    assert_eq!(
        decode(env),
        Err(CodecError::NestedConversionFailed(NestedError::UnknownDirectionCode))
    );
    let env = WireEnvelope {
        tag: 23,
        payload: Some(WirePayload::Resize(ResizePayload { resize: Some(5) })),
    };
    assert_eq!(
        decode(env),
        Err(CodecError::NestedConversionFailed(NestedError::UnknownResizeCode))
    );
}

#[test]
fn unrepresentable_event_fails_encoding() {
    let r = encode(PluginCommand::Subscribe(vec![
        EventType::ModeUpdate,
        EventType::RunCommandResult,
    ]));
    assert_eq!(
        r,
        Err(CodecError::NestedConversionFailed(NestedError::EventNotRepresentable))
    );
}

#[test]
fn session_switch_pane_pair_must_come_together() {
    // Asymmetric pairs are malformed; matched pairs decode.
    assert_eq!(
        decode(session_envelope(Some(7), None)),
        Err(CodecError::MalformedSessionSwitch)
    );
    assert_eq!(
        decode(session_envelope(None, Some(true))),
        Err(CodecError::MalformedSessionSwitch)
    );
    assert!(decode(session_envelope(Some(7), Some(false))).is_ok());
    assert!(decode(session_envelope(None, None)).is_ok());
}

#[test]
fn unrecognized_permission_codes_dropped_leniently() {
    // One recognized code and one unknown code: the unknown one is dropped,
    // the message still decodes - unlike the strict event list above.
    let env = WireEnvelope {
        tag: 66,
        payload: Some(WirePayload::RequestPluginPermissions(
            RequestPluginPermissionPayload {
                permissions: vec![3, 999],
            },
        )),
    };
    assert_eq!(
        decode(env),
        Ok(PluginCommand::RequestPluginPermissions(vec![
            PermissionType::RunCommands,
        ]))
    );
}

#[test]
fn error_messages_describe_the_failure() {
    let err = decode(WireEnvelope {
        tag: 12345,
        payload: None,
    })
    .unwrap_err();
    assert_eq!(err.message(), "unrecognized plugin command");
    let err = decode(WireEnvelope {
        tag: 16,
        payload: Some(WirePayload::ShowSelf(true)),
    })
    .unwrap_err();
    assert_eq!(err.message(), "payload present for a tag that carries none: HideSelf");
    let err = decode(WireEnvelope {
        tag: 56,
        payload: Some(WirePayload::GoToTabName("three".to_string())),
    })
    .unwrap_err();
    assert_eq!(err.message(), "payload present with the wrong arm for its tag: GoToTab");
}
