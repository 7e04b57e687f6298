use vstd::prelude::*;
use crate::commands::cmd_equiv;
use crate::commands::PluginCommand;
use crate::decode::decodes_to;
use crate::encode::encodes_to;
use crate::error::CodecError;
use crate::permissions::lemma_permission_list_round_trip;
use crate::permissions::permission_of_code;
use crate::permissions::PermissionType;
use crate::permissions::permissions_of_codes;
use crate::tags::tag_code;
use crate::tags::tag_of_code;
use crate::tags::CommandTag;
use crate::wire::arm_of;
use crate::wire::expected_arm;
use crate::wire::RequestPluginPermissionPayload;
use crate::wire::SwitchSessionPayload;
use crate::wire::WireEnvelope;
use crate::wire::WirePayload;

verus! {

broadcast use
    crate::actions::lemma_direction_code_round_trip,
    crate::actions::lemma_mode_code_round_trip,
    crate::actions::lemma_resize_code_round_trip,
    crate::descriptors::lemma_file_round_trip,
    crate::events::lemma_event_code_round_trip,
    crate::events::lemma_event_list_round_trip,
    crate::numeric::lemma_index_round_trip,
    crate::numeric::lemma_position_round_trip,
    crate::permissions::lemma_permission_code_round_trip,
    crate::tags::lemma_tag_code_round_trip;

/// Whether encoding a command loses nothing.  Nested conversions that
/// cannot represent a value - an event or permission with no wire code -
/// need no clause here, because for them encoding fails outright and
/// returns no envelope at all; the one silent narrowing left is a
/// session-switch tab position beyond the 32-bit wire field.
pub open spec fn encode_is_lossless(c: PluginCommand) -> bool {
    match c {
        PluginCommand::SwitchSession(cs) => (cs.tab_position matches Some(t) ==> t <= u32::MAX),
        _ => true,
    }
}

/// Round trip: any envelope that encoding a lossless command produces
/// decodes back to that same command.
#[verifier::spinoff_prover]
#[verifier::rlimit(100)]
pub proof fn lemma_round_trip(
    c: PluginCommand,
    env: WireEnvelope,
    r: Result<PluginCommand, CodecError>,
)
    requires
        encode_is_lossless(c),
        encodes_to(c, Ok(env)),
        decodes_to(env, r),
    ensures
        r matches Ok(back) && cmd_equiv(back, c),
{
    // The case split lets each variant's encoding and decoding unfold; the
    // broadcast inverse lemmas above then close most cases on their own.
    match c {
        PluginCommand::Subscribe(_) => {},
        PluginCommand::Unsubscribe(_) => {},
        PluginCommand::SetSelectable(_) => {},
        PluginCommand::GetPluginIds => {},
        PluginCommand::GetHostVersion => {},
        PluginCommand::OpenFile(_) => {},
        PluginCommand::OpenFileFloating(_) => {},
        PluginCommand::OpenTerminal(_) => {},
        PluginCommand::OpenTerminalFloating(_) => {},
        PluginCommand::OpenCommandPane(_) => {},
        PluginCommand::OpenCommandPaneFloating(_) => {},
        PluginCommand::SwitchTabTo(_) => {},
        PluginCommand::SetTimeout(_) => {},
        PluginCommand::ExecCmd(_) => {},
        PluginCommand::PostMessageTo(_) => {},
        PluginCommand::PostMessageToPlugin(_) => {},
        PluginCommand::HideSelf => {},
        PluginCommand::ShowSelf(_) => {},
        PluginCommand::SwitchToMode(_) => {},
        PluginCommand::NewTabsWithLayout(_) => {},
        PluginCommand::NewTab => {},
        PluginCommand::GoToNextTab => {},
        PluginCommand::GoToPreviousTab => {},
        PluginCommand::Resize(_) => {},
        PluginCommand::ResizeWithDirection(_) => {},
        PluginCommand::FocusNextPane => {},
        PluginCommand::FocusPreviousPane => {},
        PluginCommand::MoveFocus(_) => {},
        PluginCommand::MoveFocusOrTab(_) => {},
        PluginCommand::Detach => {},
        PluginCommand::EditScrollback => {},
        PluginCommand::Write(_) => {},
        PluginCommand::WriteChars(_) => {},
        PluginCommand::ToggleTab => {},
        PluginCommand::MovePane => {},
        PluginCommand::MovePaneWithDirection(_) => {},
        PluginCommand::ClearScreen => {},
        PluginCommand::ScrollUp => {},
        PluginCommand::ScrollDown => {},
        PluginCommand::ScrollToTop => {},
        PluginCommand::ScrollToBottom => {},
        PluginCommand::PageScrollUp => {},
        PluginCommand::PageScrollDown => {},
        PluginCommand::ToggleFocusFullscreen => {},
        PluginCommand::TogglePaneFrames => {},
        PluginCommand::TogglePaneEmbedOrEject => {},
        PluginCommand::UndoRenamePane => {},
        PluginCommand::CloseFocus => {},
        PluginCommand::ToggleActiveTabSync => {},
        PluginCommand::CloseFocusedTab => {},
        PluginCommand::UndoRenameTab => {},
        PluginCommand::QuitHost => {},
        PluginCommand::PreviousSwapLayout => {},
        PluginCommand::NextSwapLayout => {},
        PluginCommand::GoToTabName(_) => {},
        PluginCommand::FocusOrCreateTab(_) => {},
        PluginCommand::GoToTab(_) => {},
        PluginCommand::StartOrReloadPlugin(_) => {},
        PluginCommand::CloseTerminalPane(_) => {},
        PluginCommand::ClosePluginPane(_) => {},
        PluginCommand::FocusTerminalPane(..) => {},
        PluginCommand::FocusPluginPane(..) => {},
        PluginCommand::RenameTerminalPane(..) => {},
        PluginCommand::RenamePluginPane(..) => {},
        PluginCommand::RenameTab(..) => {},
        PluginCommand::ReportPanic(_) => {},
        PluginCommand::RequestPluginPermissions(ps) => {
            lemma_permission_list_round_trip(ps@);
        },
        PluginCommand::SwitchSession(cs) => {
            match cs.pane_id {
                Some(pid) => {
                    assert((pid.0, pid.1) == pid);
                },
                None => {},
            }
        },
    }
}

/// Tag/payload exclusivity: a tag defined to carry no payload rejects
/// every envelope that supplies one, whatever the payload, with
/// `UnexpectedPayload`.
pub proof fn lemma_payloadless_tag_rejects_payload(
    t: CommandTag,
    p: WirePayload,
    r: Result<PluginCommand, CodecError>,
)
    requires
        expected_arm(t) is None,
        decodes_to((WireEnvelope { tag: tag_code(t), payload: Some(p) }), r),
    ensures
        r == Err::<PluginCommand, CodecError>(CodecError::UnexpectedPayload(t)),
{
}

/// Arm mismatch detection: a tag that requires a payload rejects every
/// payload in any other arm with `MismatchedPayload` - a distinct
/// condition from an absent payload.
pub proof fn lemma_wrong_arm_rejected(
    t: CommandTag,
    p: WirePayload,
    r: Result<PluginCommand, CodecError>,
)
    requires
        expected_arm(t) is Some,
        arm_of(p) != expected_arm(t).unwrap(),
        decodes_to((WireEnvelope { tag: tag_code(t), payload: Some(p) }), r),
    ensures
        r == Err::<PluginCommand, CodecError>(CodecError::MismatchedPayload(t)),
{
}

/// A tag that requires a payload rejects an empty payload slot with
/// `MissingPayload`.
pub proof fn lemma_missing_payload_rejected(t: CommandTag, r: Result<PluginCommand, CodecError>)
    requires
        expected_arm(t) is Some,
        decodes_to((WireEnvelope { tag: tag_code(t), payload: None }), r),
    ensures
        r == Err::<PluginCommand, CodecError>(CodecError::MissingPayload(t)),
{
}

/// Unknown tag: any numeric tag outside the vocabulary fails with
/// `UnrecognizedCommand`, with or without a payload.
pub proof fn lemma_unknown_tag_rejected(
    code: i32,
    payload: Option<WirePayload>,
    r: Result<PluginCommand, CodecError>,
)
    requires
        tag_of_code(code) is None,
        decodes_to((WireEnvelope { tag: code, payload }), r),
    ensures
        r == Err::<PluginCommand, CodecError>(CodecError::UnrecognizedCommand),
{
}

/// Joint optionality: a session-switch payload whose pane identifier and
/// is-plugin flag are supplied asymmetrically fails with
/// `MalformedSessionSwitch`; supplied together or not at all, decoding
/// succeeds.
pub proof fn lemma_session_switch_joint_optionality(
    sp: SwitchSessionPayload,
    r: Result<PluginCommand, CodecError>,
)
    requires
        decodes_to(
            (WireEnvelope {
                tag: tag_code(CommandTag::SwitchSession),
                payload: Some(WirePayload::SwitchSession(sp)),
            }),
            r,
        ),
    ensures
        ((sp.pane_id is Some) != (sp.pane_id_is_plugin is Some)) ==> r
            == Err::<PluginCommand, CodecError>(CodecError::MalformedSessionSwitch),
        ((sp.pane_id is Some) == (sp.pane_id_is_plugin is Some)) ==> r is Ok,
{
}

/// Lenient permission filtering: a permission-list payload always decodes
/// successfully, to exactly the permissions of its recognized codes, in
/// order; unrecognized codes are dropped without failing the message.
pub proof fn lemma_permission_filtering_lenient(
    pp: RequestPluginPermissionPayload,
    r: Result<PluginCommand, CodecError>,
)
    requires
        decodes_to(
            (WireEnvelope {
                tag: tag_code(CommandTag::RequestPluginPermissions),
                payload: Some(WirePayload::RequestPluginPermissions(pp)),
            }),
            r,
        ),
    ensures
        ({
            &&& r matches Ok(c)
            &&& c matches PluginCommand::RequestPluginPermissions(v)
            &&& v@ == permissions_of_codes(pp.permissions@)
        }),
{
}

/// The two-code instance of lenient filtering: one recognized code
/// followed by one unrecognized code yields exactly the one recognized
/// permission.
pub proof fn lemma_mixed_permission_pair(a: i32, u: i32)
    requires
        permission_of_code(a) is Some,
        permission_of_code(u) is None,
    ensures
        permissions_of_codes(seq![a, u]) == seq![permission_of_code(a).unwrap()],
{
    let s = seq![a, u];
    let s1 = seq![a];
    assert(s.last() == u);
    assert(s.drop_last() =~= s1);
    assert(s1.last() == a);
    assert(s1.drop_last() =~= Seq::<i32>::empty());
    assert(permissions_of_codes(Seq::<i32>::empty()) =~= Seq::<PermissionType>::empty());
    assert(permissions_of_codes(s1) =~= Seq::<PermissionType>::empty().push(
        permission_of_code(a).unwrap(),
    ));
    assert(permissions_of_codes(s) =~= permissions_of_codes(s1));
    assert(permissions_of_codes(s) =~= seq![permission_of_code(a).unwrap()]);
}

/// The encoder always emits the session-switch pane identifier and its
/// is-plugin flag as a matched present/absent couple, preserving the
/// joint-optionality invariant by construction.
#[verifier::spinoff_prover]
#[verifier::rlimit(100)]
pub proof fn lemma_encode_session_pane_pair_matched(c: PluginCommand, env: WireEnvelope)
    requires
        encodes_to(c, Ok(env)),
    ensures
        env.payload matches Some(WirePayload::SwitchSession(sp)) ==> ((sp.pane_id is Some) == (
        sp.pane_id_is_plugin is Some)),
{
}

/// The encoder cannot itself produce a shape mismatch: every envelope it
/// emits carries a tag in the vocabulary, and exactly the payload shape -
/// none, or the tag's own arm - that the vocabulary table assigns to it.
#[verifier::spinoff_prover]
#[verifier::rlimit(100)]
pub proof fn lemma_encode_well_formed(c: PluginCommand, env: WireEnvelope)
    requires
        encodes_to(c, Ok(env)),
    ensures
        tag_of_code(env.tag) is Some,
        (match env.payload {
            Some(p) => expected_arm(tag_of_code(env.tag).unwrap()) == Some(arm_of(p)),
            None => expected_arm(tag_of_code(env.tag).unwrap()) is None,
        }),
{
}

} // verus!
