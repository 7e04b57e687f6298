use vstd::prelude::*;
use vstd::string::StringExecFns;
use crate::tags::tag_name;
use crate::tags::tag_text;
use crate::tags::CommandTag;

verus! {

/// A failure inside one of the nested sub-value conversions the codec
/// delegates to: event-name lists, input modes, movement directions and
/// resize actions.  The codec propagates these unchanged.
#[derive(Clone, Copy, Debug, PartialEq, Eq, Structural)]
pub enum NestedError {
    /// A wire event code outside the event vocabulary.
    UnknownEventCode,
    /// A domain event with no wire code, met while encoding.
    EventNotRepresentable,
    /// A domain permission with no wire code, met while encoding.
    PermissionNotRepresentable,
    /// A wire input-mode code outside the mode vocabulary.
    UnknownModeCode,
    /// A wire direction code outside the direction vocabulary.
    UnknownDirectionCode,
    /// A wire resize code outside the resize vocabulary.
    UnknownResizeCode,
}

/// A decoding or encoding failure.  Every failure is terminal for its one
/// message and names the offending tag where there is one; nothing here
/// retries or substitutes a default.
#[derive(Clone, Copy, Debug, PartialEq, Eq, Structural)]
pub enum CodecError {
    /// The envelope's numeric tag is not in the command vocabulary.
    UnrecognizedCommand,
    /// A payload was present for a tag defined to carry none.
    UnexpectedPayload(CommandTag),
    /// A payload was present but used the wrong one-of arm for its tag.
    MismatchedPayload(CommandTag),
    /// The payload was absent for a tag defined to require one.
    MissingPayload(CommandTag),
    /// The payload arm was right but a required nested field was absent.
    MalformedPayload(CommandTag),
    /// A delegated nested conversion failed; its reason is attached.
    NestedConversionFailed(NestedError),
    /// The session-switch pane identifier and is-plugin flag were supplied
    /// asymmetrically; they must come together or not at all.
    MalformedSessionSwitch,
}

impl CodecError {
    /// The diagnostic text of this failure, naming the offending tag
    /// where there is one.
    pub open spec fn message_text(self) -> Seq<char> {
        match self {
            CodecError::UnrecognizedCommand => "unrecognized plugin command"@,
            CodecError::UnexpectedPayload(t) => "payload present for a tag that carries none: "@
                + tag_text(t),
            CodecError::MismatchedPayload(t) => "payload present with the wrong arm for its tag: "@
                + tag_text(t),
            CodecError::MissingPayload(t) => "payload absent for a tag that requires one: "@
                + tag_text(t),
            CodecError::MalformedPayload(t) => "payload lacks a required nested field: "@
                + tag_text(t),
            CodecError::NestedConversionFailed(_) => "a nested conversion failed"@,
            CodecError::MalformedSessionSwitch => "session switch pane identifier and is-plugin flag must come together or not at all"@,
        }
    }

    /// A human-readable diagnostic for the caller's logs, identifying the
    /// offending tag and the nature of the mismatch.
    pub fn message(&self) -> (s: String)
        ensures
            s@ == self.message_text(),
    {
        match self {
            CodecError::UnrecognizedCommand => "unrecognized plugin command".to_owned(),
            CodecError::UnexpectedPayload(t) => "payload present for a tag that carries none: "
                .to_owned()
                .concat(tag_name(*t)),
            CodecError::MismatchedPayload(t) => "payload present with the wrong arm for its tag: "
                .to_owned()
                .concat(tag_name(*t)),
            CodecError::MissingPayload(t) => "payload absent for a tag that requires one: "
                .to_owned()
                .concat(tag_name(*t)),
            CodecError::MalformedPayload(t) => "payload lacks a required nested field: "
                .to_owned()
                .concat(tag_name(*t)),
            CodecError::NestedConversionFailed(_) => "a nested conversion failed".to_owned(),
            CodecError::MalformedSessionSwitch => "session switch pane identifier and is-plugin flag must come together or not at all".to_owned(),
        }
    }
}

} // verus!
