use vstd::prelude::*;
use crate::error::NestedError;

verus! {

/// An event a plugin can subscribe to.  The list of subscriptions crosses
/// the wire as a list of raw event codes; the conversion in each direction
/// is owned here, outside the codec proper.
#[derive(Clone, Copy, Debug, PartialEq, Eq, Structural)]
pub enum EventType {
    ModeUpdate,
    TabUpdate,
    PaneUpdate,
    Key,
    Mouse,
    Timer,
    Visible,
    CustomMessage,
    PermissionRequestResult,
    SessionUpdate,
    /// Delivered only in process: it has no wire code, so a subscription
    /// list naming it cannot be encoded.
    RunCommandResult,
}

/// The wire container for a subscription list: raw event codes.
#[derive(Clone, Debug, PartialEq, Eq)]
pub struct WireEventList {
    pub event_codes: Vec<i32>,
}

/// The event a wire code stands for, if any.
pub open spec fn event_of_code(code: i32) -> Option<EventType> {
    if code == 0 {
        Some(EventType::ModeUpdate)
    } else if code == 1 {
        Some(EventType::TabUpdate)
    } else if code == 2 {
        Some(EventType::PaneUpdate)
    } else if code == 3 {
        Some(EventType::Key)
    } else if code == 4 {
        Some(EventType::Mouse)
    } else if code == 5 {
        Some(EventType::Timer)
    } else if code == 6 {
        Some(EventType::Visible)
    } else if code == 7 {
        Some(EventType::CustomMessage)
    } else if code == 8 {
        Some(EventType::PermissionRequestResult)
    } else if code == 9 {
        Some(EventType::SessionUpdate)
    } else {
        None
    }
}

/// The wire code of an event, if it has one.
pub open spec fn event_code(e: EventType) -> Option<i32> {
    match e {
        EventType::ModeUpdate => Some(0),
        EventType::TabUpdate => Some(1),
        EventType::PaneUpdate => Some(2),
        EventType::Key => Some(3),
        EventType::Mouse => Some(4),
        EventType::Timer => Some(5),
        EventType::Visible => Some(6),
        EventType::CustomMessage => Some(7),
        EventType::PermissionRequestResult => Some(8),
        EventType::SessionUpdate => Some(9),
        EventType::RunCommandResult => None,
    }
}

/// An event that has a wire code is the event its code stands for.
pub broadcast proof fn lemma_event_code_round_trip(e: EventType)
    ensures
        (#[trigger] event_code(e)) matches Some(c) ==> event_of_code(c) == Some(e),
{
}

/// Decodes one wire event code.
pub fn event_from_code(code: i32) -> (r: Result<EventType, NestedError>)
    ensures
        r == (match event_of_code(code) {
            Some(e) => Ok::<EventType, NestedError>(e),
            None => Err::<EventType, NestedError>(NestedError::UnknownEventCode),
        }),
{
    if code == 0 {
        Ok(EventType::ModeUpdate)
    } else if code == 1 {
        Ok(EventType::TabUpdate)
    } else if code == 2 {
        Ok(EventType::PaneUpdate)
    } else if code == 3 {
        Ok(EventType::Key)
    } else if code == 4 {
        Ok(EventType::Mouse)
    } else if code == 5 {
        Ok(EventType::Timer)
    } else if code == 6 {
        Ok(EventType::Visible)
    } else if code == 7 {
        Ok(EventType::CustomMessage)
    } else if code == 8 {
        Ok(EventType::PermissionRequestResult)
    } else if code == 9 {
        Ok(EventType::SessionUpdate)
    } else {
        Err(NestedError::UnknownEventCode)
    }
}

/// Encodes one event, failing on an event with no wire code.
pub fn event_to_code(e: &EventType) -> (r: Result<i32, NestedError>)
    ensures
        r == (match event_code(*e) {
            Some(c) => Ok::<i32, NestedError>(c),
            None => Err::<i32, NestedError>(NestedError::EventNotRepresentable),
        }),
{
    match e {
        EventType::ModeUpdate => Ok(0),
        EventType::TabUpdate => Ok(1),
        EventType::PaneUpdate => Ok(2),
        EventType::Key => Ok(3),
        EventType::Mouse => Ok(4),
        EventType::Timer => Ok(5),
        EventType::Visible => Ok(6),
        EventType::CustomMessage => Ok(7),
        EventType::PermissionRequestResult => Ok(8),
        EventType::SessionUpdate => Ok(9),
        EventType::RunCommandResult => Err(NestedError::EventNotRepresentable),
    }
}

/// Whether every code in a wire list is in the event vocabulary.
pub open spec fn all_events_decodable(s: Seq<i32>) -> bool {
    forall|i: int| 0 <= i < s.len() ==> (#[trigger] event_of_code(s[i])) is Some
}

/// What decoding a wire list of event codes yields: the events the codes
/// stand for, in order, or a failure on the first unknown code.  The list
/// conversion is strict, unlike the lenient permission filtering.
pub open spec fn events_from_codes(s: Seq<i32>) -> Result<Seq<EventType>, NestedError> {
    if all_events_decodable(s) {
        Ok(Seq::new(s.len(), |i: int| event_of_code(s[i]).unwrap()))
    } else {
        Err(NestedError::UnknownEventCode)
    }
}

/// Whether every event in a list has a wire code.
pub open spec fn all_events_encodable(s: Seq<EventType>) -> bool {
    forall|i: int| 0 <= i < s.len() ==> (#[trigger] event_code(s[i])) is Some
}

/// What encoding a list of events yields: their codes, in order, or a
/// failure if any event has no wire code.
pub open spec fn events_to_codes(s: Seq<EventType>) -> Result<Seq<i32>, NestedError> {
    if all_events_encodable(s) {
        Ok(Seq::new(s.len(), |i: int| event_code(s[i]).unwrap()))
    } else {
        Err(NestedError::EventNotRepresentable)
    }
}

/// Decodes a wire subscription list, strictly: any unknown code fails the
/// whole list.
pub fn events_from_wire(el: &WireEventList) -> (r: Result<Vec<EventType>, NestedError>)
    ensures
        (match events_from_codes(el.event_codes@) {
            Ok(s) => r matches Ok(v) && v@ == s,
            Err(e) => r == Err::<Vec<EventType>, NestedError>(e),
        }),
{
    let mut out: Vec<EventType> = Vec::new();
    let mut i: usize = 0;
    while i < el.event_codes.len()
        invariant
            i <= el.event_codes@.len(),
            out@.len() == i as int,
            forall|j: int| 0 <= j < i ==> (#[trigger] event_of_code(el.event_codes@[j])) is Some,
            forall|j: int| 0 <= j < i ==> #[trigger] out@[j] == event_of_code(el.event_codes@[j]).unwrap(),
        decreases el.event_codes@.len() - i,
    {
        match event_from_code(el.event_codes[i]) {
            Ok(e) => {
                out.push(e);
            },
            Err(err) => {
                proof {
                    assert(!all_events_decodable(el.event_codes@));
                }
                return Err(err);
            },
        }
        i += 1;
    }
    proof {
        assert(out@ =~= Seq::new(
            el.event_codes@.len(),
            |i: int| event_of_code(el.event_codes@[i]).unwrap(),
        ));
    }
    Ok(out)
}

/// Encodes a subscription list, strictly: any event with no wire code
/// fails the whole list.
pub fn events_to_wire(evs: &Vec<EventType>) -> (r: Result<WireEventList, NestedError>)
    ensures
        (match events_to_codes(evs@) {
            Ok(s) => r matches Ok(el) && el.event_codes@ == s,
            Err(e) => r == Err::<WireEventList, NestedError>(e),
        }),
{
    let mut out: Vec<i32> = Vec::new();
    let mut i: usize = 0;
    while i < evs.len()
        invariant
            i <= evs@.len(),
            out@.len() == i as int,
            forall|j: int| 0 <= j < i ==> (#[trigger] event_code(evs@[j])) is Some,
            forall|j: int| 0 <= j < i ==> #[trigger] out@[j] == event_code(evs@[j]).unwrap(),
        decreases evs@.len() - i,
    {
        match event_to_code(&evs[i]) {
            Ok(c) => {
                out.push(c);
            },
            Err(err) => {
                proof {
                    assert(!all_events_encodable(evs@));
                }
                return Err(err);
            },
        }
        i += 1;
    }
    proof {
        assert(out@ =~= Seq::new(evs@.len(), |i: int| event_code(evs@[i]).unwrap()));
    }
    Ok(WireEventList { event_codes: out })
}

/// A subscription list whose events all have wire codes decodes from its
/// own encoding back to itself.
pub broadcast proof fn lemma_event_list_round_trip(s: Seq<EventType>)
    ensures
        (#[trigger] events_to_codes(s)) matches Ok(codes) ==> events_from_codes(codes) == Ok::<
            Seq<EventType>,
            NestedError,
        >(s),
{
    if events_to_codes(s) is Ok {
        let codes = events_to_codes(s)->Ok_0;
        assert forall|i: int| 0 <= i < codes.len() implies (#[trigger] event_of_code(
            codes[i],
        )) is Some by {
            lemma_event_code_round_trip(s[i]);
        }
        assert(events_from_codes(codes) is Ok);
        let back = events_from_codes(codes)->Ok_0;
        assert forall|i: int| 0 <= i < s.len() implies #[trigger] back[i] == s[i] by {
            lemma_event_code_round_trip(s[i]);
        }
        assert(back =~= s);
    }
}

} // verus!
