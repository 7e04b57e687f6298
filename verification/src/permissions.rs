use vstd::prelude::*;
use crate::error::NestedError;

verus! {

/// A permission a plugin can request from its host.  A received wire list
/// is filtered leniently - codes this side does not know are dropped,
/// never an error, so that a newer peer stays wire-compatible - while
/// encoding is strict: a permission with no wire code fails the whole
/// list rather than silently thinning the request.
#[derive(Clone, Copy, Debug, PartialEq, Eq, Structural)]
pub enum PermissionType {
    ReadApplicationState,
    ChangeApplicationState,
    OpenFiles,
    RunCommands,
    OpenTerminalsOrPlugins,
    WriteToStdin,
    /// Granted only in process: it has no wire code, so a permission list
    /// naming it cannot be encoded.
    WebAccess,
}

/// The permission a wire code stands for, if any.
pub open spec fn permission_of_code(code: i32) -> Option<PermissionType> {
    if code == 0 {
        Some(PermissionType::ReadApplicationState)
    } else if code == 1 {
        Some(PermissionType::ChangeApplicationState)
    } else if code == 2 {
        Some(PermissionType::OpenFiles)
    } else if code == 3 {
        Some(PermissionType::RunCommands)
    } else if code == 4 {
        Some(PermissionType::OpenTerminalsOrPlugins)
    } else if code == 5 {
        Some(PermissionType::WriteToStdin)
    } else {
        None
    }
}

/// The wire code of a permission, if it has one.
pub open spec fn permission_code(p: PermissionType) -> Option<i32> {
    match p {
        PermissionType::ReadApplicationState => Some(0),
        PermissionType::ChangeApplicationState => Some(1),
        PermissionType::OpenFiles => Some(2),
        PermissionType::RunCommands => Some(3),
        PermissionType::OpenTerminalsOrPlugins => Some(4),
        PermissionType::WriteToStdin => Some(5),
        PermissionType::WebAccess => None,
    }
}

/// A permission that has a wire code is the permission its code stands for.
pub broadcast proof fn lemma_permission_code_round_trip(p: PermissionType)
    ensures
        (#[trigger] permission_code(p)) matches Some(c) ==> permission_of_code(c) == Some(p),
{
}

/// Decodes one wire permission code.
pub fn permission_from_code(code: i32) -> (r: Option<PermissionType>)
    ensures
        r == permission_of_code(code),
{
    if code == 0 {
        Some(PermissionType::ReadApplicationState)
    } else if code == 1 {
        Some(PermissionType::ChangeApplicationState)
    } else if code == 2 {
        Some(PermissionType::OpenFiles)
    } else if code == 3 {
        Some(PermissionType::RunCommands)
    } else if code == 4 {
        Some(PermissionType::OpenTerminalsOrPlugins)
    } else if code == 5 {
        Some(PermissionType::WriteToStdin)
    } else {
        None
    }
}

/// Encodes one permission, yielding nothing for one with no wire code.
pub fn permission_to_code(p: &PermissionType) -> (r: Option<i32>)
    ensures
        r == permission_code(*p),
{
    match p {
        PermissionType::ReadApplicationState => Some(0),
        PermissionType::ChangeApplicationState => Some(1),
        PermissionType::OpenFiles => Some(2),
        PermissionType::RunCommands => Some(3),
        PermissionType::OpenTerminalsOrPlugins => Some(4),
        PermissionType::WriteToStdin => Some(5),
        PermissionType::WebAccess => None,
    }
}

/// What leniently decoding a list of wire permission codes yields: the
/// permissions of the recognized codes, in order; unrecognized codes are
/// silently dropped.
pub open spec fn permissions_of_codes(s: Seq<i32>) -> Seq<PermissionType>
    decreases s.len(),
{
    if s.len() == 0 {
        Seq::empty()
    } else {
        let rest = permissions_of_codes(s.drop_last());
        match permission_of_code(s.last()) {
            Some(p) => rest.push(p),
            None => rest,
        }
    }
}

/// Whether every permission in a list has a wire code.
pub open spec fn all_permissions_encodable(s: Seq<PermissionType>) -> bool {
    forall|i: int| 0 <= i < s.len() ==> (#[trigger] permission_code(s[i])) is Some
}

/// What encoding a list of permissions yields: their codes, in order, or
/// a failure if any permission has no wire code.  Unlike decoding, this
/// direction never drops a value: a request the wire cannot carry in full
/// is an error, not a silently thinner request.
pub open spec fn permission_codes_of(s: Seq<PermissionType>) -> Result<Seq<i32>, NestedError> {
    if all_permissions_encodable(s) {
        Ok(Seq::new(s.len(), |i: int| permission_code(s[i]).unwrap()))
    } else {
        Err(NestedError::PermissionNotRepresentable)
    }
}

/// Decodes a wire permission list leniently, dropping unrecognized codes.
pub fn permissions_from_wire(codes: &Vec<i32>) -> (r: Vec<PermissionType>)
    ensures
        r@ == permissions_of_codes(codes@),
{
    let mut out: Vec<PermissionType> = Vec::new();
    let mut i: usize = 0;
    while i < codes.len()
        invariant
            i <= codes@.len(),
            out@ == permissions_of_codes(codes@.take(i as int)),
        decreases codes@.len() - i,
    {
        proof {
            assert(codes@.take(i + 1).drop_last() =~= codes@.take(i as int));
            assert(codes@.take(i + 1).last() == codes@[i as int]);
        }
        match permission_from_code(codes[i]) {
            Some(p) => {
                out.push(p);
            },
            None => {},
        }
        i += 1;
    }
    proof {
        assert(codes@.take(codes@.len() as int) =~= codes@);
    }
    out
}

/// Encodes a permission list, strictly: any permission with no wire code
/// fails the whole list.
pub fn permissions_to_wire(ps: &Vec<PermissionType>) -> (r: Result<Vec<i32>, NestedError>)
    ensures
        (match permission_codes_of(ps@) {
            Ok(s) => r matches Ok(v) && v@ == s,
            Err(e) => r == Err::<Vec<i32>, NestedError>(e),
        }),
{
    let mut out: Vec<i32> = Vec::new();
    let mut i: usize = 0;
    while i < ps.len()
        invariant
            i <= ps@.len(),
            out@.len() == i as int,
            forall|j: int| 0 <= j < i ==> (#[trigger] permission_code(ps@[j])) is Some,
            forall|j: int| 0 <= j < i ==> #[trigger] out@[j] == permission_code(ps@[j]).unwrap(),
        decreases ps@.len() - i,
    {
        match permission_to_code(&ps[i]) {
            Some(c) => {
                out.push(c);
            },
            None => {
                proof {
                    assert(!all_permissions_encodable(ps@));
                }
                return Err(NestedError::PermissionNotRepresentable);
            },
        }
        i += 1;
    }
    proof {
        assert(out@ =~= Seq::new(ps@.len(), |i: int| permission_code(ps@[i]).unwrap()));
    }
    Ok(out)
}

/// A permission list whose permissions all have wire codes decodes from
/// its own encoding back to itself - even though decoding is lenient, the
/// strict encoding emits only codes it recognizes.
pub proof fn lemma_permission_list_round_trip(s: Seq<PermissionType>)
    ensures
        permission_codes_of(s) matches Ok(codes) ==> permissions_of_codes(codes) == s,
    decreases s.len(),
{
    if permission_codes_of(s) is Ok {
        let codes = permission_codes_of(s)->Ok_0;
        if s.len() == 0 {
            assert(codes =~= Seq::<i32>::empty());
            assert(permissions_of_codes(codes) =~= s);
        } else {
            let head = s.drop_last();
            assert(forall|i: int| 0 <= i < head.len() ==> head[i] == s[i]);
            lemma_permission_list_round_trip(head);
            assert(permission_codes_of(head) is Ok);
            let head_codes = permission_codes_of(head)->Ok_0;
            assert(codes.drop_last() =~= head_codes);
            let last = s.last();
            lemma_permission_code_round_trip(last);
            assert(codes.last() == permission_code(last).unwrap());
            assert(permission_of_code(codes.last()) == Some(last));
            assert(permissions_of_codes(codes) == permissions_of_codes(codes.drop_last()).push(
                last,
            ));
            assert(permissions_of_codes(codes.drop_last()) == head);
            assert(head.push(last) =~= s);
        }
    }
}

} // verus!
