use vstd::prelude::*;

verus! {

/// A group-send endorsement token, held in its serialized form. Only the group credential
/// layer reads its contents; here it is carried through to the request.
#[derive(Clone, Debug, PartialEq, Eq)]
pub struct GroupSendFullToken {
    pub serialized: Vec<u8>,
}

/// Authorization for a request on an unauthenticated connection that involves another user.
///
/// Messages to many recipients carry an authorization of their own instead.
#[derive(Clone, Debug, PartialEq, Eq)]
pub enum UserBasedAuthorization {
    AccessKey([u8; 16]),
    Group(GroupSendFullToken),
}

} // verus!
