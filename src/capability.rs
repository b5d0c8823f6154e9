use vstd::prelude::*;

verus! {

/// Key transparency lookups on an unauthenticated connection.
pub trait UnauthenticatedKeyTransparencyApi {}

/// Sending messages on an unauthenticated connection.
pub trait UnauthenticatedMessagesApi {}

/// Fetching profiles on an unauthenticated connection.
pub trait UnauthenticatedProfilesApi {}

/// Looking up usernames on an unauthenticated connection.
pub trait UnauthenticatedUsernamesApi {}

/// Everything that can be done on an unauthenticated connection, as one bound.
///
/// Every type that has each of the capabilities above has this one; it cannot be
/// implemented on its own. A new capability is added to the list of supertraits.
pub trait UnauthenticatedChatApi:
    UnauthenticatedKeyTransparencyApi +
    UnauthenticatedMessagesApi +
    UnauthenticatedProfilesApi +
    UnauthenticatedUsernamesApi {

}

impl<T> UnauthenticatedChatApi for T where
    T: UnauthenticatedKeyTransparencyApi + UnauthenticatedMessagesApi + UnauthenticatedProfilesApi
        + UnauthenticatedUsernamesApi,
 {

}

} // verus!
