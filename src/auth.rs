//! What an authentication token carries.
use vstd::prelude::*;
use crate::value::ObjectId;

verus! {

/// Information about an authenticated caller.
pub trait AuthInfo {
    /// The identity of the authenticated user.
    spec fn spec_user_id(&self) -> Seq<u8>;

    fn user_id(&self) -> (r: &ObjectId)
        ensures
            r@ == self.spec_user_id(),
    ;
}

/// The claims encoded in a token: when it expires (seconds since the Unix
/// epoch), and whose it is.
#[derive(Debug, Clone)]
pub struct JWTAuthClaim {
    pub expiration: u32,
    pub user_id: ObjectId,
    pub username: String,
}

impl JWTAuthClaim {
    pub fn new(expiration: u32, user_id: ObjectId, username: String) -> (r: JWTAuthClaim)
        ensures
            r.expiration == expiration,
            r.user_id@ == user_id@,
            r.username@ == username@,
    {
        JWTAuthClaim { expiration, user_id, username }
    }
}

impl AuthInfo for JWTAuthClaim {
    open spec fn spec_user_id(&self) -> Seq<u8> {
        self.user_id@
    }

    fn user_id(&self) -> (r: &ObjectId) {
        &self.user_id
    }
}

} // verus!
