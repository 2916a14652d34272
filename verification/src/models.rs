//! Models: the structure of the data kept in the store.  Encoding to and
//! from the store's item format stays with the binary; here the model is
//! plain data.

use vstd::prelude::*;

verus! {

/// A user record as stored.
#[derive(Clone, Debug)]
pub struct User {
    pub id: String,
    pub email: String,
    pub username: String,
    pub bio: String,
    pub image: Option<String>,
    pub created_at: String,
    pub updated_at: String,
}

impl User {
    pub fn new(
        id: String,
        email: String,
        username: String,
        bio: String,
        image: Option<String>,
        created_at: String,
        updated_at: String,
    ) -> (r: User)
        ensures
            r.id == id,
            r.email == email,
            r.username == username,
            r.bio == bio,
            r.image == image,
    {
        User { id, email, username, bio, image, created_at, updated_at }
    }
}

} // verus!
