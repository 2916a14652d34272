//! View models: the data returned to the client, converted from the
//! stored model.

use crate::models::User;
use vstd::prelude::*;

verus! {

/// User response view model.
#[derive(Clone, Debug, PartialEq, PartialOrd)]
pub struct UserViewModel {
    /// The unique identifier of the user.
    pub id: String,
    /// Email of the user.
    pub email: String,
    /// Username of the user.
    pub username: String,
    /// Bio of the user.
    pub bio: String,
    /// Image of the user.
    pub image: Option<String>,
}

/// The view model a stored user maps to: the same fields, minus the
/// store-internal timestamps.
pub open spec fn view_model_of(user: User) -> UserViewModel {
    UserViewModel {
        id: user.id,
        email: user.email,
        username: user.username,
        bio: user.bio,
        image: user.image,
    }
}

impl vstd::std_specs::convert::FromSpecImpl<User> for UserViewModel {
    open spec fn obeys_from_spec() -> bool {
        true
    }

    open spec fn from_spec(user: User) -> UserViewModel {
        view_model_of(user)
    }
}

/// Conversion from the model to the view model, so handlers can call
/// `user.into()` or `UserViewModel::from(user)`.
impl From<User> for UserViewModel {
    fn from(user: User) -> (r: UserViewModel) {
        UserViewModel {
            id: user.id,
            email: user.email,
            username: user.username,
            bio: user.bio,
            image: user.image,
        }
    }
}

} // verus!
