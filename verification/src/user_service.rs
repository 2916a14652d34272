//! The service layer's business logic for user lookup.
//!
//! Fetching the item from the store and decoding it are I/O and stay with
//! the binary; what is decided about the result — missing user, a record
//! that would not decode, or a found user converted to its view model —
//! stands here.

use crate::errors::AppError;
use crate::errors::AppResult;
use crate::models::User;
use crate::view_models::view_model_of;
use crate::view_models::UserViewModel;
use vstd::prelude::*;

verus! {

/// Resolves a user lookup: `lookup` is what the repository and the item
/// decoder handed over — `None` when the store had no item for the id,
/// `Some(Err(message))` when the item would not decode into a [`User`],
/// and `Some(Ok(user))` otherwise.
///
/// Returns the user's view model exactly when a user was found and
/// decoded; a missing user is reported as not found, and a record that
/// would not decode carries the decoder's message.
pub fn get_current_user(lookup: Option<Result<User, String>>) -> (r: AppResult<UserViewModel>)
    ensures
        match lookup {
            Option::None => r matches Err(AppError::NotFound(msg)) && msg@ == "User not found"@,
            Option::Some(Err(decode_err)) => r matches Err(AppError::SerdeDynamoError(msg)) && msg
                == decode_err,
            Option::Some(Ok(user)) => r matches Ok(vm) && vm == view_model_of(user),
        },
{
    match lookup {
        Option::None => Err(AppError::NotFound(String::from_str("User not found"))),
        Option::Some(Err(decode_err)) => Err(AppError::SerdeDynamoError(decode_err)),
        Option::Some(Ok(user)) => Ok(
            UserViewModel {
                id: user.id,
                email: user.email,
                username: user.username,
                bio: user.bio,
                image: user.image,
            },
        ),
    }
}

} // verus!
