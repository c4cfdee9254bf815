//! Decisions of the admin area.

use crate::secret::SecretString;
use vstd::prelude::*;

verus! {

/// What a password change request leads to.
#[derive(Debug, Clone, Copy, PartialEq, Eq, Structural)]
pub enum PasswordChange {
    /// No one is logged in: back to the login page.
    RedirectToLogin,
    /// The new password and its repetition differ: back to the form, with an
    /// error message.
    NewPasswordsDiffer,
    /// The request may go on to check the current password.
    Proceed,
}

/// Checks a password change request: the session must hold a user, and the
/// two copies of the new password must be equal.
pub fn change_password(
    logged_in: bool,
    new_password: &SecretString,
    new_password_check: &SecretString,
) -> (r: PasswordChange)
    ensures
        r == (if !logged_in {
            PasswordChange::RedirectToLogin
        } else if new_password@ != new_password_check@ {
            PasswordChange::NewPasswordsDiffer
        } else {
            PasswordChange::Proceed
        }),
{
    if !logged_in {
        PasswordChange::RedirectToLogin
    } else if *new_password.expose_secret() != *new_password_check.expose_secret() {
        PasswordChange::NewPasswordsDiffer
    } else {
        PasswordChange::Proceed
    }
}

} // verus!
