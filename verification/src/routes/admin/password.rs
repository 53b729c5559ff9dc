//! Changing the logged-in writer's password.
use vstd::prelude::*;

use crate::authentication::{
    argon2_check, argon2_hash, argon2_phc, hashed_with_new_salt, random_salt, validate_password, PasswordCheckKind,
    ValidatePasswordError,
};
use crate::pages::FlashLevel;
use crate::text::{decimal, same_text, usize_to_decimal};
use crate::unicode::{extended_grapheme_count, grapheme_count};

verus! {

/// The password change form as submitted.
pub struct FormData {
    pub old_password: String,
    pub new_password: String,
    pub confirm_new_password: String,
}

/// A new password is accepted when it has more than twelve and fewer than 129
/// extended grapheme clusters.
pub open spec fn new_password_length_accepted(len: nat) -> bool {
    12 < len < 129
}

/// Why a password change was refused or failed.
#[derive(Debug)]
pub enum PasswordResetFailure {
    /// The new password has this many grapheme clusters, outside the accepted range.
    Length(usize),
    /// The current password is wrong.
    IncorrectPassword,
    /// The confirmation differs from the new password.
    ConfirmationMismatch,
    /// The current password could not be checked.
    Validation(ValidatePasswordError),
    /// The new password could not be hashed.
    Hashing(argon2::password_hash::Error),
}

/// The refusal that the checks give, in their order: the length of the new password, the
/// current password against `salted_password`, the confirmation. `None` when none of them
/// refuses, also when the current password could not be checked.
pub open spec fn password_reset_refusal(form: FormData, salted_password: Seq<char>) -> Option<PasswordResetFailure> {
    let len = extended_grapheme_count(form.new_password@);
    if !new_password_length_accepted(len) {
        Some(PasswordResetFailure::Length(len as usize))
    } else {
        match argon2_check(form.old_password@, salted_password) {
            PasswordCheckKind::Mismatch => Some(PasswordResetFailure::IncorrectPassword),
            PasswordCheckKind::Match => if form.new_password@ != form.confirm_new_password@ {
                Some(PasswordResetFailure::ConfirmationMismatch)
            } else {
                None
            },
            _ => None,
        }
    }
}

/// The new password has an accepted length, but the check of the current password failed
/// without a verdict.
pub open spec fn password_check_failed(form: FormData, salted_password: Seq<char>) -> bool {
    new_password_length_accepted(extended_grapheme_count(form.new_password@))
        && argon2_check(form.old_password@, salted_password) != PasswordCheckKind::Match
        && argon2_check(form.old_password@, salted_password) != PasswordCheckKind::Mismatch
}

/// `r` is what changing the password with `form`, against the current hash
/// `salted_password`, gives: the refusal of the first failed check, an error when the
/// current password could not be checked, otherwise (up to Argon2's limit) a new hash
/// with a fresh salt that accepts the new password.
pub open spec fn reset_password_result(form: FormData, salted_password: Seq<char>, r: Result<String, PasswordResetFailure>) -> bool {
    match password_reset_refusal(form, salted_password) {
        Some(PasswordResetFailure::Length(n)) => r matches Err(PasswordResetFailure::Length(m)) && m == n,
        Some(PasswordResetFailure::IncorrectPassword) => r matches Err(PasswordResetFailure::IncorrectPassword),
        Some(PasswordResetFailure::ConfirmationMismatch) => r matches Err(PasswordResetFailure::ConfirmationMismatch),
        _ => if password_check_failed(form, salted_password) {
            r matches Err(PasswordResetFailure::Validation(e)) && e.kind() == argon2_check(
                form.old_password@,
                salted_password,
            )
        } else {
            &&& vstd::utf8::encode_utf8(form.new_password@).len() <= 0xFFFF_FFFF ==> r is Ok
            &&& r matches Ok(phc) ==> argon2_check(form.new_password@, phc@) == PasswordCheckKind::Match
            &&& r matches Ok(phc) ==> hashed_with_new_salt(form.new_password@, phc@)
            &&& r is Err ==> r matches Err(PasswordResetFailure::Hashing(_))
        },
    }
}

/// A password is changed only when every check passed: the new password has 13 to 128
/// graphemes, the current password matches the current hash, and the confirmation is the
/// new password, character for character.
pub proof fn lemma_changed_only_after_every_check(form: FormData, salted_password: Seq<char>, r: Result<String, PasswordResetFailure>)
    requires
        reset_password_result(form, salted_password, r),
        r is Ok,
    ensures
        12 < extended_grapheme_count(form.new_password@) < 129,
        argon2_check(form.old_password@, salted_password) == PasswordCheckKind::Match,
        form.new_password@ == form.confirm_new_password@,
{
}

/// Once the length is accepted and the current password matches, the change is refused
/// for its confirmation exactly when the confirmation differs from the new password in
/// any way (a prefix, an empty one, another text).
pub proof fn lemma_confirmation_mismatch_is_refused(form: FormData, salted_password: Seq<char>, r: Result<String, PasswordResetFailure>)
    requires
        reset_password_result(form, salted_password, r),
        12 < extended_grapheme_count(form.new_password@) < 129,
        argon2_check(form.old_password@, salted_password) == PasswordCheckKind::Match,
    ensures
        r matches Err(PasswordResetFailure::ConfirmationMismatch) <==> form.new_password@ != form.confirm_new_password@,
{
}

/// The new hash for `form`'s new password, once the checks of `password_reset_refusal`
/// pass; the returned hash accepts the new password. Hashing uses a fresh random salt.
pub fn reset_password(form: &FormData, salted_password: &str) -> (r: Result<String, PasswordResetFailure>)
    ensures
        reset_password_result(*form, salted_password@, r),
{
    let len = grapheme_count(form.new_password.as_str());
    if len <= 12 || len >= 129 {
        return Err(PasswordResetFailure::Length(len));
    }
    match validate_password(form.old_password.as_str(), salted_password) {
        Err(e) => return Err(PasswordResetFailure::Validation(e)),
        Ok(false) => return Err(PasswordResetFailure::IncorrectPassword),
        Ok(true) => {},
    }
    if !same_text(form.new_password.as_str(), form.confirm_new_password.as_str()) {
        return Err(PasswordResetFailure::ConfirmationMismatch);
    }
    let salt = random_salt();
    match argon2_hash(form.new_password.as_str(), salt.as_str()) {
        Ok(phc) => {
            assert(hashed_with_new_salt(form.new_password@, phc@)) by {
                assert(phc@ == argon2_phc(form.new_password@, salt@));
            }
            Ok(phc)
        },
        Err(e) => Err(PasswordResetFailure::Hashing(e)),
    }
}

impl PasswordResetFailure {
    /// The message flashed for a refusal; the failures that are errors have none.
    pub fn flash_message(&self) -> (r: Option<String>)
        ensures
            match self {
                PasswordResetFailure::Length(n) => r matches Some(m) && m@
                    == "Password length must be between 12 and 129 characters in graphemes, but was "@ + decimal(
                    *n as nat,
                ) + "."@,
                PasswordResetFailure::IncorrectPassword => r matches Some(m) && m@ == "Incorrect password."@,
                PasswordResetFailure::ConfirmationMismatch => r matches Some(m) && m@
                    == "New password does not match Confirm New password."@,
                _ => r is None,
            },
    {
        match self {
            PasswordResetFailure::Length(n) => {
                let mut m = "Password length must be between 12 and 129 characters in graphemes, but was ".to_owned();
                let count = usize_to_decimal(*n);
                m.append(count.as_str());
                m.append(".");
                Some(m)
            },
            PasswordResetFailure::IncorrectPassword => Some("Incorrect password.".to_owned()),
            PasswordResetFailure::ConfirmationMismatch => Some("New password does not match Confirm New password.".to_owned()),
            _ => None,
        }
    }
}

/// How a password change is answered.
#[derive(Debug)]
pub enum PasswordResetAnswer {
    /// Back to the password change form, with `message` flashed at `level`.
    Redirect { level: FlashLevel, message: String },
    /// "404 Not Found" with the body "User not found": the logged-in user has no
    /// credentials.
    UserNotFound,
    /// "500 Internal Server Error", caused by this failure.
    InternalError(PasswordResetInternalError),
}

/// A failure that ends a password change with "500 Internal Server Error".
#[derive(Debug)]
pub enum PasswordResetInternalError {
    Lookup(eyre::Report),
    Check(PasswordResetFailure),
    Update(eyre::Report),
}

/// Where a password change stands. Each state but `Finished` names the outside work to do
/// next; `step` takes what it gave.
pub enum PasswordReset {
    /// Load the salted password of the logged-in user, to check `form` against.
    LookingUp { form: FormData },
    /// Store `hash` as the user's new salted password.
    Updating { hash: String },
    /// The change is over.
    Finished { answer: PasswordResetAnswer },
}

/// What the outside work that a `PasswordReset` state names gave.
pub enum PasswordResetEvent {
    /// The user's salted password, `None` when the user has no credentials.
    CredentialsLoaded(Result<Option<String>, eyre::Report>),
    PasswordUpdated(Result<(), eyre::Report>),
}

/// `event` answers the work that `state` names.
pub open spec fn password_reset_answers(state: PasswordReset, event: PasswordResetEvent) -> bool {
    match state {
        PasswordReset::LookingUp { .. } => event is CredentialsLoaded,
        PasswordReset::Updating { .. } => event is PasswordUpdated,
        PasswordReset::Finished { .. } => false,
    }
}

/// `r` is the state after the current hash `salted` of the writer was loaded for `form`:
/// the refusal of the first failed check flashed as an error, an internal error when the
/// current password could not be checked or the new one not hashed, otherwise the update
/// to a new hash with a fresh salt that accepts the new password.
pub open spec fn reset_after_lookup(form: FormData, salted: Seq<char>, r: PasswordReset) -> bool {
    match password_reset_refusal(form, salted) {
        Some(PasswordResetFailure::Length(n)) => r matches PasswordReset::Finished {
            answer: PasswordResetAnswer::Redirect { level: FlashLevel::Error, message },
        } && message@ == "Password length must be between 12 and 129 characters in graphemes, but was "@
            + decimal(n as nat) + "."@,
        Some(PasswordResetFailure::IncorrectPassword) => r matches PasswordReset::Finished {
            answer: PasswordResetAnswer::Redirect { level: FlashLevel::Error, message },
        } && message@ == "Incorrect password."@,
        Some(PasswordResetFailure::ConfirmationMismatch) => r matches PasswordReset::Finished {
            answer: PasswordResetAnswer::Redirect { level: FlashLevel::Error, message },
        } && message@ == "New password does not match Confirm New password."@,
        _ => if password_check_failed(form, salted) {
            r matches PasswordReset::Finished {
                answer: PasswordResetAnswer::InternalError(PasswordResetInternalError::Check(PasswordResetFailure::Validation(_))),
            }
        } else {
            &&& vstd::utf8::encode_utf8(form.new_password@).len() <= 0xFFFF_FFFF ==> r is Updating
            &&& r matches PasswordReset::Updating { hash } ==> argon2_check(form.new_password@, hash@)
                == PasswordCheckKind::Match && hashed_with_new_salt(form.new_password@, hash@)
            &&& (r is Updating || r matches PasswordReset::Finished {
                answer: PasswordResetAnswer::InternalError(PasswordResetInternalError::Check(PasswordResetFailure::Hashing(_))),
            })
        },
    }
}

/// The stored hash is replaced only when every check passed: the new password has 13 to
/// 128 graphemes, the current password matches, and the confirmation is the new password.
/// Once the first two pass, a confirmation that differs in any way is flashed back as
/// "New password does not match Confirm New password.".
pub proof fn lemma_update_only_after_every_check(form: FormData, salted: Seq<char>, r: PasswordReset)
    requires
        reset_after_lookup(form, salted, r),
    ensures
        r is Updating ==> {
            &&& 12 < extended_grapheme_count(form.new_password@) < 129
            &&& argon2_check(form.old_password@, salted) == PasswordCheckKind::Match
            &&& form.new_password@ == form.confirm_new_password@
        },
        12 < extended_grapheme_count(form.new_password@) < 129 && argon2_check(form.old_password@, salted)
            == PasswordCheckKind::Match && form.new_password@ != form.confirm_new_password@ ==> (r matches PasswordReset::Finished {
            answer: PasswordResetAnswer::Redirect { level: FlashLevel::Error, message },
        } && message@ == "New password does not match Confirm New password."@),
{
}

impl PasswordReset {
    /// The state after `event` answered the work that `self` names. A refused change goes
    /// back to the form with the refusal flashed as an error; an accepted one stores the
    /// new hash, which accepts the new password, and flashes its success.
    pub fn step(self, event: PasswordResetEvent) -> (r: PasswordReset)
        requires
            password_reset_answers(self, event),
        ensures
            r matches PasswordReset::Finished { answer: PasswordResetAnswer::Redirect { level: FlashLevel::Info, .. } } ==> self is Updating,
            match (self, event) {
                (PasswordReset::LookingUp { .. }, PasswordResetEvent::CredentialsLoaded(Err(e))) =>
                    r matches PasswordReset::Finished { answer: PasswordResetAnswer::InternalError(PasswordResetInternalError::Lookup(e2)) } && e2 == e,
                (PasswordReset::LookingUp { .. }, PasswordResetEvent::CredentialsLoaded(Ok(None))) =>
                    r matches PasswordReset::Finished { answer: PasswordResetAnswer::UserNotFound },
                (PasswordReset::LookingUp { form }, PasswordResetEvent::CredentialsLoaded(Ok(Some(salted)))) =>
                    reset_after_lookup(form, salted@, r),
                (PasswordReset::Updating { .. }, PasswordResetEvent::PasswordUpdated(Ok(()))) =>
                    r matches PasswordReset::Finished { answer: PasswordResetAnswer::Redirect { level: FlashLevel::Info, message } }
                        && message@ == "Resetted Password successfully!"@,
                (PasswordReset::Updating { .. }, PasswordResetEvent::PasswordUpdated(Err(e))) =>
                    r matches PasswordReset::Finished { answer: PasswordResetAnswer::InternalError(PasswordResetInternalError::Update(e2)) } && e2 == e,
                _ => false,
            },
    {
        match (self, event) {
            (PasswordReset::LookingUp { form }, PasswordResetEvent::CredentialsLoaded(loaded)) => match loaded {
                Err(e) => PasswordReset::Finished { answer: PasswordResetAnswer::InternalError(PasswordResetInternalError::Lookup(e)) },
                Ok(None) => PasswordReset::Finished { answer: PasswordResetAnswer::UserNotFound },
                Ok(Some(salted)) => match reset_password(&form, salted.as_str()) {
                    Ok(hash) => PasswordReset::Updating { hash },
                    Err(failure) => match failure.flash_message() {
                        Some(message) => PasswordReset::Finished {
                            answer: PasswordResetAnswer::Redirect { level: FlashLevel::Error, message },
                        },
                        None => PasswordReset::Finished {
                            answer: PasswordResetAnswer::InternalError(PasswordResetInternalError::Check(failure)),
                        },
                    },
                },
            },
            (PasswordReset::Updating { .. }, PasswordResetEvent::PasswordUpdated(updated)) => match updated {
                Ok(()) => PasswordReset::Finished {
                    answer: PasswordResetAnswer::Redirect { level: FlashLevel::Info, message: "Resetted Password successfully!".to_owned() },
                },
                Err(e) => PasswordReset::Finished { answer: PasswordResetAnswer::InternalError(PasswordResetInternalError::Update(e)) },
            },
            (state, _) => state,
        }
    }
}

} // verus!
