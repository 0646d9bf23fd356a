use vstd::prelude::*;

use crate::errors::{AppError, AppResult, ErrorKind};

verus! {

/// A user of the service. `created` is the time the user was first seen, in
/// milliseconds since the Unix epoch.
#[derive(Debug)]
pub struct User {
    pub id: String,
    pub name: String,
    pub email: Option<String>,
    pub created: i64,
}

/// An optional text as a value.
pub open spec fn opt_view(text: Option<String>) -> Option<Seq<char>> {
    match text {
        Some(e) => Some(e@),
        None => None,
    }
}

/// Copies an optional text.
pub fn clone_opt(text: &Option<String>) -> (c: Option<String>)
    ensures
        opt_view(c) == opt_view(*text),
{
    match text {
        Some(e) => Some(e.clone()),
        None => None,
    }
}

impl Clone for User {
    fn clone(&self) -> (u: User)
        ensures
            u.id@ == self.id@,
            u.name@ == self.name@,
            opt_view(u.email) == opt_view(self.email),
            u.created == self.created,
    {
        User {
            id: self.id.clone(),
            name: self.name.clone(),
            email: clone_opt(&self.email),
            created: self.created,
        }
    }
}

#[verifier::external_type_specification]
#[verifier::external_body]
pub struct ExSystemTime(std::time::SystemTime);

#[verifier::external_type_specification]
#[verifier::external_body]
pub struct ExSystemTimeError(std::time::SystemTimeError);

/// The current time of the system clock (`std::time::SystemTime::now`).
/// Trusted; nothing is stated of the value.
#[verifier::external_body]
fn system_time_now() -> std::time::SystemTime {
    std::time::SystemTime::now()
}

/// The milliseconds from the Unix epoch to `t`
/// (`std::time::SystemTime::duration_since`), or the error for a time before
/// the epoch. Trusted; nothing is stated of the value.
#[verifier::external_body]
fn millis_since_epoch(t: &std::time::SystemTime) -> Result<i64, std::time::SystemTimeError> {
    t.duration_since(std::time::UNIX_EPOCH).map(|d| d.as_millis() as i64)
}

/// The display text of a `std::time::SystemTimeError`. Trusted; nothing is stated of the text.
#[verifier::external_body]
fn system_time_error_message(e: &std::time::SystemTimeError) -> String {
    format!("{}", e)
}

/// The current time in milliseconds since the Unix epoch; a system error where
/// the clock reads a time before the epoch.
pub fn now_millis() -> (res: AppResult<i64>)
    ensures
        res matches Err(e) ==> e@.0 == ErrorKind::System,
{
    let now = system_time_now();
    match millis_since_epoch(&now) {
        Ok(ms) => Ok(ms),
        Err(e) => Err(AppError::SystemError(system_time_error_message(&e))),
    }
}

} // verus!
