use vstd::prelude::*;
use vstd::utf8::encode_utf8;

use crate::text::{is_blank, StringExt};
use crate::town::{valid_town_id, Town};

verus! {

/// The lowest valid member number.
pub const FIRST_RUNNER_ID: i64 = 1;

/// One past the highest valid member number.
pub const RUNNER_ID_END: i64 = 10_000;

/// The longest first or last name accepted, in bytes of UTF-8.
pub const MAX_NAME_BYTES: usize = 25;

/// What a runner submits to complete their profile.
pub struct UpdateRunnerInfo {
    pub runner_id: i64,
    pub first_name: String,
    pub last_name: String,
    pub hometown_id: i64,
    pub towns: Option<Vec<i64>>,
}

/// The length of `s` in bytes of UTF-8, as `str::len` returns it.
pub open spec fn byte_len(s: Seq<char>) -> usize {
    encode_utf8(s).len() as usize
}

/// The message of the first rule that `info` breaks, in the order the rules are
/// checked, or `None` when it breaks none.
pub open spec fn runner_info_problem(info: UpdateRunnerInfo) -> Option<Seq<char>> {
    if !(FIRST_RUNNER_ID <= info.runner_id < RUNNER_ID_END) {
        Some("Member ID is not valid"@)
    } else if is_blank(info.first_name@) {
        Some("First name cannot be empty"@)
    } else if is_blank(info.last_name@) {
        Some("Last name cannot be empty"@)
    } else if byte_len(info.first_name@) > MAX_NAME_BYTES {
        Some("First name cannot be longer than 25 characters"@)
    } else if byte_len(info.last_name@) > MAX_NAME_BYTES {
        Some("Last name cannot be longer than 25 characters"@)
    } else if !valid_town_id(info.hometown_id) {
        Some("Town is not valid"@)
    } else {
        None
    }
}

impl UpdateRunnerInfo {
    /// Checks the submission: `Ok` when every rule holds, else the message of
    /// the first rule broken.
    pub fn validate(&self) -> (r: Result<(), String>)
        ensures
            r is Ok <==> runner_info_problem(*self) is None,
            r matches Err(m) ==> runner_info_problem(*self) == Some(m@),
    {
        if !(FIRST_RUNNER_ID <= self.runner_id && self.runner_id < RUNNER_ID_END) {
            return Err(String::from_str("Member ID is not valid"));
        }
        if self.first_name.is_whitespace_or_empty() {
            return Err(String::from_str("First name cannot be empty"));
        }
        if self.last_name.is_whitespace_or_empty() {
            return Err(String::from_str("Last name cannot be empty"));
        }
        if self.first_name.as_str().len() > MAX_NAME_BYTES {
            return Err(String::from_str("First name cannot be longer than 25 characters"));
        }
        if self.last_name.as_str().len() > MAX_NAME_BYTES {
            return Err(String::from_str("Last name cannot be longer than 25 characters"));
        }
        if Town::is_not_valid(self.hometown_id) {
            return Err(String::from_str("Town is not valid"));
        }
        Ok(())
    }
}

/// How long a session token stays valid, in seconds.
pub const SESSION_SECONDS: i64 = 86_400;

/// The claims of a session token: whose it is and when it expires.
pub struct UserClaims {
    pub sub: String,
    pub exp: usize,
}

impl UserClaims {
    /// The claims for the user with `email`, issued at `now` (seconds since the
    /// Unix epoch): they expire one day later.
    pub fn new(email: String, now: i64) -> (r: UserClaims)
        requires
            now + SESSION_SECONDS <= i64::MAX,
        ensures
            r.sub@ == email@,
            r.exp == (now + SESSION_SECONDS) as usize,
    {
        UserClaims { sub: email, exp: (now + SESSION_SECONDS) as usize }
    }
}

} // verus!
