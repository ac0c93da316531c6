//! What the bot expects next from a user, and how that is stored.
use vstd::prelude::*;

verus! {

/// The request a user has announced and whose link the bot now waits for.
#[derive(Clone, Copy, Debug, PartialEq, Eq, Structural)]
pub enum UserStatus {
    /// `/vid` was sent without a link: the next message is a video link.
    VidRequest,
    /// `/mus` was sent without a link: the next message is a music link.
    MusRequest,
    /// Nothing is pending.
    Idle,
}

/// The integer under which a status is stored.
pub open spec fn status_code(s: UserStatus) -> i32 {
    match s {
        UserStatus::VidRequest => 1,
        UserStatus::MusRequest => 2,
        UserStatus::Idle => 3,
    }
}

/// The status that a stored integer stands for; every unknown value means
/// that nothing is pending.
pub open spec fn status_of_code(c: int) -> UserStatus {
    if c == 1 {
        UserStatus::VidRequest
    } else if c == 2 {
        UserStatus::MusRequest
    } else {
        UserStatus::Idle
    }
}

impl UserStatus {
    /// The integer stored for this status.
    pub fn code(&self) -> (c: i32)
        ensures
            c == status_code(*self),
    {
        match self {
            UserStatus::VidRequest => 1,
            UserStatus::MusRequest => 2,
            UserStatus::Idle => 3,
        }
    }

    /// The status that a stored integer stands for.
    pub fn from_code(code: i32) -> (s: UserStatus)
        ensures
            s == status_of_code(code as int),
    {
        if code == 1 {
            UserStatus::VidRequest
        } else if code == 2 {
            UserStatus::MusRequest
        } else {
            UserStatus::Idle
        }
    }
}

/// A value as the database hands it back, reduced to what the decoding of a
/// status looks at: an integer, or anything else.
#[derive(Clone, Copy, Debug, PartialEq, Eq, Structural)]
pub enum StoredValue {
    Int(i64),
    Other,
}

/// Why a stored value could not be read as a status.
#[derive(Clone, Copy, Debug, PartialEq, Eq, Structural)]
pub enum StatusDecodeError {
    /// The value is not an integer.
    InvalidType,
}

impl StatusDecodeError {
    /// The message that goes with the error.
    pub fn message(&self) -> (m: &'static str)
        ensures
            m@ == "Invalid type in database"@,
    {
        "Invalid type in database"
    }
}

/// The status a stored value decodes to.
pub open spec fn decode_stored(v: StoredValue) -> Result<UserStatus, StatusDecodeError> {
    match v {
        StoredValue::Int(c) => Ok(status_of_code(c as int)),
        StoredValue::Other => Err(StatusDecodeError::InvalidType),
    }
}

impl UserStatus {
    /// Decodes a stored value: `1` and `2` are the two pending requests, any
    /// other integer means nothing is pending, and a value that is not an
    /// integer is refused.
    pub fn from_redis_value(v: &StoredValue) -> (r: Result<UserStatus, StatusDecodeError>)
        ensures
            r == decode_stored(*v),
    {
        match v {
            StoredValue::Int(status) => {
                if *status == 1 {
                    Ok(UserStatus::VidRequest)
                } else if *status == 2 {
                    Ok(UserStatus::MusRequest)
                } else {
                    Ok(UserStatus::Idle)
                }
            },
            StoredValue::Other => Err(StatusDecodeError::InvalidType),
        }
    }
}

/// Reading back the integer stored for a status gives that status.
pub proof fn lemma_status_code_round_trip(s: UserStatus)
    ensures
        status_of_code(status_code(s) as int) == s,
{
}

/// Decoding the stored integer of a status gives that status back, and the
/// three statuses are stored under three different integers.
pub proof fn lemma_stored_status_round_trip(s: UserStatus, t: UserStatus)
    ensures
        decode_stored(StoredValue::Int(status_code(s) as i64)) == Ok::<UserStatus, StatusDecodeError>(s),
        status_code(s) == status_code(t) ==> s == t,
{
}

} // verus!
