//! Enumerations carried as integers. A wire value outside the named set
//! decodes to `Undefined`, which keeps that raw value and writes it back.
use vstd::prelude::*;

verus! {

/// Status of a ship, carried in two bytes.
#[derive(Debug, Clone, Copy, PartialEq, Eq, Structural)]
pub enum ShipStatus {
    Unknown,
    Online,
    Busy,
    Full,
    Offline,
    /// A value that none of the above names.
    Undefined(u16),
}

impl ShipStatus {
    pub open spec fn spec_to_raw(self) -> u16 {
        match self {
            ShipStatus::Unknown => 0,
            ShipStatus::Online => 1,
            ShipStatus::Busy => 2,
            ShipStatus::Full => 3,
            ShipStatus::Offline => 4,
            ShipStatus::Undefined(v) => v,
        }
    }

    pub open spec fn spec_from_raw(v: u16) -> ShipStatus {
        if v == 0 {
            ShipStatus::Unknown
        } else if v == 1 {
            ShipStatus::Online
        } else if v == 2 {
            ShipStatus::Busy
        } else if v == 3 {
            ShipStatus::Full
        } else if v == 4 {
            ShipStatus::Offline
        } else {
            ShipStatus::Undefined(v)
        }
    }

    /// `Undefined` holds no value that a named variant stands for.
    pub open spec fn wf(self) -> bool {
        self matches ShipStatus::Undefined(v) ==> v > 4
    }

    /// The wire value.
    pub fn to_raw(&self) -> (r: u16)
        ensures
            r == self.spec_to_raw(),
    {
        match self {
            ShipStatus::Unknown => 0,
            ShipStatus::Online => 1,
            ShipStatus::Busy => 2,
            ShipStatus::Full => 3,
            ShipStatus::Offline => 4,
            ShipStatus::Undefined(v) => *v,
        }
    }

    /// The status that a wire value stands for.
    pub fn from_raw(v: u16) -> (r: ShipStatus)
        ensures
            r == Self::spec_from_raw(v),
            r.wf(),
    {
        match v {
            0 => ShipStatus::Unknown,
            1 => ShipStatus::Online,
            2 => ShipStatus::Busy,
            3 => ShipStatus::Full,
            4 => ShipStatus::Offline,
            _ => ShipStatus::Undefined(v),
        }
    }
}

impl Default for ShipStatus {
    fn default() -> (r: ShipStatus)
        ensures
            r == ShipStatus::Unknown,
    {
        ShipStatus::Unknown
    }
}

/// Every wire value of a ship status is written back as read, an unnamed one
/// through `Undefined`; every well-formed status is read back as written.
pub proof fn lemma_ship_status_round_trip(v: u16, s: ShipStatus)
    ensures
        ShipStatus::spec_from_raw(v).spec_to_raw() == v,
        v > 4 ==> ShipStatus::spec_from_raw(v) == ShipStatus::Undefined(v),
        s.wf() ==> ShipStatus::spec_from_raw(s.spec_to_raw()) == s,
{
}

/// Outcome of one login attempt, carried in four bytes.
#[derive(Debug, Clone, Copy, PartialEq, Eq, Structural)]
pub enum LoginResult {
    Successful,
    EmailConfirmed,
    LoginError,
    EmailAuthError,
    AuthEmailSent,
    OTPError,
    InMaintenance,
    GenericError,
    /// A value that none of the above names.
    Undefined(u32),
}

impl LoginResult {
    pub open spec fn spec_to_raw(self) -> u32 {
        match self {
            LoginResult::Successful => 0,
            LoginResult::EmailConfirmed => 1,
            LoginResult::LoginError => 2,
            LoginResult::EmailAuthError => 3,
            LoginResult::AuthEmailSent => 4,
            LoginResult::OTPError => 5,
            LoginResult::InMaintenance => 6,
            LoginResult::GenericError => 7,
            LoginResult::Undefined(v) => v,
        }
    }

    pub open spec fn spec_from_raw(v: u32) -> LoginResult {
        if v == 0 {
            LoginResult::Successful
        } else if v == 1 {
            LoginResult::EmailConfirmed
        } else if v == 2 {
            LoginResult::LoginError
        } else if v == 3 {
            LoginResult::EmailAuthError
        } else if v == 4 {
            LoginResult::AuthEmailSent
        } else if v == 5 {
            LoginResult::OTPError
        } else if v == 6 {
            LoginResult::InMaintenance
        } else if v == 7 {
            LoginResult::GenericError
        } else {
            LoginResult::Undefined(v)
        }
    }

    /// `Undefined` holds no value that a named variant stands for.
    pub open spec fn wf(self) -> bool {
        self matches LoginResult::Undefined(v) ==> v > 7
    }

    /// The wire value.
    pub fn to_raw(&self) -> (r: u32)
        ensures
            r == self.spec_to_raw(),
    {
        match self {
            LoginResult::Successful => 0,
            LoginResult::EmailConfirmed => 1,
            LoginResult::LoginError => 2,
            LoginResult::EmailAuthError => 3,
            LoginResult::AuthEmailSent => 4,
            LoginResult::OTPError => 5,
            LoginResult::InMaintenance => 6,
            LoginResult::GenericError => 7,
            LoginResult::Undefined(v) => *v,
        }
    }

    /// The result that a wire value stands for.
    pub fn from_raw(v: u32) -> (r: LoginResult)
        ensures
            r == Self::spec_from_raw(v),
            r.wf(),
    {
        match v {
            0 => LoginResult::Successful,
            1 => LoginResult::EmailConfirmed,
            2 => LoginResult::LoginError,
            3 => LoginResult::EmailAuthError,
            4 => LoginResult::AuthEmailSent,
            5 => LoginResult::OTPError,
            6 => LoginResult::InMaintenance,
            7 => LoginResult::GenericError,
            _ => LoginResult::Undefined(v),
        }
    }
}

impl Default for LoginResult {
    fn default() -> (r: LoginResult)
        ensures
            r == LoginResult::Successful,
    {
        LoginResult::Successful
    }
}

/// Every wire value of a login result is written back as read, an unnamed
/// one through `Undefined`; every well-formed result is read back as written.
pub proof fn lemma_login_result_round_trip(v: u32, s: LoginResult)
    ensures
        LoginResult::spec_from_raw(v).spec_to_raw() == v,
        v > 7 ==> LoginResult::spec_from_raw(v) == LoginResult::Undefined(v),
        s.wf() ==> LoginResult::spec_from_raw(s.spec_to_raw()) == s,
{
}

/// Outcome of a login, carried in four bytes.
#[derive(Debug, Clone, Copy, PartialEq, Eq, Structural)]
pub enum LoginStatus {
    Success,
    Failure,
    /// A value that none of the above names.
    Undefined(u32),
}

impl LoginStatus {
    pub open spec fn spec_to_raw(self) -> u32 {
        match self {
            LoginStatus::Success => 0,
            LoginStatus::Failure => 1,
            LoginStatus::Undefined(v) => v,
        }
    }

    pub open spec fn spec_from_raw(v: u32) -> LoginStatus {
        if v == 0 {
            LoginStatus::Success
        } else if v == 1 {
            LoginStatus::Failure
        } else {
            LoginStatus::Undefined(v)
        }
    }

    /// `Undefined` holds no value that a named variant stands for.
    pub open spec fn wf(self) -> bool {
        self matches LoginStatus::Undefined(v) ==> v > 1
    }

    /// The wire value.
    pub fn to_raw(&self) -> (r: u32)
        ensures
            r == self.spec_to_raw(),
    {
        match self {
            LoginStatus::Success => 0,
            LoginStatus::Failure => 1,
            LoginStatus::Undefined(v) => *v,
        }
    }

    /// The status that a wire value stands for.
    pub fn from_raw(v: u32) -> (r: LoginStatus)
        ensures
            r == Self::spec_from_raw(v),
            r.wf(),
    {
        match v {
            0 => LoginStatus::Success,
            1 => LoginStatus::Failure,
            _ => LoginStatus::Undefined(v),
        }
    }
}

impl Default for LoginStatus {
    fn default() -> (r: LoginStatus)
        ensures
            r == LoginStatus::Success,
    {
        LoginStatus::Success
    }
}

/// Every wire value of a login status is written back as read, an unnamed
/// one through `Undefined`; every well-formed status is read back as written.
pub proof fn lemma_login_status_round_trip(v: u32, s: LoginStatus)
    ensures
        LoginStatus::spec_from_raw(v).spec_to_raw() == v,
        v > 1 ==> LoginStatus::spec_from_raw(v) == LoginStatus::Undefined(v),
        s.wf() ==> LoginStatus::spec_from_raw(s.spec_to_raw()) == s,
{
}

} // verus!
