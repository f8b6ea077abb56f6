//! The return codes of PAM, and the message styles that ask for input.

use vstd::prelude::*;

verus! {

/// A message that asks for input without showing it.
pub const PROMPT_ECHO_OFF: i32 = 1;

/// A message that asks for input and shows it.
pub const PROMPT_ECHO_ON: i32 = 2;

/// What a PAM call returned.
#[allow(non_camel_case_types)]
#[derive(Clone, Copy, Debug, PartialEq, Eq, Structural)]
pub enum PamReturnCode {
    /// The call succeeded.
    SUCCESS,
    /// A service module could not be loaded.
    OPEN_ERR,
    /// A symbol was not found.
    SYMBOL_ERR,
    /// A service module failed.
    SERVICE_ERR,
    /// A system call failed.
    SYSTEM_ERR,
    /// Memory ran out.
    BUF_ERR,
    /// Permission was denied.
    PERM_DENIED,
    /// The credentials were rejected.
    AUTH_ERR,
    /// The caller may not read the authentication data.
    CRED_INSUFFICIENT,
    /// The authentication data cannot be retrieved.
    AUTHINFO_UNAVAIL,
    /// The user is not known.
    USER_UNKNOWN,
    /// No further tries are allowed.
    MAXTRIES,
    /// A new password is required.
    NEW_AUTHTOK_REQD,
    /// The account has expired.
    ACCT_EXPIRED,
    /// A session entry cannot be made or removed.
    SESSION_ERR,
    /// The user's credentials cannot be retrieved.
    CRED_UNAVAIL,
    /// The user's credentials have expired.
    CRED_EXPIRED,
    /// The user's credentials cannot be set.
    CRED_ERR,
    /// No module data is present.
    NO_MODULE_DATA,
    /// The conversation failed.
    CONV_ERR,
    /// The password cannot be changed.
    AUTHTOK_ERR,
    /// The password cannot be recovered.
    AUTHTOK_RECOVERY_ERR,
    /// The password database is locked.
    AUTHTOK_LOCK_BUSY,
    /// Password aging is disabled.
    AUTHTOK_DISABLE_AGING,
    /// A preliminary check failed.
    TRY_AGAIN,
    /// The module is to be ignored.
    IGNORE,
    /// A module asked for the stack to stop.
    ABORT,
    /// The password has expired.
    AUTHTOK_EXPIRED,
    /// The module is not known.
    MODULE_UNKNOWN,
    /// An item was bad.
    BAD_ITEM,
    /// The conversation has no data yet.
    CONV_AGAIN,
    /// The call is to be made again.
    INCOMPLETE,
}

impl PamReturnCode {
    /// The name under which a code is reported.
    pub open spec fn spec_name(self) -> Seq<char> {
        match self {
            PamReturnCode::SUCCESS => "SUCCESS"@,
            PamReturnCode::OPEN_ERR => "OPEN_ERR"@,
            PamReturnCode::SYMBOL_ERR => "SYMBOL_ERR"@,
            PamReturnCode::SERVICE_ERR => "SERVICE_ERR"@,
            PamReturnCode::SYSTEM_ERR => "SYSTEM_ERR"@,
            PamReturnCode::BUF_ERR => "BUF_ERR"@,
            PamReturnCode::PERM_DENIED => "PERM_DENIED"@,
            PamReturnCode::AUTH_ERR => "AUTH_ERR"@,
            PamReturnCode::CRED_INSUFFICIENT => "CRED_INSUFFICIENT"@,
            PamReturnCode::AUTHINFO_UNAVAIL => "AUTHINFO_UNAVAIL"@,
            PamReturnCode::USER_UNKNOWN => "USER_UNKNOWN"@,
            PamReturnCode::MAXTRIES => "MAXTRIES"@,
            PamReturnCode::NEW_AUTHTOK_REQD => "NEW_AUTHTOK_REQD"@,
            PamReturnCode::ACCT_EXPIRED => "ACCT_EXPIRED"@,
            PamReturnCode::SESSION_ERR => "SESSION_ERR"@,
            PamReturnCode::CRED_UNAVAIL => "CRED_UNAVAIL"@,
            PamReturnCode::CRED_EXPIRED => "CRED_EXPIRED"@,
            PamReturnCode::CRED_ERR => "CRED_ERR"@,
            PamReturnCode::NO_MODULE_DATA => "NO_MODULE_DATA"@,
            PamReturnCode::CONV_ERR => "CONV_ERR"@,
            PamReturnCode::AUTHTOK_ERR => "AUTHTOK_ERR"@,
            PamReturnCode::AUTHTOK_RECOVERY_ERR => "AUTHTOK_RECOVERY_ERR"@,
            PamReturnCode::AUTHTOK_LOCK_BUSY => "AUTHTOK_LOCK_BUSY"@,
            PamReturnCode::AUTHTOK_DISABLE_AGING => "AUTHTOK_DISABLE_AGING"@,
            PamReturnCode::TRY_AGAIN => "TRY_AGAIN"@,
            PamReturnCode::IGNORE => "IGNORE"@,
            PamReturnCode::ABORT => "ABORT"@,
            PamReturnCode::AUTHTOK_EXPIRED => "AUTHTOK_EXPIRED"@,
            PamReturnCode::MODULE_UNKNOWN => "MODULE_UNKNOWN"@,
            PamReturnCode::BAD_ITEM => "BAD_ITEM"@,
            PamReturnCode::CONV_AGAIN => "CONV_AGAIN"@,
            PamReturnCode::INCOMPLETE => "INCOMPLETE"@,
        }
    }

    /// The name under which a code is reported.
    pub fn name(&self) -> (name: &'static str)
        ensures
            name@ == self.spec_name(),
    {
        match self {
            PamReturnCode::SUCCESS => "SUCCESS",
            PamReturnCode::OPEN_ERR => "OPEN_ERR",
            PamReturnCode::SYMBOL_ERR => "SYMBOL_ERR",
            PamReturnCode::SERVICE_ERR => "SERVICE_ERR",
            PamReturnCode::SYSTEM_ERR => "SYSTEM_ERR",
            PamReturnCode::BUF_ERR => "BUF_ERR",
            PamReturnCode::PERM_DENIED => "PERM_DENIED",
            PamReturnCode::AUTH_ERR => "AUTH_ERR",
            PamReturnCode::CRED_INSUFFICIENT => "CRED_INSUFFICIENT",
            PamReturnCode::AUTHINFO_UNAVAIL => "AUTHINFO_UNAVAIL",
            PamReturnCode::USER_UNKNOWN => "USER_UNKNOWN",
            PamReturnCode::MAXTRIES => "MAXTRIES",
            PamReturnCode::NEW_AUTHTOK_REQD => "NEW_AUTHTOK_REQD",
            PamReturnCode::ACCT_EXPIRED => "ACCT_EXPIRED",
            PamReturnCode::SESSION_ERR => "SESSION_ERR",
            PamReturnCode::CRED_UNAVAIL => "CRED_UNAVAIL",
            PamReturnCode::CRED_EXPIRED => "CRED_EXPIRED",
            PamReturnCode::CRED_ERR => "CRED_ERR",
            PamReturnCode::NO_MODULE_DATA => "NO_MODULE_DATA",
            PamReturnCode::CONV_ERR => "CONV_ERR",
            PamReturnCode::AUTHTOK_ERR => "AUTHTOK_ERR",
            PamReturnCode::AUTHTOK_RECOVERY_ERR => "AUTHTOK_RECOVERY_ERR",
            PamReturnCode::AUTHTOK_LOCK_BUSY => "AUTHTOK_LOCK_BUSY",
            PamReturnCode::AUTHTOK_DISABLE_AGING => "AUTHTOK_DISABLE_AGING",
            PamReturnCode::TRY_AGAIN => "TRY_AGAIN",
            PamReturnCode::IGNORE => "IGNORE",
            PamReturnCode::ABORT => "ABORT",
            PamReturnCode::AUTHTOK_EXPIRED => "AUTHTOK_EXPIRED",
            PamReturnCode::MODULE_UNKNOWN => "MODULE_UNKNOWN",
            PamReturnCode::BAD_ITEM => "BAD_ITEM",
            PamReturnCode::CONV_AGAIN => "CONV_AGAIN",
            PamReturnCode::INCOMPLETE => "INCOMPLETE",
        }
    }
}

} // verus!
