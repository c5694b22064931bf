//! The ways to give a second factor.

use vstd::prelude::*;
use crate::text::{lowercase, str_eq, str_to_lowercase};

verus! {

/// A way to give a second factor.
#[derive(Debug, Clone, Copy, PartialEq, Eq, Structural)]
pub enum TwoFactorMethod {
    EmailOtp,
    Totp,
}

impl TwoFactorMethod {
    /// The segment that names the method in the address of the verification
    /// request.
    pub open spec fn spec_endpoint(self) -> Seq<char> {
        match self {
            TwoFactorMethod::EmailOtp => "emailotp"@,
            TwoFactorMethod::Totp => "totp"@,
        }
    }

    /// The method that a name stands for, whatever its case: `emailotp`, and
    /// `totp` or `otp`.
    pub open spec fn spec_from_str(s: Seq<char>) -> Option<TwoFactorMethod> {
        if lowercase(s) == "emailotp"@ {
            Some(TwoFactorMethod::EmailOtp)
        } else if lowercase(s) == "totp"@ || lowercase(s) == "otp"@ {
            Some(TwoFactorMethod::Totp)
        } else {
            None
        }
    }

    /// The segment that names the method in the address of the verification
    /// request.
    pub fn endpoint(&self) -> (r: &'static str)
        ensures
            r@ == self.spec_endpoint(),
    {
        match self {
            TwoFactorMethod::EmailOtp => "emailotp",
            TwoFactorMethod::Totp => "totp",
        }
    }

    /// Reads a method from its name, whatever its case.
    pub fn from_str(s: &str) -> (r: Option<Self>)
        ensures
            r == TwoFactorMethod::spec_from_str(s@),
    {
        let lower = str_to_lowercase(s);
        if str_eq(lower.as_str(), "emailotp") {
            Some(TwoFactorMethod::EmailOtp)
        } else if str_eq(lower.as_str(), "totp") || str_eq(lower.as_str(), "otp") {
            Some(TwoFactorMethod::Totp)
        } else {
            None
        }
    }
}

} // verus!
