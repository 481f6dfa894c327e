//! Two-factor challenge value types: the login attempt identifier
//! handed back to the caller, and the numeric code sent over the
//! notifier channel. Fresh values are drawn outside this core; here
//! they are only validated and compared.

use vstd::prelude::*;
use vstd::string::StrSliceExecFns;

verus! {

/// A string is an acceptable login attempt identifier when it is
/// non-empty; the identifier is otherwise opaque.
pub open spec fn login_attempt_id_ok(s: Seq<char>) -> bool {
    s.len() > 0
}

/// A string is an acceptable two-factor code when it is exactly six
/// decimal digits.
pub open spec fn two_fa_code_ok(s: Seq<char>) -> bool {
    s.len() == 6 && (forall|i: int| 0 <= i < s.len() ==> '0' <= #[trigger] s[i] <= '9')
}

/// Opaque identifier of one login attempt, returned to the caller when
/// a challenge is issued and required back at verification time.
#[derive(Debug, Hash)]
pub struct LoginAttemptId(String);

impl View for LoginAttemptId {
    type V = Seq<char>;

    closed spec fn view(&self) -> Seq<char> {
        self.0@
    }
}

impl LoginAttemptId {
    /// Validates a raw string as a login attempt identifier: succeeds
    /// exactly when the string is non-empty, and wraps it unchanged.
    pub fn parse(s: String) -> (r: Result<LoginAttemptId, String>)
        ensures
            r matches Ok(v) ==> v@ == s@ && login_attempt_id_ok(s@),
            r is Err <==> !login_attempt_id_ok(s@),
            r matches Err(m) ==> m@ == "login attempt id must not be empty"@,
    {
        if s.as_str().is_empty() {
            return Err("login attempt id must not be empty".to_owned());
        }
        Ok(LoginAttemptId(s))
    }

    /// The identifier as a string slice.
    pub fn as_str(&self) -> (r: &str)
        ensures
            r@ == self@,
    {
        self.0.as_str()
    }

    /// Every parsed identifier is non-empty.
    pub open spec fn wf(&self) -> bool {
        login_attempt_id_ok(self@)
    }
}

impl Clone for LoginAttemptId {
    /// The clone carries the same identifier.
    fn clone(&self) -> (r: Self)
        ensures
            r == *self,
    {
        LoginAttemptId(self.0.clone())
    }
}

impl PartialEq for LoginAttemptId {
    fn eq(&self, other: &LoginAttemptId) -> (r: bool) {
        self.0 == other.0
    }
}

impl vstd::std_specs::cmp::PartialEqSpecImpl for LoginAttemptId {
    open spec fn obeys_eq_spec() -> bool {
        true
    }

    open spec fn eq_spec(&self, other: &LoginAttemptId) -> bool {
        self@ == other@
    }
}

/// The secret of one pending challenge: a six-digit numeric code.
#[derive(Debug, Hash)]
pub struct TwoFACode(String);

impl View for TwoFACode {
    type V = Seq<char>;

    closed spec fn view(&self) -> Seq<char> {
        self.0@
    }
}

impl TwoFACode {
    /// Validates a raw string as a two-factor code: succeeds exactly
    /// when the string is six decimal digits, and wraps it unchanged.
    pub fn parse(s: String) -> (r: Result<TwoFACode, String>)
        ensures
            r matches Ok(v) ==> v@ == s@ && two_fa_code_ok(s@),
            r is Err <==> !two_fa_code_ok(s@),
            r matches Err(m) ==> m@ == "2FA code must be six decimal digits"@,
    {
        let st = s.as_str();
        let n = st.unicode_len();
        if n != 6 {
            return Err("2FA code must be six decimal digits".to_owned());
        }
        let mut i: usize = 0;
        while i < n
            invariant
                n == st@.len(),
                n == s@.len(),
                n == 6,
                i <= n,
                st@ == s@,
                forall|j: int| 0 <= j < i ==> '0' <= #[trigger] st@[j] <= '9',
            decreases n - i,
        {
            let c = st.get_char(i);
            if c < '0' || c > '9' {
                return Err("2FA code must be six decimal digits".to_owned());
            }
            i += 1;
        }
        Ok(TwoFACode(s))
    }

    /// The code as a string slice.
    pub fn as_str(&self) -> (r: &str)
        ensures
            r@ == self@,
    {
        self.0.as_str()
    }

    /// Every parsed code is six decimal digits.
    pub open spec fn wf(&self) -> bool {
        two_fa_code_ok(self@)
    }
}

impl Clone for TwoFACode {
    /// The clone carries the same code.
    fn clone(&self) -> (r: Self)
        ensures
            r == *self,
    {
        TwoFACode(self.0.clone())
    }
}

impl PartialEq for TwoFACode {
    fn eq(&self, other: &TwoFACode) -> (r: bool) {
        self.0 == other.0
    }
}

impl vstd::std_specs::cmp::PartialEqSpecImpl for TwoFACode {
    open spec fn obeys_eq_spec() -> bool {
        true
    }

    open spec fn eq_spec(&self, other: &TwoFACode) -> bool {
        self@ == other@
    }
}

} // verus!
