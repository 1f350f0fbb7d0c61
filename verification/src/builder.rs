//! The client builder: validation of the caller-supplied identification
//! string and construction of the outgoing identification header.
//!
//! The registry's usage policy requires callers to identify themselves.
//! The builder accepts any string with at least one visible character,
//! appends the fixed library-identifying suffix, and hands the combined
//! header value to whichever transport the caller constructs around it.
//! A string that is empty or all whitespace is rejected with
//! [`KrateError::ConfigError`] before any network activity.

use vstd::prelude::*;
use vstd::string::StringExecFns;

use crate::error::KrateError;

verus! {

/// Whether `c` has the Unicode `White_Space` property, the set of
/// characters that trimming removes.
pub open spec fn spec_is_whitespace_char(c: char) -> bool {
    let u = c as u32;
    u == 0x09 || u == 0x0A || u == 0x0B || u == 0x0C || u == 0x0D || u == 0x20 || u == 0x85
        || u == 0xA0 || u == 0x1680 || (0x2000 <= u && u <= 0x200A) || u == 0x2028 || u == 0x2029
        || u == 0x202F || u == 0x205F || u == 0x3000
}

/// Whether the identification string has no visible character: it is
/// empty, or every character is whitespace. Such a string trims to
/// nothing and is rejected by the builder.
pub open spec fn spec_has_empty_user_agent(s: Seq<char>) -> bool {
    forall|i: int| 0 <= i < s.len() ==> spec_is_whitespace_char(s[i])
}

/// Decides whether `c` is whitespace.
fn is_whitespace_char(c: char) -> (r: bool)
    ensures
        r == spec_is_whitespace_char(c),
{
    let u = c as u32;
    u == 0x09 || u == 0x0A || u == 0x0B || u == 0x0C || u == 0x0D || u == 0x20 || u == 0x85
        || u == 0xA0 || u == 0x1680 || (0x2000 <= u && u <= 0x200A) || u == 0x2028 || u == 0x2029
        || u == 0x202F || u == 0x205F || u == 0x3000
}

/// Decides whether the identification string trims to nothing, that is,
/// contains no visible character.
pub fn has_empty_user_agent(user_agent: &str) -> (r: bool)
    ensures
        r == spec_has_empty_user_agent(user_agent@),
{
    let n = user_agent.unicode_len();
    let mut i: usize = 0;
    while i < n
        invariant
            n == user_agent@.len(),
            i <= n,
            forall|j: int| 0 <= j < i ==> spec_is_whitespace_char(user_agent@[j]),
        decreases n - i,
    {
        let c = user_agent.get_char(i);
        if !is_whitespace_char(c) {
            return false;
        }
        i += 1;
    }
    true
}

/// The combined identification header: the caller's string followed by
/// the fixed library-identifying suffix.
pub open spec fn spec_operator_user_agent(user_agent: Seq<char>) -> Seq<char> {
    user_agent + " - Brought to you by: "@ + "krates/0.3.0"@
}

/// Validates a caller-supplied identification string and constructs the
/// identification header for a synchronous or asynchronous client.
pub struct KrateClientBuilder {
    user_agent: String,
}

impl View for KrateClientBuilder {
    type V = Seq<char>;

    closed spec fn view(&self) -> Seq<char> {
        self.user_agent@
    }
}

impl KrateClientBuilder {
    /// Records the caller-supplied identification string. Validation
    /// happens when a client is built, not here.
    pub fn new(user_agent: &str) -> (b: KrateClientBuilder)
        ensures
            b@ == user_agent@,
    {
        KrateClientBuilder { user_agent: user_agent.to_owned() }
    }

    /// Produces the outgoing identification header for this builder, or
    /// rejects the identification string.
    ///
    /// Succeeds exactly when the identification string has at least one
    /// visible character, and then returns the caller's string with the
    /// fixed library-identifying suffix appended; fails with
    /// [`KrateError::ConfigError`] exactly when the string is empty or
    /// all whitespace. Both client variants build their transport around
    /// this one header value.
    pub fn operator_user_agent(&self) -> (r: Result<String, KrateError>)
        ensures
            (match r {
                Ok(header) => !spec_has_empty_user_agent(self@) && header@
                    == spec_operator_user_agent(self@),
                Err(e) => spec_has_empty_user_agent(self@) && e == KrateError::ConfigError,
            }),
    {
        if has_empty_user_agent(self.user_agent.as_str()) {
            return Err(KrateError::ConfigError);
        }
        let mut header = self.user_agent.clone();
        header.append(" - Brought to you by: ");
        header.append("krates/0.3.0");
        Ok(header)
    }
}

} // verus!
