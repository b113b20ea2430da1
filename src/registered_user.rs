//! A registered user: an entity named by an identifier of its own kind, with
//! an email address that passed validation.
use vstd::prelude::*;

use crate::error::Error;
use crate::id::Id;

verus! {

/// Whether `s` has the syntax of an email address (the HTML form rules: a
/// local part, `@`, and a domain name or address literal, within RFC 5321's
/// length limits).
pub uninterp spec fn email_syntax_ok(s: Seq<char>) -> bool;

/// Relies on `validator::ValidateEmail::validate_email` for `&str`: its
/// verdict depends on the text alone, and a text without `@` fails.
#[verifier::external_body]
fn email_is_valid(s: &str) -> (r: bool)
    ensures
        r == email_syntax_ok(s@),
        !s@.contains('@') ==> !r,
{
    validator::ValidateEmail::validate_email(&s)
}

/// A user known to the system.
///
/// It keeps its identifier's value, and hands it out as an identifier of its
/// own kind.
pub struct RegisteredUser {
    id: u128,
    email: String,
}

impl RegisteredUser {
    #[verifier::type_invariant]
    spec fn email_checked(&self) -> bool {
        email_syntax_ok(self.email@)
    }

    /// The user's identifier.
    pub closed spec fn spec_id(&self) -> u128 {
        self.id
    }

    /// The user's email address.
    pub closed spec fn spec_email(&self) -> Seq<char> {
        self.email@
    }

    /// A user with identifier `id` and email address `email`, if the address
    /// has email syntax; otherwise a validation failure of the `email` field
    /// under the `email` rule.
    pub fn new(id: Id<RegisteredUser>, email: String) -> (r: Result<Self, Error>)
        ensures
            email_syntax_ok(email@) ==> r is Ok && r->Ok_0.spec_id() == id@ && r->Ok_0.spec_email()
                == email@,
            !email_syntax_ok(email@) ==> r is Err && (match r->Err_0 {
                Error::ValidationFailed { field, rule } => field@ == "email"@ && rule@ == "email"@,
                _ => false,
            }),
    {
        if email_is_valid(email.as_str()) {
            Ok(RegisteredUser { id: id.value(), email })
        } else {
            Err(Error::ValidationFailed { field: "email".to_owned(), rule: "email".to_owned() })
        }
    }

    /// The user's identifier; the same on every call.
    pub fn id(&self) -> (r: Id<RegisteredUser>)
        ensures
            r@ == self.spec_id(),
    {
        Id::from_value(self.id)
    }

    /// The user's email address; the same on every call, and always of
    /// email syntax.
    pub fn email(&self) -> (r: &str)
        ensures
            r@ == self.spec_email(),
            email_syntax_ok(r@),
    {
        proof {
            use_type_invariant(self);
        }
        self.email.as_str()
    }
}

} // verus!
