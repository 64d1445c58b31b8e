//! Account identifiers: text that names one party of the ledger.
use vstd::prelude::*;
use vstd::std_specs::cmp::PartialEqSpecImpl;

verus! {

/// A lower-case letter or a digit.
pub open spec fn is_alphanumeric(c: char) -> bool {
    ('a' <= c && c <= 'z') || ('0' <= c && c <= '9')
}

/// One of the three characters that may stand between alphanumeric runs.
pub open spec fn is_separator(c: char) -> bool {
    c == '-' || c == '_' || c == '.'
}

/// The rule for account identifiers: 2 to 64 characters, each a lower-case
/// letter, a digit or a separator; no separator first, last, or next to
/// another separator.
pub open spec fn valid_account_id(s: Seq<char>) -> bool {
    &&& 2 <= s.len() <= 64
    &&& forall|i: int| 0 <= i < s.len() ==> is_alphanumeric(#[trigger] s[i]) || is_separator(s[i])
    &&& !is_separator(s[0])
    &&& !is_separator(s[s.len() - 1])
    &&& forall|i: int|
        0 <= i < s.len() - 1 ==> !(is_separator(#[trigger] s[i]) && is_separator(s[i + 1]))
}

/// Calls `near_sdk::env::is_valid_account_id` on the bytes of `id`. The
/// contract restates that function's rule over characters: the length
/// bounds, the accepted characters, and that no separator stands first,
/// last or beside another. A character outside ASCII is never accepted, so
/// for every accepted text the count of bytes is the count of characters.
#[verifier::external_body]
fn is_valid_account_id(id: &String) -> (b: bool)
    ensures
        b == valid_account_id(id@),
{
    near_sdk::env::is_valid_account_id(id.as_bytes())
}

/// The name of an account. Every value satisfies [`valid_account_id`].
#[derive(Debug)]
pub struct AccountId {
    id: String,
}

impl View for AccountId {
    type V = Seq<char>;

    closed spec fn view(&self) -> Seq<char> {
        self.id@
    }
}

impl AccountId {
    #[verifier::type_invariant]
    spec fn inv(&self) -> bool {
        valid_account_id(self.id@)
    }

    /// Makes an identifier of `id` if it follows the rule for identifiers.
    pub fn parse(id: String) -> (r: Option<AccountId>)
        ensures
            r.is_some() == valid_account_id(id@),
            r matches Some(a) ==> a@ == id@,
    {
        if is_valid_account_id(&id) {
            Some(AccountId { id })
        } else {
            None
        }
    }

    /// Makes an identifier of a text that is known to follow the rule.
    pub fn new(id: String) -> (r: AccountId)
        requires
            valid_account_id(id@),
        ensures
            r@ == id@,
    {
        AccountId { id }
    }

    /// The identifier as text.
    pub fn as_string(&self) -> (s: &String)
        ensures
            s@ == self@,
            valid_account_id(s@),
    {
        proof {
            use_type_invariant(&*self);
        }
        &self.id
    }

    /// A copy of the identifier's text.
    pub fn to_string(&self) -> (s: String)
        ensures
            s@ == self@,
    {
        self.id.clone()
    }
}

impl Clone for AccountId {
    fn clone(&self) -> (r: Self)
        ensures
            r@ == self@,
    {
        proof {
            use_type_invariant(&*self);
        }
        AccountId { id: self.id.clone() }
    }
}

impl PartialEq for AccountId {
    fn eq(&self, other: &Self) -> (b: bool) {
        self.id == other.id
    }
}

impl PartialEqSpecImpl for AccountId {
    open spec fn obeys_eq_spec() -> bool {
        true
    }

    open spec fn eq_spec(&self, other: &Self) -> bool {
        self@ == other@
    }
}

impl Eq for AccountId {

}

} // verus!
