use vstd::prelude::*;

verus! {

/// Shortest account name the protocol accepts.
pub const MIN_ACCOUNT_ID_LEN: usize = 2;

/// Longest account name the protocol accepts.
pub const MAX_ACCOUNT_ID_LEN: usize = 64;

/// A character that may stand between two runs of letters and digits.
pub open spec fn is_id_separator(c: char) -> bool {
    c == '-' || c == '_' || c == '.'
}

/// A lower-case ASCII letter or an ASCII digit.
pub open spec fn is_id_alnum(c: char) -> bool {
    ('a' <= c && c <= 'z') || ('0' <= c && c <= '9')
}

/// The protocol's rule for account names: 2 to 64 characters, runs of
/// lower-case letters and digits joined by single `-`, `_` or `.`.
pub open spec fn valid_account_id(s: Seq<char>) -> bool {
    &&& MIN_ACCOUNT_ID_LEN <= s.len() <= MAX_ACCOUNT_ID_LEN
    &&& forall|i: int| 0 <= i < s.len() ==> is_id_alnum(#[trigger] s[i]) || is_id_separator(s[i])
    &&& !is_id_separator(s[0])
    &&& !is_id_separator(s[s.len() - 1])
    &&& forall|i: int|
        0 <= i < s.len() - 1 ==> !(is_id_separator(#[trigger] s[i]) && is_id_separator(s[i + 1]))
}

/// The name of the sub-account `prefix` under `parent`.
pub open spec fn subaccount_name(prefix: Seq<char>, parent: Seq<char>) -> Seq<char> {
    prefix + seq!['.'] + parent
}

/// Relies on near_sdk::env::is_valid_account_id, the check behind parsing a
/// `near_sdk::AccountId`: it walks the UTF-8 bytes, so a character outside
/// ASCII is never accepted and the byte length equals the character length
/// whenever the name is accepted.
#[verifier::external_body]
fn check_account_id(s: &str) -> (r: bool)
    ensures
        r == valid_account_id(s@),
{
    near_sdk::env::is_valid_account_id(s.as_bytes())
}

/// An account name that obeys the protocol's naming rule.
#[derive(Debug, PartialEq, Eq)]
pub struct AccountId {
    name: String,
}

impl View for AccountId {
    type V = Seq<char>;

    closed spec fn view(&self) -> Seq<char> {
        self.name@
    }
}

impl Clone for AccountId {
    fn clone(&self) -> (r: AccountId)
        ensures
            r@ == self@,
    {
        proof {
            use_type_invariant(self);
        }
        AccountId { name: self.name.clone() }
    }
}

impl AccountId {
    #[verifier::type_invariant]
    spec fn well_formed(&self) -> bool {
        valid_account_id(self.name@)
    }

    /// Accepts `s` exactly when it obeys the naming rule.
    pub fn parse(s: &str) -> (r: Option<AccountId>)
        ensures
            r is Some <==> valid_account_id(s@),
            r matches Some(id) ==> id@ == s@,
    {
        if check_account_id(s) {
            Some(AccountId { name: s.to_owned() })
        } else {
            None
        }
    }

    /// The name as text.
    pub fn as_str(&self) -> (r: &str)
        ensures
            r@ == self@,
    {
        self.name.as_str()
    }

    /// Whether the two names are the same.
    pub fn same_as(&self, other: &AccountId) -> (r: bool)
        ensures
            r == (self@ == other@),
    {
        self.name == other.name
    }

    /// The sub-account `prefix` under `parent`, joined by a dot.
    pub fn subaccount(prefix: &AccountId, parent: &AccountId) -> (r: AccountId)
        requires
            prefix@.len() + 1 + parent@.len() <= MAX_ACCOUNT_ID_LEN,
        ensures
            r@ == subaccount_name(prefix@, parent@),
    {
        proof {
            use_type_invariant(prefix);
            use_type_invariant(parent);
            lemma_subaccount_valid(prefix@, parent@);
        }
        let mut name = prefix.name.clone();
        name.append(".");
        name.append(parent.as_str());
        proof {
            reveal_strlit(".");
            assert(name@ =~= subaccount_name(prefix@, parent@));
        }
        AccountId::parse(name.as_str()).unwrap()
    }
}

/// Joining two valid names by a dot gives a valid name, as long as the result
/// is not too long.
pub proof fn lemma_subaccount_valid(prefix: Seq<char>, parent: Seq<char>)
    requires
        valid_account_id(prefix),
        valid_account_id(parent),
        prefix.len() + 1 + parent.len() <= MAX_ACCOUNT_ID_LEN,
    ensures
        valid_account_id(subaccount_name(prefix, parent)),
{
    let s = subaccount_name(prefix, parent);
    let p = prefix.len() as int;
    assert forall|i: int| 0 <= i < s.len() implies is_id_alnum(#[trigger] s[i]) || is_id_separator(
        s[i],
    ) by {
        if i < p {
            assert(s[i] == prefix[i]);
        } else if i > p {
            assert(s[i] == parent[i - p - 1]);
        }
    }
    assert forall|i: int| 0 <= i < s.len() - 1 implies !(is_id_separator(#[trigger] s[i])
        && is_id_separator(s[i + 1])) by {
        if i < p - 1 {
            assert(s[i] == prefix[i]);
            assert(s[i + 1] == prefix[i + 1]);
        } else if i == p - 1 {
            assert(s[i] == prefix[p - 1]);
        } else if i == p {
            assert(s[i + 1] == parent[0]);
        } else {
            assert(s[i] == parent[i - p - 1]);
            assert(s[i + 1] == parent[i - p]);
        }
    }
    assert(s[0] == prefix[0]);
    assert(s[s.len() - 1] == parent[parent.len() - 1]);
}

} // verus!
