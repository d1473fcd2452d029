//! Identity model: accounts and agents on the bus.
//!
//! An account is written `label.audience` (the audience may itself contain
//! dots, so the account label ends at the first dot). An agent is one running
//! instance of an account, written `agent_label.label.audience`; its account
//! identity is everything after the first dot.

use vstd::prelude::*;

verus! {

/// Identity of a remote account: a label and the audience it belongs to.
#[derive(Debug)]
pub struct AccountId {
    pub label: String,
    pub audience: String,
}

/// Identity of one running agent of an account.
#[derive(Debug)]
pub struct AgentId {
    pub label: String,
    pub account: AccountId,
}

/// The mathematical value of an account identity: its two name components.
pub open spec fn account_key(a: &AccountId) -> (Seq<char>, Seq<char>) {
    (a.label@, a.audience@)
}

impl AccountId {
    /// Builds an account identity from its components.
    pub fn new(label: String, audience: String) -> (r: AccountId)
        ensures
            r.label@ == label@,
            r.audience@ == audience@,
    {
        AccountId { label, audience }
    }

    /// Whether two account identities name the same account.
    pub fn same_account(&self, other: &AccountId) -> (r: bool)
        ensures
            r == (account_key(self) == account_key(other)),
    {
        let label_eq = self.label == other.label;
        let audience_eq = self.audience == other.audience;
        label_eq && audience_eq
    }

    /// The textual form `label.audience`.
    pub fn to_text(&self) -> (r: String)
        ensures
            r@ == account_text(self),
    {
        let mut out = String::from_str(self.label.as_str());
        out.append(".");
        out.append(self.audience.as_str());
        out
    }
}

/// The textual form of an account identity.
pub open spec fn account_text(a: &AccountId) -> Seq<char> {
    a.label@ + "."@ + a.audience@
}

/// The textual form of an agent identity.
pub open spec fn agent_text(a: &AgentId) -> Seq<char> {
    a.label@ + "."@ + account_text(&a.account)
}

impl AgentId {
    /// Builds an agent identity from its components.
    pub fn new(label: String, account: AccountId) -> (r: AgentId)
        ensures
            r.label@ == label@,
            r.account == account,
    {
        AgentId { label, account }
    }

    /// The account this agent belongs to.
    pub fn as_account_id(&self) -> (r: &AccountId)
        ensures
            r == &self.account,
    {
        &self.account
    }

    /// The textual form `agent_label.label.audience`.
    pub fn to_text(&self) -> (r: String)
        ensures
            r@ == agent_text(self),
    {
        let mut out = String::from_str(self.label.as_str());
        out.append(".");
        out.append(self.account.to_text().as_str());
        out
    }
}

/// Index of the first `.` in `s` at or after `i`, or the length of `s` if
/// there is none.
pub open spec fn first_dot_from(s: Seq<char>, i: int) -> int
    recommends
        0 <= i <= s.len(),
    decreases s.len() - i,
{
    if i < 0 || i >= s.len() {
        s.len() as int
    } else if s[i] == '.' {
        i
    } else {
        first_dot_from(s, i + 1)
    }
}

/// The account identity written in `s`, if any: the label before the first
/// dot and the audience after it. Without a dot, `s` names no account.
pub open spec fn account_of_text(s: Seq<char>) -> Option<(Seq<char>, Seq<char>)> {
    let d = first_dot_from(s, 0);
    if d == s.len() {
        None
    } else {
        Some((s.subrange(0, d), s.subrange(d + 1, s.len() as int)))
    }
}

/// The agent identity written in `s`, if any: the agent label before the
/// first dot, then the account written after it.
pub open spec fn agent_of_text(s: Seq<char>) -> Option<(Seq<char>, (Seq<char>, Seq<char>))> {
    let d = first_dot_from(s, 0);
    if d == s.len() {
        None
    } else {
        match account_of_text(s.subrange(d + 1, s.len() as int)) {
            None => None,
            Some(k) => Some((s.subrange(0, d), k)),
        }
    }
}

/// Index of the first `.` in `s`, or its length if there is none.
fn find_first_dot(s: &str) -> (d: usize)
    ensures
        d as int == first_dot_from(s@, 0),
        d <= s@.len(),
{
    let n = s.unicode_len();
    let mut i: usize = 0;
    while i < n && s.get_char(i) != '.'
        invariant
            i <= n == s@.len(),
            first_dot_from(s@, 0) == first_dot_from(s@, i as int),
        decreases n - i,
    {
        i = i + 1;
    }
    i
}

/// Parses an account identity out of its textual form `label.audience`,
/// splitting at the first dot; text without a dot names no account.
pub fn parse_account_id(s: &str) -> (r: Option<AccountId>)
    ensures
        match r {
            Some(a) => account_of_text(s@) == Some(account_key(&a)),
            None => account_of_text(s@) is None,
        },
{
    let n = s.unicode_len();
    let d = find_first_dot(s);
    if d == n {
        return None;
    }
    let label = String::from_str(s.substring_char(0, d));
    let audience = String::from_str(s.substring_char(d + 1, n));
    Some(AccountId { label, audience })
}

/// Parses an agent identity out of its textual form
/// `agent_label.label.audience`, splitting the agent label off at the first
/// dot and reading the account after it.
pub fn parse_agent_id(s: &str) -> (r: Option<AgentId>)
    ensures
        match r {
            Some(a) => agent_of_text(s@) == Some((a.label@, account_key(&a.account))),
            None => agent_of_text(s@) is None,
        },
{
    let n = s.unicode_len();
    let d = find_first_dot(s);
    if d == n {
        return None;
    }
    let label = String::from_str(s.substring_char(0, d));
    match parse_account_id(s.substring_char(d + 1, n)) {
        Some(account) => Some(AgentId { label, account }),
        None => None,
    }
}

/// Writing inverts parsing: the textual form of an account whose label
/// holds no dot parses back to the same account.
pub proof fn lemma_account_text_round_trip(a: &AccountId)
    requires
        !a.label@.contains('.'),
    ensures
        account_of_text(account_text(a)) == Some(account_key(a)),
{
    reveal_strlit(".");
    let t = account_text(a);
    let l = a.label@.len() as int;
    lemma_first_dot_is(t, 0, l);
    assert(t.subrange(0, l) =~= a.label@);
    assert(t.subrange(l + 1, t.len() as int) =~= a.audience@);
}

/// Writing inverts parsing for agents as well: the textual form of an agent
/// whose labels hold no dot parses back to the same identity.
pub proof fn lemma_agent_text_round_trip(a: &AgentId)
    requires
        !a.label@.contains('.'),
        !a.account.label@.contains('.'),
    ensures
        agent_of_text(agent_text(a)) == Some((a.label@, account_key(&a.account))),
{
    reveal_strlit(".");
    let t = agent_text(a);
    let l = a.label@.len() as int;
    lemma_first_dot_is(t, 0, l);
    assert(t.subrange(0, l) =~= a.label@);
    assert(t.subrange(l + 1, t.len() as int) =~= account_text(&a.account));
    lemma_account_text_round_trip(&a.account);
}

/// A dot preceded only by dot-free text is the first dot.
pub proof fn lemma_first_dot_is(s: Seq<char>, i: int, d: int)
    requires
        0 <= i <= d < s.len(),
        s[d] == '.',
        forall|k: int| i <= k < d ==> s[k] != '.',
    ensures
        first_dot_from(s, i) == d,
    decreases d - i,
{
    if i < d {
        lemma_first_dot_is(s, i + 1, d);
    }
}

} // verus!
