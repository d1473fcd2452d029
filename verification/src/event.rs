//! The event router: authorizes inbound bus events and converts them into
//! webhook delivery tasks.
//!
//! Routing is decided by an immutable per-audience table, loaded once at
//! startup: each audience has one callback URL and a list of account
//! identities allowed to send events for it. An event is forwarded, with its
//! payload unchanged, only if its topic names a configured audience and its
//! source account is in that audience's allow-list.

use vstd::prelude::*;

use crate::error::{ErrorKind, GatewayError};
use crate::identity::{account_key, account_text, AccountId};
use crate::topic::{audience_of, extract_audience};
use crate::value::Value;

verus! {

/// Routing data of one audience: the webhook callback URL and the accounts
/// allowed to send events for the audience.
#[derive(Debug)]
pub struct Config {
    callback: String,
    sources: Vec<AccountId>,
}

impl Config {
    /// Builds the routing data of one audience.
    pub fn new(callback: String, sources: Vec<AccountId>) -> (r: Config)
        ensures
            r.spec_callback() == callback@,
            r.spec_sources() == sources@,
    {
        Config { callback, sources }
    }

    /// The audience's webhook callback URL.
    pub fn callback(&self) -> (r: &String)
        ensures
            r@ == self.spec_callback(),
    {
        &self.callback
    }

    /// The accounts allowed to send events for the audience.
    pub fn sources(&self) -> (r: &Vec<AccountId>)
        ensures
            r@ == self.spec_sources(),
    {
        &self.sources
    }

    /// The callback URL as a mathematical value.
    pub closed spec fn spec_callback(&self) -> Seq<char> {
        self.callback@
    }

    /// The allow-list as a mathematical value.
    pub closed spec fn spec_sources(&self) -> Seq<AccountId> {
        self.sources@
    }
}

/// Whether `a` names the same account as some entry of `sources`.
pub open spec fn has_source(sources: Seq<AccountId>, a: &AccountId) -> bool {
    exists|i: int| 0 <= i < sources.len() && account_key(&sources[i]) == account_key(a)
}

/// Whether `sources` contains the account `a`.
fn contains_account(sources: &Vec<AccountId>, a: &AccountId) -> (r: bool)
    ensures
        r == has_source(sources@, a),
{
    let mut i: usize = 0;
    while i < sources.len()
        invariant
            i <= sources@.len(),
            forall|j: int| 0 <= j < i ==> account_key(&sources@[j]) != account_key(a),
        decreases sources@.len() - i,
    {
        if sources[i].same_account(a) {
            return true;
        }
        i = i + 1;
    }
    false
}

/// The per-audience routing table: audience name to routing data, with each
/// audience configured at most once.
#[derive(Debug)]
pub struct ConfigMap {
    entries: Vec<(String, Config)>,
}

/// The routing data configured for `name`: that of the first entry carrying
/// it.
pub open spec fn spec_lookup(entries: Seq<(String, Config)>, name: Seq<char>) -> Option<Config>
    decreases entries.len(),
{
    if entries.len() == 0 {
        None
    } else if entries[0].0@ == name {
        Some(entries[0].1)
    } else {
        spec_lookup(entries.drop_first(), name)
    }
}

impl ConfigMap {
    /// The table's entries as a mathematical value.
    pub closed spec fn entries(&self) -> Seq<(String, Config)> {
        self.entries@
    }

    /// The table's invariant: no audience is configured twice.
    pub open spec fn wf(&self) -> bool {
        forall|i: int, j: int|
            0 <= i < j < self.entries().len() ==> self.entries()[i].0@ != self.entries()[j].0@
    }

    /// An empty routing table.
    pub fn new() -> (r: ConfigMap)
        ensures
            r.entries() == Seq::<(String, Config)>::empty(),
            r.wf(),
    {
        ConfigMap { entries: Vec::new() }
    }

    /// Adds the routing data of one audience. Refuses, leaving the table
    /// unchanged, an audience that is already configured, so that the
    /// table's invariant is kept.
    pub fn add(&mut self, audience: String, config: Config) -> (r: bool)
        ensures
            old(self).wf() ==> final(self).wf(),
            r == (spec_lookup(old(self).entries(), audience@) is None),
            r ==> final(self).entries() == old(self).entries().push((audience, config)),
            !r ==> final(self).entries() == old(self).entries(),
    {
        if self.lookup_ref(&audience).is_some() {
            return false;
        }
        proof {
            lemma_lookup_none_means_absent(self.entries(), audience@);
        }
        let ghost before = self.entries();
        self.entries.push((audience, config));
        assert forall|i: int, j: int|
            old(self).wf() && 0 <= i < j < self.entries().len() implies self.entries()[i].0@
            != self.entries()[j].0@ by {
            if j < before.len() {
            } else {
                assert(self.entries()[j] == (audience, config));
            }
        }
        true
    }

    /// The routing data configured for `name`, if any.
    pub fn lookup_ref(&self, name: &String) -> (r: Option<&Config>)
        ensures
            match r {
                Some(c) => spec_lookup(self.entries(), name@) == Some(*c),
                None => spec_lookup(self.entries(), name@) is None,
            },
    {
        let n = self.entries.len();
        let mut i: usize = 0;
        assert(self.entries@.subrange(0, n as int) =~= self.entries@);
        while i < n
            invariant
                i <= n == self.entries@.len(),
                spec_lookup(self.entries@, name@) == spec_lookup(
                    self.entries@.subrange(i as int, n as int),
                    name@,
                ),
            decreases n - i,
        {
            let entry = &self.entries[i];
            if entry.0.eq(name) {
                assert(self.entries@.subrange(i as int, n as int)[0] == self.entries@[i as int]);
                return Some(&self.entries[i].1);
            }
            assert(self.entries@.subrange(i as int, n as int).drop_first() =~= self.entries@.subrange(
                i + 1,
                n as int,
            ));
            assert(self.entries@.subrange(i as int, n as int)[0] == self.entries@[i as int]);
            i = i + 1;
        }
        None
    }
}

/// An absent lookup means no entry carries the name.
pub proof fn lemma_lookup_none_means_absent(entries: Seq<(String, Config)>, name: Seq<char>)
    requires
        spec_lookup(entries, name) is None,
    ensures
        forall|i: int| 0 <= i < entries.len() ==> (#[trigger] entries[i]).0@ != name,
    decreases entries.len(),
{
    if entries.len() > 0 {
        lemma_lookup_none_means_absent(entries.drop_first(), name);
        assert(forall|i: int|
            0 <= i < entries.drop_first().len() ==> #[trigger] entries.drop_first()[i]
                == entries[i + 1]);
        assert forall|i: int| 0 <= i < entries.len() implies (#[trigger] entries[i]).0@
            != name by {
            if i > 0 {
                assert(entries.drop_first()[i - 1] == entries[i]);
            }
        }
    }
}

/// A webhook delivery task: the forwarded payload and the URL it goes to.
#[derive(Debug)]
pub struct OutgoingMessage {
    pub payload: Value,
    pub destination: String,
}

impl OutgoingMessage {
    /// Builds a delivery task.
    pub fn new(payload: Value, destination: &String) -> (r: OutgoingMessage)
        ensures
            r.payload == payload,
            r.destination@ == destination@,
    {
        OutgoingMessage { payload, destination: destination.clone() }
    }
}

/// The routing decision for an event: the payload to forward and the
/// callback URL to send it to, or the kind of failure. A topic without the
/// required shape is a parse failure; an unconfigured audience or a source
/// outside the audience's allow-list is an authorization failure.
pub open spec fn route(
    entries: Seq<(String, Config)>,
    topic: Seq<char>,
    source: &AccountId,
    payload: Value,
) -> Result<(Value, Seq<char>), ErrorKind> {
    match audience_of(topic) {
        Option::None => Err(ErrorKind::Parse),
        Option::Some(aud) => match spec_lookup(entries, aud) {
            Option::None => Err(ErrorKind::Authorization),
            Option::Some(c) => if has_source(c.spec_sources(), source) {
                Ok((payload, c.spec_callback()))
            } else {
                Err(ErrorKind::Authorization)
            },
        },
    }
}

/// The text of the failure for an audience no entry is configured for.
pub open spec fn audience_not_allowed_detail(aud: Seq<char>) -> Seq<char> {
    "sending events for audience = '"@ + aud + "' is not allowed"@
}

/// The text of the failure for a source account outside an audience's
/// allow-list, naming both.
pub open spec fn source_not_allowed_detail(aud: Seq<char>, source: Seq<char>) -> Seq<char> {
    "sending events for audience = '"@ + aud + "' from application = '"@ + source
        + "' is not allowed"@
}

/// The event router's immutable state: the per-audience routing table.
pub struct State {
    config: ConfigMap,
}

impl State {
    /// Builds the router around its routing table.
    pub fn new(config: ConfigMap) -> (r: State)
        ensures
            r.config() == config.entries(),
    {
        State { config }
    }

    /// The routing table's entries.
    pub closed spec fn config(&self) -> Seq<(String, Config)> {
        self.config.entries()
    }

    /// Authorizes one inbound event and converts it into a webhook delivery
    /// task: the payload is forwarded unchanged to the audience's callback
    /// URL exactly when the topic names a configured audience and the source
    /// account is in its allow-list.
    pub fn handle(&self, topic: &str, payload: Value, source: &AccountId) -> (r: Result<
        OutgoingMessage,
        GatewayError,
    >)
        ensures
            match r {
                Ok(m) => route(self.config(), topic@, source, payload) == Ok::<
                    (Value, Seq<char>),
                    ErrorKind,
                >((m.payload, m.destination@)),
                Err(e) => {
                    &&& route(self.config(), topic@, source, payload) == Err::<
                        (Value, Seq<char>),
                        ErrorKind,
                    >(e.kind)
                    &&& match audience_of(topic@) {
                        Option::None => e.detail@ == crate::topic::pattern_detail(topic@),
                        Option::Some(aud) => match spec_lookup(self.config(), aud) {
                            Option::None => e.detail@ == audience_not_allowed_detail(aud),
                            Option::Some(c) => e.detail@ == source_not_allowed_detail(
                                aud,
                                account_text(source),
                            ),
                        },
                    }
                },
            },
    {
        let audience = match extract_audience(topic) {
            Ok(a) => a,
            Err(e) => {
                return Err(e);
            },
        };
        match self.config.lookup_ref(&audience) {
            Option::None => {
                let mut detail = String::from_str("sending events for audience = '");
                detail.append(audience.as_str());
                detail.append("' is not allowed");
                Err(GatewayError::new(ErrorKind::Authorization, detail))
            },
            Option::Some(c) => {
                if contains_account(c.sources(), source) {
                    Ok(OutgoingMessage::new(payload, c.callback()))
                } else {
                    let mut detail = String::from_str("sending events for audience = '");
                    detail.append(audience.as_str());
                    detail.append("' from application = '");
                    detail.append(source.to_text().as_str());
                    detail.append("' is not allowed");
                    Err(GatewayError::new(ErrorKind::Authorization, detail))
                }
            },
        }
    }
}

} // verus!
