//! The authenticating handshake: the upgrade request's `auth` query
//! parameter must equal the process token.
use vstd::prelude::*;
use crate::connection::{METADATA_DELAY_MS, STATE_DELAY_MS};
use crate::hub::{registered, ClientId, Hub};
use crate::text::{concat3, str_eq};
use crate::util::ct_eq;

verus! {

/// The decoded query pairs of a URL text, in order, where it parses.
pub uninterp spec fn query_pairs_of(url: Seq<char>) -> Option<Seq<(Seq<char>, Seq<char>)>>;

/// The model of text pairs.
pub open spec fn pairs_view(v: Seq<(String, String)>) -> Seq<(Seq<char>, Seq<char>)> {
    v.map_values(|p: (String, String)| (p.0@, p.1@))
}

/// Relies on url::Url::parse and the query pairs of the parsed URL
/// (`Url::query_pairs`, percent-decoded, in order): both depend on the
/// text alone.
#[verifier::external_body]
fn url_query_pairs(url: &str) -> (r: Option<Vec<(String, String)>>)
    ensures
        match r {
            Some(v) => query_pairs_of(url@) == Some(pairs_view(v@)),
            None => query_pairs_of(url@) is None,
        },
{
    url::Url::parse(url).ok().map(|u| u.query_pairs().map(|(k, v)| (k.into_owned(), v.into_owned())).collect())
}

/// The value of the first pair named `key`.
pub open spec fn first_value(pairs: Seq<(Seq<char>, Seq<char>)>, key: Seq<char>) -> Option<Seq<char>>
    decreases pairs.len(),
{
    if pairs.len() == 0 {
        None
    } else if pairs[0].0 == key {
        Some(pairs[0].1)
    } else {
        first_value(pairs.drop_first(), key)
    }
}

/// Outcome of the upgrade handshake.
#[derive(Debug, Clone, Copy, PartialEq, Eq)]
pub enum Handshake {
    /// The token matched: upgrade.
    Accept,
    /// Missing or wrong token: HTTP 401.
    Unauthorized,
    /// The request target does not parse: HTTP 400.
    BadRequest,
}

/// The URL the handshake reads: the request target under its authority,
/// `localhost` when it has none.
pub open spec fn handshake_url(authority: Option<Seq<char>>, uri: Seq<char>) -> Seq<char> {
    "ws://"@ + match authority {
        Some(a) => a,
        None => "localhost"@,
    } + uri
}

/// The handshake decision.
pub open spec fn handshake_spec(authority: Option<Seq<char>>, uri: Seq<char>, token: Seq<char>) -> Handshake {
    match query_pairs_of(handshake_url(authority, uri)) {
        None => Handshake::BadRequest,
        Some(pairs) => match first_value(pairs, "auth"@) {
            Some(t) => if t == token {
                Handshake::Accept
            } else {
                Handshake::Unauthorized
            },
            None => Handshake::Unauthorized,
        },
    }
}

fn find_value<'a>(pairs: &'a Vec<(String, String)>, key: &str) -> (r: Option<&'a String>)
    ensures
        match r {
            Some(v) => first_value(pairs_view(pairs@), key@) == Some(v@),
            None => first_value(pairs_view(pairs@), key@) is None,
        },
{
    let ghost pv = pairs_view(pairs@);
    let mut i: usize = 0;
    assert(pv.subrange(0, pv.len() as int) =~= pv);
    while i < pairs.len()
        invariant
            i <= pairs@.len(),
            pv == pairs_view(pairs@),
            first_value(pv, key@) == first_value(pv.subrange(i as int, pv.len() as int), key@),
        decreases pairs.len() - i,
    {
        let ghost rest = pv.subrange(i as int, pv.len() as int);
        assert(rest.drop_first() =~= pv.subrange(i + 1, pv.len() as int));
        assert(rest[0] == pv[i as int]);
        if str_eq(pairs[i].0.as_str(), key) {
            return Some(&pairs[i].1);
        }
        i += 1;
    }
    None
}

/// Decides the upgrade: the first `auth` query parameter must equal the
/// token, compared in constant time.
pub fn check_handshake(authority: Option<&str>, uri: &str, expected_token: &str) -> (r: Handshake)
    ensures
        r == handshake_spec(
            match authority {
                Some(a) => Some(a@),
                None => None,
            },
            uri@,
            expected_token@,
        ),
{
    let host = match authority {
        Some(a) => a,
        None => "localhost",
    };
    let url = concat3("ws://", host, uri);
    match url_query_pairs(url.as_str()) {
        None => Handshake::BadRequest,
        Some(pairs) => match find_value(&pairs, "auth") {
            Some(t) => if ct_eq(t.as_str(), expected_token) {
                Handshake::Accept
            } else {
                Handshake::Unauthorized
            },
            None => Handshake::Unauthorized,
        },
    }
}

impl Handshake {
    /// The HTTP status of the upgrade response.
    pub fn status(&self) -> (r: u16)
        ensures
            r == match self {
                Handshake::Accept => 101u16,
                Handshake::Unauthorized => 401u16,
                Handshake::BadRequest => 400u16,
            },
    {
        match self {
            Handshake::Accept => 101,
            Handshake::Unauthorized => 401,
            Handshake::BadRequest => 400,
        }
    }
}

/// What a newly admitted client is owed: `pluginMetadata` after the first
/// delay, then the editor-state burst after the second.
#[derive(Debug, Clone, Copy, PartialEq, Eq)]
pub struct InitialState {
    pub client: ClientId,
    pub metadata_delay_ms: u64,
    pub state_delay_ms: u64,
}

/// Registers the client of an accepted handshake; any other outcome leaves
/// the hub untouched.
pub fn accept_client(hub: &mut Hub, decision: Handshake) -> (r: Option<InitialState>)
    requires
        old(hub).wf(),
        old(hub).next_id_spec() < u64::MAX,
    ensures
        final(hub).wf(),
        decision != Handshake::Accept ==> r is None && final(hub)@ == old(hub)@
            && final(hub).next_id_spec() == old(hub).next_id_spec(),
        decision == Handshake::Accept ==> (r matches Some(s) && {
            &&& s.client == old(hub).next_id_spec()
            &&& !registered(old(hub)@, s.client)
            &&& final(hub)@ == old(hub)@.push((s.client, Seq::<Seq<char>>::empty()))
            &&& s.metadata_delay_ms == METADATA_DELAY_MS
            &&& s.state_delay_ms == STATE_DELAY_MS
        }),
{
    match decision {
        Handshake::Accept => {
            let id = hub.next_client_id();
            let ghost before = hub@;
            hub.register(id);
            assert(crate::hub::without_client(before, id) == before);
            Some(InitialState { client: id, metadata_delay_ms: METADATA_DELAY_MS, state_delay_ms: STATE_DELAY_MS })
        },
        _ => None,
    }
}

/// A wrong token gets 401.
pub proof fn law_wrong_token_unauthorized(authority: Option<Seq<char>>, uri: Seq<char>, token: Seq<char>)
    requires
        query_pairs_of(handshake_url(authority, uri)) matches Some(p) && first_value(p, "auth"@) matches Some(t)
            && t != token,
    ensures
        handshake_spec(authority, uri, token) == Handshake::Unauthorized,
{
}

/// A missing `auth` parameter gets 401.
pub proof fn law_missing_token_unauthorized(authority: Option<Seq<char>>, uri: Seq<char>, token: Seq<char>)
    requires
        query_pairs_of(handshake_url(authority, uri)) matches Some(p) && first_value(p, "auth"@) is None,
    ensures
        handshake_spec(authority, uri, token) == Handshake::Unauthorized,
{
}

/// The right token is accepted.
pub proof fn law_right_token_accepted(authority: Option<Seq<char>>, uri: Seq<char>, token: Seq<char>)
    requires
        query_pairs_of(handshake_url(authority, uri)) matches Some(p) && first_value(p, "auth"@) == Some(token),
    ensures
        handshake_spec(authority, uri, token) == Handshake::Accept,
{
}

} // verus!
