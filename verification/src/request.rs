//! Options that a request carries besides its body: the `debug` query flag
//! and the `node` header that pins the request to one cluster node.

use vstd::prelude::*;

use crate::routing::text_eq;
use vstd::string::StringSliceAdditionalSpecFns;

verus! {

/// The name/value pairs that `form_urlencoded::parse` yields for the given
/// bytes, each name and value taken by its characters.
pub uninterp spec fn form_urlencoded_pairs(input: Seq<u8>) -> Seq<(Seq<char>, Seq<char>)>;

/// The characters of each pair of strings, in order.
pub open spec fn pairs_view(pairs: Seq<(String, String)>) -> Seq<(Seq<char>, Seq<char>)> {
    pairs.map_values(|p: (String, String)| (p.0@, p.1@))
}

/// Calls `url::form_urlencoded::parse` on the bytes and collects the
/// (percent-decoded) pairs it yields, in order. The contract claims only that
/// the collected pairs are what that parser yields for these bytes.
#[verifier::external_body]
fn form_pairs(input: &[u8]) -> (r: Vec<(String, String)>)
    ensures
        pairs_view(r@) == form_urlencoded_pairs(input@),
{
    url::form_urlencoded::parse(input).into_owned().collect()
}

/// The decoded pairs of a request URI's query string, in order; none when
/// the URI has no query.
pub fn query_pairs(query: Option<&str>) -> (r: Vec<(String, String)>)
    ensures
        pairs_view(r@) == match query {
            Some(q) => form_urlencoded_pairs(q.spec_bytes()),
            None => Seq::empty(),
        },
{
    match query {
        Some(q) => form_pairs(q.as_bytes()),
        None => {
            let v: Vec<(String, String)> = Vec::new();
            assert(pairs_view(v@) =~= Seq::empty());
            v
        },
    }
}

/// The value of the first pair named `key`, or `default` when no pair has
/// that name.
pub open spec fn first_value_or(
    pairs: Seq<(Seq<char>, Seq<char>)>,
    key: Seq<char>,
    default: Seq<char>,
) -> Seq<char>
    decreases pairs.len(),
{
    if pairs.len() == 0 {
        default
    } else if pairs[0].0 == key {
        pairs[0].1
    } else {
        first_value_or(pairs.drop_first(), key, default)
    }
}

/// Looks up the first pair named `key`, falling back to `default`.
pub fn first_value(pairs: &Vec<(String, String)>, key: &str, default: &str) -> (r: String)
    ensures
        r@ == first_value_or(pairs_view(pairs@), key@, default@),
{
    let ghost pv = pairs_view(pairs@);
    assert(pv.subrange(0, pv.len() as int) =~= pv);
    let mut i: usize = 0;
    while i < pairs.len()
        invariant
            0 <= i <= pairs.len(),
            pv == pairs_view(pairs@),
            pv.len() == pairs@.len(),
            first_value_or(pv, key@, default@) == first_value_or(
                pv.subrange(i as int, pv.len() as int),
                key@,
                default@,
            ),
        decreases pairs.len() - i,
    {
        assert(pv[i as int] == (pairs@[i as int].0@, pairs@[i as int].1@));
        assert(pv.subrange(i as int, pv.len() as int).drop_first() =~= pv.subrange(
            i + 1,
            pv.len() as int,
        ));
        if text_eq(pairs[i].0.as_str(), key) {
            return pairs[i].1.clone();
        }
        i = i + 1;
    }
    assert(pv.subrange(i as int, pv.len() as int) =~= Seq::<(Seq<char>, Seq<char>)>::empty());
    default.to_owned()
}

/// A pair whose name differs from `key` changes nothing about which value
/// the first pair named `key` has, wherever it is inserted.
pub proof fn lemma_first_value_ignores_other_names(
    pairs: Seq<(Seq<char>, Seq<char>)>,
    at: int,
    extra: (Seq<char>, Seq<char>),
    key: Seq<char>,
    default: Seq<char>,
)
    requires
        0 <= at <= pairs.len(),
        extra.0 != key,
    ensures
        first_value_or(pairs.insert(at, extra), key, default) == first_value_or(pairs, key, default),
    decreases pairs.len(),
{
    let more = pairs.insert(at, extra);
    if at == 0 {
        assert(more[0] == extra);
        assert(more.drop_first() =~= pairs);
    } else {
        assert(more[0] == pairs[0]);
        assert(more.drop_first() =~= pairs.drop_first().insert(at - 1, extra));
        lemma_first_value_ignores_other_names(pairs.drop_first(), at - 1, extra, key, default);
    }
}

/// Whether one of the pairs is exactly `debug=true`.
pub open spec fn has_debug_pair(pairs: Seq<(Seq<char>, Seq<char>)>) -> bool {
    exists|i: int| 0 <= i < pairs.len() && pairs[i].0 == "debug"@ && pairs[i].1 == "true"@
}

/// Scans decoded query pairs for `debug=true`.
pub fn debug_requested(pairs: &Vec<(String, String)>) -> (r: bool)
    ensures
        r == has_debug_pair(pairs_view(pairs@)),
{
    let ghost pv = pairs_view(pairs@);
    let mut i: usize = 0;
    while i < pairs.len()
        invariant
            0 <= i <= pairs.len(),
            pv == pairs_view(pairs@),
            pv.len() == pairs@.len(),
            forall|j: int| 0 <= j < i ==> !(pv[j].0 == "debug"@ && pv[j].1 == "true"@),
        decreases pairs.len() - i,
    {
        assert(pv[i as int] == (pairs@[i as int].0@, pairs@[i as int].1@));
        if text_eq(pairs[i].0.as_str(), "debug") && text_eq(pairs[i].1.as_str(), "true") {
            return true;
        }
        i = i + 1;
    }
    false
}

/// Whether the query string of a request URI asks for debug output: it does
/// when one of its form-urlencoded pairs is `debug=true`.
pub fn is_debug(query: Option<&str>) -> (r: bool)
    ensures
        r == match query {
            Some(q) => has_debug_pair(form_urlencoded_pairs(q.spec_bytes())),
            None => false,
        },
{
    match query {
        Some(q) => {
            let pairs = form_pairs(q.as_bytes());
            debug_requested(&pairs)
        },
        None => false,
    }
}

/// The port that a node chosen by the `node` header is reached on when the
/// header names none.
pub open spec fn spec_node_port() -> u16 {
    9042
}

/// A cluster node: an IPv4 address (its 32 bits, first octet most
/// significant) and a port.
#[derive(Debug, Clone, Copy, PartialEq, Eq, Structural)]
pub struct NodeAddress {
    pub ip: u32,
    pub port: u16,
}

/// The text of the `node` header that is to be read as an IPv4 address,
/// optionally followed by `:port`: the header's text when it is present (as
/// visible ASCII) and not empty.
pub fn node_header_text(header: Option<String>) -> (r: Option<String>)
    ensures
        match header {
            Some(s) => if s@.len() > 0 { r == Some(s) } else { r is None },
            None => r is None,
        },
{
    match header {
        Some(s) => {
            if s.as_str().is_empty() {
                None
            } else {
                Some(s)
            }
        },
        None => None,
    }
}

/// The node that requests are pinned to once the header's text has been
/// read as the IPv4 address with these 32 bits and, when the header names
/// one, a port; without a port, the node is reached on port 9042.
pub fn node_at(ip: u32, port: Option<u16>) -> (r: NodeAddress)
    ensures
        r.ip == ip,
        r.port == match port {
            Some(p) => p,
            None => spec_node_port(),
        },
{
    let port: u16 = match port {
        Some(p) => p,
        None => 9042,
    };
    NodeAddress { ip, port }
}

} // verus!
