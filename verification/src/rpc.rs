//! Replies of the Ethereum node's JSON-RPC interface: the `result` member of
//! a reply, as text.
use vstd::prelude::*;
use std::collections::HashMap;

verus! {

/// Name for what `serde_json` reads from a reply body taken as a map from
/// member names to JSON values: `None` when the body is not a JSON object;
/// otherwise the member named `result` written back as JSON text by
/// `serde_json::to_string`, or `None` inside when there is no such member.
pub uninterp spec fn reply_result_json(body: Seq<char>) -> Option<Option<Seq<char>>>;

/// A reply read as above, with its texts as character sequences.
pub open spec fn reply_view(r: Option<Option<String>>) -> Option<Option<Seq<char>>> {
    match r {
        None => None,
        Some(None) => Some(None),
        Some(Some(s)) => Some(Some(s@)),
    }
}

/// Calls `serde_json::from_str::<HashMap<String, Value>>` on the reply body
/// and `serde_json::to_string` on its `result` member (writing a `Value`
/// does not fail).
#[verifier::external_body]
fn read_reply_result(body: &str) -> (r: Option<Option<String>>)
    ensures
        reply_view(r) == reply_result_json(body@),
{
    let map: HashMap<String, serde_json::Value> = serde_json::from_str(body).ok()?;
    Some(map.get("result").map(|v| serde_json::to_string(v).unwrap()))
}

/// `s` without all the double quotes at its start and at its end, as
/// `str::trim_matches('"')` leaves it.
pub open spec fn trim_quotes(s: Seq<char>) -> Seq<char>
    decreases s.len(),
{
    if s.len() > 0 && s[0] == '"' {
        trim_quotes(s.drop_first())
    } else if s.len() > 0 && s.last() == '"' {
        trim_quotes(s.drop_last())
    } else {
        s
    }
}

/// Removes the double quotes at both ends of a text.
fn trim_quote_chars(s: &str) -> (t: String)
    ensures
        t@ == trim_quotes(s@),
{
    let n = s.unicode_len();
    let mut i: usize = 0;
    proof {
        assert(s@.subrange(0, n as int) =~= s@);
    }
    while i < n && s.get_char(i) == '"'
        invariant
            n == s@.len(),
            i <= n,
            trim_quotes(s@) == trim_quotes(s@.subrange(i as int, n as int)),
        decreases n - i,
    {
        proof {
            assert(s@.subrange(i as int, n as int).drop_first() =~= s@.subrange(i + 1, n as int));
        }
        i = i + 1;
    }
    let mut j: usize = n;
    while j > i && s.get_char(j - 1) == '"'
        invariant
            n == s@.len(),
            i <= j <= n,
            i < n ==> s@[i as int] != '"',
            trim_quotes(s@) == trim_quotes(s@.subrange(i as int, j as int)),
        decreases j - i,
    {
        proof {
            let sub = s@.subrange(i as int, j as int);
            assert(sub[0] == s@[i as int]);
            assert(sub.last() == s@[j - 1]);
            assert(sub.drop_last() =~= s@.subrange(i as int, j - 1));
        }
        j = j - 1;
    }
    proof {
        let sub = s@.subrange(i as int, j as int);
        if sub.len() > 0 {
            assert(sub[0] == s@[i as int]);
            assert(sub.last() == s@[j - 1]);
        }
    }
    s.substring_char(i, j).to_string()
}

/// Whether a reply is not a JSON object without a `result` member: either
/// it is no JSON object at all, or it has a result.
pub fn reply_has_result(body: &str) -> (b: bool)
    ensures
        b <==> !(reply_result_json(body@) matches Some(None)),
{
    match read_reply_result(body) {
        Some(None) => false,
        _ => true,
    }
}

/// The `result` of a JSON-RPC reply as text: the member written as JSON,
/// with the double quotes around a string taken off. `None` when the reply
/// is not a JSON object. A JSON object must carry a result.
pub fn rpc_result(body: &str) -> (r: Option<String>)
    requires
        !(reply_result_json(body@) matches Some(None)),
    ensures
        r is Some <==> reply_result_json(body@) is Some,
        r matches Some(s) ==> s@ == trim_quotes(reply_result_json(body@)->0->0),
{
    match read_reply_result(body) {
        Some(Some(text)) => Some(trim_quote_chars(text.as_str())),
        _ => None,
    }
}

/// Why a reply yields no result text.
#[derive(Debug)]
pub enum ReplyError {
    /// The body is not a JSON object.
    NotJson,
    /// The object has no `result` member.
    NoResult,
}

/// The `result` of any reply: the text `rpc_result` reads, after checking
/// that a JSON object carries a result.
pub fn checked_rpc_result(body: &str) -> (r: Result<String, ReplyError>)
    ensures
        r is Ok <==> reply_result_json(body@) matches Some(Some(_)),
        r matches Ok(s) ==> s@ == trim_quotes(reply_result_json(body@)->0->0),
        r matches Err(e) ==> (e is NotJson <==> reply_result_json(body@) is None),
{
    if !reply_has_result(body) {
        return Err(ReplyError::NoResult);
    }
    match rpc_result(body) {
        Some(s) => Ok(s),
        None => Err(ReplyError::NotJson),
    }
}

} // verus!
