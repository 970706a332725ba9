//! Where to connect: the endpoint address of a device, and the redirect
//! host that the first server names in its greeting.

use vstd::prelude::*;
use crate::error::ObnizError;
use crate::frame::json_layout;

verus! {

#[verifier::external_type_specification]
#[verifier::external_body]
pub struct ExUrl(url::Url);

/// The host every device is first reached through.
pub const OBNIZ_WEBSOCKET_HOST: &'static str = "wss://obniz.io";

/// `s` begins with `p`.
pub open spec fn has_prefix(s: Seq<char>, p: Seq<char>) -> bool {
    p.len() <= s.len() && s.subrange(0, p.len() as int) == p
}

/// The endpoint address of device `id` on `host`.
pub open spec fn endpoint_spec(host: Seq<char>, id: Seq<char>) -> Seq<char> {
    host + "/obniz/"@ + id + "/ws/1"@
}

/// Whether url::Url accepts `s` as an absolute URL.
pub uninterp spec fn is_url(s: Seq<char>) -> bool;

/// The string at `[0]["ws"]["redirect"]` of the JSON document `text`, if
/// there is one.
pub uninterp spec fn redirect_of(text: Seq<char>) -> Option<Seq<char>>;

/// Relies on url::Url::parse: whether it accepts a text depends on the
/// text alone. Its error is dropped.
#[verifier::external_body]
fn parse_url(s: &str) -> (r: Option<url::Url>)
    ensures
        r is Some <==> is_url(s@),
{
    url::Url::parse(s).ok()
}

/// Relies on serde_json::from_str::<Value> (it fails exactly on text that
/// is not JSON) and on indexing a Value, which yields null where a path is
/// missing, and Value::as_str.
#[verifier::external_body]
fn redirect_field(text: &str) -> (r: Result<Option<String>, serde_json::Error>)
    ensures
        r is Err <==> json_layout(text@) is None,
        r matches Ok(found) ==> (found is Some <==> redirect_of(text@) is Some),
        r matches Ok(Some(h)) ==> redirect_of(text@) == Some(h@),
{
    let doc: serde_json::Value = serde_json::from_str(text)?;
    Ok(doc[0]["ws"]["redirect"].as_str().map(|h| h.to_string()))
}

fn starts_with(s: &str, p: &str) -> (r: bool)
    ensures
        r == has_prefix(s@, p@),
{
    let n = s.unicode_len();
    let m = p.unicode_len();
    if m > n {
        return false;
    }
    let head = String::from_str(s.substring_char(0, m));
    let prefix = String::from_str(p);
    head == prefix
}

/// The endpoint address of device `obniz_id` on `host`, which must be a
/// secure WebSocket host.
pub fn endpoint_text(host: &str, obniz_id: &str) -> (r: Result<String, ObnizError>)
    ensures
        r is Ok <==> has_prefix(host@, "wss://"@),
        r matches Ok(s) ==> s@ == endpoint_spec(host@, obniz_id@),
        r matches Err(e) ==> (e matches ObnizError::Connection(m) && m@
            == "Illegal url, host needs to start with 'wss://'"@),
{
    if !starts_with(host, "wss://") {
        return Err(ObnizError::Connection(String::from_str("Illegal url, host needs to start with 'wss://'")));
    }
    let mut s = String::from_str(host);
    s.append("/obniz/");
    s.append(obniz_id);
    s.append("/ws/1");
    Ok(s)
}

/// The endpoint URL of device `obniz_id` on `host`.
pub fn endpoint_url(host: &str, obniz_id: &str) -> (r: Result<url::Url, ObnizError>)
    ensures
        !has_prefix(host@, "wss://"@) ==> (r matches Err(ObnizError::Connection(m)) && m@
            == "Illegal url, host needs to start with 'wss://'"@),
        has_prefix(host@, "wss://"@) ==> (r is Ok <==> is_url(endpoint_spec(host@, obniz_id@))),
        has_prefix(host@, "wss://"@) && r is Err ==> (r matches Err(ObnizError::Connection(m))
            && m@ == "Failed to parse endpoint url"@),
{
    let text = match endpoint_text(host, obniz_id) {
        Ok(t) => t,
        Err(e) => return Err(e),
    };
    match parse_url(text.as_str()) {
        Some(u) => Ok(u),
        None => Err(ObnizError::Connection(String::from_str("Failed to parse endpoint url"))),
    }
}

/// Checks the redirect host found in the greeting: it must be there, not
/// empty, and a secure WebSocket host.
pub fn check_redirect_host(found: Option<String>) -> (r: Result<String, ObnizError>)
    ensures
        found is None ==> (r matches Err(ObnizError::Connection(m)) && m@
            == "Failed to get redirect host name"@),
        found matches Some(h) ==> (h@.len() == 0 ==> (r matches Err(ObnizError::Connection(m))
            && m@ == "Redirect host name is empty"@)),
        found matches Some(h) ==> (h@.len() > 0 && !has_prefix(h@, "wss://"@) ==> (r matches Err(
            ObnizError::Connection(m),
        ) && m@ == "Redirect host name is bad format"@)),
        found matches Some(h) ==> (h@.len() > 0 && has_prefix(h@, "wss://"@) ==> (r matches Ok(
            g,
        ) && g@ == h@)),
{
    match found {
        None => Err(ObnizError::Connection(String::from_str("Failed to get redirect host name"))),
        Some(h) => {
            if h.as_str().unicode_len() == 0 {
                Err(ObnizError::Connection(String::from_str("Redirect host name is empty")))
            } else if !starts_with(h.as_str(), "wss://") {
                Err(ObnizError::Connection(String::from_str("Redirect host name is bad format")))
            } else {
                Ok(h)
            }
        },
    }
}

/// The redirect host named by the greeting `text` of the first server.
pub fn redirect_host(text: &str) -> (r: Result<String, ObnizError>)
    ensures
        json_layout(text@) is None ==> (r matches Err(ObnizError::JsonParse(m)) && m@
            == "Failed to parse json"@),
        json_layout(text@) is Some ==> match redirect_of(text@) {
            None => r matches Err(ObnizError::Connection(m)) && m@
                == "Failed to get redirect host name"@,
            Some(h) => if h.len() == 0 {
                r matches Err(ObnizError::Connection(m)) && m@ == "Redirect host name is empty"@
            } else if !has_prefix(h, "wss://"@) {
                r matches Err(ObnizError::Connection(m)) && m@
                    == "Redirect host name is bad format"@
            } else {
                r matches Ok(g) && g@ == h
            },
        },
{
    match redirect_field(text) {
        Ok(found) => check_redirect_host(found),
        Err(_) => Err(ObnizError::JsonParse(String::from_str("Failed to parse json"))),
    }
}

} // verus!
