//! Whether, and where, a notification is sent.

use crate::models::settings::AppSettings;
use vstd::prelude::*;
use vstd::string::*;

verus! {

/// The host to which notifications go where none is configured.
pub open spec fn default_host() -> Seq<char> {
    "sctapi.ftqq.com"@
}

/// The host whose addresses carry `/send/` before the key.
pub open spec fn push_host() -> Seq<char> {
    "push.ft07.com"@
}

/// `text` with every leading repetition of `prefix` removed.
pub open spec fn without_leading(text: Seq<char>, prefix: Seq<char>) -> Seq<char>
    decreases text.len(),
{
    if prefix.len() > 0 && prefix.is_prefix_of(text) {
        without_leading(text.skip(prefix.len() as int), prefix)
    } else {
        text
    }
}

/// `part` occurs somewhere in `text`.
pub open spec fn occurs_in(part: Seq<char>, text: Seq<char>) -> bool {
    exists|i: int|
        0 <= i && i + part.len() <= text.len() && #[trigger] text.subrange(i, i + part.len())
            == part
}

/// The host of a configured domain: the domain without its scheme, and the
/// default host where no domain, or an empty one, is configured.
pub open spec fn host_of(domain: Option<Seq<char>>) -> Seq<char> {
    match domain {
        Some(d) => if d.len() > 0 {
            without_leading(without_leading(d, "https://"@), "http://"@)
        } else {
            default_host()
        },
        None => default_host(),
    }
}

/// An optional string as an optional sequence of characters.
pub open spec fn text_of(s: Option<&str>) -> Option<Seq<char>> {
    match s {
        Some(t) => Some(t@),
        None => None,
    }
}

/// The domain that the settings name.
pub open spec fn domain_of(settings: AppSettings) -> Option<Seq<char>> {
    match settings.serverchan_domain {
        Some(d) => Some(d@),
        None => None,
    }
}

/// The address to which a notification for `sendkey` is posted.
pub open spec fn send_address(domain: Option<Seq<char>>, sendkey: Seq<char>) -> Seq<char> {
    let host = host_of(domain);
    if occurs_in(push_host(), host) {
        "https://"@ + host + "/send/"@ + sendkey + ".send"@
    } else {
        "https://"@ + host + "/"@ + sendkey + ".send"@
    }
}

/// `str::trim_start_matches` of std with a string as the pattern: the slice
/// that is left when the prefixes that match the pattern are removed
/// repeatedly.
#[verifier::external_body]
fn trim_leading<'a>(text: &'a str, prefix: &str) -> (r: &'a str)
    requires
        prefix@.len() > 0,
    ensures
        r@ == without_leading(text@, prefix@),
{
    text.trim_start_matches(prefix)
}

/// `str::contains` of std with a string as the pattern: whether the pattern
/// matches a sub-slice of the text.
#[verifier::external_body]
fn contains_text(text: &str, part: &str) -> (b: bool)
    ensures
        b == occurs_in(part@, text@),
{
    text.contains(part)
}

/// The address to which a notification for `sendkey` is posted.
pub fn send_url(domain: Option<&str>, sendkey: &str) -> (url: String)
    ensures
        url@ == send_address(text_of(domain), sendkey@),
{
    proof {
        reveal_strlit("https://");
        reveal_strlit("http://");
    }
    let host: &str = match domain {
        Some(d) => {
            if d.unicode_len() > 0 {
                trim_leading(trim_leading(d, "https://"), "http://")
            } else {
                "sctapi.ftqq.com"
            }
        },
        None => "sctapi.ftqq.com",
    };
    let mut url = String::from_str("https://");
    url.append(host);
    if contains_text(host, "push.ft07.com") {
        url.append("/send/");
    } else {
        url.append("/");
    }
    url.append(sendkey);
    url.append(".send");
    url
}

/// A notification to send: where to post it, and its title and text.
#[derive(Debug, Clone, PartialEq, Eq)]
pub struct Dispatch {
    pub url: String,
    pub title: String,
    pub desp: String,
}

/// The settings name a key to send with: one that is not empty.
pub open spec fn can_notify(settings: Option<&AppSettings>) -> bool {
    settings matches Some(s) && s.serverchan_sendkey matches Some(key) && key@.len() > 0
}

/// What to send for a notification, given the settings as they were read:
/// nothing where the settings could not be read or name no key, else the
/// title and the text to the address of the configured domain and key.
pub fn send_serverchan_notification(
    settings: Option<&AppSettings>,
    title: &str,
    content: &str,
) -> (r: Option<Dispatch>)
    ensures
        r is Some <==> can_notify(settings),
        r matches Some(d) ==> {
            &&& d.title@ == title@
            &&& d.desp@ == content@
            &&& settings matches Some(s) && s.serverchan_sendkey matches Some(key) && d.url@
                == send_address(domain_of(*s), key@)
        },
{
    match settings {
        Some(s) => match &s.serverchan_sendkey {
            Some(key) => {
                if key.as_str().unicode_len() > 0 {
                    let domain: Option<&str> = match &s.serverchan_domain {
                        Some(domain) => Some(domain.as_str()),
                        None => None,
                    };
                    Some(
                        Dispatch {
                            url: send_url(domain, key.as_str()),
                            title: String::from_str(title),
                            desp: String::from_str(content),
                        },
                    )
                } else {
                    None
                }
            },
            None => None,
        },
        None => None,
    }
}

} // verus!
