//! Logging in through Steam's OpenID provider.
//!
//! The login page links to Steam with an OpenID 2.0 `checkid_setup`
//! request that returns to the page it came from; the realm is the site's
//! root. Only the site's own hosts may ask.

use vstd::prelude::*;
use crate::decimal::{decimal, render_decimal};
use crate::form::{form_value, form_view, spec_form_value};

verus! {

/// The parts of a URL that `url::Url::parse` finds in `text`: scheme, user
/// name, password, host and explicit port (none for the scheme's default),
/// each as `url::Url` writes it; `None` where `text` is no URL.
pub uninterp spec fn url_parts(text: Seq<char>) -> Option<UrlPartsView>;

/// What `url::form_urlencoded::Serializer` writes for these name/value
/// pairs, in this order.
pub uninterp spec fn form_urlencoded(pairs: Seq<(Seq<char>, Seq<char>)>) -> Seq<char>;

/// The parts of a URL.
pub struct UrlParts {
    pub scheme: String,
    pub username: String,
    pub password: Option<String>,
    pub host: Option<String>,
    pub port: Option<u16>,
}

/// Scheme, user name, password, host, port.
pub type UrlPartsView = (Seq<char>, Seq<char>, Option<Seq<char>>, Option<Seq<char>>, Option<u16>);

pub open spec fn opt_text(o: Option<String>) -> Option<Seq<char>> {
    match o {
        Some(s) => Some(s@),
        None => None,
    }
}

impl View for UrlParts {
    type V = UrlPartsView;

    open spec fn view(&self) -> UrlPartsView {
        (self.scheme@, self.username@, opt_text(self.password), opt_text(self.host), self.port)
    }
}

pub open spec fn opt_parts(p: Option<UrlParts>) -> Option<UrlPartsView> {
    match p {
        Some(q) => Some(q@),
        None => None,
    }
}

/// Calls `url::Url::parse` and reads `scheme`, `username`, `password`,
/// `host_str` and `port`. Trusted: the name stands for what is read.
#[verifier::external_body]
fn parse_url(text: &str) -> (parts: Option<UrlParts>)
    ensures
        opt_parts(parts) == url_parts(text@),
{
    match url::Url::parse(text) {
        Ok(u) => Some(UrlParts {
            scheme: u.scheme().to_string(),
            username: u.username().to_string(),
            password: u.password().map(|p| p.to_string()),
            host: u.host_str().map(|h| h.to_string()),
            port: u.port(),
        }),
        Err(_) => None,
    }
}

/// The OpenID realm of a URL: the site's root, with the URL's scheme, user,
/// host and port, no query and no fragment.
pub open spec fn spec_realm(p: UrlPartsView) -> Seq<char> {
    let userinfo = if p.1.len() > 0 || p.2 is Some {
        p.1 + match p.2 {
            Some(pw) => ":"@ + pw,
            None => Seq::empty(),
        } + "@"@
    } else {
        Seq::empty()
    };
    let host = match p.3 {
        Some(h) => h,
        None => Seq::empty(),
    };
    let port = match p.4 {
        Some(n) => ":"@ + decimal(n as nat),
        None => Seq::empty(),
    };
    p.0 + "://"@ + userinfo + host + port + "/"@
}

pub fn realm(parts: &UrlParts) -> (r: String)
    ensures
        r@ == spec_realm(parts@),
{
    let mut r = parts.scheme.clone().concat("://");
    if parts.username.unicode_len() > 0 || parts.password.is_some() {
        r = r.concat(parts.username.as_str());
        match &parts.password {
            Some(pw) => {
                r = r.concat(":").concat(pw.as_str());
            },
            None => {},
        }
        r = r.concat("@");
    }
    match &parts.host {
        Some(h) => {
            r = r.concat(h.as_str());
        },
        None => {},
    }
    match parts.port {
        Some(n) => {
            r = r.concat(":").concat(render_decimal(n as u64).as_str());
        },
        None => {},
    }
    let r = r.concat("/");
    proof {
        let p = parts@;
        let userinfo = if p.1.len() > 0 || p.2 is Some {
            p.1 + match p.2 {
                Some(pw) => ":"@ + pw,
                None => Seq::empty(),
            } + "@"@
        } else {
            Seq::empty()
        };
        let host = match p.3 {
            Some(h) => h,
            None => Seq::empty(),
        };
        let port = match p.4 {
            Some(n) => ":"@ + decimal(n as nat),
            None => Seq::empty(),
        };
        assert(r@ =~= p.0 + "://"@ + userinfo + host + port + "/"@);
    }
    r
}

pub open spec fn pairs_view(pairs: Seq<(String, String)>) -> Seq<(Seq<char>, Seq<char>)> {
    pairs.map_values(|p: (String, String)| (p.0@, p.1@))
}

/// Calls `url::form_urlencoded::Serializer` on these pairs. Trusted: the
/// name stands for the text written.
#[verifier::external_body]
fn urlencode(pairs: &Vec<(String, String)>) -> (text: String)
    ensures
        text@ == form_urlencoded(pairs_view(pairs@)),
{
    url::form_urlencoded::Serializer::new(String::new()).extend_pairs(pairs.iter()).finish()
}

/// The hosts that may ask for a login.
pub open spec fn allowed_host(host: Seq<char>) -> bool {
    host == "127.0.0.1"@ || host == "playnow.xmppwocky.net"@
}

pub open spec fn identifier_select() -> Seq<char> {
    "http://specs.openid.net/auth/2.0/identifier_select"@
}

/// The OpenID request's parameters, ordered by name.
pub open spec fn openid_params(return_to: Seq<char>, realm: Seq<char>) -> Seq<(Seq<char>, Seq<char>)> {
    seq![
        ("openid.claimed_id"@, identifier_select()),
        ("openid.identity"@, identifier_select()),
        ("openid.mode"@, "checkid_setup"@),
        ("openid.ns"@, "http://specs.openid.net/auth/2.0"@),
        ("openid.realm"@, realm),
        ("openid.return_to"@, return_to),
    ]
}

/// The link to Steam's login, returning to `return_to` within `realm`.
pub open spec fn spec_login_url(return_to: Seq<char>, realm: Seq<char>) -> Seq<char> {
    "https://steamcommunity.com/openid/login/?"@ + form_urlencoded(openid_params(return_to, realm))
}

/// A request that may ask for a login: its URL names one of the site's own
/// hosts.
pub open spec fn spec_login_allowed(url: Seq<char>) -> bool {
    url_parts(url) matches Some(p) && p.3 matches Some(h) && allowed_host(h)
}

/// The login link for an allowed request to `url`.
pub open spec fn spec_login_link(url: Seq<char>) -> Seq<char> {
    spec_login_url(url, spec_realm(url_parts(url)->0))
}

pub fn is_allowed_host(host: &String) -> (r: bool)
    ensures
        r == allowed_host(host@),
{
    host.eq(&"127.0.0.1".to_owned()) || host.eq(&"playnow.xmppwocky.net".to_owned())
}

pub fn login_url(return_to: &str, realm: &str) -> (url: String)
    ensures
        url@ == spec_login_url(return_to@, realm@),
{
    let select = "http://specs.openid.net/auth/2.0/identifier_select";
    let mut pairs: Vec<(String, String)> = Vec::new();
    pairs.push(("openid.claimed_id".to_owned(), select.to_owned()));
    pairs.push(("openid.identity".to_owned(), select.to_owned()));
    pairs.push(("openid.mode".to_owned(), "checkid_setup".to_owned()));
    pairs.push(("openid.ns".to_owned(), "http://specs.openid.net/auth/2.0".to_owned()));
    pairs.push(("openid.realm".to_owned(), realm.to_owned()));
    pairs.push(("openid.return_to".to_owned(), return_to.to_owned()));
    assert(pairs_view(pairs@) =~= openid_params(return_to@, realm@));
    let params = urlencode(&pairs);
    "https://steamcommunity.com/openid/login/?".to_owned().concat(params.as_str())
}

/// What the login page links to, for a request to `url`. Only the site's
/// own hosts may ask.
pub fn display_login(url: &str) -> (link: String)
    requires
        spec_login_allowed(url@),
    ensures
        link@ == spec_login_link(url@),
{
    match parse_url(url) {
        Some(parts) => {
            let r = realm(&parts);
            login_url(url, r.as_str())
        },
        None => String::new(),
    }
}

/// The login link, where the request may ask for one; `None` exactly where
/// its host is not one of the site's own (where the login page gives no
/// answer).
pub fn login_link(url: &str) -> (link: Option<String>)
    ensures
        link is Some <==> spec_login_allowed(url@),
        link is Some ==> link->0@ == spec_login_link(url@),
{
    match parse_url(url) {
        Some(parts) => match &parts.host {
            Some(host) => {
                if is_allowed_host(host) {
                    Some(display_login(url))
                } else {
                    None
                }
            },
            None => None,
        },
        None => None,
    }
}

/// The account that a submitted login form names: the form's first
/// `steamid` value, or nothing.
pub open spec fn spec_login_steamid(form: Option<Seq<(Seq<char>, Seq<Seq<char>>)>>) -> Seq<char> {
    match form {
        Some(fields) => match spec_form_value(fields, "steamid"@) {
            Some(v) => v,
            None => Seq::empty(),
        },
        None => Seq::empty(),
    }
}

pub fn login_steamid(form: &Option<Vec<(String, Vec<String>)>>) -> (v: String)
    ensures
        v@ == spec_login_steamid(match form {
            Some(f) => Some(form_view(f@)),
            None => None,
        }),
{
    match form {
        Some(fields) => match form_value(fields, "steamid") {
            Some(v) => v,
            None => String::new(),
        },
        None => String::new(),
    }
}

} // verus!
