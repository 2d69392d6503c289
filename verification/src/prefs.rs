//! A visitor's preferences, kept in the `playnow_prefs` cookie as a JSON
//! object, and the preferences form.

use vstd::prelude::*;
use vstd::utf8::encode_utf8;
use crate::form::{form_value, spec_form_value, form_view};

verus! {

/// A visitor's preferences.
#[derive(Copy, Clone, PartialEq, Eq, Debug, Structural)]
pub struct Prefs {
    pub foo: bool,
}

impl Default for Prefs {
    fn default() -> (p: Prefs)
        ensures
            p == (Prefs { foo: false }),
    {
        Prefs { foo: false }
    }
}

/// What the preferences page shows: the preferences, and whether the form
/// was just submitted.
#[derive(Copy, Clone, PartialEq, Eq, Debug, Structural)]
pub struct PrefsPage {
    pub prefs: Prefs,
    pub updated: bool,
}

pub open spec fn prefs_cookie_name() -> Seq<char> {
    "playnow_prefs"@
}

pub open spec fn foo_key() -> Seq<char> {
    "foo"@
}

/// A key that JSON writes without escapes.
pub open spec fn plain_key(key: Seq<char>) -> bool {
    forall|i: int| 0 <= i < key.len() ==> {
        let c = #[trigger] key[i];
        c != '"' && c != '\\' && (c as int) >= 32 && (c as int) != 127
    }
}

/// A JSON object of one boolean member, written compactly.
pub open spec fn bool_object_text(key: Seq<char>, value: bool) -> Seq<char> {
    "{\""@ + key + "\":"@ + (if value {
        "true"@
    } else {
        "false"@
    }) + "}"@
}

/// What `rustc_serialize` writes for an object of one boolean member.
pub uninterp spec fn json_bool_object(key: Seq<char>, value: bool) -> Seq<char>;

/// The boolean member `key` of the JSON object in `text`, as `rustc_serialize`
/// reads it; `None` where `text` is no JSON object with such a member.
pub uninterp spec fn json_bool_member(text: Seq<char>, key: Seq<char>) -> Option<bool>;

/// Calls `rustc_serialize::json::Json::to_string` on an object with one
/// boolean member. Trusted: the name stands for what it writes; the crate's
/// encoder writes `{`, the key in quotes, `:`, `true` or `false`, and `}`,
/// with no spaces, and escapes only quotes, backslashes and control
/// characters, so a plain key is written as it is. Nothing is stated of
/// keys that need escapes.
#[verifier::external_body]
fn encode_bool_object(key: &str, value: bool) -> (text: String)
    ensures
        text@ == json_bool_object(key@, value),
        plain_key(key@) ==> text@ == bool_object_text(key@, value),
{
    let mut members = std::collections::BTreeMap::new();
    members.insert(key.to_string(), rustc_serialize::json::Json::Boolean(value));
    rustc_serialize::json::Json::Object(members).to_string()
}

/// How many `[` and `{` bytes a text holds: no JSON value in it nests
/// deeper than that.
pub open spec fn openers(bytes: Seq<u8>) -> nat
    decreases bytes.len(),
{
    if bytes.len() == 0 {
        0
    } else {
        openers(bytes.drop_last()) + if bytes.last() == 91u8 || bytes.last() == 123u8 {
            1nat
        } else {
            0nat
        }
    }
}

/// The deepest nesting that the preferences cookie is read with. The JSON
/// parser takes a stack frame for each level, with no limit of its own.
pub open spec fn nesting_limit() -> nat {
    128
}

/// The longest text, in bytes, that the parser is trusted with. The parser
/// keeps the position and length of each object key it is inside as a
/// `u16`, in a buffer that holds the keys one after another; a text of at
/// most this many bytes keeps every such position and length in range.
pub open spec fn length_limit() -> nat {
    65535
}

/// A text that the JSON parser reads without overflowing its stack or its
/// key positions.
pub open spec fn parser_safe(text: Seq<char>) -> bool {
    &&& encode_utf8(text).len() <= length_limit()
    &&& openers(encode_utf8(text)) <= nesting_limit()
}

/// Calls `rustc_serialize::json::Json::from_str` and reads the boolean member
/// `key`, as `json::decode` reads a struct's `bool` field. Trusted: the name
/// stands for the result; the crate's parser reads back what its encoder
/// wrote, so an object written for a plain key gives its value back. Nothing
/// else is stated of the parser. The parser builds nested arrays and objects
/// by recursion, one stack frame per level, and keeps key positions as
/// `u16`, so the text is bounded here (`parser_safe`): at most
/// `nesting_limit()` opening brackets and `length_limit()` bytes. Within
/// that bound every key, and every path of nested keys, is read whole.
#[verifier::external_body]
fn decode_bool_member(text: &str, key: &str) -> (r: Option<bool>)
    requires
        parser_safe(text@),
    ensures
        r == json_bool_member(text@, key@),
        plain_key(key@) && text@ == bool_object_text(key@, true) ==> r == Some(true),
        plain_key(key@) && text@ == bool_object_text(key@, false) ==> r == Some(false),
{
    match rustc_serialize::json::Json::from_str(text) {
        Ok(json) => match json.find(key) {
            Some(rustc_serialize::json::Json::Boolean(b)) => Some(*b),
            _ => None,
        },
        Err(_) => None,
    }
}

proof fn lemma_foo_plain()
    ensures
        plain_key(foo_key()),
        foo_key() =~= seq!['f', 'o', 'o'],
{
    reveal_strlit("foo");
}

/// The cookie text that stores `p`.
pub open spec fn prefs_cookie_text(p: Prefs) -> Seq<char> {
    bool_object_text(foo_key(), p.foo)
}

/// The value of the first cookie called `name`, if any.
pub open spec fn first_cookie(cookies: Seq<(Seq<char>, Seq<char>)>, name: Seq<char>) -> Option<Seq<char>>
    decreases cookies.len(),
{
    if cookies.len() == 0 {
        None
    } else if cookies[0].0 == name {
        Some(cookies[0].1)
    } else {
        first_cookie(cookies.drop_first(), name)
    }
}

pub open spec fn cookies_view(cookies: Seq<(String, String)>) -> Seq<(Seq<char>, Seq<char>)> {
    cookies.map_values(|c: (String, String)| (c.0@, c.1@))
}

/// The preferences that the request's cookies hold: the first
/// `playnow_prefs` cookie, read as JSON.
pub open spec fn spec_get_prefs(cookies: Seq<(Seq<char>, Seq<char>)>) -> Option<Prefs> {
    match first_cookie(cookies, prefs_cookie_name()) {
        None => None,
        Some(text) => if !parser_safe(text) {
            None
        } else {
            match json_bool_member(text, foo_key()) {
                Some(b) => Some(Prefs { foo: b }),
                None => None,
            }
        },
    }
}

/// Whether the parser is trusted with a text.
fn is_parser_safe(text: &str) -> (r: bool)
    ensures
        r == parser_safe(text@),
{
    text.as_bytes().len() <= 65535 && within_nesting_limit(text)
}

/// Whether a text nests no deeper than the parser is trusted with.
fn within_nesting_limit(text: &str) -> (r: bool)
    ensures
        r == (openers(encode_utf8(text@)) <= nesting_limit()),
{
    let bytes = text.as_bytes();
    let mut count: usize = 0;
    let mut i: usize = 0;
    while i < bytes.len()
        invariant
            i <= bytes@.len(),
            bytes@ == encode_utf8(text@),
            count == openers(bytes@.subrange(0, i as int)),
            count <= nesting_limit(),
        decreases bytes@.len() - i,
    {
        let ghost prefix = bytes@.subrange(0, i as int + 1);
        assert(prefix.drop_last() =~= bytes@.subrange(0, i as int));
        if bytes[i] == 91u8 || bytes[i] == 123u8 {
            if count == 128 {
                proof {
                    lemma_openers_prefix(bytes@, i as int + 1);
                }
                return false;
            }
            count = count + 1;
        }
        i = i + 1;
    }
    assert(bytes@.subrange(0, i as int) =~= bytes@);
    true
}

/// No text holds more opening brackets than bytes.
proof fn lemma_openers_len(bytes: Seq<u8>)
    ensures
        openers(bytes) <= bytes.len(),
    decreases bytes.len(),
{
    if bytes.len() > 0 {
        lemma_openers_len(bytes.drop_last());
    }
}

/// The cookie that stores preferences is well within what the parser is
/// trusted with.
proof fn lemma_cookie_text_shallow(q: Prefs)
    ensures
        parser_safe(prefs_cookie_text(q)),
{
    reveal_strlit("{\"");
    reveal_strlit("\":");
    reveal_strlit("true");
    reveal_strlit("false");
    reveal_strlit("}");
    lemma_foo_plain();
    let t = prefs_cookie_text(q);
    assert(t.len() <= 13);
    assert(vstd::utf8::is_ascii_chars(t));
    vstd::utf8::is_ascii_chars_encode_utf8(t);
    lemma_openers_len(encode_utf8(t));
}

/// A text holds at least as many opening brackets as any prefix of it.
proof fn lemma_openers_prefix(bytes: Seq<u8>, k: int)
    requires
        0 <= k <= bytes.len(),
    ensures
        openers(bytes.subrange(0, k)) <= openers(bytes),
    decreases bytes.len(),
{
    if k < bytes.len() {
        lemma_openers_prefix(bytes.drop_last(), k);
        assert(bytes.drop_last().subrange(0, k) =~= bytes.subrange(0, k));
    } else {
        assert(bytes.subrange(0, k) =~= bytes);
    }
}

fn first_cookie_value(cookies: &Vec<(String, String)>, name: &str) -> (v: Option<String>)
    ensures
        match first_cookie(cookies_view(cookies@), name@) {
            Some(t) => v is Some && v->0@ == t,
            None => v is None,
        },
{
    let ghost cs = cookies_view(cookies@);
    let wanted = name.to_owned();
    let mut i: usize = 0;
    assert(cs.subrange(0, cs.len() as int) =~= cs);
    while i < cookies.len()
        invariant
            i <= cookies@.len(),
            cs == cookies_view(cookies@),
            wanted@ == name@,
            first_cookie(cs, name@) == first_cookie(cs.subrange(i as int, cs.len() as int), name@),
        decreases cookies@.len() - i,
    {
        let ghost rest = cs.subrange(i as int, cs.len() as int);
        assert(rest[0] == (cookies@[i as int].0@, cookies@[i as int].1@));
        assert(rest.drop_first() =~= cs.subrange(i as int + 1, cs.len() as int));
        if cookies[i].0.eq(&wanted) {
            return Some(cookies[i].1.clone());
        }
        i = i + 1;
    }
    assert(cs.subrange(i as int, cs.len() as int) =~= Seq::<(Seq<char>, Seq<char>)>::empty());
    None
}

/// The preferences that the request's cookies hold; none where the cookie
/// is longer or nests deeper than the parser is trusted with.
///
/// A cookie that updating the preferences wrote reads back as the same
/// preferences.
pub fn get_prefs(cookies: &Vec<(String, String)>) -> (p: Option<Prefs>)
    ensures
        p == spec_get_prefs(cookies_view(cookies@)),
        forall|q: Prefs| first_cookie(cookies_view(cookies@), prefs_cookie_name()) == Some(prefs_cookie_text(q))
            ==> p == Some(q),
{
    match first_cookie_value(cookies, "playnow_prefs") {
        None => None,
        Some(text) => {
            proof {
                lemma_foo_plain();
            }
            proof {
                assert forall|q: Prefs| text@ == prefs_cookie_text(q) implies parser_safe(text@) by {
                    lemma_cookie_text_shallow(q);
                }
            }
            if !is_parser_safe(text.as_str()) {
                return None;
            }
            match decode_bool_member(text.as_str(), "foo") {
                Some(b) => Some(Prefs { foo: b }),
                None => None,
            }
        },
    }
}

/// The cookie text that stores `p`.
pub fn prefs_cookie_value(p: Prefs) -> (text: String)
    ensures
        text@ == prefs_cookie_text(p),
{
    proof {
        lemma_foo_plain();
    }
    encode_bool_object("foo", p.foo)
}

pub open spec fn prefs_form_name() -> Seq<char> {
    "foo"@
}

pub open spec fn on_text() -> Seq<char> {
    "on"@
}

/// The preferences that a submitted form asks for: `foo` is set where the
/// form's first `foo` value is `on`. `None` where the body was no form.
pub open spec fn spec_prefs_from_form(form: Option<Seq<(Seq<char>, Seq<Seq<char>>)>>) -> Option<Prefs> {
    match form {
        None => None,
        Some(fields) => Some(Prefs { foo: spec_form_value(fields, prefs_form_name()) == Some(on_text()) }),
    }
}

pub fn prefs_from_form(form: &Option<Vec<(String, Vec<String>)>>) -> (p: Option<Prefs>)
    ensures
        p == spec_prefs_from_form(match form {
            Some(f) => Some(form_view(f@)),
            None => None,
        }),
{
    match form {
        None => None,
        Some(fields) => {
            let v = form_value(fields, "foo");
            let foo = match v {
                Some(t) => t.eq(&"on".to_owned()),
                None => false,
            };
            Some(Prefs { foo })
        },
    }
}

/// The preferences page before the form is submitted: the stored
/// preferences, or the defaults.
pub fn display_prefs(cookies: &Vec<(String, String)>) -> (page: PrefsPage)
    ensures
        page == (PrefsPage {
            prefs: match spec_get_prefs(cookies_view(cookies@)) {
                Some(p) => p,
                None => Prefs { foo: false },
            },
            updated: false,
        }),
{
    let prefs = match get_prefs(cookies) {
        Some(p) => p,
        None => Prefs::default(),
    };
    PrefsPage { prefs, updated: false }
}

/// Submitting the preferences form: the page, with the form's preferences
/// where the body was a form, else the stored ones or the defaults, and the
/// cookie text that stores them.
pub fn update_prefs(form: &Option<Vec<(String, Vec<String>)>>, cookies: &Vec<(String, String)>) -> (r: (PrefsPage, String))
    ensures
        ({
            let fv = match form {
                Some(f) => Some(form_view(f@)),
                None => None,
            };
            let prefs = match spec_prefs_from_form(fv) {
                Some(p) => p,
                None => match spec_get_prefs(cookies_view(cookies@)) {
                    Some(p) => p,
                    None => Prefs { foo: false },
                },
            };
            &&& r.0 == (PrefsPage { prefs, updated: fv is Some })
            &&& r.1@ == prefs_cookie_text(prefs)
        }),
{
    let from_form = prefs_from_form(form);
    let updated = from_form.is_some();
    let stored = get_prefs(cookies);
    let prefs = match from_form {
        Some(p) => p,
        None => match stored {
            Some(p) => p,
            None => Prefs::default(),
        },
    };
    let cookie = prefs_cookie_value(prefs);
    (PrefsPage { prefs, updated }, cookie)
}

} // verus!
