use playnow::backend::{BackendError, Outcome};
use playnow::ids::{GameServerId, QueueStatus, SteamId};
use playnow::login::{login_link, login_steamid, login_url, realm, UrlParts};
use playnow::prefs::{display_prefs, get_prefs, prefs_cookie_value, prefs_from_form, update_prefs, Prefs, PrefsPage};
use playnow::wshandler::{accepted_player, reply_text, session_of_path, ws_action, Opcode, WsAction};

fn form(fields: &[(&str, &[&str])]) -> Option<Vec<(String, Vec<String>)>> {
    Some(fields.iter().map(|(k, vs)| (k.to_string(), vs.iter().map(|v| v.to_string()).collect())).collect())
}

fn cookies(cs: &[(&str, &str)]) -> Vec<(String, String)> {
    cs.iter().map(|(k, v)| (k.to_string(), v.to_string())).collect()
}

#[test]
fn session_is_the_path_after_the_slash() {
    assert_eq!(session_of_path("/abc123"), Some("abc123".to_string()));
    assert_eq!(session_of_path("/"), None);
    assert_eq!(session_of_path(""), None);
    assert_eq!(session_of_path("/é"), Some("é".to_string()));
}

#[test]
fn only_a_named_account_is_accepted() {
    assert_eq!(accepted_player(&Some(Ok(Outcome::Account(Some(SteamId(5)))))), Some(SteamId(5)));
    assert_eq!(accepted_player(&Some(Ok(Outcome::Account(None)))), None);
    assert_eq!(accepted_player(&Some(Err(BackendError::Redis("down".to_string())))), None);
    assert_eq!(accepted_player(&None), None);
}

#[test]
fn messages_map_to_actions() {
    assert_eq!(ws_action(Opcode::Close, b""), WsAction::CloseConnection);
    assert_eq!(ws_action(Opcode::Ping, b"hi"), WsAction::Pong);
    assert_eq!(ws_action(Opcode::Text, b"start_playing"), WsAction::StartPlaying);
    assert_eq!(ws_action(Opcode::Text, b"status"), WsAction::QueueStatus);
    assert_eq!(ws_action(Opcode::Text, b"start_playing "), WsAction::QueueStatus);
    assert_eq!(ws_action(Opcode::Text, &[0xff, 0xfe]), WsAction::Ignore);
    assert_eq!(ws_action(Opcode::Binary, &[1, 2]), WsAction::Echo);
    assert_eq!(ws_action(Opcode::Pong, b""), WsAction::Echo);
}

#[test]
fn replies_read_as_debug_output() {
    let st = QueueStatus::Queuing(vec![GameServerId(42), GameServerId(7)]);
    assert_eq!(st.describe(), format!("{:?}", st));
    assert_eq!(QueueStatus::NotQueuing.describe(), "NotQueuing");
    assert_eq!(QueueStatus::Queuing(vec![]).describe(), format!("{:?}", QueueStatus::Queuing(vec![])));
    assert_eq!(QueueStatus::MatchFound(9).describe(), format!("{:?}", QueueStatus::MatchFound(9)));
    assert_eq!(
        QueueStatus::MatchConfirmed(GameServerId(3)).describe(),
        format!("{:?}", QueueStatus::MatchConfirmed(GameServerId(3)))
    );
    assert_eq!(reply_text(&Ok(Outcome::Unit)), "Ok(())");
    assert_eq!(reply_text(&Ok(Outcome::Status(st))), "Ok(Queuing([GameServerId(42), GameServerId(7)]))");
    assert_eq!(reply_text(&Err(BackendError::Redis("Not numeric".to_string()))), "Err(Redis(Not numeric))");
}

#[test]
fn prefs_cookie_round_trips() {
    assert_eq!(prefs_cookie_value(Prefs { foo: true }), "{\"foo\":true}");
    assert_eq!(prefs_cookie_value(Prefs { foo: false }), "{\"foo\":false}");
    let c = cookies(&[("other", "1"), ("playnow_prefs", &prefs_cookie_value(Prefs { foo: true }))]);
    assert_eq!(get_prefs(&c), Some(Prefs { foo: true }));
}

#[test]
fn prefs_cookie_is_read_as_json() {
    assert_eq!(get_prefs(&cookies(&[("playnow_prefs", " { \"bar\": 1, \"foo\" : false } ")])), Some(Prefs { foo: false }));
    assert_eq!(get_prefs(&cookies(&[("playnow_prefs", "{\"foo\":1}")])), None);
    assert_eq!(get_prefs(&cookies(&[("playnow_prefs", "garbage")])), None);
    assert_eq!(get_prefs(&cookies(&[])), None);
    // only the first cookie of that name counts
    assert_eq!(
        get_prefs(&cookies(&[("playnow_prefs", "garbage"), ("playnow_prefs", "{\"foo\":true}")])),
        None
    );
}

#[test]
fn deeply_nested_prefs_cookie_is_refused() {
    let deep = "[".repeat(50000);
    assert_eq!(get_prefs(&cookies(&[("playnow_prefs", &deep)])), None);
    let nested = format!("{{\"foo\":true,\"x\":{}{}}}", "[".repeat(100), "]".repeat(100));
    assert_eq!(get_prefs(&cookies(&[("playnow_prefs", &nested)])), Some(Prefs { foo: true }));
    let too_nested = format!("{{\"foo\":true,\"x\":{}{}}}", "[".repeat(128), "]".repeat(128));
    assert_eq!(get_prefs(&cookies(&[("playnow_prefs", &too_nested)])), None);
}

#[test]
fn prefs_form_sets_foo_when_on() {
    assert_eq!(prefs_from_form(&form(&[("foo", &["on"])])), Some(Prefs { foo: true }));
    assert_eq!(prefs_from_form(&form(&[("foo", &["off"])])), Some(Prefs { foo: false }));
    assert_eq!(prefs_from_form(&form(&[("bar", &["on"])])), Some(Prefs { foo: false }));
    assert_eq!(prefs_from_form(&form(&[("foo", &[])])), Some(Prefs { foo: false }));
    assert_eq!(prefs_from_form(&None), None);
}

#[test]
fn display_prefs_shows_stored_or_default() {
    let c = cookies(&[("playnow_prefs", "{\"foo\":true}")]);
    assert_eq!(display_prefs(&c), PrefsPage { prefs: Prefs { foo: true }, updated: false });
    assert_eq!(display_prefs(&cookies(&[])), PrefsPage { prefs: Prefs::default(), updated: false });
}

#[test]
fn update_prefs_prefers_the_form() {
    let c = cookies(&[("playnow_prefs", "{\"foo\":true}")]);
    let (page, cookie) = update_prefs(&form(&[("foo", &["nope"])]), &c);
    assert_eq!(page, PrefsPage { prefs: Prefs { foo: false }, updated: true });
    assert_eq!(cookie, "{\"foo\":false}");
    let (page, cookie) = update_prefs(&None, &c);
    assert_eq!(page, PrefsPage { prefs: Prefs { foo: true }, updated: false });
    assert_eq!(cookie, "{\"foo\":true}");
    let (page, _) = update_prefs(&None, &cookies(&[]));
    assert_eq!(page, PrefsPage { prefs: Prefs { foo: false }, updated: false });
}

#[test]
fn login_link_goes_to_steam() {
    let link = login_link("http://127.0.0.1:8080/login?x=1#top").unwrap();
    assert!(link.starts_with("https://steamcommunity.com/openid/login/?"));
    assert!(link.contains("openid.mode=checkid_setup"));
    assert!(link.contains("openid.realm=http%3A%2F%2F127.0.0.1%3A8080%2F&"));
    assert!(link.contains("openid.return_to=http%3A%2F%2F127.0.0.1%3A8080%2Flogin%3Fx%3D1%23top"));
    let first = link.find("openid.claimed_id").unwrap();
    let last = link.find("openid.return_to").unwrap();
    assert!(first < last);
    assert_eq!(
        login_url("r", "q"),
        "https://steamcommunity.com/openid/login/?openid.claimed_id=http%3A%2F%2Fspecs.openid.net%2Fauth%2F2.0%2Fidentifier_select&openid.identity=http%3A%2F%2Fspecs.openid.net%2Fauth%2F2.0%2Fidentifier_select&openid.mode=checkid_setup&openid.ns=http%3A%2F%2Fspecs.openid.net%2Fauth%2F2.0&openid.realm=q&openid.return_to=r"
    );
}

#[test]
fn login_link_refuses_other_hosts() {
    assert!(login_link("http://playnow.xmppwocky.net/login").is_some());
    assert_eq!(login_link("http://evil.example/login"), None);
    assert_eq!(login_link("not a url"), None);
}

#[test]
fn login_form_names_the_account() {
    assert_eq!(login_steamid(&form(&[("steamid", &["765", "1"])])), "765");
    assert_eq!(login_steamid(&form(&[("other", &["765"])])), "");
    assert_eq!(login_steamid(&None), "");
}

#[test]
fn realm_is_the_site_root() {
    let parts = UrlParts {
        scheme: "https".to_string(),
        username: "u".to_string(),
        password: Some("p".to_string()),
        host: Some("playnow.xmppwocky.net".to_string()),
        port: Some(8443),
    };
    assert_eq!(realm(&parts), "https://u:p@playnow.xmppwocky.net:8443/");
    let plain = UrlParts {
        scheme: "http".to_string(),
        username: String::new(),
        password: None,
        host: Some("127.0.0.1".to_string()),
        port: None,
    };
    assert_eq!(realm(&plain), "http://127.0.0.1/");
    let link = login_link("https://playnow.xmppwocky.net:443/login?a=b").unwrap();
    assert!(link.contains("openid.realm=https%3A%2F%2Fplaynow.xmppwocky.net%2F&"));
}

#[test]
fn overlong_prefs_cookie_is_refused() {
    let long_key = format!("{{\"{}\":true}}", "a".repeat(70000));
    assert_eq!(get_prefs(&cookies(&[("playnow_prefs", &long_key)])), None);
    let nested_keys = format!("{{\"{}\":{{\"{}\":true}}}}", "a".repeat(40000), "b".repeat(30000));
    assert_eq!(get_prefs(&cookies(&[("playnow_prefs", &nested_keys)])), None);
}
