use playnow::backend::{
    create_backend, get_player_preferred_servers, leave_queue, missing_variable_message,
    put_player_in_queue, required_variables, start_playing, BackendError, Outcome, Plan,
    SessionAuth, StatusQuery, Step,
};
use playnow::cron::{wait_time, Sweep};
use playnow::decimal::{parse_decimal, render_decimal};
use playnow::ids::{GameServerId, QueueStatus, SteamId};
use playnow::keys::{queuing_for_key, server_queuers_key, session_key, status_key};
use playnow::store::{Command, Reply};

fn sent(step: &Step) -> String {
    match step {
        Step::Send(Command::Get(k)) => format!("GET {}", k),
        Step::Send(Command::Del(k)) => format!("DEL {}", k),
        Step::Send(Command::SetValue(k, v)) => format!("SET {} {}", k, v),
        Step::Send(Command::SAdd(k, m)) => format!("SADD {} {}", k, m),
        Step::Send(Command::SRem(k, m)) => format!("SREM {} {}", k, m),
        Step::Send(Command::SMembers(k)) => format!("SMEMBERS {}", k),
        Step::Send(Command::ZAdd(k, m, s)) => format!("ZADD {} {} {}", k, s, m),
        Step::Send(Command::ZRem(k, m)) => format!("ZREM {} {}", k, m),
        Step::Send(Command::ZRangeByScore(k, s)) => format!("ZRANGEBYSCORE {} -inf {}", k, s),
        Step::Finish(_) => "finish".to_string(),
    }
}

fn run_plan(plan: Plan) -> (Vec<String>, Step) {
    let mut out = Vec::new();
    let (mut p, mut step) = plan.start();
    loop {
        match step {
            Step::Send(_) => {
                out.push(sent(&step));
                let (p2, s2) = p.resume(Ok(Reply::Count(1)));
                p = p2;
                step = s2;
            }
            Step::Finish(_) => return (out, step),
        }
    }
}

#[test]
fn decimal_text_round_trips() {
    assert_eq!(render_decimal(0), "0");
    assert_eq!(render_decimal(76561198000000000), "76561198000000000");
    assert_eq!(render_decimal(u64::MAX), "18446744073709551615");
    assert_eq!(parse_decimal("42", u64::MAX), Some(42));
    assert_eq!(parse_decimal("+42", u64::MAX), Some(42));
    assert_eq!(parse_decimal("007", u64::MAX), Some(7));
    assert_eq!(parse_decimal("+", u64::MAX), None);
    assert_eq!(parse_decimal("", u64::MAX), None);
    assert_eq!(parse_decimal("-1", u64::MAX), None);
    assert_eq!(parse_decimal("4x", u64::MAX), None);
    assert_eq!(parse_decimal("18446744073709551615", u64::MAX), Some(u64::MAX));
    assert_eq!(parse_decimal("18446744073709551616", u64::MAX), None);
    assert_eq!(parse_decimal("4294967296", 4294967295), None);
    assert_eq!(parse_decimal("4294967295", 4294967295), Some(4294967295));
}

#[test]
fn keys_follow_the_schema() {
    assert_eq!(session_key("abc"), "session_steamid:abc");
    assert_eq!(status_key(SteamId(76561198000000001)), "player_queue_status:76561198000000001");
    assert_eq!(queuing_for_key(SteamId(5)), "player_queuing_for:5");
    assert_eq!(server_queuers_key(GameServerId(42)), "server_queuers:42");
}

#[test]
fn steam_ids_are_classified() {
    let id = SteamId::from_u64(76561197960287930);
    assert_eq!(id.to_u64(), 76561197960287930);
    assert!(id.is_public_individual());
    assert!(!SteamId(0).is_public_individual());
    assert_eq!(SteamId(0).get_universe(), Some(playnow::ids::Universe::Invalid));
    assert_eq!(SteamId(0xff00000000000000).get_universe(), None);
    assert_eq!(SteamId(0x0170000000000000).get_type(), Some(playnow::ids::AccountType::Clan));
}

#[test]
fn queueing_writes_four_commands() {
    let (cmds, end) = run_plan(put_player_in_queue(SteamId(7), GameServerId(42), 1000));
    assert_eq!(
        cmds,
        vec![
            "ZADD players_queuing 1060 7",
            "SADD player_queuing_for:7 42",
            "SET player_queue_status:7 queuing",
            "SADD server_queuers:42 7",
        ]
    );
    assert!(matches!(end, Step::Finish(Ok(Outcome::Unit))));
}

#[test]
fn queueing_near_the_end_of_time_saturates() {
    let (cmds, _) = run_plan(put_player_in_queue(SteamId(7), GameServerId(1), i64::MAX - 10));
    assert_eq!(cmds[0], format!("ZADD players_queuing {} 7", i64::MAX));
}

#[test]
fn start_playing_queues_for_the_favourite_server() {
    assert_eq!(get_player_preferred_servers(SteamId(3)), vec![GameServerId(42)]);
    let (cmds, _) = run_plan(start_playing(SteamId(3), 10));
    assert_eq!(cmds[1], "SADD player_queuing_for:3 42");
    assert_eq!(cmds[3], "SADD server_queuers:42 3");
}

#[test]
fn leaving_removes_the_player() {
    let (cmds, end) = run_plan(leave_queue(SteamId(9)));
    assert_eq!(
        cmds,
        vec![
            "ZREM players_queuing 9",
            "DEL player_queue_status:9",
            "DEL player_queuing_for:9",
            "SREM server_queuers 9",
        ]
    );
    assert!(matches!(end, Step::Finish(Ok(Outcome::Unit))));
}

#[test]
fn a_failed_command_ends_the_plan() {
    let (p, step) = leave_queue(SteamId(9)).start();
    assert_eq!(sent(&step), "ZREM players_queuing 9");
    let (p, step) = p.resume(Err("WRONGTYPE".to_string()));
    assert!(p.is_over());
    match step {
        Step::Finish(Err(BackendError::Redis(e))) => assert_eq!(e, "WRONGTYPE"),
        _ => panic!("plan went on"),
    }
}

#[test]
fn a_session_names_its_account_once() {
    let m = SessionAuth::auth_request("s3cr3t");
    let (m, step) = m.start();
    assert_eq!(sent(&step), "GET session_steamid:s3cr3t");
    let (m, step) = m.resume(Ok(Reply::Text("76561197960287930".to_string())));
    assert_eq!(sent(&step), "DEL session_steamid:s3cr3t");
    let (_, step) = m.resume(Ok(Reply::Count(1)));
    match step {
        Step::Finish(Ok(Outcome::Account(Some(id)))) => assert_eq!(id, SteamId(76561197960287930)),
        _ => panic!("no account"),
    }
}

#[test]
fn an_unknown_session_names_no_account() {
    let (m, _) = SessionAuth::auth_request("x").start();
    let (m, step) = m.resume(Ok(Reply::Nil));
    assert_eq!(sent(&step), "DEL session_steamid:x");
    let (_, step) = m.resume(Ok(Reply::Count(0)));
    assert!(matches!(step, Step::Finish(Ok(Outcome::Account(None)))));
}

#[test]
fn a_garbled_session_fails_before_deleting() {
    let (m, _) = SessionAuth::auth_request("x").start();
    let (_, step) = m.resume(Ok(Reply::Text("bogus".to_string())));
    match step {
        Step::Finish(Err(BackendError::Redis(e))) => assert_eq!(e, "Not numeric"),
        _ => panic!("accepted a garbled account"),
    }
}

#[test]
fn status_of_a_queuing_player_lists_servers() {
    let (m, step) = StatusQuery::get_queue_status(SteamId(7)).start();
    assert_eq!(sent(&step), "GET player_queue_status:7");
    let (m, step) = m.resume(Ok(Reply::Text("queuing".to_string())));
    assert_eq!(sent(&step), "SMEMBERS player_queuing_for:7");
    let (_, step) = m.resume(Ok(Reply::Members(vec!["42".to_string(), "7".to_string()])));
    match step {
        Step::Finish(Ok(Outcome::Status(s))) => {
            assert_eq!(s, QueueStatus::Queuing(vec![GameServerId(42), GameServerId(7)]))
        }
        _ => panic!("no status"),
    }
}

#[test]
fn status_of_an_idle_player_is_not_queuing() {
    let (m, _) = StatusQuery::get_queue_status(SteamId(7)).start();
    let (_, step) = m.resume(Ok(Reply::Nil));
    match step {
        Step::Finish(Ok(Outcome::Status(s))) => assert_eq!(s, QueueStatus::NotQueuing),
        _ => panic!("no status"),
    }
    let (m, _) = StatusQuery::get_queue_status(SteamId(7)).start();
    let (_, step) = m.resume(Ok(Reply::Text("matched".to_string())));
    assert!(matches!(step, Step::Finish(Ok(Outcome::Status(QueueStatus::NotQueuing)))));
}

#[test]
fn status_with_a_garbled_server_fails() {
    let (m, _) = StatusQuery::get_queue_status(SteamId(7)).start();
    let (m, _) = m.resume(Ok(Reply::Text("queuing".to_string())));
    let (_, step) = m.resume(Ok(Reply::Members(vec!["99999999999".to_string()])));
    assert!(matches!(step, Step::Finish(Err(BackendError::Redis(_)))));
}

#[test]
fn sweep_takes_out_expired_players() {
    let (m, step) = Sweep::new(500).start();
    assert_eq!(sent(&step), "ZRANGEBYSCORE players_queuing -inf 500");
    let (mut m, mut step) = m.resume(Ok(Reply::Members(vec!["3".to_string(), "4".to_string()])));
    let mut cmds = Vec::new();
    while let Step::Send(_) = step {
        cmds.push(sent(&step));
        let (m2, s2) = m.resume(Ok(Reply::Count(1)));
        m = m2;
        step = s2;
    }
    assert_eq!(cmds.len(), 8);
    assert_eq!(cmds[0], "ZREM players_queuing 3");
    assert_eq!(cmds[4], "ZREM players_queuing 4");
    assert!(matches!(step, Step::Finish(Ok(Outcome::Unit))));
}

#[test]
fn sweep_with_nobody_expired_ends_at_once() {
    let (m, _) = Sweep::new(500).start();
    let (_, step) = m.resume(Ok(Reply::Members(vec![])));
    assert!(matches!(step, Step::Finish(Ok(Outcome::Unit))));
}

#[test]
fn wait_time_fills_the_round() {
    assert_eq!(wait_time(100, 100), 30);
    assert_eq!(wait_time(100, 112), 18);
    assert_eq!(wait_time(100, 130), 0);
    assert_eq!(wait_time(100, 200), 0);
    assert_eq!(wait_time(100, 95), 35);
    assert_eq!(wait_time(i64::MAX, i64::MIN), u64::MAX);
}

#[test]
fn settings_come_from_three_variables() {
    assert_eq!(required_variables(), vec!["STEAM_APIKEY", "REDIS_URL", "POSTGRES_URL"]);
    let s = create_backend(Some("k".to_string()), Some("redis://r".to_string()), Some("postgres://p".to_string()));
    match s {
        Ok(s) => {
            assert_eq!(s.steam_apikey, "k");
            assert_eq!(s.redis_url, "redis://r");
            assert_eq!(s.postgres_url, "postgres://p");
        }
        Err(_) => panic!("settings refused"),
    }
    assert_eq!(create_backend(None, None, None).err(), Some("STEAM_APIKEY".to_string()));
    assert_eq!(create_backend(Some("k".to_string()), None, None).err(), Some("REDIS_URL".to_string()));
    assert_eq!(
        create_backend(Some("k".to_string()), Some("r".to_string()), None).err(),
        Some("POSTGRES_URL".to_string())
    );
    assert_eq!(missing_variable_message("REDIS_URL"), "Environment variable REDIS_URL not set.");
}
