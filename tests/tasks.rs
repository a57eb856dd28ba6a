use std::collections::HashMap;

use mio_engine::i18n::{LanguageClientError, Languages};
use mio_engine::init::{Client, Config, I18n, Params, Security, Status as ConfigStatus};
use mio_engine::monitor::{monitor_tick, record_sample, Sample, Transition, SHARD_PING_WARN_MIN};
use mio_engine::rotation::{next_index, presence_for, rotation_tick, select_status, Presence};
use mio_engine::shutdown::exit_code;
use mio_engine::storage::{
    ClientActivityType, ConfigError, HandlerStatus, Latency, Status, Storage,
};
use mio_engine::text::{same_text, split_words};
use mio_engine::utils::{get_id, HwIdError};

fn entry(kind: &str, message: &str) -> ConfigStatus {
    ConfigStatus { status_type: kind.to_string(), message: message.to_string() }
}

fn config_with(status: Vec<ConfigStatus>, status_time: i32, dev: bool) -> Config {
    Config {
        client: Client { version: "1.0.0".to_string(), build_type: "debug".to_string(), dev },
        params: Params { status, auto_status: false, prefix: "?".to_string(), status_time },
        security: Security { rewrite_archive_if_invalid: true, auto_save_archive: false },
        i18n: I18n { locales_dir: "locales".to_string() },
    }
}

fn three_storage() -> Storage {
    let list = vec![entry("playing", "a"), entry("watching", "b"), entry("listening", "c")];
    Storage::from_config(&config_with(list, 10, false), 5).unwrap()
}

const MS: u64 = 1_000_000;

#[test]
fn storage_from_config_fields() {
    let list = vec![entry("streaming", "live"), entry("dancing", "x")];
    let s = Storage::from_config(&config_with(list, 15, true), 123).unwrap();
    assert!(s.dev && !s.debug && !s.maintenance);
    assert_eq!(s.handler_state, HandlerStatus::InDev);
    assert_eq!(s.client.prefix, "?");
    assert_eq!(s.status.list.len(), 2);
    assert_eq!(s.status.list[0].message, "live");
    assert_eq!(s.status.list[0].status_type, ClientActivityType::Streaming);
    assert_eq!(s.status.list[1].status_type, ClientActivityType::Unknown);
    assert_eq!(s.status.status_time, 15);
    assert!(!s.status.continue_status);
    assert_eq!(s.status.maintenance_status.status_type, ClientActivityType::Watching);
    assert_eq!(s.status.maintenance_status.message, "🚧 Mode maintenance");
    assert_eq!(s.status.dev_status.message, "⚙️ Mode développeur");
    assert_eq!(s.status.debug_mode_status.message, "🔧 Mode debug");
    assert_eq!(s.status.streaming_url, "https://www.twitch.tv/sedorriku_");
    assert!(s.latency.is_empty());
    assert_eq!(s.process_start_us, 123);
}

#[test]
fn storage_refuses_empty_list() {
    let r = Storage::new(&config_with(vec![], 10, false));
    assert_eq!(r.err(), Some(ConfigError::EmptyStatusList));
}

#[test]
fn storage_refuses_negative_interval() {
    let r = Storage::new(&config_with(vec![entry("playing", "a")], -1, false));
    assert_eq!(r.err(), Some(ConfigError::NegativeStatusTime));
    let ok = Storage::new(&config_with(vec![entry("playing", "a")], 0, false)).unwrap();
    assert_eq!(ok.handler_state, HandlerStatus::ProdMode);
}

#[test]
fn activity_names() {
    assert_eq!(ClientActivityType::from_name("playing"), ClientActivityType::Playing);
    assert_eq!(ClientActivityType::from_name("streaming"), ClientActivityType::Streaming);
    assert_eq!(ClientActivityType::from_name("listening"), ClientActivityType::Listening);
    assert_eq!(ClientActivityType::from_name("watching"), ClientActivityType::Watching);
    assert_eq!(ClientActivityType::from_name("Playing"), ClientActivityType::Unknown);
    assert_eq!(ClientActivityType::from_name(""), ClientActivityType::Unknown);
    assert!(ClientActivityType::Unknown.is_unknown());
    assert!(!ClientActivityType::Watching.is_unknown());
}

#[test]
fn handler_modes() {
    assert_eq!(HandlerStatus::InDev.as_i32(), 0);
    assert_eq!(HandlerStatus::DebugMode.as_i32(), 1);
    assert_eq!(HandlerStatus::ProdMode.as_i32(), 2);
    assert!(HandlerStatus::InDev.is_dev());
    assert!(HandlerStatus::DebugMode.is_dev());
    assert!(!HandlerStatus::ProdMode.is_dev());
    assert_eq!(HandlerStatus::from_flags(true, true), HandlerStatus::InDev);
    assert_eq!(HandlerStatus::from_flags(false, true), HandlerStatus::DebugMode);
    assert_eq!(HandlerStatus::from_flags(false, false), HandlerStatus::ProdMode);
}

#[test]
fn replace_latency_publishes_whole_map() {
    let mut s = three_storage();
    let mut m = HashMap::new();
    m.insert(0u64, Latency { ping_ns: 1, warned: false });
    m.insert(1u64, Latency { ping_ns: 2, warned: true });
    s.replace_latency(m.clone());
    assert_eq!(s.latency, m);
    assert_eq!(s.latency.len(), 2);
    s.replace_latency(HashMap::new());
    assert_eq!(s.latency.len(), 0);
    assert_eq!(s.process_start_us, 5);
}

#[test]
fn hysteresis_warns_once_and_recovers_once() {
    let mut m = HashMap::new();
    let pings = [5 * MS, 500 * MS, 500 * MS, 5 * MS];
    let mut seen = Vec::new();
    for p in pings {
        seen.push(record_sample(&mut m, Sample { shard: 0, ping_ns: p }, 200));
    }
    assert_eq!(
        seen,
        vec![Transition::Unchanged, Transition::Warned, Transition::Unchanged, Transition::Recovered]
    );
    assert_eq!(m[&0], Latency { ping_ns: 5 * MS, warned: false });
}

#[test]
fn hysteresis_at_threshold_changes_nothing() {
    let mut m = HashMap::new();
    assert_eq!(record_sample(&mut m, Sample { shard: 4, ping_ns: 200 * MS }, 200), Transition::Unchanged);
    assert!(!m[&4].warned);
    assert_eq!(record_sample(&mut m, Sample { shard: 4, ping_ns: 201 * MS }, 200), Transition::Warned);
    assert_eq!(record_sample(&mut m, Sample { shard: 4, ping_ns: 200 * MS }, 200), Transition::Unchanged);
    assert!(m[&4].warned);
    assert_eq!(record_sample(&mut m, Sample { shard: 4, ping_ns: 199 * MS }, 200), Transition::Recovered);
}

#[test]
fn monitor_tick_over_connections() {
    let mut m = HashMap::new();
    m.insert(1u64, Latency { ping_ns: 900 * MS, warned: true });
    let samples = vec![
        Sample { shard: 0, ping_ns: 0 },
        Sample { shard: 1, ping_ns: 10 * MS },
        Sample { shard: 2, ping_ns: 300 * MS },
    ];
    let t = monitor_tick(&mut m, &samples, SHARD_PING_WARN_MIN);
    assert_eq!(t, vec![Transition::Unchanged, Transition::Recovered, Transition::Warned]);
    assert_eq!(m.len(), 3);
    assert_eq!(m[&0], Latency { ping_ns: 0, warned: false });
    assert_eq!(m[&1], Latency { ping_ns: 10 * MS, warned: false });
    assert_eq!(m[&2], Latency { ping_ns: 300 * MS, warned: true });
}

#[test]
fn rotation_cycles_round_robin() {
    let s = three_storage();
    let mut index = 0usize;
    let mut seen = Vec::new();
    for _ in 0..3 {
        let step = rotation_tick(&s, index);
        index = step.index;
        seen.push(index);
    }
    assert_eq!(seen, vec![1, 2, 0]);
    assert_eq!(next_index(7, 3), 2);
    assert_eq!(next_index(0, 1), 0);
    assert_eq!(next_index(usize::MAX, 2), 0);
}

#[test]
fn rotation_uses_list_entry() {
    let s = three_storage();
    let step = rotation_tick(&s, 0);
    assert_eq!(step.index, 1);
    assert!(matches!(step.presence, Some(Presence::Watching(ref m)) if m == "b"));
    assert!(!step.unknown);
}

#[test]
fn maintenance_wins_over_dev() {
    let mut s = three_storage();
    s.maintenance = true;
    s.dev = true;
    s.debug = true;
    let st = select_status(&s, 0);
    assert_eq!(st.message, s.status.maintenance_status.message);
    s.maintenance = false;
    assert_eq!(select_status(&s, 0).message, s.status.debug_mode_status.message);
    s.debug = false;
    assert_eq!(select_status(&s, 0).message, s.status.dev_status.message);
    s.dev = false;
    assert_eq!(select_status(&s, 2).message, "c");
}

#[test]
fn unknown_kind_sets_no_presence() {
    let list = vec![entry("playing", "a"), entry("juggling", "b")];
    let s = Storage::from_config(&config_with(list, 10, false), 0).unwrap();
    let step = rotation_tick(&s, 0);
    assert!(step.presence.is_none());
    assert!(step.unknown);
    let next = rotation_tick(&s, step.index);
    assert!(matches!(next.presence, Some(Presence::Playing(ref m)) if m == "a"));
    assert!(!next.unknown);
}

#[test]
fn streaming_presence_carries_link() {
    let st = Status { message: "live".to_string(), status_type: ClientActivityType::Streaming };
    let p = presence_for(&st, &"https://example.org/live".to_string());
    assert!(matches!(p, Some(Presence::Streaming(ref m, ref u)) if m == "live" && u == "https://example.org/live"));
    let l = Status { message: "tunes".to_string(), status_type: ClientActivityType::Listening };
    assert!(matches!(presence_for(&l, &String::new()), Some(Presence::Listening(ref m)) if m == "tunes"));
}

#[test]
fn exit_codes() {
    assert_eq!(exit_code(true), 0);
    assert_eq!(exit_code(false), 1);
}

#[test]
fn hardware_id_from_reads() {
    assert!(matches!(get_id(&vec![None, None]), Err(HwIdError::NotFound)));
    assert!(matches!(get_id(&vec![]), Err(HwIdError::NotFound)));
    assert!(matches!(get_id(&vec![Some(String::new())]), Err(HwIdError::Malformed(ref m)) if m.is_empty()));
    let id = get_id(&vec![None, Some("abc123\nrest\n".to_string())]).unwrap();
    assert_eq!(id, "abc123");
    let first = get_id(&vec![Some("one\r\n".to_string()), Some("two".to_string())]).unwrap();
    assert_eq!(first, "one");
}

#[test]
fn languages_add_and_replace() {
    let mut l = Languages::new();
    let fr = "fr_default".to_string();
    assert_eq!(l.add_lang(&fr, serde_json::Value::from(1), false), Ok(()));
    assert_eq!(
        l.add_lang(&fr, serde_json::Value::from(2), false),
        Err(LanguageClientError::LanguageAlreadyDefined)
    );
    assert_eq!(l.langs[0].1, serde_json::Value::from(1));
    assert_eq!(l.add_lang(&fr, serde_json::Value::from(3), true), Ok(()));
    assert_eq!(l.langs.len(), 1);
    assert_eq!(l.langs[0].1, serde_json::Value::from(3));
    assert_eq!(l.add_lang(&"en_default".to_string(), serde_json::Value::Null, true), Ok(()));
    assert_eq!(l.langs.len(), 2);
    assert_eq!(l.langs[1].0, "en_default");
}

#[test]
fn words_and_text() {
    assert_eq!(split_words("  a  b\u{3000}c\n"), vec!["a".to_string(), "b".to_string(), "c".to_string()]);
    assert!(split_words(" \t ").is_empty());
    assert!(same_text("abc", "abc"));
    assert!(!same_text("abc", "ab"));
    assert!(!same_text("ab", "abc"));
}
