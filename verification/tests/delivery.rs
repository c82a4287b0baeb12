use index_watch::dispatch::{
    banned, broadcast_for, fanout_for, links_for, message_for, subscribers_of, DispatchConfig,
    FanoutStep, Outbound,
};
use index_watch::extract::{EventKind, LifecycleEvent};
use index_watch::record::IndexRecord;
use index_watch::sender::SendOptions;

const LOUD: SendOptions = SendOptions { silent: false, disable_preview: true };
const QUIET: SendOptions = SendOptions { silent: true, disable_preview: true };

fn happened(name: &str, vers: &str, kind: EventKind) -> LifecycleEvent {
    LifecycleEvent {
        record: IndexRecord {
            name: name.to_string(),
            vers: vers.to_string(),
            yanked: kind == EventKind::Yanked,
            line: Vec::new(),
        },
        kind,
    }
}

fn config(channel: Option<i64>, banned: &[&str], delay: u64) -> DispatchConfig {
    DispatchConfig {
        channel,
        banned: banned.iter().map(|name| name.to_string()).collect(),
        fanout_delay_millis: delay,
    }
}

fn send(destination: i64) -> FanoutStep {
    FanoutStep::Send(Outbound { destination, options: QUIET })
}

fn waited(steps: &[FanoutStep]) -> u64 {
    steps
        .iter()
        .map(|step| match step {
            FanoutStep::Wait { millis } => *millis,
            FanoutStep::Send(_) => 0,
        })
        .sum()
}

#[test]
fn links_point_at_the_version() {
    assert_eq!(
        links_for(&"foo".to_string(), &"1.1.0".to_string()),
        "[<a href='https://docs.rs/foo/1.1.0'>docs.rs</a>] \
         [<a href='https://crates.io/crates/foo/1.1.0'>crates.io</a>] \
         [<a href='https://lib.rs/crates/foo'>lib.rs</a>]"
    );
}

#[test]
fn the_message_names_what_happened() {
    let links = "[<a href='https://docs.rs/foo/1.1.0'>docs.rs</a>] \
                 [<a href='https://crates.io/crates/foo/1.1.0'>crates.io</a>] \
                 [<a href='https://lib.rs/crates/foo'>lib.rs</a>]";
    assert_eq!(
        message_for(&happened("foo", "1.1.0", EventKind::NewVersion)),
        format!("Crate was updated: <code>foo#1.1.0</code> {}", links)
    );
    assert_eq!(
        message_for(&happened("foo", "1.1.0", EventKind::Yanked)),
        format!("Crate was yanked: <code>foo#1.1.0</code> {}", links)
    );
    assert_eq!(
        message_for(&happened("foo", "1.1.0", EventKind::Unyanked)),
        format!("Crate was unyanked: <code>foo#1.1.0</code> {}", links)
    );
}

#[test]
fn banned_looks_for_the_exact_name() {
    let list = vec!["spam".to_string(), "noise".to_string()];
    assert!(banned(&list, &"spam".to_string()));
    assert!(banned(&list, &"noise".to_string()));
    assert!(!banned(&list, &"spa".to_string()));
    assert!(!banned(&list, &"Spam".to_string()));
    assert!(!banned(&list, &"".to_string()));
    assert!(!banned(&[], &"spam".to_string()));
}

#[test]
fn the_broadcast_goes_to_the_channel_and_notifies() {
    let event = happened("foo", "1.0.0", EventKind::NewVersion);
    assert_eq!(
        broadcast_for(&config(Some(-1001), &["spam"], 50), &event),
        Some(Outbound { destination: -1001, options: LOUD })
    );
    assert_eq!(broadcast_for(&config(None, &[], 50), &event), None);
}

#[test]
fn a_banned_package_is_not_broadcast() {
    let event = happened("spam", "9.9.9", EventKind::NewVersion);
    assert_eq!(broadcast_for(&config(Some(-1001), &["noise", "spam"], 50), &event), None);
}

#[test]
fn a_failed_lookup_counts_as_no_subscribers() {
    assert_eq!(subscribers_of::<String>(Ok(vec![3, 1, 2])), vec![3, 1, 2]);
    assert_eq!(subscribers_of(Err("connection reset".to_string())), Vec::<i64>::new());
}

#[test]
fn the_fan_out_keeps_the_order_and_pauses_after_each_message() {
    assert_eq!(
        fanout_for(&vec![30, 10, 20], 250),
        vec![
            send(30),
            FanoutStep::Wait { millis: 250 },
            send(10),
            FanoutStep::Wait { millis: 250 },
            send(20),
            FanoutStep::Wait { millis: 250 },
        ]
    );
    assert_eq!(fanout_for(&[], 250), Vec::new());
    assert_eq!(fanout_for(&vec![7, 7], 0), vec![send(7), FanoutStep::Wait { millis: 0 }, send(7), FanoutStep::Wait { millis: 0 }]);
}

#[test]
fn the_fan_out_takes_at_least_the_pauses_between_messages() {
    for n in 0..6u64 {
        let subscribers: Vec<i64> = (0..n as i64).collect();
        let steps = fanout_for(&subscribers, 40);
        assert_eq!(waited(&steps), n * 40);
        assert!(waited(&steps) >= n.saturating_sub(1) * 40);
    }
}

#[test]
fn subscribers_of_a_banned_package_still_get_their_messages() {
    let event = happened("spam", "1.0.0", EventKind::NewVersion);
    let settings = config(Some(42), &["spam"], 100);
    assert_eq!(broadcast_for(&settings, &event), None);
    assert_eq!(
        fanout_for(&subscribers_of::<String>(Ok(vec![5, 6])), settings.fanout_delay_millis),
        vec![send(5), FanoutStep::Wait { millis: 100 }, send(6), FanoutStep::Wait { millis: 100 }]
    );
}

#[test]
fn a_failed_lookup_leaves_the_broadcast_alone() {
    let event = happened("foo", "1.0.0", EventKind::Unyanked);
    let settings = config(Some(42), &[], 100);
    assert_eq!(broadcast_for(&settings, &event), Some(Outbound { destination: 42, options: LOUD }));
    assert_eq!(fanout_for(&subscribers_of(Err(5u8)), settings.fanout_delay_millis), Vec::new());
}
