use pico_notifier::errors::{classify, FailureKind, Severity};
use pico_notifier::notifier::{notify_cycle, run_cycles, CycleScript, NotifierConfig, StubStack};
use pico_notifier::resolver::Ipv4Address;

fn test_config() -> NotifierConfig {
    NotifierConfig {
        host: String::from("discord.com"),
        channel_id: String::from("1085517913133840384"),
        token: String::from("s3cret-token"),
        homepage: String::from("https://example.com/bot"),
        version: String::from("0.1.0"),
        message: String::from("Hello World!"),
        interval_secs: 10,
    }
}

fn discord_address() -> Ipv4Address {
    Ipv4Address { o0: 162, o1: 159, o2: 135, o3: 232 }
}

fn all_good() -> CycleScript {
    CycleScript { records: vec![discord_address()], connect_ok: true, send_ok: true }
}

#[test]
fn one_cycle_sends_one_post() {
    let cfg = test_config();
    let mut stack = StubStack { script: vec![all_good()], cycle: 0, posts: vec![] };
    let report = notify_cycle(&cfg, &mut stack);
    assert!(report.posted);
    assert_eq!(report.diagnostics.len(), 0);
    assert_eq!(report.sleep_secs, 10);
    assert_eq!(stack.posts.len(), 1);
    let post = &stack.posts[0];
    assert_eq!(
        post.url,
        "https://discord.com/api/channels/1085517913133840384/messages"
    );
    assert_eq!(post.content_type, "application/json");
    assert_eq!(post.body, "{\"content\": \"Hello World!\"}");
    assert_eq!(post.headers.len(), 2);
    assert_eq!(post.headers[0].name, "Authorization");
    assert_eq!(post.headers[0].value, "Bot s3cret-token");
    assert_eq!(post.headers[1].name, "User-Agent");
    assert_eq!(
        post.headers[1].value,
        "DiscordBot (https://example.com/bot, 0.1.0)"
    );
}

#[test]
fn failed_connect_logs_once_and_sleeps() {
    let cfg = test_config();
    let failing = CycleScript { records: vec![discord_address()], connect_ok: false, send_ok: true };
    let mut stack = StubStack { script: vec![failing, all_good()], cycle: 0, posts: vec![] };
    let report = notify_cycle(&cfg, &mut stack);
    // (a) exactly one diagnostic record
    assert_eq!(report.diagnostics.len(), 1);
    assert_eq!(report.diagnostics[0].kind, FailureKind::ConnectFailed);
    assert!(!report.posted);
    assert_eq!(stack.posts.len(), 0);
    // (c) the cycle ends by sleeping for the configured interval
    assert_eq!(report.sleep_secs, 10);
    // (b) the loop did not terminate: the next cycle runs and delivers
    let next = notify_cycle(&cfg, &mut stack);
    assert!(next.posted);
    assert_eq!(stack.posts.len(), 1);
}

#[test]
fn empty_resolution_logs_resolution_failed() {
    let cfg = test_config();
    let no_records = CycleScript { records: vec![], connect_ok: true, send_ok: true };
    let mut stack = StubStack { script: vec![no_records], cycle: 0, posts: vec![] };
    let report = notify_cycle(&cfg, &mut stack);
    assert_eq!(report.diagnostics.len(), 1);
    assert_eq!(report.diagnostics[0].kind, FailureKind::ResolutionFailed);
    assert!(!report.posted);
}

#[test]
fn failed_send_logs_send_failed() {
    let cfg = test_config();
    let failing = CycleScript { records: vec![discord_address()], connect_ok: true, send_ok: false };
    let mut stack = StubStack { script: vec![failing], cycle: 0, posts: vec![] };
    let report = notify_cycle(&cfg, &mut stack);
    assert_eq!(report.diagnostics.len(), 1);
    assert_eq!(report.diagnostics[0].kind, FailureKind::SendFailed);
    assert!(!report.posted);
}

#[test]
fn n_successful_cycles_send_n_identical_posts() {
    let cfg = test_config();
    let script: Vec<CycleScript> = (0..5).map(|_| all_good()).collect();
    let mut stack = StubStack { script, cycle: 0, posts: vec![] };
    let reports = run_cycles(&cfg, &mut stack, 5);
    assert_eq!(reports.len(), 5);
    assert_eq!(stack.posts.len(), 5);
    for report in &reports {
        assert!(report.posted);
        assert_eq!(report.sleep_secs, 10);
    }
    for post in &stack.posts {
        // the message is constant, not incrementing
        assert_eq!(post.body, "{\"content\": \"Hello World!\"}");
        assert_eq!(post.url, stack.posts[0].url);
    }
}

#[test]
fn mixed_script_delivers_only_successes() {
    let cfg = test_config();
    let no_records = CycleScript { records: vec![], connect_ok: true, send_ok: true };
    let no_connect = CycleScript { records: vec![discord_address()], connect_ok: false, send_ok: true };
    let script = vec![all_good(), no_records, no_connect, all_good()];
    let mut stack = StubStack { script, cycle: 0, posts: vec![] };
    let reports = run_cycles(&cfg, &mut stack, 4);
    assert_eq!(stack.posts.len(), 2);
    assert_eq!(stack.cycle, 4);
    let logged: Vec<usize> = reports.iter().map(|r| r.diagnostics.len()).collect();
    assert_eq!(logged, vec![0, 1, 1, 0]);
    assert_eq!(reports[1].diagnostics[0].kind, FailureKind::ResolutionFailed);
    assert_eq!(reports[2].diagnostics[0].kind, FailureKind::ConnectFailed);
}

#[test]
fn cycle_failures_classify_as_recoverable() {
    assert_eq!(
        classify(FailureKind::ResolutionFailed),
        Severity::RecoverableIgnored
    );
    assert_eq!(classify(FailureKind::ConnectFailed), Severity::RecoverableIgnored);
    assert_eq!(classify(FailureKind::SendFailed), Severity::RecoverableIgnored);
}

#[test]
fn certificate_problems_are_silently_absorbed() {
    assert_eq!(
        classify(FailureKind::PeerCertificateInvalid),
        Severity::SilentlyAbsorbed
    );
}
