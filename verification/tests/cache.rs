use git_board::cache::{
    client_key, client_pid, fetch_source, fnv1a, is_stale, kill_targets, live_client_count,
    repo_key, FetchSource, GlobalCacheSession, GlobalCacheWorker,
    MaintainStep,
};
use git_board::config::TimeSpan;

#[test]
fn fnv1a_matches_known_values() {
    assert_eq!(fnv1a(b""), 0xcbf29ce484222325);
    assert_eq!(fnv1a(b"a"), 0xaf63dc4c8601ec8c);
    assert_eq!(fnv1a(b"foobar"), 0x85944171f73967e8);
}

#[test]
fn repo_keys_ignore_case_and_surrounding_space() {
    let key = repo_key("Owner/Repo");
    assert_eq!(key.len(), 16);
    assert_eq!(key, repo_key("  owner/repo \t"));
    assert_eq!(key, format!("{:016x}", fnv1a(b"owner/repo")));
    assert_ne!(key, repo_key("owner/other"));
    assert_eq!(repo_key(""), "cbf29ce484222325");
}

#[test]
fn owners_renew_and_others_claim() {
    let mut session = GlobalCacheSession {
        repo_dir: "/tmp/cache/abc".to_string(),
        client_path: "/tmp/cache/abc/clients/1-2".to_string(),
        owner_path: "/tmp/cache/abc/owner".to_string(),
        is_owner: false,
    };
    assert_eq!(session.maintain(), MaintainStep::ClaimOwnership);
    assert_eq!(fetch_source(&Some(session.worker())), FetchSource::SharedCache);
    session.record_claim(true);
    assert_eq!(session.maintain(), MaintainStep::RenewOwnership);
    let worker: GlobalCacheWorker = session.worker();
    assert!(worker.is_owner());
    assert_eq!(worker.repo_dir, "/tmp/cache/abc");
    assert_eq!(fetch_source(&Some(worker)), FetchSource::GitHubThenShare);
    assert_eq!(fetch_source(&None), FetchSource::GitHub);
}

#[test]
fn marks_older_than_thirty_seconds_are_stale() {
    assert!(!is_stale(None));
    assert!(!is_stale(Some(TimeSpan::from_secs(30))));
    assert!(is_stale(Some(TimeSpan {
        secs: 30,
        nanos: 1
    })));
    assert!(is_stale(Some(TimeSpan::from_secs(31))));
    assert!(!is_stale(Some(TimeSpan {
        secs: 29,
        nanos: 999_999_999
    })));
}

#[test]
fn closing_sessions_spares_the_current_process() {
    assert_eq!(kill_targets(&vec![10, 42, 11, 42], 42), vec![10, 11]);
    assert_eq!(kill_targets(&vec![42], 42), Vec::<u32>::new());
    assert_eq!(kill_targets(&Vec::new(), 1), Vec::<u32>::new());
}

#[test]
fn client_marks_name_their_process() {
    let key = client_key(4321, 1_780_000_000_123_456_789);
    assert_eq!(key, "4321-1780000000123456789");
    assert_eq!(client_pid(&key), Some(4321));
    assert_eq!(client_pid(&client_key(u32::MAX, u128::MAX)), Some(u32::MAX));
    assert_eq!(client_pid("12"), Some(12));
    assert_eq!(client_pid("-12"), None);
    assert_eq!(client_pid("1a-2"), None);
    assert_eq!(client_pid("4294967296-1"), None);
    assert_eq!(client_pid("cache.json"), None);
}

#[test]
fn live_clients_are_those_with_fresh_marks() {
    let ages = vec![
        Some(TimeSpan::from_secs(1)),
        None,
        Some(TimeSpan::from_secs(31)),
        Some(TimeSpan::from_secs(30)),
    ];
    assert_eq!(live_client_count(&ages), 3);
    assert_eq!(live_client_count(&Vec::new()), 0);
}
