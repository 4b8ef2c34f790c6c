use termino::storage::{get_session_count, get_sessions, save_session, SessionData, SessionLap};

fn setup() -> Vec<SessionData> {
    // The log starts empty.
    Vec::new()
}

fn session(kind: &str, duration_ms: u64) -> SessionData {
    SessionData {
        session_type: kind.to_string(),
        started: chrono::Utc::now().to_rfc3339(),
        ended: chrono::Utc::now().to_rfc3339(),
        duration_ms,
        status: "completed".to_string(),
        laps: None,
        cycles: None,
    }
}

#[test]
fn test_save_session_creates_file() {
    let mut log = setup();
    let session = session("stopwatch", 30_500);
    save_session(&mut log, session);
    let sessions = get_sessions(log, None, None);
    assert!(!sessions.is_empty());
}

#[test]
fn test_save_session_returns_valid_data() {
    let mut log = setup();
    let session = session("stopwatch", 30_500);
    let saved = save_session(&mut log, session);
    assert_eq!(saved.session_type, "stopwatch");
    assert_eq!(saved.duration_ms, 30_500);
    assert_eq!(saved.status, "completed");
}

#[test]
fn test_save_session_with_laps() {
    let mut log = setup();
    let laps = vec![
        SessionLap { lap: 1, split: 10_000, total: 10_000 },
        SessionLap { lap: 2, split: 15_500, total: 25_500 },
    ];
    let mut session = session("stopwatch", 25_500);
    session.laps = Some(laps);
    let saved = save_session(&mut log, session);
    assert_eq!(saved.laps.as_ref().unwrap().len(), 2);
    assert_eq!(saved.laps.as_ref().unwrap()[0].lap, 1);
}

#[test]
fn test_get_sessions_empty() {
    let log = setup();
    let sessions = get_sessions(log, None, None);
    assert!(sessions.is_empty());
}

#[test]
fn test_get_sessions_returns_all() {
    let mut log = setup();
    save_session(&mut log, session("stopwatch", 30_000));
    save_session(&mut log, session("countdown", 60_000));
    let sessions = get_sessions(log, None, None);
    assert_eq!(sessions.len(), 2);
}

#[test]
fn test_get_sessions_filter_by_type() {
    let mut log = setup();
    save_session(&mut log, session("stopwatch", 30_000));
    save_session(&mut log, session("countdown", 60_000));
    let stopwatch_sessions = get_sessions(log, Some("stopwatch"), None);
    assert_eq!(stopwatch_sessions.len(), 1);
}

#[test]
fn test_get_sessions_limit() {
    let mut log = setup();
    for i in 0..5u64 {
        save_session(&mut log, session("stopwatch", i * 10_000));
    }
    let sessions = get_sessions(log, None, Some(3));
    assert_eq!(sessions.len(), 3);
}

#[test]
fn test_get_sessions_most_recent_first() {
    let mut log = setup();
    let s1 = session("stopwatch", 10_000);
    let s2 = session("stopwatch", 20_000);
    save_session(&mut log, s1);
    save_session(&mut log, s2);
    let sessions = get_sessions(log, None, None);
    assert_eq!(sessions[0].duration_ms, 20_000);
    assert_eq!(sessions[1].duration_ms, 10_000);
}

#[test]
fn test_get_session_count() {
    let mut log = setup();
    assert_eq!(get_session_count(&log), 0);
    save_session(&mut log, session("stopwatch", 30_000));
    assert_eq!(get_session_count(&log), 1);
}

// ---- further cases ----

#[test]
fn saved_session_is_read_back_first() {
    let mut log = setup();
    save_session(&mut log, session("countdown", 1));
    save_session(&mut log, session("pomodoro", 2));
    save_session(&mut log, session("countdown", 3));
    let back = get_sessions(log, Some("countdown"), Some(1));
    assert_eq!(back.len(), 1);
    assert_eq!(back[0].duration_ms, 3);
}

#[test]
fn filter_limit_and_order_together() {
    let mut log = setup();
    for (k, d) in [("stopwatch", 1), ("countdown", 2), ("stopwatch", 3), ("stopwatch", 4), ("pomodoro", 5)] {
        save_session(&mut log, session(k, d));
    }
    let back = get_sessions(log.clone(), Some("stopwatch"), Some(2));
    let ds: Vec<u64> = back.iter().map(|s| s.duration_ms).collect();
    assert_eq!(ds, vec![4, 3]);
    let all = get_sessions(log.clone(), None, None);
    let ds: Vec<u64> = all.iter().map(|s| s.duration_ms).collect();
    assert_eq!(ds, vec![5, 4, 3, 2, 1]);
    assert!(get_sessions(log.clone(), None, Some(0)).is_empty());
    assert!(get_sessions(log, Some("other"), None).is_empty());
}
