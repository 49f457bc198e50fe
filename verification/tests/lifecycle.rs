//! Scenarios for the server lifecycle manager: the single running slot,
//! the errors of each operation, and the fixed-port status report.
use h5_server::errors::ServerError;
use h5_server::manager::{ContentRoot, ServerManager};

fn good_root() -> Option<ContentRoot> {
    Some(ContentRoot { path: "web".to_string(), exists: true })
}

#[test]
fn start_succeeds_then_already_running() {
    let mut m = ServerManager::new();
    let r = m.start(8080, good_root());
    let h = match r {
        Ok(h) => h,
        Err(_) => panic!("first start must succeed"),
    };
    assert!(h.info.running);
    assert_eq!(h.info.port, 8080);
    assert_eq!(h.info.local_url, "http://localhost:8080");
    assert!(h.info.network_url.starts_with("http://"));
    assert!(h.info.network_url.ends_with(":8080"));

    let again = m.start(8080, good_root());
    assert!(matches!(again, Err(ServerError::AlreadyRunning)));
    let other_port = m.start(9090, good_root());
    assert!(matches!(other_port, Err(ServerError::AlreadyRunning)));
    assert!(m.status().running);
}

#[test]
fn start_missing_content_root_fails_and_leaves_stopped() {
    let mut m = ServerManager::new();
    let r = m.start(3000, Some(ContentRoot { path: "web".to_string(), exists: false }));
    match r {
        Err(ServerError::ContentRootMissing(path)) => assert_eq!(path, "web"),
        _ => panic!("expected ContentRootMissing"),
    }
    assert!(!m.status().running);
    // The slot was left untouched, so a good start still succeeds.
    assert!(m.start(3000, good_root()).is_ok());
}

#[test]
fn start_unresolved_content_root_fails() {
    let mut m = ServerManager::new();
    let r = m.start(3000, None);
    assert!(matches!(r, Err(ServerError::ResourceResolutionFailed)));
    assert!(!m.status().running);
}

#[test]
fn stop_when_stopped_fails_and_is_idempotent() {
    let mut m = ServerManager::new();
    assert!(matches!(m.stop(), Err(ServerError::NotRunning)));
    assert!(matches!(m.stop(), Err(ServerError::NotRunning)));
    assert!(!m.status().running);
}

#[test]
fn start_stop_start_reuses_the_slot() {
    let mut m = ServerManager::new();
    let h = match m.start(8080, good_root()) {
        Ok(h) => h,
        Err(_) => panic!("first start must succeed"),
    };
    let stopped = m.stop();
    match stopped {
        Ok(msg) => assert_eq!(msg, "服务器已停止"),
        Err(_) => panic!("stop of a running manager with a live receiver must succeed"),
    }
    assert!(!m.status().running);
    drop(h);
    // Same port and a different port both work after the slot was reset.
    let h2 = m.start(8080, good_root());
    assert!(h2.is_ok());
    assert!(m.stop().is_ok());
    drop(h2);
    let h3 = m.start(9090, good_root());
    assert!(h3.is_ok());
}

#[test]
fn stop_delivers_the_one_shot_signal() {
    let mut m = ServerManager::new();
    let h = match m.start(8080, good_root()) {
        Ok(h) => h,
        Err(_) => panic!("start must succeed"),
    };
    let mut rx = h.shutdown_rx;
    assert!(m.stop().is_ok());
    // The receiving half really observed the signal.
    assert!(rx.try_recv().is_ok());
}

#[test]
fn stop_reports_a_dropped_receiver() {
    let mut m = ServerManager::new();
    let h = match m.start(8080, good_root()) {
        Ok(h) => h,
        Err(_) => panic!("start must succeed"),
    };
    drop(h);
    // The background task is gone: the slot is still emptied, but the
    // failure is reported.
    assert!(matches!(m.stop(), Err(ServerError::SignalDeliveryFailed)));
    assert!(!m.status().running);
    assert!(matches!(m.stop(), Err(ServerError::NotRunning)));
}

#[test]
fn background_exit_clears_the_slot() {
    let mut m = ServerManager::new();
    let h = match m.start(8080, good_root()) {
        Ok(h) => h,
        Err(_) => panic!("start must succeed"),
    };
    drop(h);
    m.on_serve_exit();
    assert!(!m.status().running);
    assert!(matches!(m.stop(), Err(ServerError::NotRunning)));
    assert!(m.start(8080, good_root()).is_ok());
}

#[test]
fn status_reports_the_fixed_port() {
    let mut m = ServerManager::new();
    let before = m.status();
    assert!(!before.running);
    assert_eq!(before.port, 8080);
    assert_eq!(before.local_url, "http://localhost:8080");
    assert!(before.network_url.ends_with(":8080"));

    // Status keeps its fixed port even when the server was started on a
    // different one: the asymmetry is deliberate.
    let h = m.start(9000, good_root());
    assert!(h.is_ok());
    let during = m.status();
    assert!(during.running);
    assert_eq!(during.port, 8080);
    assert_eq!(during.local_url, "http://localhost:8080");
}
