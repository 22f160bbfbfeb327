use kiosk_rotation::controller::{
    next_key, AdvanceStart, Phase, ProbeStart, ProbeVerdict, RotationController, RotationError,
    SessionStart,
};
use kiosk_rotation::overlay::{decimal_string, render_entry, render_overlay};
use kiosk_rotation::validate::urls_well_formed;

fn urls(list: &[&str]) -> Vec<String> {
    list.iter().map(|s| s.to_string()).collect()
}

fn started(list: &[&str]) -> RotationController {
    let mut c = RotationController::new();
    match c.start_session(urls(list)) {
        Ok(SessionStart::Open { .. }) => {}
        other => panic!("session did not open: {:?}", other),
    }
    c
}

fn ticket_of(a: &AdvanceStart) -> u64 {
    match a {
        AdvanceStart::Navigate { ticket, .. } => *ticket,
        other => panic!("advance did not begin: {:?}", other),
    }
}

fn navigate_and_commit(c: &mut RotationController, a: AdvanceStart) -> Option<usize> {
    match a {
        AdvanceStart::Navigate { ticket, .. } => c.finish_advance(ticket),
        other => panic!("advance did not begin: {:?}", other),
    }
}

#[test]
fn advance_within_bounds_sets_index_and_timer() {
    let mut c = started(&["https://a.test", "https://b.test", "https://c.test"]);
    let a = c.advance_to(2, 1_700_000_000_000);
    match &a {
        AdvanceStart::Navigate { index, url, .. } => {
            assert_eq!(*index, 2);
            assert_eq!(url, "https://c.test");
        }
        other => panic!("unexpected {:?}", other),
    }
    assert_eq!(c.phase(), Phase::Advancing);
    assert_eq!(c.current_index(), 0);
    assert_eq!(c.get_rotation_timer(), 0);
    assert_eq!(c.finish_advance(ticket_of(&a)), Some(2));
    assert_eq!(c.current_index(), 2);
    assert_eq!(c.get_rotation_timer(), 1_700_000_000_000);
    assert_eq!(c.phase(), Phase::Displaying);
}

#[test]
fn advance_out_of_range_changes_nothing() {
    let mut c = started(&["https://a.test", "https://b.test"]);
    c.set_rotation_timer(42);
    assert!(matches!(c.advance_to(2, 99), AdvanceStart::OutOfRange));
    assert!(matches!(c.advance_to(usize::MAX, 99), AdvanceStart::OutOfRange));
    assert_eq!(c.current_index(), 0);
    assert_eq!(c.get_rotation_timer(), 42);
    assert_eq!(c.phase(), Phase::Displaying);
    assert_eq!(c.finish_advance(0), None);
}

#[test]
fn second_concurrent_advance_is_dropped() {
    let mut c = started(&["https://a.test", "https://b.test", "https://c.test"]);
    let first = c.advance_to(1, 10);
    assert!(matches!(first, AdvanceStart::Navigate { index: 1, .. }));
    assert!(matches!(c.advance_to(2, 20), AdvanceStart::Busy));
    assert!(matches!(c.advance_next(), AdvanceStart::Busy));
    assert_eq!(c.finish_advance(ticket_of(&first)), Some(1));
    assert_eq!(c.current_index(), 1);
    assert_eq!(c.get_rotation_timer(), 10);
}

#[test]
fn aborted_advance_releases_lock() {
    let mut c = started(&["https://a.test", "https://b.test"]);
    let a = c.advance_to(1, 10);
    c.abort_advance(ticket_of(&a).wrapping_add(1));
    assert_eq!(c.phase(), Phase::Advancing);
    c.abort_advance(ticket_of(&a));
    assert_eq!(c.phase(), Phase::Displaying);
    assert_eq!(c.current_index(), 0);
    assert!(matches!(c.advance_to(1, 10), AdvanceStart::Navigate { .. }));
}

#[test]
fn advance_next_wraps_around() {
    let mut c = started(&["https://a.test", "https://b.test", "https://c.test"]);
    let a = c.advance_to(2, 5);
    navigate_and_commit(&mut c, a);
    assert_eq!(c.current_index(), 2);
    let a = c.advance_next();
    assert!(matches!(&a, AdvanceStart::Navigate { index: 0, url, .. } if url == "https://a.test"));
    assert_eq!(navigate_and_commit(&mut c, a), Some(0));
    assert_eq!(c.current_index(), 0);
    assert_eq!(c.get_rotation_timer(), 0);
}

#[test]
fn probe_without_ack_skips_once() {
    let mut c = started(&["https://a.test", "https://b.test", "https://c.test"]);
    assert_eq!(c.probe_begin(true), ProbeStart::Send);
    let v = c.probe_end();
    let a = match v {
        ProbeVerdict::Skip(a) => a,
        other => panic!("unexpected {:?}", other),
    };
    assert!(matches!(&a, AdvanceStart::Navigate { index: 1, .. }));
    assert_eq!(navigate_and_commit(&mut c, a), Some(1));
    assert_eq!(c.current_index(), 1);
}

#[test]
fn probe_with_ack_keeps_page() {
    let mut c = started(&["https://a.test", "https://b.test"]);
    assert_eq!(c.probe_begin(true), ProbeStart::Send);
    c.probe_ack();
    assert!(matches!(c.probe_end(), ProbeVerdict::Alive));
    assert_eq!(c.current_index(), 0);
    assert_eq!(c.phase(), Phase::Displaying);
}

#[test]
fn probe_stops_when_display_is_gone() {
    let mut c = started(&["https://a.test"]);
    assert_eq!(c.probe_begin(false), ProbeStart::Stop);
    assert_eq!(c.phase(), Phase::Idle);
    assert_eq!(c.url_count(), 0);
    // The loop is gone, so the next session starts a new one.
    match c.start_session(urls(&["https://a.test"])) {
        Ok(SessionStart::Open { start_prober, .. }) => assert!(start_prober),
        other => panic!("unexpected {:?}", other),
    }
}

#[test]
fn probe_stops_after_session_ended() {
    let mut c = started(&["https://a.test", "https://b.test"]);
    assert_eq!(c.probe_begin(true), ProbeStart::Send);
    c.end_session();
    assert!(matches!(c.probe_end(), ProbeVerdict::Stop));
    assert_eq!(c.phase(), Phase::Idle);
}

#[test]
fn second_start_reloads_and_keeps_index() {
    let mut c = started(&["https://a.test", "https://b.test"]);
    let a = c.advance_to(1, 7);
    navigate_and_commit(&mut c, a);
    let r = c.start_session(urls(&["https://a.test", "https://b.test"]));
    assert!(matches!(r, Ok(SessionStart::Reload)));
    assert_eq!(c.current_index(), 1);
    assert_eq!(c.url_count(), 2);
    assert_eq!(c.get_rotation_timer(), 7);
}

#[test]
fn restart_does_not_spawn_second_prober() {
    let mut c = started(&["https://a.test"]);
    c.end_session();
    match c.start_session(urls(&["https://b.test"])) {
        Ok(SessionStart::Open { url, start_prober }) => {
            assert_eq!(url, "https://b.test");
            assert!(!start_prober);
        }
        other => panic!("unexpected {:?}", other),
    }
}

#[test]
fn start_with_empty_list_fails() {
    let mut c = RotationController::new();
    let r = c.start_session(Vec::new());
    assert!(matches!(r, Err(RotationError::InvalidInput)));
    assert_eq!(c.phase(), Phase::Idle);
    assert_eq!(c.url_count(), 0);
}

#[test]
fn start_with_malformed_url_fails() {
    let mut c = RotationController::new();
    let r = c.start_session(urls(&["https://a.test", "not a url"]));
    assert!(matches!(r, Err(RotationError::InvalidInput)));
    assert_eq!(c.phase(), Phase::Idle);
}

#[test]
fn start_checked_takes_validity_as_given() {
    let mut c = RotationController::new();
    let r = c.start_session_checked(urls(&["x"]), false);
    assert!(matches!(r, Err(RotationError::InvalidInput)));
    assert_eq!(c.phase(), Phase::Idle);
    let r = c.start_session_checked(urls(&["https://x.test", "https://y.test"]), true);
    assert!(matches!(r, Ok(SessionStart::Open { ref url, start_prober: true }) if url == "https://x.test"));
    assert_eq!(c.current_url(), Some("https://x.test".to_string()));
    let r = c.start_session_checked(urls(&["x"]), false);
    assert!(matches!(r, Ok(SessionStart::Reload)));
    assert_eq!(c.url_count(), 2);
}

#[test]
fn active_session_reloads_for_any_list() {
    let mut c = started(&["https://a.test", "https://b.test"]);
    let a = c.advance_to(1, 3);
    navigate_and_commit(&mut c, a);
    assert!(matches!(c.start_session(Vec::new()), Ok(SessionStart::Reload)));
    assert!(matches!(c.start_session(urls(&["not a url"])), Ok(SessionStart::Reload)));
    assert_eq!(c.current_index(), 1);
    assert_eq!(c.url_count(), 2);
    assert_eq!(c.current_url(), Some("https://b.test".to_string()));
}

#[test]
fn stale_advance_cannot_commit() {
    let mut c = started(&["https://a.test", "https://b.test", "https://c.test"]);
    let stale = c.advance_to(2, 50);
    c.end_session();
    match c.start_session(urls(&["https://a.test", "https://b.test", "https://c.test"])) {
        Ok(SessionStart::Open { .. }) => {}
        other => panic!("unexpected {:?}", other),
    }
    let fresh = c.advance_to(1, 60);
    assert_ne!(ticket_of(&stale), ticket_of(&fresh));
    assert_eq!(c.finish_advance(ticket_of(&stale)), None);
    c.abort_advance(ticket_of(&stale));
    assert_eq!(c.phase(), Phase::Advancing);
    assert_eq!(c.current_index(), 0);
    assert_eq!(c.finish_advance(ticket_of(&fresh)), Some(1));
    assert_eq!(c.get_rotation_timer(), 60);
}

#[test]
fn url_validation() {
    assert!(urls_well_formed(&urls(&["https://a.test", "http://b.test/x?y=1"])));
    assert!(urls_well_formed(&Vec::new()));
    assert!(!urls_well_formed(&urls(&["https://a.test", "a.test"])));
    assert!(!urls_well_formed(&urls(&[""])));
}

#[test]
fn two_url_scenario() {
    let mut c = RotationController::new();
    let r = c.start_session(urls(&["https://a.test", "https://b.test"]));
    assert!(matches!(r, Ok(SessionStart::Open { ref url, start_prober: true }) if url == "https://a.test"));
    assert_eq!(c.current_index(), 0);
    let a = c.advance_next();
    assert!(matches!(&a, AdvanceStart::Navigate { index: 1, url, .. } if url == "https://b.test"));
    navigate_and_commit(&mut c, a);
    assert_eq!(c.current_index(), 1);
    assert_eq!(c.current_url(), Some("https://b.test".to_string()));
    assert_eq!(c.probe_begin(true), ProbeStart::Send);
    let a = match c.probe_end() {
        ProbeVerdict::Skip(a) => a,
        other => panic!("unexpected {:?}", other),
    };
    navigate_and_commit(&mut c, a);
    assert_eq!(c.current_index(), 0);
    assert_eq!(c.current_url(), Some("https://a.test".to_string()));
}

#[test]
fn idle_controller_ignores_advances() {
    let mut c = RotationController::new();
    assert!(matches!(c.advance_next(), AdvanceStart::OutOfRange));
    assert!(matches!(c.advance_to(0, 1), AdvanceStart::OutOfRange));
    assert_eq!(c.current_url(), None);
    assert_eq!(c.probe_begin(true), ProbeStart::Stop);
}

#[test]
fn arrow_right_advances() {
    assert!(next_key("ArrowRight"));
    assert!(!next_key("ArrowLeft"));
    assert!(!next_key("ArrowRigh"));
    assert!(!next_key(""));
    let mut c = started(&["https://a.test", "https://b.test"]);
    assert!(c.on_key("Enter").is_none());
    assert_eq!(c.phase(), Phase::Displaying);
    assert!(matches!(c.on_key("ArrowRight"), Some(AdvanceStart::Navigate { index: 1, .. })));
}

#[test]
fn decimal_digits() {
    assert_eq!(decimal_string(0), "0");
    assert_eq!(decimal_string(7), "7");
    assert_eq!(decimal_string(10), "10");
    assert_eq!(decimal_string(1234567890), "1234567890");
}

#[test]
fn entry_markup_exact() {
    assert_eq!(
        render_entry(3, "https://a.test", false),
        "<div class=\"url-dot-container\">\n    <a href=\"#\" class=\"url-dot \" tabindex=\"0\" onclick=\"window.__TAURI_INTERNALS__.invoke('advance_to', { index: 3, endTime: 0 }); return false;\">\n        \n    </a>\n    <span class=\"url-tooltip\">https://a.test</span>\n</div>"
    );
    let active = render_entry(0, "https://b.test", true);
    assert!(active.contains("class=\"url-dot active-dot\""));
    assert!(active.contains("pie-fill-active"));
}

#[test]
fn overlay_marks_current_entry() {
    let mut c = started(&["https://a.test", "https://b.test"]);
    let a = c.advance_to(1, 0);
    navigate_and_commit(&mut c, a);
    let html = c.render_navigation_overlay();
    assert!(html.contains("<style>"));
    assert!(html.ends_with("</div>"));
    assert_eq!(html.matches("url-dot-container\">").count(), 2);
    assert_eq!(html.matches("active-dot").count(), 1);
    let first = html.find("https://a.test").unwrap();
    let second = html.find("https://b.test").unwrap();
    let active = html.find("active-dot").unwrap();
    assert!(first < active && active < second);
    assert_eq!(render_overlay(&Vec::new(), 0).matches("url-dot-container\">").count(), 0);
}
