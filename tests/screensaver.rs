use cosmic_idle::{Inhibitor, Screensaver};

fn inhibit(s: &mut Screensaver, app: &str, client: &str) -> (u32, Option<bool>) {
    s.inhibit(app.to_string(), "reason".to_string(), Some(client.to_string()))
}

#[test]
fn cookies_are_monotonic_and_uninhibit_twice_is_noop() {
    let mut s = Screensaver::new();
    assert_eq!(inhibit(&mut s, "app", ":1.10"), (1, Some(true)));
    assert_eq!(inhibit(&mut s, "app", ":1.10"), (2, None));
    assert_eq!(s.un_inhibit(1), None);
    assert_eq!(s.inhibitors.len(), 1);
    assert_eq!(s.inhibitors[0].cookie, 2);
    // The second call finds nothing and changes nothing.
    assert_eq!(s.un_inhibit(1), None);
    assert_eq!(s.inhibitors.len(), 1);
    assert_eq!(s.last_cookie, 2);
}

#[test]
fn last_uninhibit_clears_aggregate() {
    let mut s = Screensaver::new();
    let (cookie, signal) = inhibit(&mut s, "player", ":1.3");
    assert_eq!(signal, Some(true));
    assert!(s.is_inhibited());
    assert_eq!(s.un_inhibit(cookie), Some(false));
    assert!(!s.is_inhibited());
}

#[test]
fn unknown_cookie_is_ignored() {
    let mut s = Screensaver::new();
    inhibit(&mut s, "player", ":1.3");
    assert_eq!(s.un_inhibit(42), None);
    assert_eq!(s.inhibitors.len(), 1);
}

#[test]
fn inhibit_without_sender_takes_a_cookie_but_records_nothing() {
    let mut s = Screensaver::new();
    assert_eq!(s.inhibit("anon".to_string(), "r".to_string(), None), (1, None));
    assert!(s.inhibitors.is_empty());
    assert_eq!(inhibit(&mut s, "app", ":1.1"), (2, Some(true)));
}

#[test]
fn inhibitor_keeps_what_was_asked() {
    let mut s = Screensaver::new();
    s.inhibit("video".to_string(), "playing".to_string(), Some(":1.7".to_string()));
    let i: &Inhibitor = &s.inhibitors[0];
    assert_eq!(i.cookie, 1);
    assert_eq!(i.application_name, "video");
    assert_eq!(i.reason_for_inhibit, "playing");
    assert_eq!(i.client, ":1.7");
}

#[test]
fn disconnect_removes_exactly_the_clients_inhibitors() {
    let mut s = Screensaver::new();
    inhibit(&mut s, "a", ":1.1");
    inhibit(&mut s, "b", ":1.2");
    inhibit(&mut s, "c", ":1.1");
    inhibit(&mut s, "d", ":1.3");
    assert_eq!(s.client_disconnected(&":1.1".to_string()), None);
    let cookies: Vec<u32> = s.inhibitors.iter().map(|i| i.cookie).collect();
    assert_eq!(cookies, vec![2, 4]);
    assert!(s.inhibitors.iter().all(|i| i.client != ":1.1"));
}

#[test]
fn disconnect_of_last_owner_emits_once() {
    let mut s = Screensaver::new();
    inhibit(&mut s, "a", ":1.1");
    inhibit(&mut s, "b", ":1.1");
    inhibit(&mut s, "c", ":1.1");
    assert_eq!(s.client_disconnected(&":1.1".to_string()), Some(false));
    assert!(s.inhibitors.is_empty());
    // Nothing left: a second disconnect says nothing.
    assert_eq!(s.client_disconnected(&":1.1".to_string()), None);
}

#[test]
fn disconnect_of_unknown_client_changes_nothing() {
    let mut s = Screensaver::new();
    inhibit(&mut s, "a", ":1.1");
    assert_eq!(s.client_disconnected(&":1.9".to_string()), None);
    assert_eq!(s.inhibitors.len(), 1);
}

#[test]
fn signals_match_emptiness_transitions_over_a_trace() {
    let mut s = Screensaver::new();
    let mut signals: Vec<bool> = Vec::new();
    let mut sizes: Vec<usize> = vec![0];
    let mut record = |sig: Option<bool>, s: &Screensaver| {
        if let Some(b) = sig {
            signals.push(b);
        }
        sizes.push(s.inhibitors.len());
    };
    let (c1, sig) = inhibit(&mut s, "a", ":1.1");
    record(sig, &s);
    let (c2, sig) = inhibit(&mut s, "b", ":1.2");
    record(sig, &s);
    let sig = s.un_inhibit(c1);
    record(sig, &s);
    let sig = s.un_inhibit(c2);
    record(sig, &s);
    let (_, sig) = inhibit(&mut s, "c", ":1.3");
    record(sig, &s);
    let (_, sig) = inhibit(&mut s, "d", ":1.3");
    record(sig, &s);
    let sig = s.client_disconnected(&":1.3".to_string());
    record(sig, &s);
    let transitions = sizes.windows(2).filter(|w| (w[0] == 0) != (w[1] == 0)).count();
    assert_eq!(signals, vec![true, false, true, false]);
    assert_eq!(signals.len(), transitions);
}

#[test]
fn cookies_exhausted_only_at_the_end() {
    let mut s = Screensaver::new();
    assert!(!s.cookies_exhausted());
    s.last_cookie = u32::MAX - 1;
    assert_eq!(inhibit(&mut s, "a", ":1.1"), (u32::MAX, Some(true)));
    assert!(s.cookies_exhausted());
}
