use open_protocol_device_simulator::session::{idle_exceeds, ConnectionSession};
use open_protocol_device_simulator::subscriptions::{MultiSpindleResultSubscription, Subscriptions};

fn test_addr() -> String {
    "127.0.0.1:8080".to_string()
}

#[test]
fn test_default_no_subscriptions() {
    let subs = Subscriptions::new();
    assert!(!subs.is_subscribed_to_tightening_result());
    assert_eq!(subs.tightening_result_revision(), None);
    assert!(!subs.is_subscribed_to_pset_selection());
    assert_eq!(subs.active_count(), 0);
    assert!(!subs.has_any_subscription());
}

#[test]
fn test_subscribe_tightening_result() {
    let mut subs = Subscriptions::new();
    subs.subscribe_tightening_result(3);

    assert!(subs.is_subscribed_to_tightening_result());
    assert_eq!(subs.tightening_result_revision(), Some(3));
    assert_eq!(subs.active_count(), 1);
    assert!(subs.has_any_subscription());
}

#[test]
fn test_unsubscribe_tightening_result() {
    let mut subs = Subscriptions::new();
    subs.subscribe_tightening_result(1);
    subs.unsubscribe_tightening_result();

    assert!(!subs.is_subscribed_to_tightening_result());
    assert_eq!(subs.tightening_result_revision(), None);
    assert_eq!(subs.active_count(), 0);
}

#[test]
fn test_multiple_subscriptions() {
    let mut subs = Subscriptions::new();
    subs.subscribe_tightening_result(2);
    subs.subscribe_pset_selection();

    assert!(subs.is_subscribed_to_tightening_result());
    assert!(subs.is_subscribed_to_pset_selection());
    assert_eq!(subs.active_count(), 2);
}

#[test]
fn test_subscribe_idempotent() {
    let mut subs = Subscriptions::new();
    subs.subscribe_tightening_result(1);
    subs.subscribe_tightening_result(3);

    assert!(subs.is_subscribed_to_tightening_result());
    assert_eq!(subs.tightening_result_revision(), Some(3));
    assert_eq!(subs.active_count(), 1);
}

#[test]
fn every_kind_counts_once() {
    let mut subs = Subscriptions::default();
    subs.subscribe_tightening_result(1);
    subs.subscribe_pset_selection();
    subs.subscribe_vehicle_id();
    subs.subscribe_multi_spindle_status();
    subs.subscribe_multi_spindle_result(2);
    assert_eq!(subs.active_count(), 5);
    assert!(subs.is_subscribed_to_vehicle_id());
    assert!(subs.is_subscribed_to_multi_spindle_status());
    assert_eq!(subs.multi_spindle_result_revision(), Some(2));
    subs.unsubscribe_vehicle_id();
    subs.unsubscribe_multi_spindle_status();
    subs.unsubscribe_multi_spindle_result();
    subs.unsubscribe_pset_selection();
    assert_eq!(subs.active_count(), 1);
    assert!(!subs.is_subscribed_to_multi_spindle_result());
    subs.unsubscribe_tightening_result();
    assert!(!subs.has_any_subscription());
}

#[test]
fn live_results_skip_what_the_replay_covers() {
    let sub = MultiSpindleResultSubscription::new(1, None, false, Some(5));
    assert!(!sub.should_send_live_result(5));
    assert!(!sub.should_send_live_result(4));
    assert!(sub.should_send_live_result(6));
    let fresh = MultiSpindleResultSubscription::new(1, None, false, None);
    assert!(fresh.should_send_live_result(0));
}

#[test]
fn test_state_transition_disconnected_to_connected() {
    let session = ConnectionSession::new();
    let addr = test_addr();

    let session = session.connect(addr.clone());
    assert_eq!(session.addr(), addr);
}

#[test]
fn test_state_transition_connected_to_ready() {
    let session = ConnectionSession::new();
    let session = session.connect(test_addr());
    let session = session.authenticate();

    assert!(!session.subscriptions().is_subscribed_to_tightening_result());
    assert_eq!(session.subscriptions().active_count(), 0);
}

#[test]
fn test_full_connection_lifecycle() {
    let session = ConnectionSession::new();
    let session = session.connect(test_addr());
    let session = session.authenticate();
    let _session = session.disconnect();
}

#[test]
fn test_subscription_management() {
    let session = ConnectionSession::new();
    let session = session.connect(test_addr());
    let mut session = session.authenticate();

    assert!(!session.subscriptions().is_subscribed_to_tightening_result());
    assert!(!session.subscriptions().is_subscribed_to_pset_selection());

    session.subscribe_tightening_result(2);
    assert!(session.subscriptions().is_subscribed_to_tightening_result());
    assert_eq!(session.subscriptions().tightening_result_revision(), Some(2));
    assert_eq!(session.subscriptions().active_count(), 1);

    session.subscribe_pset_selection();
    assert!(session.subscriptions().is_subscribed_to_pset_selection());
    assert_eq!(session.subscriptions().active_count(), 2);

    session.unsubscribe_tightening_result();
    assert!(!session.subscriptions().is_subscribed_to_tightening_result());
    assert_eq!(session.subscriptions().active_count(), 1);
}

#[test]
fn test_disconnect_from_connected() {
    let session = ConnectionSession::new();
    let session = session.connect(test_addr());
    let _session = session.disconnect();
}

#[test]
fn test_disconnect_from_ready() {
    let session = ConnectionSession::new();
    let session = session.connect(test_addr());
    let session = session.authenticate();
    let _session = session.disconnect();
}

#[test]
fn test_complete_session_lifecycle_with_subscriptions() {
    let session = ConnectionSession::new();

    let addr = test_addr();
    let session = session.connect(addr.clone());
    assert_eq!(session.addr(), addr);

    let mut session = session.authenticate();

    assert_eq!(session.subscriptions().active_count(), 0);

    session.subscribe_tightening_result(1);
    assert!(session.subscriptions().is_subscribed_to_tightening_result());
    assert_eq!(session.subscriptions().tightening_result_revision(), Some(1));

    session.subscribe_pset_selection();
    assert!(session.subscriptions().is_subscribed_to_pset_selection());
    assert_eq!(session.subscriptions().active_count(), 2);

    session.update_keep_alive();
    assert!(!session.is_timed_out(15));

    session.unsubscribe_tightening_result();
    assert!(!session.subscriptions().is_subscribed_to_tightening_result());
    assert_eq!(session.subscriptions().active_count(), 1);

    let _session = session.disconnect();
}

#[test]
fn test_subscription_isolation() {
    let mut session1 = ConnectionSession::new().connect(test_addr()).authenticate();

    let session2 = ConnectionSession::new().connect(test_addr()).authenticate();

    session1.subscribe_tightening_result(3);

    assert!(
        session1
            .subscriptions()
            .is_subscribed_to_tightening_result()
    );
    assert_eq!(
        session1.subscriptions().tightening_result_revision(),
        Some(3)
    );
    assert!(
        !session2
            .subscriptions()
            .is_subscribed_to_tightening_result()
    );
    assert_eq!(session2.subscriptions().tightening_result_revision(), None);
}

#[test]
fn session_address_tracking() {
    let session1 = ConnectionSession::new().connect("192.168.1.100:12345".to_string());
    let session2 = ConnectionSession::new().connect("192.168.1.101:12346".to_string());
    assert_eq!(session1.addr(), "192.168.1.100:12345");
    assert_ne!(session1.addr(), session2.addr());
    let ready = session1.authenticate();
    assert_eq!(ready.addr(), "192.168.1.100:12345");
    assert!(ready.connected_at() <= ready.last_activity());
}

#[test]
fn idle_time_reaches_the_timeout() {
    assert!(!idle_exceeds(14, 15));
    assert!(idle_exceeds(15, 15));
    assert!(idle_exceeds(20, 15));
}

#[test]
fn unsubscribing_undoes_subscribing() {
    let mut subs = Subscriptions::new();
    subs.subscribe_pset_selection();
    let before = (subs.tightening_result, subs.pset_selection, subs.vehicle_id, subs.active_count());
    subs.subscribe_tightening_result(2);
    subs.unsubscribe_tightening_result();
    subs.subscribe_vehicle_id();
    subs.unsubscribe_vehicle_id();
    let after = (subs.tightening_result, subs.pset_selection, subs.vehicle_id, subs.active_count());
    assert_eq!(before, after);
}
