use ibx_compat::session::{
    accounts_csv, client_id_under_either_spelling, not_connected_text, request_refusal, NOT_CONNECTED_CODE, conn_state, connection_pass, factor_label,
    is_connected, on_end, on_loss, on_restore, request_goes_out, server_version, ClosingNotice,
    Link, PassObservations, CONNECTED, CONNECTING, DISCONNECTED, PROTOCOL_LEVEL,
};
use ibx_compat::account::{account_named, naming_wait_goes_on, NAMING_WAIT_NANOS};

fn quiet() -> PassObservations {
    PassObservations {
        went: false,
        came_back: false,
        disconnected_event: false,
        stopped_event: false,
        reconnected_event: false,
        session_over: false,
    }
}

#[test]
fn conn_state_is_connecting_for_the_length_of_connect() {
    // Not connected, nothing held.
    assert_eq!(conn_state(false, false, false, false), DISCONNECTED);
    // The flag is claimed at the top of `connect`.
    assert_eq!(conn_state(true, false, false, false), CONNECTING);
    // The session's state is handed over at the bottom.
    assert_eq!(conn_state(true, false, false, true), CONNECTED);
    // A session that ended without being closed is connecting again.
    assert_eq!(conn_state(true, false, true, true), CONNECTING);
    assert_eq!(conn_state(false, false, true, true), DISCONNECTED);
}

#[test]
fn a_session_the_engine_gave_up_reads_as_disconnected() {
    assert_eq!(conn_state(true, true, false, true), DISCONNECTED);
    assert!(!is_connected(true, true));
    assert!(is_connected(true, false));
    assert!(!request_goes_out(true, true));
    assert!(request_goes_out(true, false));
    assert!(!request_goes_out(false, false));
}

#[test]
fn the_protocol_level_is_stated_only_with_a_session() {
    assert_eq!(server_version(true), Some(PROTOCOL_LEVEL));
    assert_eq!(server_version(true), Some(217));
    assert_eq!(server_version(false), None);
}

#[test]
fn the_client_id_is_taken_under_either_spelling() {
    assert_eq!(client_id_under_either_spelling(0, Some(3)).unwrap(), 3);
    assert_eq!(client_id_under_either_spelling(2, None).unwrap(), 2);
    let err = client_id_under_either_spelling(2, Some(3)).unwrap_err();
    assert_eq!(err, "connect() was given the client id under both spellings, client_id and clientId");
}

#[test]
fn a_restore_left_in_the_backlog_is_not_read_as_the_state() {
    // It came back, and went again before anybody read either: the restore is
    // still queued.
    let link = Link { connected: true, session_ended: false };
    let seen = PassObservations { went: true, reconnected_event: true, ..quiet() };
    let out = connection_pass(link, &seen);
    assert!(!out.link.connected, "the session is down, whatever is still queued behind that");
    assert!(out.announce_restored);
}

#[test]
fn a_connection_that_went_and_came_back_is_read_without_the_notice() {
    let link = Link { connected: true, session_ended: false };
    let out = connection_pass(link, &PassObservations { went: true, ..quiet() });
    assert!(!out.link.connected, "an outage nobody was told of still reads as connected");
    assert!(!out.announce_lost);

    let out = connection_pass(out.link, &PassObservations { came_back: true, ..quiet() });
    assert!(out.link.connected, "a session that came back still reads as disconnected");
    assert!(!out.announce_restored);
}

#[test]
fn a_session_recorded_as_over_is_finished_by_the_pass_that_sees_it() {
    let link = Link { connected: true, session_ended: false };
    let out = connection_pass(link, &PassObservations { session_over: true, ..quiet() });
    assert!(!out.link.connected);
    assert!(out.link.session_ended);
    assert!(out.forget_kept_questions);

    // And a finished session stays finished, whatever comes back.
    let again = connection_pass(
        out.link,
        &PassObservations { came_back: true, reconnected_event: true, ..quiet() },
    );
    assert!(again.link.session_ended);
}

#[test]
fn a_loss_announced_with_the_session_over_ends_it() {
    let link = Link { connected: true, session_ended: false };
    let (after, forget) = on_loss(link, false, false, true, true);
    assert!(!after.connected);
    assert!(after.session_ended);
    assert!(forget);

    let (after, forget) = on_loss(link, false, false, true, false);
    assert!(!after.connected);
    assert!(!after.session_ended);
    assert!(!forget);
}

#[test]
fn a_stopped_engine_ends_the_session_and_a_replaced_one_is_left_alone() {
    let link = Link { connected: true, session_ended: false };
    let (after, forget) = on_end(link, true, true, false);
    assert!(!after.connected && after.session_ended && !forget);

    // The session this pass began with is no longer the client's: not ended here.
    let (after, forget) = on_end(link, false, false, true);
    assert!(after.connected && !after.session_ended && !forget);

    let (after, forget) = on_end(link, false, true, true);
    assert!(!after.connected && after.session_ended && forget);
}

#[test]
fn a_restore_announced_brings_the_connection_up_unless_it_went_again() {
    let down = Link { connected: false, session_ended: false };
    assert!(on_restore(down, true, false, false).connected);
    assert!(!on_restore(down, true, true, false).connected);
    assert!(on_restore(down, true, true, true).connected);
    assert!(!on_restore(down, false, false, false).connected);
}

#[test]
fn the_caller_is_told_once_that_its_session_closed() {
    let mut notice = ClosingNotice::new();
    assert!(!notice.tell_now(false));
    assert!(notice.tell_now(true));
    assert!(!notice.tell_now(true));
    assert!(!notice.tell_now(false));
}

#[test]
fn managed_accounts_are_every_account_comma_separated() {
    let accounts = vec!["DU111".to_string(), "DU222".to_string(), "DU333".to_string()];
    assert_eq!(accounts_csv(&accounts, "DU000"), "DU111,DU222,DU333");
    assert_eq!(accounts_csv(&vec!["DU111".to_string()], "DU000"), "DU111");
    assert_eq!(accounts_csv(&Vec::new(), "DU000"), "DU000");
    assert_eq!(accounts_csv(&Vec::new(), ""), "");
}

#[test]
fn the_factor_a_challenge_asks_for_is_labelled() {
    assert_eq!(factor_label(true), "ibkey");
    assert_eq!(factor_label(false), "authenticator");
}

#[test]
fn a_request_naming_no_account_is_taken_on_the_sessions_own() {
    assert_eq!(account_named("", "DU111"), "DU111");
    assert_eq!(account_named("DU222", "DU111"), "DU222");
    assert!(naming_wait_goes_on(true, 0));
    assert!(naming_wait_goes_on(true, NAMING_WAIT_NANOS));
    assert!(!naming_wait_goes_on(true, NAMING_WAIT_NANOS + 1));
    assert!(!naming_wait_goes_on(false, 0));
}

#[test]
fn a_request_with_nothing_to_carry_it_is_told_not_connected() {
    // The engine gave the session up: the channel still held carries nothing.
    assert_eq!(request_refusal(true, true), Some((504, "Not connected")));
    assert_eq!(request_refusal(false, false), Some((NOT_CONNECTED_CODE, "Not connected")));
    assert_eq!(request_refusal(true, false), None);
    assert_eq!(not_connected_text(), "Not connected");
}
