use ibx_compat::completed::CompletedArchive;
use ibx_compat::conditions::{condition_trigger_method, unknown_condition_refusal};
use ibx_compat::legs::{combo_legs, read_leg, ComboLeg, LegReading, Read};
use ibx_compat::order_fields::{leg_price_refusal, tag_values};
use ibx_compat::order_ids::{next_shared_id, OrderIdCounter, MAX_ORDER_ID};
use ibx_compat::wire::{
    cancel_refusal, order_number, perm_id_refusal, placement_refusal, scan_row_limit, tick_count,
    wire_req_id, wire_u32,
};
use ibx_compat::withdrawals::{
    global_cancel_outcome, open_orders_notes, withdrawal_states, GlobalCancelOutcome,
    WithdrawalNote, UNSET_INTEGER,
};
use ibx_compat::placement::{
    lands_where_placed, placement_action, placement_step, resolves_by_description, PlacementAction,
    PlacementStep,
};

#[test]
fn the_counter_starts_past_what_is_working_and_no_further() {
    let mut counter = OrderIdCounter::new();
    // Nothing is working: the venue has named nothing.
    assert_eq!(counter.stated_order_id(Some(0)), 1, "nothing is working");
    assert_eq!(counter.stated_order_id(None), 1, "no session has named anything");

    // An order named under 41 is what the next id has to clear.
    assert_eq!(counter.stated_order_id(Some(41)), 42);
    assert_eq!(counter.take_order_id(Some(41)), Ok(42));
    assert_eq!(counter.take_order_id(Some(41)), Ok(43), "and the count goes on from there");

    // An order named under a lower id does not move the count back; the
    // highest named is still 41.
    assert_eq!(counter.take_order_id(Some(41)), Ok(44));

    // An id a fill has spent is counted past, not handed out again.
    assert_eq!(counter.take_order_id(Some(90)), Ok(91));
}

#[test]
fn an_id_placed_by_the_caller_is_not_handed_out_again() {
    let mut counter = OrderIdCounter::new();
    counter.note_placed(17);
    assert_eq!(counter.take_order_id(Some(3)), Ok(18));
    counter.note_placed(5);
    assert_eq!(counter.take_order_id(Some(3)), Ok(19), "a lower id placed does not move the count back");
}

#[test]
fn an_account_with_no_id_left_is_handed_none() {
    let mut counter = OrderIdCounter::new();
    assert_eq!(counter.stated_order_id(Some(MAX_ORDER_ID)), MAX_ORDER_ID);
    assert_eq!(counter.take_order_id(Some(MAX_ORDER_ID - 1)), Ok(MAX_ORDER_ID));
    assert_eq!(
        counter.take_order_id(Some(MAX_ORDER_ID - 1)),
        Err("this account has no order id left: the ids in use reach 9223372036854775808, and an order above 9223372036854775807 cannot be named back by the venue's own reports".to_string()),
    );
    assert_eq!(counter.next, MAX_ORDER_ID + 1, "the counter is left as it was");
}

#[test]
fn a_shared_id_is_one_past_what_a_request_can_carry() {
    assert_eq!(next_shared_id(None), Ok(1));
    assert_eq!(next_shared_id(Some(41)), Ok(42));
    let why = next_shared_id(Some(u32::MAX)).unwrap_err();
    assert_eq!(
        why,
        "this account has no order id left that a request can also carry: \
         req_id 4294967296 is outside the range this request can carry (0..=4294967295)",
    );
}

#[test]
fn a_req_id_past_u32_is_refused_rather_than_truncated() {
    let big = u32::MAX as i64 + 1;
    let err = wire_req_id(big).unwrap_err();
    assert!(err.contains("outside the range"), "got {err}");
    assert_eq!(err, "req_id 4294967296 is outside the range this request can carry (0..=4294967295)");
    assert_eq!(wire_req_id(u32::MAX as i64), Ok(u32::MAX));
    assert_eq!(wire_req_id(0), Ok(0));
    assert_eq!(
        wire_req_id(-1).unwrap_err(),
        "req_id -1 is outside the range this request can carry (0..=4294967295)",
    );
}

#[test]
fn a_tick_by_tick_stream_is_refused_a_req_id_the_request_cannot_carry() {
    let err = wire_req_id(u32::MAX as i64 + 1).unwrap_err();
    assert!(err.contains("outside the range"), "got {err}");
}

#[test]
fn a_negative_contract_id_is_refused_rather_than_wrapped() {
    assert_eq!(
        wire_u32("con_id", -7).unwrap_err(),
        "con_id -7 is outside the range this request can carry (0..=4294967295)",
    );
    assert_eq!(wire_u32("con_id", 756733), Ok(756733));
}

#[test]
fn an_id_at_or_below_zero_names_no_order() {
    assert_eq!(order_number(3), Some(3));
    assert_eq!(order_number(0), None);
    assert_eq!(order_number(-5), None);
    assert_eq!(
        placement_refusal(0),
        "place_order: order_id 0 is not an order number;                  ask for one with next_order_id() or reqIds()",
    );
    assert_eq!(cancel_refusal(-2), "cancel_order: order_id -2 is not an order number");
    assert_eq!(perm_id_refusal(), "cancel_order_by_perm_id: perm_id must be non-zero");
}

#[test]
fn counts_the_caller_leaves_negative_take_the_venues_own() {
    assert_eq!(scan_row_limit(-1), 50);
    assert_eq!(scan_row_limit(0), 0);
    assert_eq!(scan_row_limit(25), 25);
    assert_eq!(scan_row_limit(u32::MAX as i64 + 10), u32::MAX);
    assert_eq!(tick_count(-1), 0);
    assert_eq!(tick_count(100), 100);
}

fn leg(con_id: Read<i64>) -> LegReading {
    LegReading {
        con_id,
        ratio: Read::Absent,
        action: Read::Value("BUY".to_string()),
        exchange: Read::Value("SMART".to_string()),
        open_close: Read::Absent,
        shorting_policy: Read::Absent,
        designated_location: Read::Absent,
        exempt_code: Read::Absent,
    }
}

#[test]
fn a_leg_with_no_ratio_states_none() {
    let built = combo_legs(&vec![leg(Read::Value(756733))]).expect("the leg reads");
    assert_eq!(built[0].ratio, 0, "no ratio stated, so none is invented");
    assert_eq!(built[0].con_id, 756733);
}

#[test]
fn a_leg_left_undescribed_takes_the_reference_clients_defaults() {
    let built = read_leg(0, &leg(Read::Value(756733))).unwrap();
    assert_eq!(
        built,
        ComboLeg {
            con_id: 756733,
            ratio: 0,
            action: "BUY".to_string(),
            exchange: "SMART".to_string(),
            open_close: 0,
            shorting_policy: 0,
            designated_location: String::new(),
            exempt_code: -1,
        },
    );
}

#[test]
fn an_unreadable_combination_leg_refuses_the_list() {
    let mut second = leg(Read::Value(8314));
    second.ratio = Read::Unreadable("'str' object cannot be interpreted as an integer".to_string());
    let why = combo_legs(&vec![leg(Read::Value(756733)), second]).unwrap_err();
    assert_eq!(
        why,
        "combo leg 1 states a ratio that cannot be read: 'str' object cannot be interpreted as an integer",
    );
}

#[test]
fn a_leg_naming_no_contract_refuses_the_list() {
    let why = combo_legs(&vec![leg(Read::Value(756733)), leg(Read::Absent)]).unwrap_err();
    assert_eq!(why, "combo leg 1 has no conId, so it names no contract");
    let why = combo_legs(&vec![leg(Read::Value(0))]).unwrap_err();
    assert_eq!(why, "combo leg 0 has no conId, so it names no contract");
}

#[test]
fn a_trigger_method_the_venue_does_not_carry_is_refused() {
    for method in 0..=4 {
        assert_eq!(condition_trigger_method(method), Ok(method as u8));
    }
    let why = condition_trigger_method(256).unwrap_err();
    assert!(why.contains("trigger method"), "the refusal names the trigger: {why}");
    assert!(why.starts_with("a price condition's trigger method 256 is not one"));
    assert!(condition_trigger_method(-1).is_err());
}

#[test]
fn a_condition_of_an_unknown_kind_is_refused_by_its_place() {
    let why = unknown_condition_refusal(2);
    assert!(why.starts_with("condition 2 is of a kind this client does not carry."));
    assert!(why.ends_with("dropped, the order would go live at once with nothing said"));
}

#[test]
fn a_withdrawal_stating_what_the_wire_cannot_carry_is_told_so() {
    assert_eq!(withdrawal_states(&WithdrawalNote::Nothing), None);
    assert_eq!(withdrawal_states(&WithdrawalNote::Time(String::new())), None);
    let said = withdrawal_states(&WithdrawalNote::Time("20260101 09:30:00".to_string())).unwrap();
    assert!(said.starts_with("a withdrawal states a time, and this protocol carries no field for it"));

    let fields = |t: Option<&str>, o: Option<&str>, i: Option<i32>| WithdrawalNote::Fields {
        manual_order_cancel_time: t.map(str::to_string),
        ext_operator: o.map(str::to_string),
        manual_order_indicator: i,
    };
    assert_eq!(withdrawal_states(&fields(None, None, None)), None);
    assert_eq!(withdrawal_states(&fields(Some(""), Some(""), Some(UNSET_INTEGER))), None);
    assert!(withdrawal_states(&fields(None, Some("desk"), Some(1)))
        .unwrap()
        .starts_with("a withdrawal states an operator,"));
    assert!(withdrawal_states(&fields(None, None, Some(0)))
        .unwrap()
        .starts_with("a withdrawal states who entered it,"));
    assert!(withdrawal_states(&fields(Some("09:30"), Some("desk"), Some(1)))
        .unwrap()
        .starts_with("a withdrawal states a time,"));
}

#[test]
fn a_global_cancel_says_what_it_did_not_reach() {
    assert_eq!(global_cancel_outcome(3, 0, 0, true, true), GlobalCancelOutcome::Covered);
    assert_eq!(global_cancel_outcome(0, 0, 0, false, false), GlobalCancelOutcome::Covered);

    assert_eq!(
        global_cancel_outcome(3, 1, 2, false, true),
        GlobalCancelOutcome::NotSent(
            "a global cancel reached the engine for 2 of 3 instruments; the rest were not sent, so orders on them are still working"
                .to_string()
        ),
    );
    match global_cancel_outcome(1, 0, 1, true, true) {
        GlobalCancelOutcome::Partial(why) => {
            assert!(why.contains("no slot in this client's instrument table"), "{why}");
            assert!(why.starts_with("1 of this account's working orders"));
        }
        other => panic!("expected a partial cancel, got {other:?}"),
    }
    match global_cancel_outcome(1, 0, 0, false, true) {
        GlobalCancelOutcome::Partial(why) => {
            assert!(why.contains("had not finished naming"), "{why}");
            assert!(why.contains(": 1 cancels were sent"));
        }
        other => panic!("expected a partial cancel, got {other:?}"),
    }
}

#[test]
fn open_orders_say_what_they_cannot_vouch_for() {
    assert!(open_orders_notes(true, true, 0).is_empty());
    assert!(open_orders_notes(false, false, 0).is_empty());
    let notes = open_orders_notes(false, true, 2);
    assert_eq!(notes.len(), 2);
    assert!(notes[0].contains("had not finished naming"));
    assert!(notes[1].starts_with("2 of the orders below have no slot in this client's instrument table"));
}

#[test]
fn an_order_taken_back_and_finished_again_keeps_its_new_record() {
    let mut archive: CompletedArchive<&str> = CompletedArchive::new();
    archive.record(4, "filled at 10");
    archive.record(5, "cancelled");
    archive.record(4, "second fill of 4");
    archive.take_back(4);
    assert_eq!(archive.entries, vec![(5, "cancelled")]);
    archive.record(4, "refilled at 11");
    assert_eq!(archive.entries, vec![(5, "cancelled"), (4, "refilled at 11")]);
    archive.take_back(9);
    assert_eq!(archive.entries.len(), 2);
}

#[test]
fn a_described_contract_is_resolved_only_without_an_id() {
    assert!(resolves_by_description(0, "SPY"));
    assert!(!resolves_by_description(756733, "SPY"));
    assert!(!resolves_by_description(0, ""));
}

#[test]
fn a_spent_number_is_refused_rather_than_placed_again() {
    assert_eq!(
        placement_step(7, "SPY", false, true, None, 756733, Some(Some(0)), None),
        PlacementStep::Spent(
            "order 7 has already been worked and finished: place a new order under a number of its own".to_string()
        ),
    );
    assert_eq!(placement_step(7, "SPY", false, false, None, 756733, Some(Some(0)), None), PlacementStep::Register);
}

#[test]
fn a_replace_stays_on_the_instrument_its_order_was_placed_on() {
    // The contract is held under the instrument the order is on.
    assert_eq!(placement_step(7, "SPY", true, true, Some(3), 756733, Some(Some(3)), None), PlacementStep::On(3));
    // Held under another, or not held at all: another contract.
    let wrong = PlacementStep::WrongContract(
        "order 7 is working on another contract, and a replace names the order rather than the contract: withdraw it and place a new order to trade QQQ"
            .to_string(),
    );
    assert_eq!(placement_step(7, "QQQ", true, false, Some(3), 320227571, Some(Some(4)), None), wrong);
    assert_eq!(placement_step(7, "QQQ", true, false, Some(3), 320227571, Some(None), None), wrong);
    // The venue's own record names another contract.
    assert_eq!(placement_step(7, "QQQ", true, false, None, 0, None, Some(false)), wrong);
    assert_eq!(placement_step(7, "QQQ", true, false, None, 0, None, Some(true)), PlacementStep::Register);
    // Once registered, a replace must land where its order was placed.
    assert!(lands_where_placed(true, Some(3), 3));
    assert!(!lands_where_placed(true, Some(3), 4));
    assert!(lands_where_placed(false, Some(3), 4));
    assert!(lands_where_placed(true, None, 4));
}

#[test]
fn an_order_that_does_not_transmit_is_kept() {
    assert_eq!(placement_action(true, false), (false, PlacementAction::Transmit { track: true }));
    assert_eq!(placement_action(true, true), (true, PlacementAction::Transmit { track: false }));
    assert_eq!(placement_action(false, true), (true, PlacementAction::HoldReplace));
    assert_eq!(placement_action(false, false), (false, PlacementAction::HoldAndTrack));
}

#[test]
fn an_option_that_cannot_be_read_refuses_the_order() {
    let good = (Ok("maxPctVol".to_string()), Ok("0.1".to_string()));
    assert_eq!(
        tag_values(&vec![good.clone()]),
        Ok(vec![("maxPctVol".to_string(), "0.1".to_string())]),
    );
    let no_value = (Ok("startTime".to_string()), Err("'int' object cannot be converted to 'PyString'".to_string()));
    assert_eq!(
        tag_values(&vec![good.clone(), no_value]).unwrap_err(),
        "option 1 states no readable value: 'int' object cannot be converted to 'PyString'",
    );
    let no_tag = (Err("no attribute 'tag'".to_string()), Err("no attribute 'value'".to_string()));
    assert_eq!(tag_values(&vec![no_tag, good]).unwrap_err(), "option 0 states no readable tag: no attribute 'tag'");
    assert_eq!(tag_values(&Vec::new()), Ok(Vec::new()));
}

#[test]
fn a_leg_price_that_cannot_be_read_is_refused_in_words() {
    assert_eq!(
        leg_price_refusal(2, "must be real number, not str"),
        "leg 2 of this combination states a price that cannot be read: must be real number, not str. Read as absent, the leg would be struck at whatever the venue struck it at, which is not the price the caller stated",
    );
}
