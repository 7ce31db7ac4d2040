use ibx_compat::advisor::{advisor_partition, no_partition_refusal};
use ibx_compat::ask::{wait_step, WaitStep};
use ibx_compat::dispatch::{
    scan_refusal, VENUE_REFUSAL_CODE,
    bar_delivery, computation_recipients, connectivity_lost_text, connectivity_restored_text,
    depth_is_full_book, dropped_ticks_message, execution_client_id, execution_side, fill_status,
    holder_and_followers, Side, ASKED_OPTION_COMPUTATION, MODEL_OPTION_COMPUTATION,
};
use ibx_compat::executions::{window_refusal, UNSET_DAYS};
use ibx_compat::figures::unstated_figure;
use ibx_compat::market_data::{
    is_whitespace, no_quote_held_message, no_stream_held_message, stated_stream_kind,
    trade_stream_kind, wants_news,
};
use ibx_compat::scanner::{ascii_upper, scanner_attribute_codes, scanner_filters, stk_types_code};
use ibx_compat::text::{decimal_text, lower_char, upper_char};
use ibx_compat::calendar::calendar_ask;
use ibx_compat::definition::{market_rule_fields, right_letter, OptionRight};
use ibx_compat::session::comma_joined;
use ibx_compat::history::{actions_refusal, date_part, wants_adjusted, BarParts};

fn pairs(list: &[(&str, &str)]) -> Vec<(String, String)> {
    list.iter().map(|(a, b)| (a.to_string(), b.to_string())).collect()
}

/// The attributes as read off a subscription: each code with the value its
/// attribute states, where it states one.
fn read(stated: &[(&str, &str)]) -> Vec<(String, Option<String>)> {
    scanner_attribute_codes()
        .into_iter()
        .map(|(_, code)| {
            let value = stated.iter().find(|(c, _)| *c == code).map(|(_, v)| v.to_string());
            (code, value)
        })
        .collect()
}

#[test]
fn scanner_subscription_attributes_become_filters() {
    // abovePrice=10.0, spRatingAbove='A', averageOptionVolumeAbove=500 are
    // stated; the rest are left at their unset values or empty.
    let read = read(&[("priceAbove", "10"), ("spRatingAbove", "A"), ("avgOptVolumeAbove", "500")]);
    assert_eq!(
        scanner_filters(&read, true, "etf", &Vec::new()),
        pairs(&[
            ("priceAbove", "10"),
            ("spRatingAbove", "A"),
            ("avgOptVolumeAbove", "500"),
            ("excludeConvertible", "true"),
            ("stkTypes", "inc:ETF"),
        ]),
    );
}

#[test]
fn explicit_filter_tags_replace_the_attribute_for_the_same_code() {
    let read = read(&[("priceAbove", "10")]);
    let options = pairs(&[("priceAbove", "20"), ("usdMarketCapAbove", "10000")]);
    assert_eq!(
        scanner_filters(&read, false, "ALL", &options),
        pairs(&[("priceAbove", "20"), ("usdMarketCapAbove", "10000")]),
    );
}

#[test]
fn an_empty_filter_tag_is_no_filter() {
    let read = read(&[("priceAbove", "10")]);
    let options = pairs(&[("", "5"), ("volumeAbove", "1000")]);
    assert_eq!(
        scanner_filters(&read, false, "", &options),
        pairs(&[("priceAbove", "10"), ("volumeAbove", "1000")]),
    );
}

#[test]
fn the_attribute_table_is_in_the_order_filters_are_sent() {
    let codes = scanner_attribute_codes();
    assert_eq!(codes.len(), 14);
    assert_eq!(codes[0], ("abovePrice".to_string(), "priceAbove".to_string()));
    assert_eq!(codes[3], ("marketCapAbove".to_string(), "marketCapAbove1e6".to_string()));
    assert_eq!(codes[13], ("averageOptionVolumeAbove".to_string(), "avgOptVolumeAbove".to_string()));
}

#[test]
fn a_stock_type_is_read_without_regard_to_case() {
    assert_eq!(stk_types_code("stock"), "exc:ETF");
    assert_eq!(stk_types_code("Etf"), "inc:ETF");
    assert_eq!(stk_types_code("CORP"), "inc:CORP");
    assert_eq!(stk_types_code("adr"), "inc:ADR");
    assert_eq!(stk_types_code("reit"), "inc:REIT");
    assert_eq!(stk_types_code("cef"), "inc:CEF");
    assert_eq!(stk_types_code("ALL"), "");
    assert_eq!(stk_types_code(""), "");
    assert_eq!(ascii_upper("etf é"), "ETF é");
}

#[test]
fn a_number_is_turned_into_the_word_the_venue_uses() {
    // The order is the reference client's: groups, profiles, aliases.
    assert_eq!(advisor_partition(1), Some("Group"));
    assert_eq!(advisor_partition(2), Some("Profile"));
    assert_eq!(advisor_partition(3), Some("Aliases"));
}

#[test]
fn a_number_standing_for_nothing_names_nothing() {
    for unknown in [0, 4, -1, 99] {
        assert_eq!(advisor_partition(unknown), None, "{unknown}");
    }
    assert_eq!(no_partition_refusal(4), "no advisor configuration is named by 4");
}

#[test]
fn an_unstated_figure_is_written_the_way_a_caller_can_read_it() {
    let written = unstated_figure("");
    assert!(
        written.parse::<f64>().is_ok(),
        "a caller reads these with float, and got {written:?}",
    );
    assert_eq!(written.parse::<f64>().unwrap(), f64::MAX, "and reads it back as unstated");
}

#[test]
fn a_stated_figure_is_left_as_the_venue_wrote_it() {
    assert_eq!(unstated_figure("96525.01"), "96525.01");
    assert_eq!(unstated_figure("0"), "0", "nothing is not zero, and zero is not nothing");
}

#[test]
fn news_is_asked_for_only_by_the_whole_entry() {
    assert!(wants_news("292"));
    assert!(wants_news("100,101, 292 ,104"));
    assert!(wants_news("233,292"));
    assert!(!wants_news("1292"));
    assert!(!wants_news("2920"));
    assert!(!wants_news("29 2"));
    assert!(!wants_news(""));
    assert!(!wants_news("100,101"));
    assert!(wants_news("\u{3000}292\t"));
    assert!(is_whitespace('\u{2009}'));
    assert!(!is_whitespace('x'));
}

#[test]
fn a_withdrawal_of_nothing_held_says_so() {
    assert_eq!(no_quote_held_message(7), "no contract is being watched under request 7");
    assert_eq!(no_stream_held_message(-3), "no tick stream is held under request -3");
}

#[test]
fn a_print_is_stated_under_the_stream_its_request_asked_for() {
    assert_eq!(trade_stream_kind(true, true), Some(2));
    assert_eq!(trade_stream_kind(false, true), Some(1));
    assert_eq!(trade_stream_kind(false, false), None);
    assert_eq!(stated_stream_kind(Some(2)), 2);
    assert_eq!(stated_stream_kind(None), 1);
}

#[test]
fn an_execution_is_stated_the_way_the_venue_words_it() {
    assert_eq!(execution_side(&Side::Buy), "BOT");
    assert_eq!(execution_side(&Side::Sell), "SLD");
    assert_eq!(execution_side(&Side::ShortSell), "SLD");
    assert_eq!(fill_status(Some("PreSubmitted"), 0), "PreSubmitted");
    assert_eq!(fill_status(None, 0), "Filled");
    assert_eq!(fill_status(None, 3), "Submitted");
    assert_eq!(execution_client_id(0, 7), 7);
    assert_eq!(execution_client_id(0, 0), 0);
    assert_eq!(execution_client_id(12, 7), 12);
}

#[test]
fn a_solved_computation_answers_only_the_request_that_asked() {
    let followers = vec![11, 12];
    assert_eq!(holder_and_followers(10, &followers), vec![10, 11, 12]);
    assert_eq!(computation_recipients(Some(12), 10, &followers), (vec![12], ASKED_OPTION_COMPUTATION));
    assert_eq!(computation_recipients(None, 10, &followers), (vec![10, 11, 12], MODEL_OPTION_COMPUTATION));
    assert_eq!(ASKED_OPTION_COMPUTATION, 53);
    assert_eq!(MODEL_OPTION_COMPUTATION, 13);
}

#[test]
fn connection_notices_are_worded_as_the_reference_client_words_them() {
    assert_eq!(connectivity_lost_text(), "Connectivity between client and server has been lost");
    assert_eq!(
        connectivity_restored_text(),
        "Connectivity between client and server has been restored - data maintained",
    );
}

#[test]
fn ticks_left_out_are_counted() {
    assert_eq!(dropped_ticks_message(0), None);
    assert_eq!(
        dropped_ticks_message(3).unwrap(),
        "3 historical tick(s) state a moment that cannot be read back, and are left out of this answer rather than dated to 1970",
    );
}

#[test]
fn a_bar_after_the_initial_answer_is_an_update() {
    assert_eq!(bar_delivery(false, false), (false, false));
    assert_eq!(bar_delivery(false, true), (false, true));
    assert_eq!(bar_delivery(true, true), (true, false));
    assert!(depth_is_full_book("NSDQ"));
    assert!(!depth_is_full_book(""));
}

#[test]
fn a_wait_says_why_it_ended() {
    assert_eq!(wait_step(true, Some((200, "x".to_string())), None, true, 10, "req"), WaitStep::Take);
    assert_eq!(
        wait_step(false, Some((200, "No security definition has been found".to_string())), None, true, 10, "req"),
        WaitStep::Fail("No security definition has been found (200)".to_string()),
    );
    assert_eq!(
        wait_step(false, None, Some("logged out".to_string()), true, 10, "req"),
        WaitStep::Fail("the session is over: logged out (504)".to_string()),
    );
    assert_eq!(
        wait_step(false, None, None, true, 10, "req_contract_details"),
        WaitStep::Fail("no answer within 10s to req_contract_details".to_string()),
    );
    assert_eq!(wait_step(false, None, None, false, 10, "req"), WaitStep::Pause);
}

#[test]
fn a_window_the_session_cannot_apply_is_refused() {
    assert_eq!(window_refusal(0, false), None);
    assert_eq!(window_refusal(UNSET_DAYS, false), None);
    let why = window_refusal(3, false).unwrap();
    assert_eq!(
        why,
        "req_executions: lastNDays and specificDates are not applied here; executions are this session's, filtered by the other fields",
    );
    assert!(window_refusal(0, true).is_some());
}

#[test]
fn numbers_are_written_in_decimal() {
    assert_eq!(decimal_text(0), "0");
    assert_eq!(decimal_text(42), "42");
    assert_eq!(decimal_text(-7), "-7");
    assert_eq!(decimal_text(i64::MIN), "-9223372036854775808");
    assert_eq!(decimal_text(i64::MAX), "9223372036854775807");
    assert_eq!(lower_char('Q'), 'q');
    assert_eq!(lower_char('é'), 'é');
    assert_eq!(upper_char('q'), 'Q');
    assert_eq!(upper_char('1'), '1');
}

#[test]
fn a_calendar_request_leaves_what_names_nothing_unstated() {
    let ask = calendar_ask(
        Some(0), "{\"watchlist\":[\"8314\"]}".to_string(), "20260101".to_string(), String::new(),
        true, false, false, Some(i64::MAX),
    );
    assert_eq!(ask.con_id, None);
    assert_eq!(ask.total_limit, None);
    assert_eq!(ask.filter, "{\"watchlist\":[\"8314\"]}");
    assert_eq!(ask.start_date, "20260101");
    assert!(ask.fill_watchlist && !ask.fill_portfolio && !ask.fill_competitors);

    let ask = calendar_ask(Some(8314), String::new(), String::new(), String::new(), false, true, true, Some(25));
    assert_eq!(ask.con_id, Some(8314));
    assert_eq!(ask.total_limit, Some(25));
    assert_eq!(calendar_ask(Some(-3), String::new(), String::new(), String::new(), false, false, false, Some(-1)).con_id, None);
}

#[test]
fn an_adjusted_series_is_asked_for_without_regard_to_case() {
    assert!(wants_adjusted("ADJUSTED_LAST"));
    assert!(wants_adjusted("adjusted_last"));
    assert!(!wants_adjusted("TRADES"));
    assert!(!wants_adjusted("ADJUSTED_LAST "));
    assert_eq!(date_part("20260105 09:30:00"), "20260105");
    assert_eq!(date_part("2026"), "2026");
}

#[test]
fn corporate_actions_need_the_venues_id() {
    assert_eq!(actions_refusal(8314), None);
    assert_eq!(
        actions_refusal(0).unwrap(),
        "corporate actions are asked for by the venue's id for the contract, and 0 is not one: qualify the contract first and pass what comes back",
    );
    assert!(actions_refusal(-4).unwrap().contains(" -4 is not one"));
}

#[test]
fn a_series_answered_in_parts_keeps_every_part() {
    let mut parts: BarParts<u32> = BarParts::new();
    assert!(!parts.take_part(String::new(), vec![1, 2], false));
    assert!(!parts.take_part("US/Eastern".to_string(), vec![3], false));
    assert!(parts.take_part("Europe/London".to_string(), vec![4, 5], true));
    assert_eq!(parts.bars, vec![1, 2, 3, 4, 5], "a series cut at the first part is short");
    assert_eq!(parts.zone, "US/Eastern");
}

#[test]
fn a_definition_is_stated_in_the_words_a_caller_places_it_again_with() {
    assert_eq!(right_letter(Some(OptionRight::Call)), "C");
    assert_eq!(right_letter(Some(OptionRight::Put)), "P");
    assert_eq!(right_letter(None), "");
    assert_eq!(market_rule_fields(Some(26)), (26, "26".to_string()));
    assert_eq!(market_rule_fields(None), (-1, String::new()));
    let exchanges = vec!["SMART".to_string(), "AMEX".to_string(), "NYSE".to_string()];
    assert_eq!(comma_joined(&exchanges), "SMART,AMEX,NYSE");
    assert_eq!(comma_joined(&Vec::new()), "");
}

#[test]
fn a_refused_scan_is_reported_in_the_venues_words() {
    assert_eq!(
        scan_refusal(3, "Scanner subscription not allowed"),
        Some((3, 321, "Scanner subscription not allowed".to_string())),
        "against the requesting id, in the venue's own words",
    );
    assert_eq!(VENUE_REFUSAL_CODE, 321);
    assert_eq!(scan_refusal(3, ""), None, "a scan that carries no reason is no refusal");
}
