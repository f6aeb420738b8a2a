use orb_price_ticker::decimal::{format_mean, parse_price};
use orb_price_ticker::feed::{
    on_message, FeedAction, FeedEvent, FeedState, Ingestor, BACKOFF_SECONDS, READ_TIMEOUT_SECONDS,
};
use orb_price_ticker::query::{respond, shows_portfolio_value};
use orb_price_ticker::window::{within_window, Mean, PriceWindow};

const UNIT: i64 = 100_000_000;

fn text(bytes: Vec<u8>) -> String {
    String::from_utf8(bytes).unwrap()
}

fn samples(w: &PriceWindow) -> Vec<(u64, i64)> {
    (0..w.len()).map(|i| w.get(i)).collect()
}

#[test]
fn three_samples_sixty_second_window() {
    let mut w = PriceWindow::new();
    w.record(0, 100 * UNIT);
    w.record(30, 200 * UNIT);
    w.record(61, 300 * UNIT);
    let m = w.average_within(61, 60);
    assert_eq!(m.total(), 500 * UNIT as i128);
    assert_eq!(m.count(), 2);
    assert_eq!(text(respond(b"Hello?", &w, 61, 60)), "250.00");
}

#[test]
fn empty_window_answers_zero() {
    let w = PriceWindow::new();
    assert_eq!(w.average_within(1000, 60), Mean { total: 0, count: 0 });
    assert_eq!(text(respond(b"Hello?", &w, 1000, 60)), "0.00");
}

#[test]
fn fully_expired_window_answers_zero() {
    let mut w = PriceWindow::new();
    w.record(10, 5 * UNIT);
    assert_eq!(text(respond(b"", &w, 100, 60)), "0.00");
    assert_eq!(w.len(), 1);
}

#[test]
fn empty_request_gets_the_average() {
    let mut w = PriceWindow::new();
    w.record(100, 7 * UNIT);
    w.record(101, 8 * UNIT);
    assert_eq!(text(respond(b"", &w, 101, 60)), "7.50");
    assert_eq!(respond(b"", &w, 101, 60), respond(b"anything at all", &w, 101, 60));
}

#[test]
fn average_over_exactly_the_window() {
    let mut w = PriceWindow::new();
    w.record(40, 1);
    w.record(41, 2);
    w.record(100, 4);
    w.record(120, 8);
    // now - timestamp < 60: 41, 100 and 120 are in, 40 is not.
    let m = w.average_within(100, 60);
    assert_eq!(m.total(), 2 + 4 + 8);
    assert_eq!(m.count(), 3);
}

#[test]
fn zero_window_holds_only_future_samples() {
    assert!(!within_window(5, 5, 0));
    assert!(within_window(6, 5, 0));
    assert!(within_window(5, 5, 1));
    assert!(!within_window(0, u64::MAX, u64::MAX));
    assert!(within_window(1, u64::MAX, u64::MAX));
}

#[test]
fn retain_removes_exactly_the_old_samples() {
    let mut w = PriceWindow::new();
    w.record(0, 1);
    w.record(30, 2);
    w.record(10, 3);
    w.record(61, 4);
    w.record(1, 5);
    w.retain_within(61, 60);
    assert_eq!(samples(&w), vec![(30, 2), (10, 3), (61, 4)]);
    w.retain_within(70, 60);
    assert_eq!(samples(&w), vec![(30, 2), (61, 4)]);
}

#[test]
fn retain_twice_removes_nothing_more() {
    let mut w = PriceWindow::new();
    for t in 0..20u64 {
        w.record(t * 7, t as i64);
    }
    w.retain_within(100, 30);
    let once = samples(&w);
    w.retain_within(100, 30);
    assert_eq!(samples(&w), once);
    assert_eq!(once.len(), 9);
}

#[test]
fn record_accepts_any_price() {
    let mut w = PriceWindow::new();
    w.record(1, -5 * UNIT);
    w.record(2, i64::MIN);
    w.record(3, i64::MAX);
    w.record(4, 0);
    assert_eq!(samples(&w), vec![(1, -5 * UNIT), (2, i64::MIN), (3, i64::MAX), (4, 0)]);
    let m = w.average_within(4, 10);
    assert_eq!(m.total(), -5 * UNIT as i128 - 1);
    assert_eq!(m.count(), 4);
}

#[test]
fn negative_prices_distort_the_average() {
    let mut w = PriceWindow::new();
    w.record(1, -3 * UNIT);
    w.record(1, 1 * UNIT);
    assert_eq!(text(respond(b"", &w, 1, 10)), "-1.00");
}

#[test]
fn large_sums_do_not_overflow() {
    let mut w = PriceWindow::new();
    for _ in 0..4 {
        w.record(9, i64::MAX);
    }
    let m = w.average_within(9, 1);
    assert_eq!(m.total(), 4 * i64::MAX as i128);
    assert_eq!(text(format_mean(&m)), "92233720368.55");
    let mut v = PriceWindow::new();
    for _ in 0..3 {
        v.record(9, i64::MIN);
    }
    assert_eq!(text(respond(b"", &v, 9, 1)), "-92233720368.55");
}

#[test]
fn parse_decimal_prices() {
    assert_eq!(parse_price("42016.73000000"), Some(4_201_673_000_000));
    assert_eq!(parse_price("100"), Some(100 * UNIT));
    assert_eq!(parse_price("-1.5"), Some(-150_000_000));
    assert_eq!(parse_price("+2"), Some(2 * UNIT));
    assert_eq!(parse_price("1."), Some(UNIT));
    assert_eq!(parse_price(".5"), Some(50_000_000));
    assert_eq!(parse_price("0.123456789"), Some(12_345_678));
    assert_eq!(parse_price("00000000000000000000012"), Some(12 * UNIT));
    assert_eq!(parse_price("92233720368.54775807"), Some(i64::MAX));
    assert_eq!(parse_price("-92233720368.54775808"), Some(i64::MIN));
}

#[test]
fn parse_rejects_what_is_not_a_price() {
    assert_eq!(parse_price(""), None);
    assert_eq!(parse_price("-"), None);
    assert_eq!(parse_price("."), None);
    assert_eq!(parse_price("-."), None);
    assert_eq!(parse_price("abc"), None);
    assert_eq!(parse_price("1.2.3"), None);
    assert_eq!(parse_price("1e5"), None);
    assert_eq!(parse_price(" 1"), None);
    assert_eq!(parse_price("NaN"), None);
    assert_eq!(parse_price("92233720368.54775808"), None);
    assert_eq!(parse_price("-92233720368.54775809"), None);
    assert_eq!(parse_price("123456789012345678901234567890"), None);
}

#[test]
fn format_rounds_to_hundredths() {
    assert_eq!(text(format_mean(&Mean { total: 0, count: 0 })), "0.00");
    assert_eq!(text(format_mean(&Mean { total: 12345, count: 0 })), "0.00");
    assert_eq!(text(format_mean(&Mean { total: 25_000_000_000, count: 1 })), "250.00");
    assert_eq!(text(format_mean(&Mean { total: 4_201_673_000_000, count: 1 })), "42016.73");
    assert_eq!(text(format_mean(&Mean { total: 500_000, count: 1 })), "0.01");
    assert_eq!(text(format_mean(&Mean { total: 499_999, count: 1 })), "0.00");
    assert_eq!(text(format_mean(&Mean { total: -500_000, count: 1 })), "-0.01");
    assert_eq!(text(format_mean(&Mean { total: -400_000, count: 1 })), "0.00");
    assert_eq!(text(format_mean(&Mean { total: 10 * UNIT as i128, count: 3 })), "3.33");
    assert_eq!(text(format_mean(&Mean { total: 20 * UNIT as i128, count: 3 })), "6.67");
    assert_eq!(text(format_mean(&Mean { total: i128::MIN, count: 1 })).len() > 4, true);
}

#[test]
fn message_with_price_is_recorded() {
    let mut w = PriceWindow::new();
    let msg = r#"{"e":"trade","E":1,"s":"BTCUSDT","p":"42016.73000000","q":"0.001"}"#;
    assert!(on_message(msg, &mut w, 60, 500));
    assert_eq!(samples(&w), vec![(500, 4_201_673_000_000)]);
    assert!(on_message(r#"{"p":"12.5"}"#, &mut w, 60, 530));
    assert!(on_message(r#"{"p":"1"}"#, &mut w, 60, 560));
    assert_eq!(samples(&w), vec![(530, 1_250_000_000), (560, UNIT)]);
}

#[test]
fn malformed_messages_leave_the_window_unchanged() {
    let mut w = PriceWindow::new();
    w.record(10, 3 * UNIT);
    let before = samples(&w);
    for msg in [
        "not json",
        "",
        r#"{"p":"12.5""#,
        r#"{"q":"12.5"}"#,
        r#"{"p":12.5}"#,
        r#"{"p":"abc"}"#,
        r#"{"p":null}"#,
        r#"["p","12.5"]"#,
        r#""12.5""#,
    ] {
        assert!(!on_message(msg, &mut w, 60, 20), "{msg}");
        assert_eq!(samples(&w), before);
    }
}

#[test]
fn malformed_message_keeps_streaming() {
    let mut w = PriceWindow::new();
    let mut ing = Ingestor::new(60);
    assert_eq!(ing.action(), FeedAction::Connect);
    assert_eq!(ing.step(FeedEvent::Connected, 0, &mut w), FeedAction::Read(READ_TIMEOUT_SECONDS));
    let a = ing.step(FeedEvent::Text("{\"p\":\"oops\"}".to_string()), 1, &mut w);
    assert_eq!(a, FeedAction::Read(10));
    assert_eq!(ing.current_state(), FeedState::Streaming);
    assert_eq!(w.len(), 0);
}

#[test]
fn dropped_connection_reconnects_after_backoff() {
    let mut w = PriceWindow::new();
    let mut ing = Ingestor::new(60);
    assert_eq!(ing.current_state(), FeedState::Connecting);
    assert_eq!(ing.step(FeedEvent::Connected, 0, &mut w), FeedAction::Read(10));
    ing.step(FeedEvent::Text("{\"p\":\"100\"}".to_string()), 5, &mut w);
    ing.step(FeedEvent::Text("{\"p\":\"200\"}".to_string()), 6, &mut w);
    assert_eq!(ing.step(FeedEvent::ReadFailed, 7, &mut w), FeedAction::Sleep(5));
    assert_eq!(BACKOFF_SECONDS, 5);
    assert_eq!(ing.current_state(), FeedState::Disconnected);
    assert_eq!(text(respond(b"", &w, 12, 60)), "150.00");
    assert_eq!(ing.step(FeedEvent::BackoffElapsed, 12, &mut w), FeedAction::Connect);
    assert_eq!(ing.step(FeedEvent::ConnectFailed, 13, &mut w), FeedAction::Sleep(5));
    assert_eq!(ing.step(FeedEvent::BackoffElapsed, 18, &mut w), FeedAction::Connect);
    assert_eq!(ing.step(FeedEvent::Connected, 19, &mut w), FeedAction::Read(10));
    assert_eq!(text(respond(b"", &w, 60, 60)), "150.00");
    assert_eq!(text(respond(b"", &w, 65, 60)), "200.00");
    assert_eq!(text(respond(b"", &w, 66, 60)), "0.00");
}

#[test]
fn timeout_and_other_messages_disconnect() {
    let mut w = PriceWindow::new();
    let mut ing = Ingestor::new(60);
    ing.step(FeedEvent::Connected, 0, &mut w);
    assert_eq!(ing.step(FeedEvent::TimedOut, 10, &mut w), FeedAction::Sleep(5));
    ing.step(FeedEvent::BackoffElapsed, 15, &mut w);
    ing.step(FeedEvent::Connected, 16, &mut w);
    assert_eq!(ing.step(FeedEvent::OtherMessage, 17, &mut w), FeedAction::Sleep(5));
}

#[test]
fn unexpected_events_change_nothing() {
    let mut w = PriceWindow::new();
    let mut ing = Ingestor::new(60);
    assert_eq!(ing.step(FeedEvent::Text("{\"p\":\"1\"}".to_string()), 0, &mut w), FeedAction::Connect);
    assert_eq!(ing.step(FeedEvent::BackoffElapsed, 0, &mut w), FeedAction::Connect);
    assert_eq!(ing.current_state(), FeedState::Connecting);
    assert_eq!(w.len(), 0);
}

#[test]
fn portfolio_value_in_odd_minutes() {
    assert!(!shows_portfolio_value(false, 60));
    assert!(!shows_portfolio_value(true, 0));
    assert!(!shows_portfolio_value(true, 59));
    assert!(shows_portfolio_value(true, 60));
    assert!(!shows_portfolio_value(true, 120));
    assert!(shows_portfolio_value(true, 3599));
    assert!(!shows_portfolio_value(true, 3600));
}

#[test]
fn json_without_a_string_price_is_dropped() {
    let mut w = PriceWindow::new();
    w.record(3, UNIT);
    for msg in [r#"{"q":"1"}"#, "[1,2]", "42", r#"{"p":null}"#, r#"{"p":5}"#, r#"{"p":{"p":"1"}}"#] {
        assert!(!on_message(msg, &mut w, 60, 4), "{msg}");
        assert_eq!(samples(&w), vec![(3, UNIT)]);
    }
}

#[test]
fn streaming_text_records_its_price() {
    let mut w = PriceWindow::new();
    w.record(0, 7);
    let mut ing = Ingestor::new(60);
    ing.step(FeedEvent::Connected, 0, &mut w);
    let a = ing.step(FeedEvent::Text(r#"{"s":"BTCUSDT","p":"0.00000002"}"#.to_string()), 60, &mut w);
    assert_eq!(a, FeedAction::Read(10));
    assert_eq!(samples(&w), vec![(60, 2)]);
}
