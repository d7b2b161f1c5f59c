use pm_client::api::{EventInfoItem, EventInfoItemStock, EventListItem, StockInfoItem, StockInfoItemBin, UtcTime};
use pm_client::commands::{bin_rows, event_list_rows, event_view, order_book_view};

fn stock_with(asks: Vec<StockInfoItemBin>, bids: Vec<StockInfoItemBin>) -> StockInfoItem {
    StockInfoItem { id: 5, event_id: 1, title: "Yes".to_string(), price: 54, asks, bids }
}

#[test]
fn event_list_has_one_row_per_event() {
    let events = vec![EventListItem { id: 1, title: "USA 2020 Election".to_string() }];
    let rows = event_list_rows(&events);
    assert_eq!(rows, vec![vec!["1".to_string(), "USA 2020 Election".to_string()]]);
}

#[test]
fn event_list_keeps_input_order() {
    let events = vec![
        EventListItem { id: 20, title: "B".to_string() },
        EventListItem { id: 3, title: "A".to_string() },
    ];
    let rows = event_list_rows(&events);
    assert_eq!(rows.len(), 2);
    assert_eq!(rows[0], vec!["20".to_string(), "B".to_string()]);
    assert_eq!(rows[1], vec!["3".to_string(), "A".to_string()]);
    assert!(event_list_rows(&Vec::new()).is_empty());
}

#[test]
fn order_book_with_one_ask_and_no_bids() {
    let s = stock_with(vec![StockInfoItemBin { price: 54, count: 120 }], vec![]);
    let v = order_book_view(&s);
    assert_eq!(v.ask_rows, vec!["120x 54\u{a2}".to_string()]);
    assert!(v.bid_rows.is_empty());
    assert!(!v.no_asks);
    assert!(v.no_bids);
}

#[test]
fn order_book_with_no_asks_shows_first_bidder_notice() {
    let s = stock_with(vec![], vec![StockInfoItemBin { price: 40, count: 2 }, StockInfoItemBin { price: 38, count: 7 }]);
    let v = order_book_view(&s);
    assert!(v.ask_rows.is_empty());
    assert!(v.no_asks);
    assert!(!v.no_bids);
    assert_eq!(v.bid_rows, vec!["2x 40\u{a2}".to_string(), "7x 38\u{a2}".to_string()]);
}

#[test]
fn event_view_lays_out_days_and_stocks() {
    let e = EventInfoItem {
        id: 1,
        title: "USA 2020 Election".to_string(),
        description: "d".to_string(),
        created: UtcTime { secs: 1_600_000_000, nanos: 0 },
        opens: UtcTime { secs: 0, nanos: 5 },
        closes: UtcTime { secs: 1_604_448_000, nanos: 0 },
        stocks: vec![
            EventInfoItemStock { id: 7, title: "Biden".to_string(), price: 60 },
            EventInfoItemStock { id: 8, title: "Trump".to_string(), price: 40 },
        ],
    };
    let v = event_view(&e);
    assert_eq!(v.title, "USA 2020 Election");
    assert_eq!(v.created, Some("2020-09-13".to_string()));
    assert_eq!(v.opens, Some("1970-01-01".to_string()));
    assert_eq!(v.closes, Some("2020-11-04".to_string()));
    assert_eq!(v.stock_rows[0], vec!["7".to_string(), "60\u{a2}".to_string(), "Biden".to_string()]);
    assert_eq!(v.stock_rows[1], vec!["8".to_string(), "40\u{a2}".to_string(), "Trump".to_string()]);
}

#[test]
fn event_view_day_out_of_range_is_absent() {
    let e = EventInfoItem {
        id: 2,
        title: "t".to_string(),
        description: String::new(),
        created: UtcTime { secs: i64::MAX, nanos: 0 },
        opens: UtcTime { secs: -86_400, nanos: 0 },
        closes: UtcTime { secs: 0, nanos: 0 },
        stocks: vec![],
    };
    let v = event_view(&e);
    assert_eq!(v.created, None);
    assert_eq!(v.opens, Some("1969-12-31".to_string()));
    assert!(v.stock_rows.is_empty());
}

#[test]
fn bin_rows_keep_the_side_order() {
    let rows = bin_rows(&vec![StockInfoItemBin { price: 1, count: 0 }, StockInfoItemBin { price: 99, count: 4294967295 }]);
    assert_eq!(rows, vec!["0x 1\u{a2}".to_string(), "4294967295x 99\u{a2}".to_string()]);
}
