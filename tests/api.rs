use pm_client::api::{
    accept_event, auth, check_reply, signup, ApiCall, ApiClient, ApiError, Credentials, Delivery,
    EventInfoItem, EventInfoItemStock, HttpMethod, HttpRequest, UtcTime,
};
use pm_client::errors::{internal, user, ClientError};

fn stock(id: u32, title: &str, price: u8) -> EventInfoItemStock {
    EventInfoItemStock { id, title: title.to_string(), price }
}

fn event(opens: i64, closes: i64) -> EventInfoItem {
    EventInfoItem {
        id: 1,
        title: "USA 2020 Election".to_string(),
        description: "Who wins".to_string(),
        created: UtcTime { secs: 1_500_000_000, nanos: 0 },
        opens: UtcTime { secs: opens, nanos: 0 },
        closes: UtcTime { secs: closes, nanos: 0 },
        stocks: vec![stock(3, "Yes", 54), stock(4, "No", 46)],
    }
}

#[test]
fn signup_succeeds() {
    let c = Credentials { username: "ann".to_string(), password: "pw".to_string() };
    assert!(signup(c.username, c.password).is_ok());
}

#[test]
fn requests_for_reads_carry_no_credential() {
    let client = ApiClient::local("tok");
    let r = client.request(ApiCall::ListEvents);
    assert_eq!(r.method, HttpMethod::Get);
    assert_eq!(r.url, "http://localhost:8080/event");
    assert_eq!(r.cookie, None);
    assert_eq!(r.body, None);
    assert_eq!(client.request(ApiCall::GetEvent(12)).url, "http://localhost:8080/event/12");
    let s = client.request(ApiCall::GetStock(5));
    assert_eq!(s.url, "http://localhost:8080/stock/5");
    assert_eq!(s.cookie, None);
}

#[test]
fn balance_request_carries_the_session_cookie() {
    let client = ApiClient::new("http://example.test", "abc");
    let r = client.request(ApiCall::GetBalance);
    assert_eq!(r.method, HttpMethod::Get);
    assert_eq!(r.url, "http://example.test/me/balance");
    assert_eq!(r.cookie, Some("SESSION-TOKEN=abc".to_string()));
}

#[test]
fn buy_order_request_for_stock_5() {
    let client = ApiClient::local("tok");
    let r = client.request(ApiCall::PlaceBuyOrder { stock_id: 5, price: 42, count: 10 });
    assert_eq!(r.method, HttpMethod::Post);
    assert_eq!(r.url, "http://localhost:8080/stock/5/buy");
    assert_eq!(r.body, Some("{\"price\":42,\"count\":10}".to_string()));
    assert_eq!(r.cookie, Some("SESSION-TOKEN=tok".to_string()));
    assert_eq!(check_reply(ApiCall::PlaceBuyOrder { stock_id: 5, price: 42, count: 10 }, Delivery::Status(200)), Ok(()));
}

#[test]
fn buy_order_with_empty_credential_is_unauthorized() {
    let client = ApiClient::local("");
    let call = ApiCall::PlaceBuyOrder { stock_id: 5, price: 42, count: 10 };
    let r = client.request(call);
    assert_eq!(r.cookie, Some("SESSION-TOKEN=".to_string()));
    assert_eq!(check_reply(call, Delivery::Status(401)), Err(ApiError::Unauthorized));
}

#[test]
fn balance_with_empty_credential_is_unauthorized() {
    let client = ApiClient::local("");
    let r = client.request(ApiCall::GetBalance);
    assert_eq!(r.cookie, Some("SESSION-TOKEN=".to_string()));
    assert_eq!(check_reply(ApiCall::GetBalance, Delivery::Status(401)), Err(ApiError::Unauthorized));
    assert_eq!(check_reply(ApiCall::GetBalance, Delivery::Status(403)), Err(ApiError::Unauthorized));
}

#[test]
fn auth_sets_the_cookie_and_keeps_the_rest() {
    let req = HttpRequest {
        method: HttpMethod::Post,
        url: "u".to_string(),
        cookie: None,
        body: Some("b".to_string()),
    };
    let r = auth(req, "xyz");
    assert_eq!(r.method, HttpMethod::Post);
    assert_eq!(r.url, "u");
    assert_eq!(r.body, Some("b".to_string()));
    assert_eq!(r.cookie, Some("SESSION-TOKEN=xyz".to_string()));
}

#[test]
fn replies_are_classified() {
    let buy = ApiCall::PlaceBuyOrder { stock_id: 1, price: 1, count: 1 };
    assert_eq!(check_reply(ApiCall::ListEvents, Delivery::Unreachable), Err(ApiError::ServerUnavailable));
    assert_eq!(check_reply(ApiCall::ListEvents, Delivery::Status(204)), Ok(()));
    assert_eq!(check_reply(ApiCall::GetEvent(9), Delivery::Status(404)), Err(ApiError::NotFound));
    assert_eq!(check_reply(buy, Delivery::Status(400)), Err(ApiError::InvalidOrder));
    assert_eq!(check_reply(buy, Delivery::Status(422)), Err(ApiError::InvalidOrder));
    assert_eq!(check_reply(ApiCall::GetStock(1), Delivery::Status(400)), Err(ApiError::ServerUnavailable));
    assert_eq!(check_reply(ApiCall::GetStock(1), Delivery::Status(500)), Err(ApiError::ServerUnavailable));
    assert_eq!(check_reply(ApiCall::GetStock(1), Delivery::Status(302)), Err(ApiError::ServerUnavailable));
}

#[test]
fn event_detail_is_accepted_when_it_opens_before_closing() {
    let e = accept_event(event(1_600_000_000, 1_700_000_000)).unwrap();
    assert!(e.opens.not_after(&e.closes));
    assert_eq!(e.stocks.len(), 2);
    assert_eq!(e.stocks[0].title, "Yes");
    assert_eq!(e.stocks[1].title, "No");
    assert!(accept_event(event(1_600_000_000, 1_600_000_000)).is_ok());
}

#[test]
fn event_detail_closing_before_opening_is_malformed() {
    assert_eq!(accept_event(event(1_700_000_000, 1_600_000_000)).err().map(|_| ()), Some(()));
    assert!(matches!(accept_event(event(10, 9)), Err(ApiError::DecodeError)));
}

#[test]
fn utc_times_order_by_seconds_then_nanoseconds() {
    let a = UtcTime { secs: 5, nanos: 10 };
    let b = UtcTime { secs: 5, nanos: 11 };
    let c = UtcTime { secs: 6, nanos: 0 };
    assert!(a.not_after(&b));
    assert!(!b.not_after(&a));
    assert!(b.not_after(&c));
    assert!(a.not_after(&a));
}

#[test]
fn api_errors_are_shown_by_kind() {
    let m = |e: ApiError| e.to_client_error();
    assert!(matches!(m(ApiError::ServerUnavailable), ClientError::Internal(d) if d == "Error while contacting server."));
    assert!(matches!(m(ApiError::DecodeError), ClientError::Internal(d) if d == "Unexpected reply from server."));
    assert!(matches!(m(ApiError::NotFound), ClientError::User(d) if d == "No such item."));
    assert!(matches!(m(ApiError::Unauthorized), ClientError::User(d) if d == "Not signed in, or the session has expired."));
    assert!(matches!(m(ApiError::InvalidOrder), ClientError::User(d) if d == "The server refused the order."));
}

#[test]
fn client_error_messages() {
    assert_eq!(internal("boom").message(), "\x1b[91mInternal error:\x1b[m boom");
    assert_eq!(user("Purchase refused").message(), "Purchase refused");
    assert!(matches!(internal("x"), ClientError::Internal(d) if d == "x"));
    assert!(matches!(user("y"), ClientError::User(d) if d == "y"));
}
