//! The API client: records the service returns, requests the client sends,
//! and how a reply becomes a result.
use vstd::prelude::*;
use vstd::string::*;
use crate::errors::{user, ClientError};
use crate::text::{decimal, decimal_text};

verus! {

/// A user's sign-up or sign-in details.
#[derive(Debug, Clone)]
pub struct Credentials {
    pub username: String,
    pub password: String,
}

/// An event as the event list shows it.
#[derive(Debug, Clone)]
pub struct EventListItem {
    pub id: u32,
    pub title: String,
}

/// A stock as listed inside an event's detail; `price` is in cents.
#[derive(Debug, Clone)]
pub struct EventInfoItemStock {
    pub id: u32,
    pub title: String,
    pub price: u8,
}

/// An instant in UTC: whole seconds since the Unix epoch, and nanoseconds
/// past that second (one billion or more during a leap second).
#[derive(Debug, Clone, Copy, PartialEq, Eq, Structural)]
pub struct UtcTime {
    pub secs: i64,
    pub nanos: u32,
}

/// Whether instant `a` is not later than instant `b`.
pub open spec fn time_le(a: UtcTime, b: UtcTime) -> bool {
    a.secs < b.secs || (a.secs == b.secs && a.nanos <= b.nanos)
}

impl UtcTime {
    /// Whether this instant is not later than `other`.
    pub fn not_after(&self, other: &UtcTime) -> (r: bool)
        ensures
            r == time_le(*self, *other),
    {
        self.secs < other.secs || (self.secs == other.secs && self.nanos <= other.nanos)
    }
}

/// An event in detail, with the stocks traded on it in the service's order.
#[derive(Debug, Clone)]
pub struct EventInfoItem {
    pub id: u32,
    pub title: String,
    pub description: String,
    pub created: UtcTime,
    pub opens: UtcTime,
    pub closes: UtcTime,
    pub stocks: Vec<EventInfoItemStock>,
}

impl EventInfoItem {
    /// An event opens no later than it closes.
    pub open spec fn wf(&self) -> bool {
        time_le(self.opens, self.closes)
    }
}

/// One level of an order book: `count` shares offered at `price` cents.
#[derive(Debug, Clone, Copy, PartialEq, Eq, Structural)]
pub struct StockInfoItemBin {
    pub price: u8,
    pub count: u32,
}

/// A stock in detail, with its order book: offers to sell (`asks`) and offers
/// to buy (`bids`), in the service's order.
#[derive(Debug, Clone)]
pub struct StockInfoItem {
    pub id: u32,
    pub event_id: u32,
    pub title: String,
    pub price: u8,
    pub asks: Vec<StockInfoItemBin>,
    pub bids: Vec<StockInfoItemBin>,
}

/// Signs a user up. Nothing is sent: the service has no sign-up call yet.
pub fn signup(username: String, password: String) -> (r: Result<(), ClientError>)
    ensures
        r is Ok,
{
    Ok(())
}

/// How a call to the service can fail.
#[derive(Debug, Clone, Copy, PartialEq, Eq, Structural)]
pub enum ApiError {
    /// The request could not be completed, or the server failed.
    ServerUnavailable,
    /// The reply did not have the expected shape.
    DecodeError,
    /// The server has no such item.
    NotFound,
    /// The session credential was missing or refused.
    Unauthorized,
    /// The server refused the order's price or count.
    InvalidOrder,
}

impl ApiError {
    /// Whether the failure is a fault of the system rather than one the user
    /// can act on.
    pub open spec fn is_internal(self) -> bool {
        self is ServerUnavailable || self is DecodeError
    }

    /// The description shown for each kind of failure.
    pub open spec fn text(self) -> Seq<char> {
        match self {
            ApiError::ServerUnavailable => "Error while contacting server."@,
            ApiError::DecodeError => "Unexpected reply from server."@,
            ApiError::NotFound => "No such item."@,
            ApiError::Unauthorized => "Not signed in, or the session has expired."@,
            ApiError::InvalidOrder => "The server refused the order."@,
        }
    }

    /// The failure as shown to the user.
    pub fn to_client_error(self) -> (r: ClientError)
        ensures
            self.is_internal() <==> r is Internal,
            r.description() == self.text(),
    {
        match self {
            ApiError::ServerUnavailable => crate::errors::internal("Error while contacting server."),
            ApiError::DecodeError => crate::errors::internal("Unexpected reply from server."),
            ApiError::NotFound => user("No such item."),
            ApiError::Unauthorized => user("Not signed in, or the session has expired."),
            ApiError::InvalidOrder => user("The server refused the order."),
        }
    }
}

/// The calls the service offers.
#[derive(Debug, Clone, Copy, PartialEq, Eq, Structural)]
pub enum ApiCall {
    /// All events.
    ListEvents,
    /// One event in detail, by id.
    GetEvent(u32),
    /// One stock in detail, by id.
    GetStock(u32),
    /// The signed-in user's balance in cents.
    GetBalance,
    /// An order to buy `count` shares of a stock at no more than `price` cents.
    PlaceBuyOrder { stock_id: u32, price: u8, count: u32 },
}

/// The HTTP methods the client uses.
#[derive(Debug, Clone, Copy, PartialEq, Eq, Structural)]
pub enum HttpMethod {
    Get,
    Post,
}

/// A request ready to be sent: the value of its `Cookie` header, if any, and
/// its JSON body, if any.
#[derive(Debug, Clone)]
pub struct HttpRequest {
    pub method: HttpMethod,
    pub url: String,
    pub cookie: Option<String>,
    pub body: Option<String>,
}

pub open spec fn opt_view(o: Option<String>) -> Option<Seq<char>> {
    match o {
        Some(s) => Some(s@),
        None => None,
    }
}

/// The path of each call, below the service's base address.
pub open spec fn path_of(call: ApiCall) -> Seq<char> {
    match call {
        ApiCall::ListEvents => "/event"@,
        ApiCall::GetEvent(id) => "/event/"@ + decimal(id as nat),
        ApiCall::GetStock(id) => "/stock/"@ + decimal(id as nat),
        ApiCall::GetBalance => "/me/balance"@,
        ApiCall::PlaceBuyOrder { stock_id, .. } => "/stock/"@ + decimal(stock_id as nat) + "/buy"@,
    }
}

pub open spec fn method_of(call: ApiCall) -> HttpMethod {
    if call is PlaceBuyOrder { HttpMethod::Post } else { HttpMethod::Get }
}

/// Whether the call needs the session credential.
pub open spec fn needs_auth(call: ApiCall) -> bool {
    call is GetBalance || call is PlaceBuyOrder
}

/// The JSON body of each call: `{"price":P,"count":C}` for an order, none
/// for the others.
pub open spec fn body_of(call: ApiCall) -> Option<Seq<char>> {
    match call {
        ApiCall::PlaceBuyOrder { price, count, .. } => Some(
            "{\"price\":"@ + decimal(price as nat) + ",\"count\":"@ + decimal(count as nat) + "}"@,
        ),
        _ => None,
    }
}

/// The `Cookie` header value that carries a session credential.
pub open spec fn cookie_of(credential: Seq<char>) -> Seq<char> {
    "SESSION-TOKEN="@ + credential
}

/// Attaches the session credential to a request, as its `Cookie` header. An
/// empty credential is attached as it is: the server decides.
pub fn auth(req: HttpRequest, credential: &str) -> (r: HttpRequest)
    ensures
        r.method == req.method,
        r.url == req.url,
        r.body == req.body,
        opt_view(r.cookie) == Some(cookie_of(credential@)),
{
    let cookie = String::from_str("SESSION-TOKEN=").concat(credential);
    HttpRequest { cookie: Some(cookie), ..req }
}

/// The base address of a service run on this machine.
pub open spec fn local_base() -> Seq<char> {
    "http://localhost:8080"@
}

/// Where the service is, and the session credential to present to it.
#[derive(Debug, Clone)]
pub struct ApiClient {
    pub base_url: String,
    pub credential: String,
}

impl ApiClient {
    pub fn new(base_url: &str, credential: &str) -> (r: ApiClient)
        ensures
            r.base_url@ == base_url@,
            r.credential@ == credential@,
    {
        ApiClient { base_url: String::from_str(base_url), credential: String::from_str(credential) }
    }

    /// A client for a service run on this machine.
    pub fn local(credential: &str) -> (r: ApiClient)
        ensures
            r.base_url@ == local_base(),
            r.credential@ == credential@,
    {
        ApiClient::new("http://localhost:8080", credential)
    }

    /// The request that makes `call`. The credential goes with exactly the
    /// calls that need it.
    pub fn request(&self, call: ApiCall) -> (r: HttpRequest)
        ensures
            r.method == method_of(call),
            r.url@ == self.base_url@ + path_of(call),
            opt_view(r.body) == body_of(call),
            opt_view(r.cookie) == if needs_auth(call) {
                Some(cookie_of(self.credential@))
            } else {
                None::<Seq<char>>
            },
    {
        let mut url = self.base_url.clone();
        let mut method = HttpMethod::Get;
        let mut body: Option<String> = None;
        match call {
            ApiCall::ListEvents => {
                url.append("/event");
            },
            ApiCall::GetEvent(id) => {
                url.append("/event/");
                url.append(decimal_text(id as u64).as_str());
            },
            ApiCall::GetStock(id) => {
                url.append("/stock/");
                url.append(decimal_text(id as u64).as_str());
            },
            ApiCall::GetBalance => {
                url.append("/me/balance");
            },
            ApiCall::PlaceBuyOrder { stock_id, price, count } => {
                url.append("/stock/");
                url.append(decimal_text(stock_id as u64).as_str());
                url.append("/buy");
                method = HttpMethod::Post;
                let mut b = String::from_str("{\"price\":");
                b.append(decimal_text(price as u64).as_str());
                b.append(",\"count\":");
                b.append(decimal_text(count as u64).as_str());
                b.append("}");
                body = Some(b);
            },
        }
        let req = HttpRequest { method, url, cookie: None, body };
        if matches!(call, ApiCall::GetBalance | ApiCall::PlaceBuyOrder { .. }) {
            auth(req, self.credential.as_str())
        } else {
            req
        }
    }
}

/// What came back for a request: nothing, when it could not be completed, or
/// an HTTP status.
#[derive(Debug, Clone, Copy, PartialEq, Eq, Structural)]
pub enum Delivery {
    Unreachable,
    Status(u16),
}

/// How each reply ends a call: any 2xx status succeeds; 401 and 403 mean the
/// credential was refused, 404 that the item does not exist, 400 and 422 to an
/// order that the order was refused; anything else is a server failure.
pub open spec fn reply_outcome(call: ApiCall, reply: Delivery) -> Result<(), ApiError> {
    match reply {
        Delivery::Unreachable => Err(ApiError::ServerUnavailable),
        Delivery::Status(s) => if 200 <= s && s < 300 {
            Ok(())
        } else if s == 401 || s == 403 {
            Err(ApiError::Unauthorized)
        } else if s == 404 {
            Err(ApiError::NotFound)
        } else if (s == 400 || s == 422) && call is PlaceBuyOrder {
            Err(ApiError::InvalidOrder)
        } else {
            Err(ApiError::ServerUnavailable)
        },
    }
}

/// Decides whether a reply to `call` succeeded, and if not, how it failed.
pub fn check_reply(call: ApiCall, reply: Delivery) -> (r: Result<(), ApiError>)
    ensures
        r == reply_outcome(call, reply),
{
    match reply {
        Delivery::Unreachable => Err(ApiError::ServerUnavailable),
        Delivery::Status(s) => {
            if 200 <= s && s < 300 {
                Ok(())
            } else if s == 401 || s == 403 {
                Err(ApiError::Unauthorized)
            } else if s == 404 {
                Err(ApiError::NotFound)
            } else if (s == 400 || s == 422) && matches!(call, ApiCall::PlaceBuyOrder { .. }) {
                Err(ApiError::InvalidOrder)
            } else {
                Err(ApiError::ServerUnavailable)
            }
        },
    }
}

/// With an empty credential, a call that needs one still goes out with the
/// session cookie, its token empty; a refusal by the server then ends it as
/// unauthorized, which the user is shown as a failure of their own.
pub proof fn lemma_empty_credential(call: ApiCall, credential: Seq<char>, status: u16)
    requires
        credential.len() == 0,
        needs_auth(call),
        status == 401 || status == 403,
    ensures
        cookie_of(credential) == "SESSION-TOKEN="@,
        reply_outcome(call, Delivery::Status(status)) == Err::<(), ApiError>(ApiError::Unauthorized),
        !ApiError::Unauthorized.is_internal(),
{
    assert(cookie_of(credential) =~= "SESSION-TOKEN="@);
}

/// What accepting a decoded event detail gives: the event, when it opens no
/// later than it closes; otherwise the reply is malformed.
pub open spec fn event_acceptance(raw: EventInfoItem) -> Result<EventInfoItem, ApiError> {
    if raw.wf() {
        Ok(raw)
    } else {
        Err(ApiError::DecodeError)
    }
}

/// An event detail is accepted exactly when it opens no later than it closes,
/// and is then kept as it came: its times, and its stocks in their order.
pub proof fn lemma_event_acceptance(raw: EventInfoItem)
    ensures
        event_acceptance(raw) is Ok <==> time_le(raw.opens, raw.closes),
        event_acceptance(raw) matches Ok(e) ==> {
            &&& time_le(e.opens, e.closes)
            &&& e.created == raw.created && e.opens == raw.opens && e.closes == raw.closes
            &&& e.stocks@ == raw.stocks@
        },
{
}

/// Accepts a decoded event detail only if it keeps the event invariant.
pub fn accept_event(raw: EventInfoItem) -> (r: Result<EventInfoItem, ApiError>)
    ensures
        r == event_acceptance(raw),
        r matches Ok(e) ==> e.wf(),
{
    if raw.opens.not_after(&raw.closes) {
        Ok(raw)
    } else {
        Err(ApiError::DecodeError)
    }
}

} // verus!
