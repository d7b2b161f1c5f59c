//! What the commands show, as rows of cell text, and the checks on what the
//! user types during a purchase.
use vstd::prelude::*;
use vstd::string::*;
use crate::api::{opt_view, EventInfoItem, EventInfoItemStock, EventListItem, StockInfoItem, StockInfoItemBin};
use crate::text::{all_digits, decimal, decimal_text, i64_value, integer_value, is_digit, lemma_parse_decimal, parse_i64};

verus! {

/// The price the user may offer, read from `s`: an integer with `0 < p < 100`.
pub open spec fn price_accepted(s: Seq<char>) -> Option<int> {
    match i64_value(s) {
        Some(v) => if 0 < v && v < 100 { Some(v) } else { None },
        None => None,
    }
}

/// The number of shares the user may order, read from `s`: an integer above 0
/// that an order can carry.
pub open spec fn count_accepted(s: Seq<char>) -> Option<int> {
    match i64_value(s) {
        Some(v) => if 0 < v && v <= u32::MAX { Some(v) } else { None },
        None => None,
    }
}

pub open spec fn price_rejection() -> Seq<char> {
    "Must be a number 0 < x < 100"@
}

pub open spec fn count_rejection() -> Seq<char> {
    "Must be a number 0 < x"@
}

/// Checks a typed price; on refusal, says why.
pub fn validate_price(input: &str) -> (r: Result<u8, String>)
    ensures
        match r {
            Ok(p) => price_accepted(input@) == Some(p as int),
            Err(m) => price_accepted(input@) is None && m@ == price_rejection(),
        },
{
    match parse_i64(input) {
        Some(v) => {
            if 0 < v && v < 100 {
                return Ok(v as u8);
            }
        },
        None => {},
    }
    Err(String::from_str("Must be a number 0 < x < 100"))
}

/// Checks a typed share count; on refusal, says why.
pub fn validate_count(input: &str) -> (r: Result<u32, String>)
    ensures
        match r {
            Ok(c) => count_accepted(input@) == Some(c as int),
            Err(m) => count_accepted(input@) is None && m@ == count_rejection(),
        },
{
    match parse_i64(input) {
        Some(v) => {
            if 0 < v && v <= 4294967295 {
                return Ok(v as u32);
            }
        },
        None => {},
    }
    Err(String::from_str("Must be a number 0 < x"))
}

/// A price written in decimal is accepted, as itself, exactly when it lies
/// strictly between 0 and 100; a negative one never is.
pub proof fn lemma_price_law(n: nat)
    ensures
        price_accepted(decimal(n)) == if 0 < n < 100 { Some(n as int) } else { None::<int> },
        price_accepted(seq!['-'] + decimal(n)) is None,
{
    lemma_parse_decimal(n);
}

/// A count written in decimal is accepted, as itself, exactly when it is
/// above 0 and fits an order; zero and negative counts never are.
pub proof fn lemma_count_law(n: nat)
    ensures
        count_accepted(decimal(n)) == if 0 < n <= u32::MAX { Some(n as int) } else { None::<int> },
        count_accepted(seq!['-'] + decimal(n)) is None,
{
    lemma_parse_decimal(n);
}

/// Text with a character that is neither a digit nor a leading sign is
/// refused both as a price and as a count.
pub proof fn lemma_non_numeric_refused(s: Seq<char>, i: int)
    requires
        0 <= i < s.len(),
        !is_digit(s[i]),
        !(i == 0 && (s[0] == '-' || s[0] == '+')),
    ensures
        price_accepted(s) is None,
        count_accepted(s) is None,
{
    if s.len() > 0 && (s[0] == '-' || s[0] == '+') {
        assert(!is_digit(s.drop_first()[i - 1]));
        assert(!all_digits(s.drop_first()));
    } else {
        assert(!all_digits(s));
    }
    assert(integer_value(s) is None);
}

/// The texts of a sequence of strings.
pub open spec fn texts(v: Seq<String>) -> Seq<Seq<char>> {
    v.map_values(|c: String| c@)
}

/// The texts of a row's cells.
pub open spec fn cells_view(row: Vec<String>) -> Seq<Seq<char>> {
    texts(row@)
}

/// An amount in cents, as shown.
pub open spec fn cents(p: nat) -> Seq<char> {
    decimal(p) + "\u{a2}"@
}

fn cents_text(p: u8) -> (r: String)
    ensures
        r@ == cents(p as nat),
{
    decimal_text(p as u64).concat("\u{a2}")
}

/// The row of the event list for one event: its id and its title.
pub open spec fn event_list_row(e: EventListItem) -> Seq<Seq<char>> {
    seq![decimal(e.id as nat), e.title@]
}

/// The rows of the event list, one per event, in the order given.
pub fn event_list_rows(events: &Vec<EventListItem>) -> (r: Vec<Vec<String>>)
    ensures
        r@.len() == events@.len(),
        forall|i: int| 0 <= i < events@.len() ==> cells_view(#[trigger] r@[i]) == event_list_row(events@[i]),
{
    let mut rows: Vec<Vec<String>> = Vec::new();
    let mut i: usize = 0;
    while i < events.len()
        invariant
            i <= events@.len(),
            rows@.len() == i,
            forall|j: int| 0 <= j < i ==> cells_view(#[trigger] rows@[j]) == event_list_row(events@[j]),
        decreases events@.len() - i,
    {
        let e = &events[i];
        let mut row: Vec<String> = Vec::new();
        row.push(decimal_text(e.id as u64));
        row.push(e.title.clone());
        assert(cells_view(row) =~= event_list_row(events@[i as int]));
        rows.push(row);
        i = i + 1;
    }
    rows
}

/// The row of an event's stock table: id, price and title.
pub open spec fn event_stock_row(s: EventInfoItemStock) -> Seq<Seq<char>> {
    seq![decimal(s.id as nat), cents(s.price as nat), s.title@]
}

/// The day of a UTC instant as `%Y-%m-%d`, where chrono can represent it.
pub uninterp spec fn utc_day_text(secs: int) -> Option<Seq<char>>;

/// Relies on chrono's `DateTime::<Utc>::from_timestamp` (`None` outside the
/// range chrono represents) and `format("%Y-%m-%d")`: the text depends on the
/// instant alone.
#[verifier::external_body]
fn utc_day(secs: i64) -> (r: Option<String>)
    ensures
        opt_view(r) == utc_day_text(secs as int),
{
    match chrono::DateTime::from_timestamp(secs, 0) {
        Some(t) => Some(t.format("%Y-%m-%d").to_string()),
        None => None,
    }
}

/// An event's detail as shown: its title, the days it was created, opens and
/// closes, and one row per stock.
pub struct EventView {
    pub title: String,
    pub created: Option<String>,
    pub opens: Option<String>,
    pub closes: Option<String>,
    pub stock_rows: Vec<Vec<String>>,
}

/// Lays out an event's detail; the stock rows keep the event's order.
pub fn event_view(e: &EventInfoItem) -> (r: EventView)
    ensures
        r.title@ == e.title@,
        opt_view(r.created) == utc_day_text(e.created.secs as int),
        opt_view(r.opens) == utc_day_text(e.opens.secs as int),
        opt_view(r.closes) == utc_day_text(e.closes.secs as int),
        r.stock_rows@.len() == e.stocks@.len(),
        forall|i: int| 0 <= i < e.stocks@.len()
            ==> cells_view(#[trigger] r.stock_rows@[i]) == event_stock_row(e.stocks@[i]),
{
    let mut rows: Vec<Vec<String>> = Vec::new();
    let mut i: usize = 0;
    while i < e.stocks.len()
        invariant
            i <= e.stocks@.len(),
            rows@.len() == i,
            forall|j: int| 0 <= j < i ==> cells_view(#[trigger] rows@[j]) == event_stock_row(e.stocks@[j]),
        decreases e.stocks@.len() - i,
    {
        let s = &e.stocks[i];
        let mut row: Vec<String> = Vec::new();
        row.push(decimal_text(s.id as u64));
        row.push(cents_text(s.price));
        row.push(s.title.clone());
        assert(cells_view(row) =~= event_stock_row(e.stocks@[i as int]));
        rows.push(row);
        i = i + 1;
    }
    EventView {
        title: e.title.clone(),
        created: utc_day(e.created.secs),
        opens: utc_day(e.opens.secs),
        closes: utc_day(e.closes.secs),
        stock_rows: rows,
    }
}

/// One level of an order book as shown: `120x 54¢`.
pub open spec fn bin_text(b: StockInfoItemBin) -> Seq<char> {
    decimal(b.count as nat) + "x "@ + cents(b.price as nat)
}

pub open spec fn bins_text(bins: Seq<StockInfoItemBin>) -> Seq<Seq<char>> {
    bins.map_values(|b: StockInfoItemBin| bin_text(b))
}

/// The rows of one side of an order book, in its order.
pub fn bin_rows(bins: &Vec<StockInfoItemBin>) -> (r: Vec<String>)
    ensures
        texts(r@) == bins_text(bins@),
{
    let mut rows: Vec<String> = Vec::new();
    let mut i: usize = 0;
    while i < bins.len()
        invariant
            i <= bins@.len(),
            rows@.len() == i,
            texts(rows@) == bins_text(bins@.subrange(0, i as int)),
        decreases bins@.len() - i,
    {
        let b = bins[i];
        let mut t = decimal_text(b.count as u64);
        t.append("x ");
        t.append(cents_text(b.price).as_str());
        assert(t@ == bin_text(bins@[i as int]));
        let ghost before = rows@;
        rows.push(t);
        assert forall|j: int| 0 <= j < i + 1 implies #[trigger] texts(rows@)[j] == bins_text(
            bins@.subrange(0, i + 1),
        )[j] by {
            if j < i {
                assert(rows@[j] == before[j]);
                assert(texts(before)[j] == bins_text(bins@.subrange(0, i as int))[j]);
            }
        }
        assert(texts(rows@) =~= bins_text(bins@.subrange(0, i + 1)));
        i = i + 1;
    }
    assert(bins@.subrange(0, bins@.len() as int) =~= bins@);
    rows
}

/// A stock's order book as shown: one row per level on each side, and for
/// each side whether it is empty, in which case a notice that the user would
/// be the first takes the place of its rows.
pub struct OrderBookView {
    pub ask_rows: Vec<String>,
    pub bid_rows: Vec<String>,
    pub no_asks: bool,
    pub no_bids: bool,
}

/// Lays out a stock's order book, keeping the order of each side.
pub fn order_book_view(stock: &StockInfoItem) -> (r: OrderBookView)
    ensures
        texts(r.ask_rows@) == bins_text(stock.asks@),
        texts(r.bid_rows@) == bins_text(stock.bids@),
        r.no_asks == (stock.asks@.len() == 0),
        r.no_bids == (stock.bids@.len() == 0),
{
    OrderBookView {
        ask_rows: bin_rows(&stock.asks),
        bid_rows: bin_rows(&stock.bids),
        no_asks: stock.asks.len() == 0,
        no_bids: stock.bids.len() == 0,
    }
}

} // verus!
