//! The buy workflow as a state machine: the caller performs each action
//! (fetching, prompting, sending) and hands back what came of it.
use vstd::prelude::*;
use crate::api::{ApiError, EventInfoItem, StockInfoItem, StockInfoItemBin};
use crate::commands::{count_accepted, price_accepted, validate_count, validate_price};
use crate::errors::{internal, ClientError};

verus! {

/// Why a purchase failed.
#[derive(Debug, Clone, Copy, PartialEq, Eq, Structural)]
pub enum BuyFailure {
    /// A call to the service failed.
    Api(ApiError),
    /// Something came back that the current step did not ask for.
    OutOfOrder,
}

impl BuyFailure {
    /// The failure as shown to the user: that of the API error, or an internal
    /// one for an answer out of order.
    pub fn to_client_error(self) -> (r: ClientError)
        ensures
            match self {
                BuyFailure::Api(e) => r.description() == e.text() && (e.is_internal() <==> r is Internal),
                BuyFailure::OutOfOrder => r is Internal && r.description() == "Unexpected step in the purchase."@,
            },
    {
        match self {
            BuyFailure::Api(e) => e.to_client_error(),
            BuyFailure::OutOfOrder => internal("Unexpected step in the purchase."),
        }
    }
}

/// Where a purchase stands.
pub enum BuyState {
    /// Nothing done yet; the balance is being fetched.
    Start { stock_id: u32 },
    /// The balance is shown; the stock is being fetched.
    BalanceShown { stock_id: u32 },
    /// The stock is known; its event is being fetched.
    StockFetched { stock_id: u32, stock: StockInfoItem },
    /// Stock and event are known; the user is asked to confirm.
    StockLoaded { stock_id: u32, stock: StockInfoItem, event: EventInfoItem },
    /// The user confirmed; a price is asked for.
    Confirmed { stock_id: u32 },
    /// The user declined: the purchase ends, successfully, with no order.
    Cancelled,
    /// A valid price was given; a count is asked for.
    PriceEntered { stock_id: u32, price: u8 },
    /// A valid count was given; the order is being placed.
    CountEntered { stock_id: u32, price: u8, count: u32 },
    /// The order was placed.
    Submitted,
    /// The purchase ended on a failure.
    Failed(BuyFailure),
}

/// What has come of the last action.
pub enum BuyEvent {
    Balance(Result<u32, ApiError>),
    Stock(Result<StockInfoItem, ApiError>),
    Event(Result<EventInfoItem, ApiError>),
    Confirmation(bool),
    PriceInput(String),
    CountInput(String),
    OrderOutcome(Result<(), ApiError>),
}

/// What the caller is to do next.
pub enum BuyAction {
    /// Fetch the user's balance.
    FetchBalance,
    /// Show `balance`, then fetch the stock.
    FetchStock { balance: u32, stock_id: u32 },
    /// Fetch the event that the stock belongs to.
    FetchEvent { event_id: u32 },
    /// Show the two titles and ask whether this is the stock meant.
    Confirm { event_title: String, stock_title: String },
    /// Show the offers to sell, or, where there are none, a notice that the
    /// user is the first to bid; then ask for a price.
    AskPrice { asks: Vec<StockInfoItemBin>, first_bidder: bool },
    /// The price given was refused: ask again.
    AskPriceAgain,
    /// Ask for a count.
    AskCount,
    /// The count given was refused: ask again.
    AskCountAgain,
    /// Place the order.
    PlaceOrder { stock_id: u32, price: u8, count: u32 },
    /// Tell the user that the purchase was cancelled; it ends successfully.
    Cancelled,
    /// The purchase is over, with this outcome.
    Done(Result<(), BuyFailure>),
}

/// Where a purchase ends up when a step fails.
pub open spec fn failed(e: BuyFailure) -> (BuyState, BuyAction) {
    (BuyState::Failed(e), BuyAction::Done(Err(e)))
}

/// The start of a purchase of stock `stock_id`.
pub open spec fn buy_begin(stock_id: u32) -> (BuyState, BuyAction) {
    (BuyState::Start { stock_id }, BuyAction::FetchBalance)
}

/// One step of the purchase: the next state, and what to do in it. Any fetch
/// that fails ends the purchase at once; declining the stock ends it with
/// success and no order; a refused price or count is asked for again; an
/// answer that the state did not ask for ends it as out of order; a finished
/// purchase stays as it is.
pub open spec fn buy_next(state: BuyState, event: BuyEvent) -> (BuyState, BuyAction) {
    match state {
        BuyState::Start { stock_id } => match event {
            BuyEvent::Balance(Ok(balance)) => (
                BuyState::BalanceShown { stock_id },
                BuyAction::FetchStock { balance, stock_id },
            ),
            BuyEvent::Balance(Err(e)) => failed(BuyFailure::Api(e)),
            _ => failed(BuyFailure::OutOfOrder),
        },
        BuyState::BalanceShown { stock_id } => match event {
            BuyEvent::Stock(Ok(stock)) => (
                BuyState::StockFetched { stock_id, stock },
                BuyAction::FetchEvent { event_id: stock.event_id },
            ),
            BuyEvent::Stock(Err(e)) => failed(BuyFailure::Api(e)),
            _ => failed(BuyFailure::OutOfOrder),
        },
        BuyState::StockFetched { stock_id, stock } => match event {
            BuyEvent::Event(Ok(ev)) => (
                BuyState::StockLoaded { stock_id, stock, event: ev },
                BuyAction::Confirm { event_title: ev.title, stock_title: stock.title },
            ),
            BuyEvent::Event(Err(e)) => failed(BuyFailure::Api(e)),
            _ => failed(BuyFailure::OutOfOrder),
        },
        BuyState::StockLoaded { stock_id, stock, .. } => match event {
            BuyEvent::Confirmation(true) => (
                BuyState::Confirmed { stock_id },
                BuyAction::AskPrice { asks: stock.asks, first_bidder: stock.asks@.len() == 0 },
            ),
            BuyEvent::Confirmation(false) => (BuyState::Cancelled, BuyAction::Cancelled),
            _ => failed(BuyFailure::OutOfOrder),
        },
        BuyState::Confirmed { stock_id } => match event {
            BuyEvent::PriceInput(input) => match price_accepted(input@) {
                Some(p) => (BuyState::PriceEntered { stock_id, price: p as u8 }, BuyAction::AskCount),
                None => (BuyState::Confirmed { stock_id }, BuyAction::AskPriceAgain),
            },
            _ => failed(BuyFailure::OutOfOrder),
        },
        BuyState::PriceEntered { stock_id, price } => match event {
            BuyEvent::CountInput(input) => match count_accepted(input@) {
                Some(c) => (
                    BuyState::CountEntered { stock_id, price, count: c as u32 },
                    BuyAction::PlaceOrder { stock_id, price, count: c as u32 },
                ),
                None => (BuyState::PriceEntered { stock_id, price }, BuyAction::AskCountAgain),
            },
            _ => failed(BuyFailure::OutOfOrder),
        },
        BuyState::CountEntered { .. } => match event {
            BuyEvent::OrderOutcome(Ok(())) => (BuyState::Submitted, BuyAction::Done(Ok(()))),
            BuyEvent::OrderOutcome(Err(e)) => failed(BuyFailure::Api(e)),
            _ => failed(BuyFailure::OutOfOrder),
        },
        BuyState::Cancelled => (BuyState::Cancelled, BuyAction::Cancelled),
        BuyState::Submitted => (BuyState::Submitted, BuyAction::Done(Ok(()))),
        BuyState::Failed(e) => failed(e),
    }
}

/// The final state and the actions issued when the events come one by one.
pub open spec fn run(state: BuyState, events: Seq<BuyEvent>) -> (BuyState, Seq<BuyAction>)
    decreases events.len(),
{
    if events.len() == 0 {
        (state, Seq::empty())
    } else {
        let (next, action) = buy_next(state, events[0]);
        let (last, rest) = run(next, events.drop_first());
        (last, seq![action] + rest)
    }
}

proof fn lemma_run_len(state: BuyState, events: Seq<BuyEvent>)
    ensures
        run(state, events).1.len() == events.len(),
    decreases events.len(),
{
    if events.len() > 0 {
        lemma_run_len(buy_next(state, events[0]).0, events.drop_first());
    }
}

/// Whether the purchase is over.
pub open spec fn is_finished(state: BuyState) -> bool {
    state is Cancelled || state is Submitted || state is Failed
}

/// A finished purchase stays as it is, whatever comes, and places no order.
pub proof fn lemma_finished_stays(state: BuyState, events: Seq<BuyEvent>)
    requires
        is_finished(state),
    ensures
        run(state, events).0 == state,
        run(state, events).1.len() == events.len(),
        forall|i: int| 0 <= i < events.len() ==> !(#[trigger] run(state, events).1[i] is PlaceOrder),
        state is Cancelled ==> forall|i: int| 0 <= i < events.len() ==> (#[trigger] run(state, events).1[i]) is Cancelled,
    decreases events.len(),
{
    if events.len() > 0 {
        lemma_finished_stays(state, events.drop_first());
        let rest = run(state, events.drop_first()).1;
        assert forall|i: int| 0 < i < events.len() implies run(state, events).1[i] == rest[i - 1] by {}
    }
}

/// With no offers to sell, confirming the stock asks for a price at once,
/// with the notice that the user is the first to bid, and an accepted price
/// is then entered directly.
pub proof fn lemma_first_bidder(stock_id: u32, stock: StockInfoItem, event: EventInfoItem, input: String)
    requires
        stock.asks@.len() == 0,
    ensures
        buy_next(BuyState::StockLoaded { stock_id, stock, event }, BuyEvent::Confirmation(true)) == (
            BuyState::Confirmed { stock_id },
            BuyAction::AskPrice { asks: stock.asks, first_bidder: true },
        ),
        price_accepted(input@) matches Some(p) ==> buy_next(
            BuyState::Confirmed { stock_id },
            BuyEvent::PriceInput(input),
        ) == (BuyState::PriceEntered { stock_id, price: p as u8 }, BuyAction::AskCount),
{
}

/// Declining the stock cancels the purchase with success, and whatever comes
/// after, it stays cancelled and no order is placed.
pub proof fn lemma_cancel_places_no_order(
    stock_id: u32,
    stock: StockInfoItem,
    event: EventInfoItem,
    events: Seq<BuyEvent>,
)
    ensures
        buy_next(BuyState::StockLoaded { stock_id, stock, event }, BuyEvent::Confirmation(false)) == (
            BuyState::Cancelled,
            BuyAction::Cancelled,
        ),
        run(BuyState::Cancelled, events).0 is Cancelled,
        forall|i: int| 0 <= i < events.len() ==> !(#[trigger] run(BuyState::Cancelled, events).1[i] is PlaceOrder),
{
    lemma_finished_stays(BuyState::Cancelled, events);
}

/// Whether the user has not yet been asked to confirm, or is being asked.
pub open spec fn before_confirmation(state: BuyState) -> bool {
    state is Start || state is BalanceShown || state is StockFetched || state is StockLoaded
}

/// Whether the user has confirmed, or the purchase ended other than by
/// declining.
pub open spec fn past_confirmation(state: BuyState) -> bool {
    state is Confirmed || state is PriceEntered || state is CountEntered || state is Submitted
        || state is Failed
}

proof fn lemma_past_confirmation_never_cancels(state: BuyState, events: Seq<BuyEvent>)
    requires
        past_confirmation(state),
    ensures
        forall|i: int| 0 <= i < events.len() ==> !(#[trigger] run(state, events).1[i] is Cancelled),
    decreases events.len(),
{
    if events.len() > 0 {
        let next = buy_next(state, events[0]).0;
        lemma_past_confirmation_never_cancels(next, events.drop_first());
        lemma_run_len(next, events.drop_first());
        let rest = run(next, events.drop_first()).1;
        assert forall|i: int| 0 < i < events.len() implies run(state, events).1[i] == rest[i - 1] by {}
    }
}

/// In any purchase, from its start, in which the user declines the stock, no
/// order is ever issued.
pub proof fn lemma_declined_purchase_places_no_order(state: BuyState, events: Seq<BuyEvent>, k: int)
    requires
        before_confirmation(state) || state is Cancelled,
        0 <= k < events.len(),
        run(state, events).1[k] is Cancelled,
    ensures
        forall|i: int| 0 <= i < events.len() ==> !(#[trigger] run(state, events).1[i] is PlaceOrder),
    decreases events.len(),
{
    lemma_run_len(state, events);
    if state is Cancelled {
        lemma_finished_stays(state, events);
    } else {
        let (next, first) = buy_next(state, events[0]);
        let tail = events.drop_first();
        let rest = run(next, tail).1;
        lemma_run_len(next, tail);
        assert forall|i: int| 0 < i < events.len() implies run(state, events).1[i] == rest[i - 1] by {}
        if next is Cancelled {
            lemma_finished_stays(next, tail);
        } else if before_confirmation(next) {
            if k > 0 {
                lemma_declined_purchase_places_no_order(next, tail, k - 1);
            } else {
                assert(first is Cancelled);
            }
        } else {
            assert(past_confirmation(next));
            lemma_past_confirmation_never_cancels(next, tail);
            if k > 0 {
                assert(rest[k - 1] is Cancelled);
            }
        }
        assert(!(first is PlaceOrder));
    }
}

/// Once the count is entered, the order is placed once: whatever the reply
/// and whatever comes after it, no further order is issued.
pub proof fn lemma_order_placed_once(stock_id: u32, price: u8, count: u32, events: Seq<BuyEvent>)
    requires
        events.len() > 0,
    ensures
        is_finished(run(BuyState::CountEntered { stock_id, price, count }, events).0),
        forall|i: int| 0 <= i < events.len() ==> !(#[trigger] run(
            BuyState::CountEntered { stock_id, price, count },
            events,
        ).1[i] is PlaceOrder),
{
    let start = BuyState::CountEntered { stock_id, price, count };
    let next = buy_next(start, events[0]).0;
    lemma_finished_stays(next, events.drop_first());
    let rest = run(next, events.drop_first()).1;
    assert forall|i: int| 0 < i < events.len() implies run(start, events).1[i] == rest[i - 1] by {}
}

/// Begins a purchase of stock `stock_id`.
pub fn buy_start(stock_id: u32) -> (r: (BuyState, BuyAction))
    ensures
        r == buy_begin(stock_id),
{
    (BuyState::Start { stock_id }, BuyAction::FetchBalance)
}

/// Takes the purchase one step on, from what came of the last action.
pub fn buy_step(state: BuyState, event: BuyEvent) -> (r: (BuyState, BuyAction))
    ensures
        r == buy_next(state, event),
{
    match state {
        BuyState::Start { stock_id } => match event {
            BuyEvent::Balance(Ok(balance)) => (
                BuyState::BalanceShown { stock_id },
                BuyAction::FetchStock { balance, stock_id },
            ),
            BuyEvent::Balance(Err(e)) => fail(BuyFailure::Api(e)),
            _ => fail(BuyFailure::OutOfOrder),
        },
        BuyState::BalanceShown { stock_id } => match event {
            BuyEvent::Stock(Ok(stock)) => {
                let event_id = stock.event_id;
                (BuyState::StockFetched { stock_id, stock }, BuyAction::FetchEvent { event_id })
            },
            BuyEvent::Stock(Err(e)) => fail(BuyFailure::Api(e)),
            _ => fail(BuyFailure::OutOfOrder),
        },
        BuyState::StockFetched { stock_id, stock } => match event {
            BuyEvent::Event(Ok(ev)) => {
                let event_title = ev.title.clone();
                let stock_title = stock.title.clone();
                (
                    BuyState::StockLoaded { stock_id, stock, event: ev },
                    BuyAction::Confirm { event_title, stock_title },
                )
            },
            BuyEvent::Event(Err(e)) => fail(BuyFailure::Api(e)),
            _ => fail(BuyFailure::OutOfOrder),
        },
        BuyState::StockLoaded { stock_id, stock, .. } => match event {
            BuyEvent::Confirmation(yes) => {
                if yes {
                    let first_bidder = stock.asks.len() == 0;
                    (BuyState::Confirmed { stock_id }, BuyAction::AskPrice { asks: stock.asks, first_bidder })
                } else {
                    (BuyState::Cancelled, BuyAction::Cancelled)
                }
            },
            _ => fail(BuyFailure::OutOfOrder),
        },
        BuyState::Confirmed { stock_id } => match event {
            BuyEvent::PriceInput(input) => match validate_price(input.as_str()) {
                Ok(price) => (BuyState::PriceEntered { stock_id, price }, BuyAction::AskCount),
                Err(_) => (BuyState::Confirmed { stock_id }, BuyAction::AskPriceAgain),
            },
            _ => fail(BuyFailure::OutOfOrder),
        },
        BuyState::PriceEntered { stock_id, price } => match event {
            BuyEvent::CountInput(input) => match validate_count(input.as_str()) {
                Ok(count) => (
                    BuyState::CountEntered { stock_id, price, count },
                    BuyAction::PlaceOrder { stock_id, price, count },
                ),
                Err(_) => (BuyState::PriceEntered { stock_id, price }, BuyAction::AskCountAgain),
            },
            _ => fail(BuyFailure::OutOfOrder),
        },
        BuyState::CountEntered { .. } => match event {
            BuyEvent::OrderOutcome(Ok(())) => (BuyState::Submitted, BuyAction::Done(Ok(()))),
            BuyEvent::OrderOutcome(Err(e)) => fail(BuyFailure::Api(e)),
            _ => fail(BuyFailure::OutOfOrder),
        },
        BuyState::Cancelled => (BuyState::Cancelled, BuyAction::Cancelled),
        BuyState::Submitted => (BuyState::Submitted, BuyAction::Done(Ok(()))),
        BuyState::Failed(e) => fail(e),
    }
}

fn fail(e: BuyFailure) -> (r: (BuyState, BuyAction))
    ensures
        r == failed(e),
{
    (BuyState::Failed(e), BuyAction::Done(Err(e)))
}

} // verus!
