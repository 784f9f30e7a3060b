use crate::packages::market::{ExecuteMsg, ExecuteMsgView, InstantiateMsg, InstantiateMsgView};
use vstd::prelude::*;

verus! {

/// An amount of one currency.
#[derive(Clone, Debug, PartialEq, Eq)]
pub struct Coin {
    pub denom: String,
    pub amount: u128,
}

/// A `Coin` as a mathematical value: texts and sequences in place of strings and
/// vectors.
pub struct CoinView {
    pub denom: Seq<char>,
    pub amount: u128,
}

impl View for Coin {
    type V = CoinView;

    open spec fn view(&self) -> CoinView {
        CoinView { denom: self.denom@, amount: self.amount }
    }
}

/// What a call knows of the ledger it runs on.
#[derive(Clone, Debug)]
pub struct Env {
    /// The time of the block, in seconds.
    pub block_time: u64,
    /// The address of the contract that was called.
    pub contract_address: String,
}

/// Who called, and with which funds.
#[derive(Clone, Debug)]
pub struct MessageInfo {
    pub sender: String,
    pub funds: Vec<Coin>,
}

/// What came of an instruction that the contract asked to be told of: under `id`, either
/// the data that the instruction gave back, if any, or why it failed.
#[derive(Debug)]
pub struct Reply {
    pub id: u64,
    pub result: Result<Option<Vec<u8>>, String>,
}

/// An instruction that the ledger carries out together with the call's own changes, or not
/// at all.
#[derive(Debug, PartialEq, Eq)]
pub enum Message {
    /// Pay `amount` of the currency `denom` to `to_address`.
    Send { to_address: String, denom: String, amount: u128 },
    /// Report to the registry at `contract_addr`.
    RecordStats {
        contract_addr: String,
        amount: u128,
        account: String,
        stat_type: String,
        data: Vec<u128>,
    },
    /// Call the market at `contract_addr`, and hand it `funds`.
    Market { contract_addr: String, msg: ExecuteMsg, funds: Vec<Coin> },
    /// Create a market from the code `code_id`, and tell the creator under `reply_id` where
    /// it stands.
    Instantiate {
        code_id: u64,
        admin: String,
        label: String,
        init_msg: InstantiateMsg,
        reply_id: u64,
    },
}

/// The amounts of a list of coins, in order.
pub open spec fn coins(v: Seq<Coin>) -> Seq<CoinView> {
    v.map_values(|c: Coin| c@)
}

/// A `Message` as a mathematical value: texts and sequences in place of strings and
/// vectors.
pub enum MessageView {
    Send { to_address: Seq<char>, denom: Seq<char>, amount: u128 },
    RecordStats {
        contract_addr: Seq<char>,
        amount: u128,
        account: Seq<char>,
        stat_type: Seq<char>,
        data: Seq<u128>,
    },
    Market { contract_addr: Seq<char>, msg: ExecuteMsgView, funds: Seq<CoinView> },
    Instantiate {
        code_id: u64,
        admin: Seq<char>,
        label: Seq<char>,
        init_msg: InstantiateMsgView,
        reply_id: u64,
    },
}

impl View for Message {
    type V = MessageView;

    open spec fn view(&self) -> MessageView {
        match *self {
            Message::Send { to_address, denom, amount } => MessageView::Send {
                to_address: to_address@,
                denom: denom@,
                amount,
            },
            Message::RecordStats { contract_addr, amount, account, stat_type, data } => MessageView::RecordStats {
                contract_addr: contract_addr@,
                amount,
                account: account@,
                stat_type: stat_type@,
                data: data@,
            },
            Message::Market { contract_addr, msg, funds } => MessageView::Market {
                contract_addr: contract_addr@,
                msg: msg@,
                funds: coins(funds@),
            },
            Message::Instantiate { code_id, admin, label, init_msg, reply_id } => MessageView::Instantiate {
                code_id,
                admin: admin@,
                label: label@,
                init_msg: init_msg@,
                reply_id,
            },
        }
    }
}

/// Something that happened in a call, for those who watch the ledger.
#[derive(Debug, PartialEq, Eq)]
pub enum Event {
    /// A trade: on which market, by whom, in which outcome and on which side, at which
    /// price and of which volume, under which registry.
    Order {
        market: String,
        account: String,
        variant: u128,
        buy_or_sell: u128,
        price: u128,
        volume: u128,
        factory: String,
    },
    /// A market was resolved.
    Resolution { market: String },
    /// A market was created at this address.
    Created { contract_address: String },
}

/// An `Event` as a mathematical value: texts and sequences in place of strings and
/// vectors.
pub enum EventView {
    Order {
        market: Seq<char>,
        account: Seq<char>,
        variant: u128,
        buy_or_sell: u128,
        price: u128,
        volume: u128,
        factory: Seq<char>,
    },
    Resolution { market: Seq<char> },
    Created { contract_address: Seq<char> },
}

impl View for Event {
    type V = EventView;

    open spec fn view(&self) -> EventView {
        match *self {
            Event::Order { market, account, variant, buy_or_sell, price, volume, factory } => EventView::Order {
                market: market@,
                account: account@,
                variant,
                buy_or_sell,
                price,
                volume,
                factory: factory@,
            },
            Event::Resolution { market } => EventView::Resolution { market: market@ },
            Event::Created { contract_address } => EventView::Created {
                contract_address: contract_address@,
            },
        }
    }
}

/// What a successful call hands back: the instructions to carry out, in order, and what
/// happened.
#[derive(Debug)]
pub struct Response {
    pub messages: Vec<Message>,
    pub events: Vec<Event>,
}

/// A `Response` as a mathematical value: texts and sequences in place of strings and
/// vectors.
pub struct ResponseView {
    pub messages: Seq<MessageView>,
    pub events: Seq<EventView>,
}

/// The response that gives these instructions and reports nothing.
pub open spec fn sending(messages: Seq<MessageView>) -> ResponseView {
    ResponseView { messages, events: Seq::empty() }
}

impl View for Response {
    type V = ResponseView;

    open spec fn view(&self) -> ResponseView {
        ResponseView {
            messages: self.messages@.map_values(|m: Message| m@),
            events: self.events@.map_values(|e: Event| e@),
        }
    }
}

impl Response {
    /// A response without instructions or events.
    pub fn new() -> (r: Self)
        ensures
            r@ == sending(Seq::empty()),
    {
        let r = Response { messages: Vec::new(), events: Vec::new() };
        assert(r@.messages =~= Seq::<MessageView>::empty());
        assert(r@.events =~= Seq::<EventView>::empty());
        r
    }

    /// The same response with one more instruction at its end.
    pub fn add_message(self, message: Message) -> (r: Self)
        ensures
            r@ == (ResponseView { messages: self@.messages.push(message@), ..self@ }),
    {
        let mut messages = self.messages;
        messages.push(message);
        let r = Response { messages, events: self.events };
        assert(r@.messages =~= self@.messages.push(message@));
        r
    }

    /// The same response with one more event at its end.
    pub fn add_event(self, event: Event) -> (r: Self)
        ensures
            r@ == (ResponseView { events: self@.events.push(event@), ..self@ }),
    {
        let mut events = self.events;
        events.push(event);
        let r = Response { messages: self.messages, events };
        assert(r@.events =~= self@.events.push(event@));
        r
    }
}

} // verus!
