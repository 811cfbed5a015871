//! The endpoints of the exchange: each one's path and its ordered query fields.
use vstd::prelude::*;

use crate::error::BinanceError;
use crate::query::{field, fields_view, query_text, serialize, stamped_text, with_timestamp, FieldView};
use crate::text::{decimal_of, signed_decimal_of, signed_decimal_text};

verus! {

/// The number of candles asked for when the caller names no limit.
pub const DEFAULT_KLINE_LIMIT: i32 = 500;

/// An operation of the exchange's REST API.
pub trait Endpoint {
    /// The URL path of the operation.
    spec fn spec_path(&self) -> Seq<char>;

    /// The query fields of the operation, in the order in which they are sent.
    spec fn spec_fields(&self) -> Seq<FieldView>;

    fn path(&self) -> (r: String)
        ensures
            r@ == self.spec_path(),
    ;

    fn query_fields(&self) -> (r: Vec<(String, String)>)
        ensures
            fields_view(r@) == self.spec_fields(),
    ;

    /// The query string of the operation.
    fn query(&self) -> (r: String)
        ensures
            r@ == query_text(self.spec_fields()),
    {
        serialize(&self.query_fields())
    }

    /// The query string followed by `&timestamp=<ms>`.
    fn query_with_timestamp(&self, timestamp_ms: u64) -> (r: String)
        ensures
            r@ == stamped_text(query_text(self.spec_fields()), timestamp_ms as nat),
    {
        with_timestamp(self.query_fields(), timestamp_ms)
    }
}

/// The origin that endpoint paths are joined against.
#[derive(Debug, Clone, Copy, PartialEq, Eq, Structural)]
pub enum BaseUrl {
    Future,
    Spot,
}

impl BaseUrl {
    pub open spec fn spec_origin(self) -> Seq<char> {
        match self {
            BaseUrl::Future => "https://fapi.binance.com"@,
            BaseUrl::Spot => "https://api.binance.com"@,
        }
    }

    /// The scheme and host of this origin.
    pub fn origin(&self) -> (r: String)
        ensures
            r@ == self.spec_origin(),
    {
        match self {
            BaseUrl::Future => String::from_str("https://fapi.binance.com"),
            BaseUrl::Spot => String::from_str("https://api.binance.com"),
        }
    }
}

/// Public market data.
#[derive(Debug)]
pub enum CommonEndpoint {
    /// Candles of a symbol; `limit` defaults to 500.
    Klines { symbol: String, interval: String, limit: Option<i32> },
    /// Trading rules and the list of symbols.
    ExchangeInfo,
    /// 24-hour price change statistics.
    Ticker,
}

/// The limit that a candle request sends.
pub open spec fn limit_or_default(limit: Option<i32>) -> i32 {
    match limit {
        Some(l) => l,
        None => DEFAULT_KLINE_LIMIT,
    }
}

/// The fields of a candle request.
pub open spec fn klines_fields(symbol: Seq<char>, interval: Seq<char>, limit: Option<i32>) -> Seq<FieldView> {
    seq![
        ("symbol"@, symbol),
        ("interval"@, interval),
        ("limit"@, signed_decimal_of(limit_or_default(limit) as int)),
    ]
}

/// The fields of a request that names only a symbol.
pub open spec fn symbol_fields(symbol: Seq<char>) -> Seq<FieldView> {
    seq![("symbol"@, symbol)]
}

/// The fields of a leverage change.
pub open spec fn leverage_fields(symbol: Seq<char>, leverage: i32) -> Seq<FieldView> {
    seq![("symbol"@, symbol), ("leverage"@, signed_decimal_of(leverage as int))]
}

impl Endpoint for CommonEndpoint {
    open spec fn spec_path(&self) -> Seq<char> {
        match self {
            CommonEndpoint::Klines { .. } => "/fapi/v1/klines"@,
            CommonEndpoint::ExchangeInfo => "/fapi/v1/exchangeInfo"@,
            CommonEndpoint::Ticker => "/fapi/v1/ticker/24hr"@,
        }
    }

    open spec fn spec_fields(&self) -> Seq<FieldView> {
        match self {
            CommonEndpoint::Klines { symbol, interval, limit } => klines_fields(symbol@, interval@, *limit),
            _ => Seq::empty(),
        }
    }

    fn path(&self) -> (r: String) {
        match self {
            CommonEndpoint::Klines { .. } => String::from_str("/fapi/v1/klines"),
            CommonEndpoint::ExchangeInfo => String::from_str("/fapi/v1/exchangeInfo"),
            CommonEndpoint::Ticker => String::from_str("/fapi/v1/ticker/24hr"),
        }
    }

    fn query_fields(&self) -> (r: Vec<(String, String)>) {
        let mut v: Vec<(String, String)> = Vec::new();
        match self {
            CommonEndpoint::Klines { symbol, interval, limit } => {
                v.push(field("symbol", symbol.clone()));
                v.push(field("interval", interval.clone()));
                let l: i32 = match limit {
                    Some(l) => *l,
                    None => DEFAULT_KLINE_LIMIT,
                };
                v.push(field("limit", signed_decimal_text(l)));
            },
            _ => {},
        }
        proof {
            assert(fields_view(v@) =~= self.spec_fields());
        }
        v
    }
}

/// Signed account queries.
#[derive(Debug)]
pub enum UserEndpoint {
    /// The futures account balance.
    Balance,
    /// One order of a symbol.
    QueryOrder { symbol: String },
    /// All orders of a symbol.
    AllOrders { symbol: String },
}

impl Endpoint for UserEndpoint {
    open spec fn spec_path(&self) -> Seq<char> {
        match self {
            UserEndpoint::Balance => "/fapi/v3/balance"@,
            UserEndpoint::QueryOrder { .. } => "/fapi/v1/order"@,
            UserEndpoint::AllOrders { .. } => "/fapi/v1/allOrders"@,
        }
    }

    open spec fn spec_fields(&self) -> Seq<FieldView> {
        match self {
            UserEndpoint::Balance => Seq::empty(),
            UserEndpoint::QueryOrder { symbol } => symbol_fields(symbol@),
            UserEndpoint::AllOrders { symbol } => symbol_fields(symbol@),
        }
    }

    fn path(&self) -> (r: String) {
        match self {
            UserEndpoint::Balance => String::from_str("/fapi/v3/balance"),
            UserEndpoint::QueryOrder { .. } => String::from_str("/fapi/v1/order"),
            UserEndpoint::AllOrders { .. } => String::from_str("/fapi/v1/allOrders"),
        }
    }

    fn query_fields(&self) -> (r: Vec<(String, String)>) {
        let mut v: Vec<(String, String)> = Vec::new();
        match self {
            UserEndpoint::Balance => {},
            UserEndpoint::QueryOrder { symbol } => {
                v.push(field("symbol", symbol.clone()));
            },
            UserEndpoint::AllOrders { symbol } => {
                v.push(field("symbol", symbol.clone()));
            },
        }
        proof {
            assert(fields_view(v@) =~= self.spec_fields());
        }
        v
    }
}

/// Signed trading operations.
#[derive(Debug)]
pub enum TradeEndpoint {
    /// Sets the leverage of a symbol.
    Leverage { symbol: String, leverage: i32 },
    /// Cancels an order of a symbol.
    CancelOrder { symbol: String },
    /// Cancels all open orders of a symbol.
    AllOpenOrder { symbol: String },
    /// Places an order. Numbers are carried as the decimal text that is sent.
    NewOrder {
        symbol: String,
        side: String,
        order_type: String,
        time_in_force: String,
        quantity: String,
        price: String,
        stop_price: String,
        callback_rate: String,
    },
}

/// The text of an optional order field, or its default when it is absent.
pub open spec fn text_or(value: Option<String>, default: Seq<char>) -> Seq<char> {
    match value {
        Some(v) => v@,
        None => default,
    }
}

/// The fields that a new order sends, selected by its order type; an unknown
/// type selects none.
pub open spec fn new_order_fields(
    symbol: Seq<char>,
    side: Seq<char>,
    order_type: Seq<char>,
    time_in_force: Seq<char>,
    quantity: Seq<char>,
    price: Seq<char>,
    stop_price: Seq<char>,
    callback_rate: Seq<char>,
) -> Seq<FieldView> {
    let s = ("symbol"@, symbol);
    let d = ("side"@, side);
    let t = ("type"@, order_type);
    if order_type == "LIMIT"@ {
        seq![s, d, t, ("time_in_force"@, time_in_force), ("quantity"@, quantity), ("price"@, price)]
    } else if order_type == "MARKET"@ {
        seq![s, d, t, ("quantity"@, quantity)]
    } else if order_type == "STOP"@ || order_type == "TAKE_PROFIT"@ {
        seq![s, d, t, ("quantity"@, quantity), ("price"@, price), ("stop_price"@, stop_price)]
    } else if order_type == "STOP_MARKET"@ || order_type == "TAKE_PROFIT_MARKET"@ {
        seq![s, d, t, ("stop_price"@, stop_price)]
    } else if order_type == "TRAILING_STOP_MARKET"@ {
        seq![s, d, t, ("callback_rate"@, callback_rate)]
    } else {
        Seq::empty()
    }
}

fn is_order_type(order_type: &String, name: &str) -> (r: bool)
    ensures
        r == (order_type@ == name@),
{
    *order_type == String::from_str(name)
}

impl TradeEndpoint {
    /// A new order from optional call arguments. The symbol, the side and the
    /// order type are required; the other text fields default to empty text
    /// and the stop price and callback rate to `0`.
    pub fn new_order(
        symbol: Option<String>,
        side: Option<String>,
        order_type: Option<String>,
        time_in_force: Option<String>,
        quantity: Option<String>,
        price: Option<String>,
        stop_price: Option<String>,
        callback_rate: Option<String>,
    ) -> (r: Result<TradeEndpoint, BinanceError>)
        ensures
            r is Err <==> (symbol is None || side is None || order_type is None),
            r is Err ==> r == Err::<TradeEndpoint, BinanceError>(BinanceError::MissingField),
            r is Ok ==> (match r.unwrap() {
                TradeEndpoint::NewOrder {
                    symbol: sy,
                    side: sd,
                    order_type: ty,
                    time_in_force: tf,
                    quantity: q,
                    price: p,
                    stop_price: sp,
                    callback_rate: cr,
                } => sy@ == symbol.unwrap()@ && sd@ == side.unwrap()@ && ty@ == order_type.unwrap()@
                    && tf@ == text_or(time_in_force, Seq::empty()) && q@ == text_or(quantity, Seq::empty())
                    && p@ == text_or(price, Seq::empty()) && sp@ == text_or(stop_price, "0"@)
                    && cr@ == text_or(callback_rate, "0"@),
                _ => false,
            }),
    {
        let symbol = match symbol {
            Some(v) => v,
            None => return Err(BinanceError::MissingField),
        };
        let side = match side {
            Some(v) => v,
            None => return Err(BinanceError::MissingField),
        };
        let order_type = match order_type {
            Some(v) => v,
            None => return Err(BinanceError::MissingField),
        };
        let time_in_force = match time_in_force {
            Some(v) => v,
            None => String::new(),
        };
        let quantity = match quantity {
            Some(v) => v,
            None => String::new(),
        };
        let price = match price {
            Some(v) => v,
            None => String::new(),
        };
        let stop_price = match stop_price {
            Some(v) => v,
            None => String::from_str("0"),
        };
        let callback_rate = match callback_rate {
            Some(v) => v,
            None => String::from_str("0"),
        };
        Ok(
            TradeEndpoint::NewOrder {
                symbol,
                side,
                order_type,
                time_in_force,
                quantity,
                price,
                stop_price,
                callback_rate,
            },
        )
    }
}

impl Endpoint for TradeEndpoint {
    open spec fn spec_path(&self) -> Seq<char> {
        match self {
            TradeEndpoint::Leverage { .. } => "/fapi/v1/leverage"@,
            TradeEndpoint::CancelOrder { .. } => "/fapi/v1/order"@,
            TradeEndpoint::AllOpenOrder { .. } => "/fapi/v1/allOpenOrders"@,
            TradeEndpoint::NewOrder { .. } => "/fapi/v1/order"@,
        }
    }

    open spec fn spec_fields(&self) -> Seq<FieldView> {
        match self {
            TradeEndpoint::Leverage { symbol, leverage } => leverage_fields(symbol@, *leverage),
            TradeEndpoint::CancelOrder { symbol } => symbol_fields(symbol@),
            TradeEndpoint::AllOpenOrder { symbol } => symbol_fields(symbol@),
            TradeEndpoint::NewOrder {
                symbol,
                side,
                order_type,
                time_in_force,
                quantity,
                price,
                stop_price,
                callback_rate,
            } => new_order_fields(
                symbol@,
                side@,
                order_type@,
                time_in_force@,
                quantity@,
                price@,
                stop_price@,
                callback_rate@,
            ),
        }
    }

    fn path(&self) -> (r: String) {
        match self {
            TradeEndpoint::Leverage { .. } => String::from_str("/fapi/v1/leverage"),
            TradeEndpoint::CancelOrder { .. } => String::from_str("/fapi/v1/order"),
            TradeEndpoint::AllOpenOrder { .. } => String::from_str("/fapi/v1/allOpenOrders"),
            TradeEndpoint::NewOrder { .. } => String::from_str("/fapi/v1/order"),
        }
    }

    fn query_fields(&self) -> (r: Vec<(String, String)>) {
        let mut v: Vec<(String, String)> = Vec::new();
        match self {
            TradeEndpoint::Leverage { symbol, leverage } => {
                v.push(field("symbol", symbol.clone()));
                v.push(field("leverage", signed_decimal_text(*leverage)));
            },
            TradeEndpoint::CancelOrder { symbol } => {
                v.push(field("symbol", symbol.clone()));
            },
            TradeEndpoint::AllOpenOrder { symbol } => {
                v.push(field("symbol", symbol.clone()));
            },
            TradeEndpoint::NewOrder {
                symbol,
                side,
                order_type,
                time_in_force,
                quantity,
                price,
                stop_price,
                callback_rate,
            } => {
                let limit = is_order_type(order_type, "LIMIT");
                let market = is_order_type(order_type, "MARKET");
                let stop = is_order_type(order_type, "STOP") || is_order_type(
                    order_type,
                    "TAKE_PROFIT",
                );
                let stop_market = is_order_type(order_type, "STOP_MARKET") || is_order_type(
                    order_type,
                    "TAKE_PROFIT_MARKET",
                );
                let trailing = is_order_type(order_type, "TRAILING_STOP_MARKET");
                if limit || market || stop || stop_market || trailing {
                    v.push(field("symbol", symbol.clone()));
                    v.push(field("side", side.clone()));
                    v.push(field("type", order_type.clone()));
                }
                if limit {
                    v.push(field("time_in_force", time_in_force.clone()));
                    v.push(field("quantity", quantity.clone()));
                    v.push(field("price", price.clone()));
                } else if market {
                    v.push(field("quantity", quantity.clone()));
                } else if stop {
                    v.push(field("quantity", quantity.clone()));
                    v.push(field("price", price.clone()));
                    v.push(field("stop_price", stop_price.clone()));
                } else if stop_market {
                    v.push(field("stop_price", stop_price.clone()));
                } else if trailing {
                    v.push(field("callback_rate", callback_rate.clone()));
                }
            },
        }
        proof {
            assert(fields_view(v@) =~= self.spec_fields());
        }
        v
    }
}

/// An endpoint together with the origin that it is sent to.
pub struct BinanceRequest<T: Endpoint> {
    pub base_url: BaseUrl,
    pub endpoint_url: T,
}

impl<T: Endpoint> BinanceRequest<T> {
    pub fn new(base_url: BaseUrl, endpoint_url: T) -> (r: Self)
        ensures
            r.base_url == base_url,
            r.endpoint_url == endpoint_url,
    {
        BinanceRequest { base_url, endpoint_url }
    }

    /// The origin of the request.
    pub fn base_url(&self) -> (r: String)
        ensures
            r@ == self.base_url.spec_origin(),
    {
        self.base_url.origin()
    }

    /// The path of the endpoint.
    pub fn path(&self) -> (r: String)
        ensures
            r@ == self.endpoint_url.spec_path(),
    {
        self.endpoint_url.path()
    }

    /// The query string of the endpoint.
    pub fn query(&self) -> (r: String)
        ensures
            r@ == query_text(self.endpoint_url.spec_fields()),
    {
        self.endpoint_url.query()
    }

    /// The query string of the endpoint followed by `&timestamp=<ms>`.
    pub fn query_with_timestamp(&self, timestamp_ms: u64) -> (r: String)
        ensures
            r@ == stamped_text(query_text(self.endpoint_url.spec_fields()), timestamp_ms as nat),
    {
        self.endpoint_url.query_with_timestamp(timestamp_ms)
    }
}

/// A candle request without a limit sends `limit=500`: the field is present,
/// after `symbol` and `interval`, with the documented default.
pub proof fn lemma_klines_default_limit(symbol: Seq<char>, interval: Seq<char>)
    ensures
        klines_fields(symbol, interval, None) == seq![
            ("symbol"@, symbol),
            ("interval"@, interval),
            ("limit"@, seq!['5', '0', '0']),
        ],
{
    assert(decimal_of(5) =~= seq!['5']);
    assert(decimal_of(50) =~= seq!['5', '0']);
    assert(decimal_of(500) =~= seq!['5', '0', '0']);
    assert(signed_decimal_of(DEFAULT_KLINE_LIMIT as int) =~= seq!['5', '0', '0']);
}

/// A market order sends exactly `symbol`, `side`, `type` and `quantity`, in
/// that order, whatever time in force, price, stop price or callback rate it
/// carries.
pub proof fn lemma_market_order_fields(
    symbol: Seq<char>,
    side: Seq<char>,
    time_in_force: Seq<char>,
    quantity: Seq<char>,
    price: Seq<char>,
    stop_price: Seq<char>,
    callback_rate: Seq<char>,
)
    ensures
        new_order_fields(symbol, side, "MARKET"@, time_in_force, quantity, price, stop_price, callback_rate)
            == seq![("symbol"@, symbol), ("side"@, side), ("type"@, "MARKET"@), ("quantity"@, quantity)],
{
    reveal_strlit("MARKET");
    reveal_strlit("LIMIT");
    assert("MARKET"@[0] != "LIMIT"@[0]);
}

/// An order type outside the table selects no fields at all.
pub proof fn lemma_unknown_order_type_fields(
    symbol: Seq<char>,
    side: Seq<char>,
    order_type: Seq<char>,
    time_in_force: Seq<char>,
    quantity: Seq<char>,
    price: Seq<char>,
    stop_price: Seq<char>,
    callback_rate: Seq<char>,
)
    requires
        order_type != "LIMIT"@,
        order_type != "MARKET"@,
        order_type != "STOP"@,
        order_type != "TAKE_PROFIT"@,
        order_type != "STOP_MARKET"@,
        order_type != "TAKE_PROFIT_MARKET"@,
        order_type != "TRAILING_STOP_MARKET"@,
    ensures
        new_order_fields(symbol, side, order_type, time_in_force, quantity, price, stop_price, callback_rate)
            == Seq::<FieldView>::empty(),
{
}

} // verus!
