//! The exchange's operations as ready requests, public and signed.
use vstd::prelude::*;

use crate::endpoint::{
    klines_fields, leverage_fields, new_order_fields, symbol_fields, text_or, BaseUrl,
    BinanceRequest, CommonEndpoint, Endpoint, TradeEndpoint, UserEndpoint,
};
use crate::error::BinanceError;
use crate::query::{field, field_text, query_text, serialize, stamped_text};
use crate::text::{decimal_of, decimal_text};
use crate::request::{
    lemma_verb_tokens, outcome_view, request, request_with_signature, sent, sign_and_prepare, signed_text,
    HttpMethod, PreparedRequest, PreparedView,
};

verus! {

/// A signed request to the futures origin.
pub open spec fn signed_call(
    method: HttpMethod,
    path: Seq<char>,
    fields: Seq<crate::query::FieldView>,
    secret_key: Seq<char>,
    api_key: Seq<char>,
    timestamp_ms: nat,
) -> Result<PreparedView, BinanceError> {
    sent(
        method,
        BaseUrl::Future.spec_origin(),
        path,
        signed_text(stamped_text(query_text(fields), timestamp_ms), secret_key),
        Some(api_key),
    )
}

/// Public market data; it holds no credentials.
pub struct BinanceCommon {}

impl BinanceCommon {
    pub fn new() -> (r: Self) {
        BinanceCommon {}
    }

    /// GET the candles of `symbol` at `interval`, `limit` of them (500 when absent).
    pub fn kline_request(&self, symbol: &str, interval: &str, limit: Option<i32>) -> (r: Result<PreparedRequest, BinanceError>)
        ensures
            outcome_view(r) == sent(
                HttpMethod::Get,
                BaseUrl::Future.spec_origin(),
                "/fapi/v1/klines"@,
                query_text(klines_fields(symbol@, interval@, limit)),
                None,
            ),
    {
        proof { lemma_verb_tokens(); }
        let endpoint = CommonEndpoint::Klines {
            symbol: String::from_str(symbol),
            interval: String::from_str(interval),
            limit,
        };
        request("get", &BinanceRequest::new(BaseUrl::Future, endpoint))
    }

    /// GET the exchange's trading rules and symbols.
    pub fn exchange_info_request(&self) -> (r: Result<PreparedRequest, BinanceError>)
        ensures
            outcome_view(r) == sent(
                HttpMethod::Get,
                BaseUrl::Future.spec_origin(),
                "/fapi/v1/exchangeInfo"@,
                Seq::empty(),
                None,
            ),
    {
        proof { lemma_verb_tokens(); }
        request("get", &BinanceRequest::new(BaseUrl::Future, CommonEndpoint::ExchangeInfo))
    }

    /// GET the 24-hour statistics of every symbol.
    pub fn ticker_request(&self) -> (r: Result<PreparedRequest, BinanceError>)
        ensures
            outcome_view(r) == sent(
                HttpMethod::Get,
                BaseUrl::Future.spec_origin(),
                "/fapi/v1/ticker/24hr"@,
                Seq::empty(),
                None,
            ),
    {
        proof { lemma_verb_tokens(); }
        request("get", &BinanceRequest::new(BaseUrl::Future, CommonEndpoint::Ticker))
    }
}

/// Account queries, signed with the account's keys.
pub struct BinanceUser {
    secret_key: String,
    api_key: String,
}

impl BinanceUser {
    pub closed spec fn spec_api_key(&self) -> Seq<char> {
        self.api_key@
    }

    pub closed spec fn spec_secret_key(&self) -> Seq<char> {
        self.secret_key@
    }

    pub fn new(api_key: String, secret_key: String) -> (r: Self)
        ensures
            r.spec_api_key() == api_key@,
            r.spec_secret_key() == secret_key@,
    {
        BinanceUser { secret_key, api_key }
    }

    /// A signed GET of any endpoint.
    pub fn get<T: Endpoint>(&self, binance_request: BinanceRequest<T>, timestamp_ms: u64) -> (r: Result<PreparedRequest, BinanceError>)
        ensures
            outcome_view(r) == sent(
                HttpMethod::Get,
                binance_request.base_url.spec_origin(),
                binance_request.endpoint_url.spec_path(),
                signed_text(
                    stamped_text(query_text(binance_request.endpoint_url.spec_fields()), timestamp_ms as nat),
                    self.spec_secret_key(),
                ),
                Some(self.spec_api_key()),
            ),
    {
        proof { lemma_verb_tokens(); }
        request_with_signature("get", self.secret_key.as_str(), self.api_key.as_str(), &binance_request, timestamp_ms)
    }

    /// A signed POST of any endpoint.
    pub fn post<T: Endpoint>(&self, binance_request: BinanceRequest<T>, timestamp_ms: u64) -> (r: Result<PreparedRequest, BinanceError>)
        ensures
            outcome_view(r) == sent(
                HttpMethod::Post,
                binance_request.base_url.spec_origin(),
                binance_request.endpoint_url.spec_path(),
                signed_text(
                    stamped_text(query_text(binance_request.endpoint_url.spec_fields()), timestamp_ms as nat),
                    self.spec_secret_key(),
                ),
                Some(self.spec_api_key()),
            ),
    {
        proof { lemma_verb_tokens(); }
        request_with_signature("post", self.secret_key.as_str(), self.api_key.as_str(), &binance_request, timestamp_ms)
    }

    /// GET the futures account balance; its signed query is `timestamp=<ms>`
    /// alone, then the signature.
    pub fn account_balance_request(&self, timestamp_ms: u64) -> (r: Result<PreparedRequest, BinanceError>)
        ensures
            outcome_view(r) == sent(
                HttpMethod::Get,
                BaseUrl::Future.spec_origin(),
                "/fapi/v3/balance"@,
                signed_text(field_text(("timestamp"@, decimal_of(timestamp_ms as nat))), self.spec_secret_key()),
                Some(self.spec_api_key()),
            ),
    {
        proof { lemma_verb_tokens(); }
        let mut fields: Vec<(String, String)> = Vec::new();
        fields.push(field("timestamp", decimal_text(timestamp_ms as u128)));
        let stamped = serialize(&fields);
        proof {
            assert(crate::query::fields_view(fields@) =~= seq![("timestamp"@, decimal_of(timestamp_ms as nat))]);
        }
        let origin = BaseUrl::Future.origin();
        let path = UserEndpoint::Balance.path();
        sign_and_prepare(
            "get",
            self.secret_key.as_str(),
            self.api_key.as_str(),
            origin.as_str(),
            path.as_str(),
            stamped,
        )
    }

    /// GET an order of `symbol`.
    pub fn query_order_request(&self, symbol: &str, timestamp_ms: u64) -> (r: Result<PreparedRequest, BinanceError>)
        ensures
            outcome_view(r) == signed_call(
                HttpMethod::Get,
                "/fapi/v1/order"@,
                symbol_fields(symbol@),
                self.spec_secret_key(),
                self.spec_api_key(),
                timestamp_ms as nat,
            ),
    {
        let endpoint = UserEndpoint::QueryOrder { symbol: String::from_str(symbol) };
        self.get(BinanceRequest::new(BaseUrl::Future, endpoint), timestamp_ms)
    }

    /// GET all orders of `symbol`.
    pub fn all_orders_request(&self, symbol: &str, timestamp_ms: u64) -> (r: Result<PreparedRequest, BinanceError>)
        ensures
            outcome_view(r) == signed_call(
                HttpMethod::Get,
                "/fapi/v1/allOrders"@,
                symbol_fields(symbol@),
                self.spec_secret_key(),
                self.spec_api_key(),
                timestamp_ms as nat,
            ),
    {
        let endpoint = UserEndpoint::AllOrders { symbol: String::from_str(symbol) };
        self.get(BinanceRequest::new(BaseUrl::Future, endpoint), timestamp_ms)
    }
}

/// Trading operations, signed with the account's keys.
pub struct BinanceTrade {
    secret_key: String,
    api_key: String,
}

impl BinanceTrade {
    pub closed spec fn spec_api_key(&self) -> Seq<char> {
        self.api_key@
    }

    pub closed spec fn spec_secret_key(&self) -> Seq<char> {
        self.secret_key@
    }

    pub fn new(api_key: String, secret_key: String) -> (r: Self)
        ensures
            r.spec_api_key() == api_key@,
            r.spec_secret_key() == secret_key@,
    {
        BinanceTrade { secret_key, api_key }
    }

    fn signed<T: Endpoint>(&self, method: &str, endpoint: T, timestamp_ms: u64) -> (r: Result<PreparedRequest, BinanceError>)
        ensures
            outcome_view(r) == crate::request::prepared(
                method@,
                BaseUrl::Future.spec_origin(),
                endpoint.spec_path(),
                signed_text(
                    stamped_text(query_text(endpoint.spec_fields()), timestamp_ms as nat),
                    self.spec_secret_key(),
                ),
                Some(self.spec_api_key()),
            ),
    {
        let model = BinanceRequest::new(BaseUrl::Future, endpoint);
        request_with_signature(method, self.secret_key.as_str(), self.api_key.as_str(), &model, timestamp_ms)
    }

    /// POST a new leverage for `symbol`.
    pub fn change_leverage_request(&self, symbol: &str, leverage: i32, timestamp_ms: u64) -> (r: Result<PreparedRequest, BinanceError>)
        ensures
            outcome_view(r) == signed_call(
                HttpMethod::Post,
                "/fapi/v1/leverage"@,
                leverage_fields(symbol@, leverage),
                self.spec_secret_key(),
                self.spec_api_key(),
                timestamp_ms as nat,
            ),
    {
        proof { lemma_verb_tokens(); }
        let endpoint = TradeEndpoint::Leverage { symbol: String::from_str(symbol), leverage };
        self.signed("post", endpoint, timestamp_ms)
    }

    /// DELETE all open orders of `symbol`.
    pub fn all_open_orders_request(&self, symbol: &str, timestamp_ms: u64) -> (r: Result<PreparedRequest, BinanceError>)
        ensures
            outcome_view(r) == signed_call(
                HttpMethod::Delete,
                "/fapi/v1/allOpenOrders"@,
                symbol_fields(symbol@),
                self.spec_secret_key(),
                self.spec_api_key(),
                timestamp_ms as nat,
            ),
    {
        proof { lemma_verb_tokens(); }
        let endpoint = TradeEndpoint::AllOpenOrder { symbol: String::from_str(symbol) };
        self.signed("delete", endpoint, timestamp_ms)
    }

    /// POST a new order. Fails with `MissingField`, before anything else, when
    /// the symbol, the side or the order type is absent.
    pub fn new_order_request(
        &self,
        symbol: Option<String>,
        side: Option<String>,
        order_type: Option<String>,
        time_in_force: Option<String>,
        quantity: Option<String>,
        price: Option<String>,
        stop_price: Option<String>,
        callback_rate: Option<String>,
        timestamp_ms: u64,
    ) -> (r: Result<PreparedRequest, BinanceError>)
        ensures
            (symbol is None || side is None || order_type is None) ==> r == Err::<PreparedRequest, BinanceError>(BinanceError::MissingField),
            (symbol is Some && side is Some && order_type is Some) ==> outcome_view(r) == signed_call(
                HttpMethod::Post,
                "/fapi/v1/order"@,
                new_order_fields(
                    symbol.unwrap()@,
                    side.unwrap()@,
                    order_type.unwrap()@,
                    text_or(time_in_force, Seq::empty()),
                    text_or(quantity, Seq::empty()),
                    text_or(price, Seq::empty()),
                    text_or(stop_price, "0"@),
                    text_or(callback_rate, "0"@),
                ),
                self.spec_secret_key(),
                self.spec_api_key(),
                timestamp_ms as nat,
            ),
    {
        proof { lemma_verb_tokens(); }
        let endpoint = match TradeEndpoint::new_order(
            symbol,
            side,
            order_type,
            time_in_force,
            quantity,
            price,
            stop_price,
            callback_rate,
        ) {
            Ok(e) => e,
            Err(e) => return Err(e),
        };
        self.signed("post", endpoint, timestamp_ms)
    }
}

/// `symbol` ends in the quote asset `USDT`.
pub open spec fn is_usdt_pair(symbol: Seq<char>) -> bool {
    symbol.len() >= 4 && symbol.subrange(symbol.len() - 4, symbol.len() as int) == seq!['U', 'S', 'D', 'T']
}

/// Whether `symbol` is quoted in USDT, as the symbol lists keep only those.
pub fn quoted_in_usdt(symbol: &str) -> (r: bool)
    ensures
        r == is_usdt_pair(symbol@),
{
    let n = symbol.unicode_len();
    if n < 4 {
        return false;
    }
    let a = symbol.get_char(n - 4);
    let b = symbol.get_char(n - 3);
    let c = symbol.get_char(n - 2);
    let d = symbol.get_char(n - 1);
    let r = a == 'U' && b == 'S' && c == 'D' && d == 'T';
    proof {
        let tail = symbol@.subrange(n - 4, n as int);
        if r {
            assert(tail =~= seq!['U', 'S', 'D', 'T']);
        } else {
            assert(tail != seq!['U', 'S', 'D', 'T'] ) by {
                assert(tail[0] == a && tail[1] == b && tail[2] == c && tail[3] == d);
            }
        }
    }
    r
}

/// The texts of a list of strings.
pub open spec fn texts(names: Seq<String>) -> Seq<Seq<char>> {
    names.map_values(|s: String| s@)
}

/// The USDT-quoted names of a list, in their order.
pub open spec fn usdt_only(names: Seq<Seq<char>>) -> Seq<Seq<char>>
    decreases names.len(),
{
    if names.len() == 0 {
        Seq::empty()
    } else if is_usdt_pair(names.last()) {
        usdt_only(names.drop_last()).push(names.last())
    } else {
        usdt_only(names.drop_last())
    }
}

/// Keeps the symbols quoted in USDT, in their order.
pub fn usdt_symbols(names: Vec<String>) -> (r: Vec<String>)
    ensures
        texts(r@) == usdt_only(texts(names@)),
{
    let ghost all = texts(names@);
    let mut kept: Vec<String> = Vec::new();
    let mut i: usize = 0;
    proof {
        assert(all.take(0) =~= Seq::<Seq<char>>::empty());
        assert(texts(kept@) =~= Seq::<Seq<char>>::empty());
    }
    while i < names.len()
        invariant
            i <= names.len(),
            all == texts(names@),
            texts(kept@) == usdt_only(all.take(i as int)),
        decreases names.len() - i,
    {
        let name = &names[i];
        proof {
            assert(all.take(i + 1).drop_last() =~= all.take(i as int));
            assert(all.take(i + 1).last() == name@);
        }
        if quoted_in_usdt(name.as_str()) {
            kept.push(name.clone());
            proof {
                assert(texts(kept@) =~= usdt_only(all.take(i as int)).push(name@));
            }
        }
        i += 1;
    }
    proof {
        assert(all.take(names.len() as int) =~= all);
    }
    kept
}

} // verus!
