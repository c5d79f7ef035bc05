//! The market: listed tokens, orders and their status, deployed contracts,
//! and the order book of the exchange.

use crate::time::now_millis;
use vstd::hash_map::StringHashMap;
use vstd::prelude::*;

verus! {

/// Which side of the book an order is on.
#[derive(Debug, Clone, Copy, PartialEq, Eq, Structural)]
pub enum OrderType {
    Buy,
    Sell,
}

/// Where an order stands.
#[derive(Debug, Clone, Copy, PartialEq, Eq, Structural)]
pub enum OrderStatus {
    Pending,
    Filled,
    Cancelled,
    Failed,
}

/// A listed token. Supply and price are whole numbers of the smallest
/// unit; times are milliseconds since the Unix epoch.
#[derive(Debug, PartialEq, Eq)]
pub struct Token {
    pub symbol: String,
    pub name: String,
    pub total_supply: i64,
    pub current_price: i64,
    pub last_updated: i64,
}

/// A token as a mathematical value.
pub struct TokenView {
    pub symbol: Seq<char>,
    pub name: Seq<char>,
    pub total_supply: i64,
    pub current_price: i64,
    pub last_updated: i64,
}

impl View for Token {
    type V = TokenView;

    open spec fn view(&self) -> TokenView {
        TokenView {
            symbol: self.symbol@,
            name: self.name@,
            total_supply: self.total_supply,
            current_price: self.current_price,
            last_updated: self.last_updated,
        }
    }
}

impl Clone for Token {
    fn clone(&self) -> (copy: Token)
        ensures
            copy@ == self@,
    {
        Token {
            symbol: self.symbol.clone(),
            name: self.name.clone(),
            total_supply: self.total_supply,
            current_price: self.current_price,
            last_updated: self.last_updated,
        }
    }
}

/// An order.
#[derive(Debug, PartialEq, Eq)]
pub struct Order {
    pub id: String,
    pub user_id: String,
    pub token_symbol: String,
    pub order_type: OrderType,
    pub amount: i64,
    pub price: i64,
    pub timestamp: i64,
    pub status: OrderStatus,
}

/// An order as a mathematical value.
pub struct OrderView {
    pub id: Seq<char>,
    pub user_id: Seq<char>,
    pub token_symbol: Seq<char>,
    pub order_type: OrderType,
    pub amount: i64,
    pub price: i64,
    pub timestamp: i64,
    pub status: OrderStatus,
}

impl View for Order {
    type V = OrderView;

    open spec fn view(&self) -> OrderView {
        OrderView {
            id: self.id@,
            user_id: self.user_id@,
            token_symbol: self.token_symbol@,
            order_type: self.order_type,
            amount: self.amount,
            price: self.price,
            timestamp: self.timestamp,
            status: self.status,
        }
    }
}

impl Clone for Order {
    fn clone(&self) -> (copy: Order)
        ensures
            copy@ == self@,
    {
        Order {
            id: self.id.clone(),
            user_id: self.user_id.clone(),
            token_symbol: self.token_symbol.clone(),
            order_type: self.order_type,
            amount: self.amount,
            price: self.price,
            timestamp: self.timestamp,
            status: self.status,
        }
    }
}

/// The views of a list of orders, in the same order.
pub open spec fn order_views(orders: Seq<Order>) -> Seq<OrderView> {
    orders.map_values(|o: Order| o@)
}

/// Copies a list of orders.
pub fn clone_orders(orders: &Vec<Order>) -> (copy: Vec<Order>)
    ensures
        order_views(copy@) == order_views(orders@),
{
    let mut copy: Vec<Order> = Vec::new();
    let mut i: usize = 0;
    while i < orders.len()
        invariant
            i <= orders.len(),
            copy@.len() == i,
            forall|k: int| 0 <= k < i ==> copy@[k]@ == orders@[k]@,
        decreases orders.len() - i,
    {
        copy.push(orders[i].clone());
        i += 1;
    }
    copy
}

/// A deployed contract. The state is kept as JSON text.
#[derive(Debug, PartialEq, Eq)]
pub struct SmartContract {
    pub id: String,
    pub creator: String,
    pub code: String,
    pub state: String,
    pub created_at: i64,
    pub last_executed: i64,
}

/// A contract as a mathematical value.
pub struct ContractView {
    pub id: Seq<char>,
    pub creator: Seq<char>,
    pub code: Seq<char>,
    pub state: Seq<char>,
    pub created_at: i64,
    pub last_executed: i64,
}

impl View for SmartContract {
    type V = ContractView;

    open spec fn view(&self) -> ContractView {
        ContractView {
            id: self.id@,
            creator: self.creator@,
            code: self.code@,
            state: self.state@,
            created_at: self.created_at,
            last_executed: self.last_executed,
        }
    }
}

impl Clone for SmartContract {
    fn clone(&self) -> (copy: SmartContract)
        ensures
            copy@ == self@,
    {
        SmartContract {
            id: self.id.clone(),
            creator: self.creator.clone(),
            code: self.code.clone(),
            state: self.state.clone(),
            created_at: self.created_at,
            last_executed: self.last_executed,
        }
    }
}

/// The market as a mathematical value.
pub struct MarketView {
    pub tokens: Map<Seq<char>, TokenView>,
    pub orders: Map<Seq<char>, OrderView>,
    pub contracts: Map<Seq<char>, ContractView>,
}

impl MarketView {
    /// The market after a token is listed under its symbol, in place of any
    /// token listed there before.
    pub open spec fn with_token(self, token: TokenView) -> MarketView {
        MarketView { tokens: self.tokens.insert(token.symbol, token), ..self }
    }

    /// The market after the price of `symbol` is set at time `now`. An
    /// unknown symbol changes nothing.
    pub open spec fn with_price(self, symbol: Seq<char>, price: i64, now: i64) -> MarketView {
        if self.tokens.contains_key(symbol) {
            MarketView {
                tokens: self.tokens.insert(
                    symbol,
                    TokenView { current_price: price, last_updated: now, ..self.tokens[symbol] },
                ),
                ..self
            }
        } else {
            self
        }
    }

    /// The market after an order is placed under its identifier.
    pub open spec fn with_order(self, order: OrderView) -> MarketView {
        MarketView { orders: self.orders.insert(order.id, order), ..self }
    }

    /// The market after the order `id` is filled. An unknown identifier
    /// changes nothing.
    pub open spec fn with_filled(self, id: Seq<char>) -> MarketView {
        if self.orders.contains_key(id) {
            MarketView {
                orders: self.orders.insert(
                    id,
                    OrderView { status: OrderStatus::Filled, ..self.orders[id] },
                ),
                ..self
            }
        } else {
            self
        }
    }

    /// The market after a contract is deployed under its identifier.
    pub open spec fn with_contract(self, contract: ContractView) -> MarketView {
        MarketView { contracts: self.contracts.insert(contract.id, contract), ..self }
    }

    /// The market after the contract `id` ran at time `now`. An unknown
    /// identifier changes nothing.
    pub open spec fn with_execution(self, id: Seq<char>, now: i64) -> MarketView {
        if self.contracts.contains_key(id) {
            MarketView {
                contracts: self.contracts.insert(
                    id,
                    ContractView { last_executed: now, ..self.contracts[id] },
                ),
                ..self
            }
        } else {
            self
        }
    }
}

/// The market: tokens by symbol, orders and contracts by identifier.
pub struct Market {
    pub tokens: StringHashMap<Token>,
    pub orders: StringHashMap<Order>,
    pub contracts: StringHashMap<SmartContract>,
}

impl View for Market {
    type V = MarketView;

    open spec fn view(&self) -> MarketView {
        MarketView {
            tokens: self.tokens@.map_values(|t: Token| t@),
            orders: self.orders@.map_values(|o: Order| o@),
            contracts: self.contracts@.map_values(|c: SmartContract| c@),
        }
    }
}

impl Market {
    /// A market without tokens, orders or contracts.
    pub fn new() -> (market: Market)
        ensures
            market@.tokens == Map::<Seq<char>, TokenView>::empty(),
            market@.orders == Map::<Seq<char>, OrderView>::empty(),
            market@.contracts == Map::<Seq<char>, ContractView>::empty(),
    {
        Market {
            tokens: StringHashMap::new(),
            orders: StringHashMap::new(),
            contracts: StringHashMap::new(),
        }
    }

    /// Lists a token under its symbol.
    pub fn add_token(&mut self, token: Token)
        ensures
            final(self)@ == old(self)@.with_token(token@),
    {
        self.tokens.insert(token.symbol.clone(), token);
        assert(self@.tokens =~= old(self)@.tokens.insert(token@.symbol, token@));
    }

    /// Sets the price of a token and notes `now` as the time of the change.
    pub fn update_token_price_at(&mut self, symbol: &str, new_price: i64, now: i64)
        ensures
            final(self)@ == old(self)@.with_price(symbol@, new_price, now),
    {
        match self.tokens.get(symbol) {
            Some(token) => {
                let mut updated = token.clone();
                updated.current_price = new_price;
                updated.last_updated = now;
                self.tokens.insert(symbol.to_owned(), updated);
                assert(self@.tokens =~= old(self)@.with_price(symbol@, new_price, now).tokens);
            },
            None => {},
        }
    }

    /// Sets the price of a token and notes the current time as the time of
    /// the change.
    pub fn update_token_price(&mut self, symbol: &str, new_price: i64)
        ensures
            exists|now: i64| final(self)@ == old(self)@.with_price(symbol@, new_price, now),
    {
        let now = now_millis();
        self.update_token_price_at(symbol, new_price, now);
    }

    /// Places an order under its identifier.
    pub fn place_order(&mut self, order: Order)
        ensures
            final(self)@ == old(self)@.with_order(order@),
    {
        self.orders.insert(order.id.clone(), order);
        assert(self@.orders =~= old(self)@.orders.insert(order@.id, order@));
    }

    /// Marks an order as filled.
    pub fn execute_order(&mut self, order_id: &str)
        ensures
            final(self)@ == old(self)@.with_filled(order_id@),
    {
        match self.orders.get(order_id) {
            Some(order) => {
                let mut updated = order.clone();
                updated.status = OrderStatus::Filled;
                self.orders.insert(order_id.to_owned(), updated);
                assert(self@.orders =~= old(self)@.with_filled(order_id@).orders);
            },
            None => {},
        }
    }

    /// Deploys a contract under its identifier.
    pub fn deploy_contract(&mut self, contract: SmartContract)
        ensures
            final(self)@ == old(self)@.with_contract(contract@),
    {
        self.contracts.insert(contract.id.clone(), contract);
        assert(self@.contracts =~= old(self)@.contracts.insert(contract@.id, contract@));
    }

    /// Notes `now` as the time at which a contract last ran.
    pub fn execute_contract_at(&mut self, contract_id: &str, now: i64)
        ensures
            final(self)@ == old(self)@.with_execution(contract_id@, now),
    {
        match self.contracts.get(contract_id) {
            Some(contract) => {
                let mut updated = contract.clone();
                updated.last_executed = now;
                self.contracts.insert(contract_id.to_owned(), updated);
                assert(self@.contracts =~= old(self)@.with_execution(contract_id@, now).contracts);
            },
            None => {},
        }
    }

    /// Notes the current time as the time at which a contract last ran.
    pub fn execute_contract(&mut self, contract_id: &str)
        ensures
            exists|now: i64| final(self)@ == old(self)@.with_execution(contract_id@, now),
    {
        let now = now_millis();
        self.execute_contract_at(contract_id, now);
    }
}

/// The order book as a mathematical value: for each token symbol, its
/// orders in the order in which they came.
pub type BookView = Map<Seq<char>, Seq<OrderView>>;

/// The orders booked under `symbol`; none where the symbol is unknown.
pub open spec fn booked(book: BookView, symbol: Seq<char>) -> Seq<OrderView> {
    if book.contains_key(symbol) {
        book[symbol]
    } else {
        Seq::empty()
    }
}

/// The exchange: an order book per token symbol.
pub struct DecentralizedExchange {
    pub order_book: StringHashMap<Vec<Order>>,
}

impl View for DecentralizedExchange {
    type V = BookView;

    open spec fn view(&self) -> BookView {
        self.order_book@.map_values(|orders: Vec<Order>| order_views(orders@))
    }
}

impl DecentralizedExchange {
    /// An exchange with an empty order book.
    pub fn new() -> (exchange: DecentralizedExchange)
        ensures
            exchange@ == Map::<Seq<char>, Seq<OrderView>>::empty(),
    {
        DecentralizedExchange { order_book: StringHashMap::new() }
    }

    /// Books an order under its token symbol, behind the orders already
    /// booked there.
    pub fn add_to_order_book(&mut self, order: Order)
        ensures
            final(self)@ == old(self)@.insert(
                order@.token_symbol,
                booked(old(self)@, order@.token_symbol).push(order@),
            ),
    {
        let key = order.token_symbol.clone();
        let ghost incoming = order@;
        let mut orders = match self.order_book.get(key.as_str()) {
            Some(existing) => clone_orders(existing),
            None => Vec::new(),
        };
        orders.push(order);
        assert(order_views(orders@) =~= booked(old(self)@, incoming.token_symbol).push(incoming));
        self.order_book.insert(key, orders);
    }
}

} // verus!
