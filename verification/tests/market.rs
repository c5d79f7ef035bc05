use poh_ledger::market::{
    clone_orders, DecentralizedExchange, Market, Order, OrderStatus, OrderType, SmartContract,
    Token,
};

fn token(symbol: &str, price: i64) -> Token {
    Token {
        symbol: symbol.to_string(),
        name: "Coin".to_string(),
        total_supply: 1_000,
        current_price: price,
        last_updated: 5,
    }
}

fn order(id: &str, symbol: &str, order_type: OrderType) -> Order {
    Order {
        id: id.to_string(),
        user_id: "u".to_string(),
        token_symbol: symbol.to_string(),
        order_type,
        amount: 3,
        price: 150,
        timestamp: 9,
        status: OrderStatus::Pending,
    }
}

fn contract(id: &str) -> SmartContract {
    SmartContract {
        id: id.to_string(),
        creator: "dev".to_string(),
        code: "run".to_string(),
        state: "{}".to_string(),
        created_at: 1,
        last_executed: 1,
    }
}

#[test]
fn new_market_is_empty() {
    let market = Market::new();
    assert_eq!(market.tokens.len(), 0);
    assert_eq!(market.orders.len(), 0);
    assert_eq!(market.contracts.len(), 0);
}

#[test]
fn token_price_is_updated_with_its_time() {
    let mut market = Market::new();
    market.add_token(token("ABC", 150));
    market.update_token_price_at("XYZ", 1, 2);
    assert_eq!(market.tokens.len(), 1);
    assert_eq!(market.tokens.get("ABC"), Some(&token("ABC", 150)));
    market.update_token_price_at("ABC", 175, 77);
    let stored = market.tokens.get("ABC").unwrap();
    assert_eq!(stored.current_price, 175);
    assert_eq!(stored.last_updated, 77);
    assert_eq!(stored.total_supply, 1_000);
    market.update_token_price("ABC", 180);
    let stored = market.tokens.get("ABC").unwrap();
    assert_eq!(stored.current_price, 180);
    assert!(stored.last_updated > 77);
    market.add_token(token("ABC", 1));
    assert_eq!(market.tokens.len(), 1);
    assert_eq!(market.tokens.get("ABC").unwrap().current_price, 1);
}

#[test]
fn executed_order_is_filled() {
    let mut market = Market::new();
    market.place_order(order("o1", "ABC", OrderType::Buy));
    market.place_order(order("o2", "ABC", OrderType::Sell));
    market.execute_order("o3");
    market.execute_order("o1");
    assert_eq!(market.orders.len(), 2);
    let mut filled = order("o1", "ABC", OrderType::Buy);
    filled.status = OrderStatus::Filled;
    assert_eq!(market.orders.get("o1"), Some(&filled));
    assert_eq!(
        market.orders.get("o2"),
        Some(&order("o2", "ABC", OrderType::Sell))
    );
}

#[test]
fn executed_contract_notes_the_time() {
    let mut market = Market::new();
    market.deploy_contract(contract("c1"));
    market.execute_contract_at("c2", 50);
    market.execute_contract_at("c1", 50);
    assert_eq!(market.contracts.len(), 1);
    let stored = market.contracts.get("c1").unwrap();
    assert_eq!(stored.last_executed, 50);
    assert_eq!(stored.created_at, 1);
    assert_eq!(stored.state, "{}");
    market.execute_contract("c1");
    assert!(market.contracts.get("c1").unwrap().last_executed > 50);
    assert_eq!(contract("c1").clone(), contract("c1"));
}

#[test]
fn orders_are_booked_per_symbol_in_order() {
    let mut exchange = DecentralizedExchange::new();
    assert_eq!(exchange.order_book.len(), 0);
    exchange.add_to_order_book(order("o1", "ABC", OrderType::Buy));
    exchange.add_to_order_book(order("o2", "XYZ", OrderType::Sell));
    exchange.add_to_order_book(order("o3", "ABC", OrderType::Sell));
    assert_eq!(exchange.order_book.len(), 2);
    assert_eq!(
        exchange.order_book.get("ABC"),
        Some(&vec![
            order("o1", "ABC", OrderType::Buy),
            order("o3", "ABC", OrderType::Sell)
        ])
    );
    assert_eq!(
        exchange.order_book.get("XYZ"),
        Some(&vec![order("o2", "XYZ", OrderType::Sell)])
    );
    let booked = exchange.order_book.get("ABC").unwrap();
    assert_eq!(&clone_orders(booked), booked);
}
