use book_market::{Address, Book, Env, Error, HelloWorldContract, Tip, Transfer};

fn text(s: &str) -> String {
    s.to_string()
}

fn call_by(signers: &[&str], timestamp: u64) -> Env {
    let mut env = Env::new(timestamp);
    for signer in signers {
        env.authorize(Address::new(signer));
    }
    env
}

/// A marketplace with admin M and the special book 1 of author A, price 100,
/// five copies.
fn market_with_one_book() -> HelloWorldContract {
    let mut market = HelloWorldContract::new();
    market.initialize(Address::new("M")).unwrap();
    let id = market
        .publish_book(
            &call_by(&["A"], 1),
            Address::new("A"),
            text("Dune"),
            text("Frank"),
            text("Sand"),
            100,
            text("ipfs://cover"),
            text("ipfs://book"),
            true,
            5,
        )
        .unwrap();
    assert_eq!(id, 1);
    market
}

#[test]
fn initialize_twice_fails() {
    let mut market = HelloWorldContract::new();
    assert_eq!(market.initialize(Address::new("A")), Ok(()));
    assert_eq!(market.initialize(Address::new("A")), Err(Error::AlreadyInitialized));
}

#[test]
fn second_initialize_does_not_replace_the_admin() {
    let mut market = market_with_one_book();
    assert_eq!(market.initialize(Address::new("X")), Err(Error::AlreadyInitialized));
    let settlement = market
        .buy_book(&call_by(&["B"], 2), Address::new("B"), 1, Address::new("T"))
        .unwrap();
    assert_eq!(settlement.transfers[0].to, Address::new("M"));
}

#[test]
fn publish_special_book_returns_first_id_and_full_supply() {
    let market = market_with_one_book();
    let book = market.get_book(1).unwrap();
    assert_eq!(book.total_supply, 5);
    assert_eq!(book.remaining_supply, 5);
    assert_eq!(
        book,
        Book {
            title: text("Dune"),
            author: text("Frank"),
            price: 100,
            cover_uri: text("ipfs://cover"),
            book_uri: text("ipfs://book"),
            description: text("Sand"),
            is_special: true,
            total_supply: 5,
            remaining_supply: 5,
            author_address: Address::new("A"),
        }
    );
    assert_eq!(market.get_book(2), None);
    assert_eq!(market.get_book(0), None);
}

#[test]
fn buy_book_pays_admin_and_author_and_records_the_purchase() {
    let mut market = market_with_one_book();
    let settlement = market
        .buy_book(&call_by(&["B"], 2), Address::new("B"), 1, Address::new("T"))
        .unwrap();
    assert_eq!(settlement.fee, 10);
    assert_eq!(settlement.author_amount, 90);
    assert_eq!(
        settlement.transfers,
        vec![
            Transfer {
                token: Address::new("T"),
                from: Address::new("B"),
                to: Address::new("M"),
                amount: 10,
            },
            Transfer {
                token: Address::new("T"),
                from: Address::new("B"),
                to: Address::new("A"),
                amount: 90,
            },
        ]
    );
    assert_eq!(market.get_book(1).unwrap().remaining_supply, 4);
    assert_eq!(market.get_book(1).unwrap().total_supply, 5);
    assert!(market.has_purchased(Address::new("B"), 1));
    assert!(!market.has_purchased(Address::new("C"), 1));
    assert!(!market.has_purchased(Address::new("B"), 2));
}

#[test]
fn buy_book_again_fails_and_leaves_the_supply() {
    let mut market = market_with_one_book();
    let env = call_by(&["B"], 2);
    market.buy_book(&env, Address::new("B"), 1, Address::new("T")).unwrap();
    assert_eq!(
        market.buy_book(&env, Address::new("B"), 1, Address::new("T")),
        Err(Error::AlreadyPurchased)
    );
    assert_eq!(market.get_book(1).unwrap().remaining_supply, 4);
    assert!(market.has_purchased(Address::new("B"), 1));
}

#[test]
fn tip_author_pays_the_author_and_records_the_tip() {
    let mut market = market_with_one_book();
    let transfer = market
        .tip_author(&call_by(&["C"], 1234), Address::new("C"), 1, 50, text("nice"), Address::new("T"))
        .unwrap();
    assert_eq!(
        transfer,
        Transfer {
            token: Address::new("T"),
            from: Address::new("C"),
            to: Address::new("A"),
            amount: 50,
        }
    );
    assert_eq!(
        market.get_tips(1),
        vec![Tip { sender: Address::new("C"), amount: 50, message: text("nice"), timestamp: 1234 }]
    );
}

#[test]
fn author_cannot_buy_own_book() {
    let mut market = market_with_one_book();
    assert_eq!(
        market.buy_book(&call_by(&["A"], 2), Address::new("A"), 1, Address::new("T")),
        Err(Error::SelfPurchase)
    );
    assert!(!market.has_purchased(Address::new("A"), 1));
    assert_eq!(market.get_book(1).unwrap().remaining_supply, 5);
}

#[test]
fn author_cannot_buy_own_book_without_admin() {
    let mut market = HelloWorldContract::new();
    let env = call_by(&["A"], 1);
    for (is_special, supply) in [(true, 1u32), (true, 7), (false, 0), (false, 3)] {
        let id = market
            .publish_book(
                &env,
                Address::new("A"),
                text("t"),
                text("n"),
                text("d"),
                100,
                text("c"),
                text("b"),
                is_special,
                supply,
            )
            .unwrap();
        assert_eq!(
            market.buy_book(&env, Address::new("A"), id, Address::new("T")),
            Err(Error::SelfPurchase)
        );
    }
}

#[test]
fn author_of_a_sold_out_book_is_told_sold_out() {
    let mut market = HelloWorldContract::new();
    market.initialize(Address::new("M")).unwrap();
    let env = call_by(&["A", "B"], 1);
    let id = market
        .publish_book(
            &env,
            Address::new("A"),
            text("t"),
            text("n"),
            text("d"),
            100,
            text("c"),
            text("b"),
            true,
            1,
        )
        .unwrap();
    market.buy_book(&env, Address::new("B"), id, Address::new("T")).unwrap();
    assert_eq!(
        market.buy_book(&env, Address::new("A"), id, Address::new("T")),
        Err(Error::SoldOut)
    );
}
