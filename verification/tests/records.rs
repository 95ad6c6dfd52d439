use book_market::book::UNLIMITED_SUPPLY;
use book_market::rules;
use book_market::tip::copy_tips;
use book_market::{Address, Book, DataKey, Env, Error, HelloWorldContract, Tier, Tip, Transfer};

fn text(s: &str) -> String {
    s.to_string()
}

fn signed(signers: &[&str], timestamp: u64) -> Env {
    let mut env = Env::new(timestamp);
    for signer in signers {
        env.authorize(Address::new(signer));
    }
    env
}

fn book(is_special: bool, supply: u32) -> Book {
    Book::new(
        Address::new("A"),
        text("title"),
        text("name"),
        text("description"),
        250,
        text("cover"),
        text("book"),
        is_special,
        supply,
    )
}

#[test]
fn addresses_are_equal_by_key() {
    assert_eq!(Address::new("GABC"), Address::new("GABC"));
    assert_ne!(Address::new("GABC"), Address::new("GABD"));
    assert_ne!(Address::new("GABC"), Address::new("GAB"));
    assert_ne!(Address::new(""), Address::new("G"));
    assert_eq!(Address::new("GABC").as_str(), "GABC");
    assert_eq!(Address::new("GABC").clone(), Address::new("GABC"));
}

#[test]
fn env_knows_who_consented_and_the_time() {
    let mut env = Env::new(42);
    assert_eq!(env.timestamp(), 42);
    assert!(!env.authorizes(&Address::new("A")));
    env.authorize(Address::new("A"));
    assert!(env.authorizes(&Address::new("A")));
    assert!(!env.authorizes(&Address::new("B")));
    env.authorize(Address::new("B"));
    env.authorize(Address::new("A"));
    assert!(env.authorizes(&Address::new("A")));
    assert!(env.authorizes(&Address::new("B")));
    assert!(!env.authorizes(&Address::new("AB")));
    assert_eq!(env.timestamp(), 42);
}

#[test]
fn new_book_has_its_whole_supply() {
    let special = book(true, 5);
    assert_eq!((special.total_supply, special.remaining_supply), (5, 5));
    let empty = book(true, 0);
    assert_eq!((empty.total_supply, empty.remaining_supply), (0, 0));
    let unlimited = book(false, 5);
    assert_eq!(UNLIMITED_SUPPLY, u32::MAX);
    assert_eq!((unlimited.total_supply, unlimited.remaining_supply), (u32::MAX, u32::MAX));
    assert_eq!(special.title, "title");
    assert_eq!(special.author, "name");
    assert_eq!(special.description, "description");
    assert_eq!(special.cover_uri, "cover");
    assert_eq!(special.book_uri, "book");
    assert_eq!(special.price, 250);
    assert!(special.is_special);
    assert_eq!(special.author_address, Address::new("A"));
}

#[test]
fn selling_takes_one_copy_of_a_special_book_only() {
    let special = book(true, 5);
    let sold = special.sell_one();
    assert_eq!(sold.remaining_supply, 4);
    assert_eq!(sold, Book { remaining_supply: 4, ..special.clone() });
    assert_eq!(book(true, 1).sell_one().remaining_supply, 0);
    let unlimited = book(false, 5);
    assert_eq!(unlimited.sell_one(), unlimited);
}

#[test]
fn books_differ_in_any_field() {
    let base = book(true, 5);
    assert_eq!(base, base.clone());
    assert_ne!(base, Book { title: text("x"), ..base.clone() });
    assert_ne!(base, Book { author: text("x"), ..base.clone() });
    assert_ne!(base, Book { price: 1, ..base.clone() });
    assert_ne!(base, Book { cover_uri: text("x"), ..base.clone() });
    assert_ne!(base, Book { book_uri: text("x"), ..base.clone() });
    assert_ne!(base, Book { description: text("x"), ..base.clone() });
    assert_ne!(base, Book { is_special: false, ..base.clone() });
    assert_ne!(base, Book { total_supply: 6, ..base.clone() });
    assert_ne!(base, Book { remaining_supply: 4, ..base.clone() });
    assert_ne!(base, Book { author_address: Address::new("B"), ..base.clone() });
}

#[test]
fn tips_and_transfers_differ_in_any_field() {
    let tip = Tip { sender: Address::new("C"), amount: 5, message: text("m"), timestamp: 1 };
    assert_eq!(tip, tip.clone());
    assert_ne!(tip, Tip { sender: Address::new("D"), ..tip.clone() });
    assert_ne!(tip, Tip { amount: 6, ..tip.clone() });
    assert_ne!(tip, Tip { message: text("n"), ..tip.clone() });
    assert_ne!(tip, Tip { timestamp: 2, ..tip.clone() });
    let transfer = Transfer {
        token: Address::new("T"),
        from: Address::new("B"),
        to: Address::new("A"),
        amount: 5,
    };
    assert_eq!(transfer, transfer.clone());
    assert_ne!(transfer, Transfer { token: Address::new("U"), ..transfer.clone() });
    assert_ne!(transfer, Transfer { from: Address::new("U"), ..transfer.clone() });
    assert_ne!(transfer, Transfer { to: Address::new("U"), ..transfer.clone() });
    assert_ne!(transfer, Transfer { amount: 6, ..transfer.clone() });
}

#[test]
fn copied_tips_are_the_same_tips() {
    let tips = vec![
        Tip { sender: Address::new("C"), amount: 5, message: text("m"), timestamp: 1 },
        Tip { sender: Address::new("D"), amount: 6, message: text("n"), timestamp: 2 },
    ];
    assert_eq!(copy_tips(&tips), tips);
    assert!(copy_tips(&Vec::new()).is_empty());
}

#[test]
fn rule_initialize_takes_the_first_admin_only() {
    assert_eq!(rules::initialize(None, Address::new("M")), Ok(Address::new("M")));
    assert_eq!(
        rules::initialize(Some(&Address::new("M")), Address::new("N")),
        Err(Error::AlreadyInitialized)
    );
    assert_eq!(
        rules::initialize(Some(&Address::new("M")), Address::new("M")),
        Err(Error::AlreadyInitialized)
    );
}

#[test]
fn rule_publish_gives_the_next_id_and_the_record() {
    let result = rules::publish(
        &signed(&["A"], 1),
        41,
        Address::new("A"),
        text("title"),
        text("name"),
        text("description"),
        250,
        text("cover"),
        text("book"),
        true,
        5,
    );
    assert_eq!(result, Ok((42, book(true, 5))));
    let first = rules::publish(
        &signed(&["A"], 1),
        0,
        Address::new("A"),
        text("title"),
        text("name"),
        text("description"),
        250,
        text("cover"),
        text("book"),
        false,
        5,
    );
    assert_eq!(first, Ok((1, book(false, 5))));
    let refused = rules::publish(
        &signed(&["B"], 1),
        0,
        Address::new("A"),
        text("title"),
        text("name"),
        text("description"),
        250,
        text("cover"),
        text("book"),
        false,
        5,
    );
    assert_eq!(refused, Err(Error::Unauthorized));
}

#[test]
fn rule_purchase_settles_and_sells() {
    let on_record = book(true, 5);
    let admin = Address::new("M");
    let (settlement, sold) = rules::purchase(
        &signed(&["B"], 1),
        Some(&on_record),
        false,
        Some(&admin),
        &Address::new("B"),
        &Address::new("T"),
    )
    .unwrap();
    assert_eq!((settlement.fee, settlement.author_amount), (25, 225));
    assert_eq!(
        settlement.transfers,
        vec![
            Transfer {
                token: Address::new("T"),
                from: Address::new("B"),
                to: Address::new("M"),
                amount: 25,
            },
            Transfer {
                token: Address::new("T"),
                from: Address::new("B"),
                to: Address::new("A"),
                amount: 225,
            },
        ]
    );
    assert_eq!(sold, Book { remaining_supply: 4, ..on_record.clone() });
}

#[test]
fn rule_purchase_rejects_in_order() {
    let admin = Address::new("M");
    let buyer = Address::new("B");
    let author = Address::new("A");
    let token = Address::new("T");
    let nobody = signed(&[], 1);
    let both = signed(&["A", "B"], 1);
    let gone = book(true, 0);
    let on_record = book(true, 1);
    let reject = |env: &Env, b: Option<&Book>, purchased: bool, a: Option<&Address>, who: &Address| {
        rules::purchase(env, b, purchased, a, who, &token).unwrap_err()
    };
    assert_eq!(reject(&nobody, None, true, None, &author), Error::Unauthorized);
    assert_eq!(reject(&both, None, true, None, &author), Error::NotFound);
    assert_eq!(reject(&both, Some(&gone), true, None, &author), Error::SoldOut);
    assert_eq!(reject(&both, Some(&on_record), true, None, &author), Error::SelfPurchase);
    assert_eq!(reject(&both, Some(&on_record), true, None, &buyer), Error::AlreadyPurchased);
    assert_eq!(reject(&both, Some(&on_record), false, None, &buyer), Error::NotInitialized);
    assert!(rules::purchase(&both, Some(&on_record), false, Some(&admin), &buyer, &token).is_ok());
}

#[test]
fn rule_tip_pays_the_author_and_stamps_the_tip() {
    let on_record = book(false, 0);
    let (transfer, tip) = rules::tip(
        &signed(&["C"], 777),
        Some(&on_record),
        Address::new("C"),
        50,
        text("nice"),
        Address::new("T"),
    )
    .unwrap();
    assert_eq!(
        transfer,
        Transfer {
            token: Address::new("T"),
            from: Address::new("C"),
            to: Address::new("A"),
            amount: 50,
        }
    );
    assert_eq!(
        tip,
        Tip { sender: Address::new("C"), amount: 50, message: text("nice"), timestamp: 777 }
    );
    let smallest = rules::tip(
        &signed(&["C"], 0),
        Some(&on_record),
        Address::new("C"),
        1,
        text(""),
        Address::new("T"),
    );
    assert!(smallest.is_ok());
    let largest = rules::tip(
        &signed(&["C"], u64::MAX),
        Some(&on_record),
        Address::new("C"),
        i128::MAX,
        text(""),
        Address::new("T"),
    )
    .unwrap();
    assert_eq!(largest.0.amount, i128::MAX);
    assert_eq!(largest.1.timestamp, u64::MAX);
}

#[test]
fn rule_tip_rejects_in_order() {
    let on_record = book(true, 0);
    let tip = |env: &Env, b: Option<&Book>, amount: i128| {
        rules::tip(env, b, Address::new("C"), amount, text("m"), Address::new("T")).unwrap_err()
    };
    assert_eq!(tip(&signed(&[], 1), None, 0), Error::Unauthorized);
    assert_eq!(tip(&signed(&["C"], 1), None, 0), Error::NotFound);
    assert_eq!(tip(&signed(&["C"], 1), Some(&on_record), 0), Error::NonPositiveAmount);
    assert_eq!(tip(&signed(&["C"], 1), Some(&on_record), -1), Error::NonPositiveAmount);
    assert_eq!(tip(&signed(&["C"], 1), Some(&on_record), i128::MIN), Error::NonPositiveAmount);
}

#[test]
fn keys_live_in_their_tiers() {
    assert_eq!(DataKey::Admin.tier(), Tier::Instance);
    assert_eq!(DataKey::TokenIdCounter.tier(), Tier::Instance);
    assert_eq!(DataKey::Book(1).tier(), Tier::Persistent);
    assert_eq!(DataKey::Purchase(Address::new("B"), 1).tier(), Tier::Persistent);
    assert_eq!(DataKey::Tips(1).tier(), Tier::Persistent);
}

#[test]
fn records_appear_under_their_keys() {
    let mut market = HelloWorldContract::new();
    let env = signed(&["A", "B"], 1);
    let keys = || {
        [
            DataKey::Admin,
            DataKey::TokenIdCounter,
            DataKey::Book(1),
            DataKey::Purchase(Address::new("B"), 1),
            DataKey::Tips(1),
        ]
    };
    let held = |market: &HelloWorldContract| -> Vec<bool> {
        keys().iter().map(|key| market.has(key)).collect()
    };
    assert_eq!(held(&market), vec![false, false, false, false, false]);
    market.initialize(Address::new("M")).unwrap();
    assert_eq!(held(&market), vec![true, false, false, false, false]);
    market
        .publish_book(
            &env,
            Address::new("A"),
            text("t"),
            text("n"),
            text("d"),
            100,
            text("c"),
            text("b"),
            true,
            2,
        )
        .unwrap();
    assert_eq!(held(&market), vec![true, true, true, false, false]);
    market.buy_book(&env, Address::new("B"), 1, Address::new("T")).unwrap();
    assert_eq!(held(&market), vec![true, true, true, true, false]);
    market.tip_author(&env, Address::new("B"), 1, 1, text("m"), Address::new("T")).unwrap();
    assert_eq!(held(&market), vec![true, true, true, true, true]);
    assert!(!market.has(&DataKey::Book(0)));
    assert!(!market.has(&DataKey::Book(2)));
    assert!(!market.has(&DataKey::Tips(2)));
    assert!(!market.has(&DataKey::Purchase(Address::new("A"), 1)));
    assert!(!market.has(&DataKey::Purchase(Address::new("B"), 2)));
    assert_eq!(DataKey::Purchase(Address::new("B"), 2).clone().tier(), Tier::Persistent);
}
