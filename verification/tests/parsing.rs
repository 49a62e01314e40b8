use hello_rocket::numparse::parse_i32;
use hello_rocket::token::{generate_session_token, session_token_from_bytes};
use hello_rocket::wallet::{
    check_current_price_pln, newest_first, summary_plan, Side, TradeCurrencies,
};

#[test]
fn parses_plain_and_signed_numbers() {
    assert_eq!(parse_i32("42"), Some(42));
    assert_eq!(parse_i32("-42"), Some(-42));
    assert_eq!(parse_i32("+7"), Some(7));
    assert_eq!(parse_i32("0"), Some(0));
    assert_eq!(parse_i32("-0"), Some(0));
    assert_eq!(parse_i32("007"), Some(7));
}

#[test]
fn parses_the_extremes() {
    assert_eq!(parse_i32("2147483647"), Some(i32::MAX));
    assert_eq!(parse_i32("-2147483648"), Some(i32::MIN));
    assert_eq!(parse_i32("2147483648"), None);
    assert_eq!(parse_i32("-2147483649"), None);
    assert_eq!(parse_i32("99999999999999999999"), None);
    assert_eq!(parse_i32("0000000000000000000012"), Some(12));
}

#[test]
fn rejects_what_std_rejects() {
    for bad in ["", "-", "+", "12a", " 1", "1 ", "--1", "+-1", "1.0", "٣"] {
        assert_eq!(parse_i32(bad), None, "{:?}", bad);
        assert!(bad.parse::<i32>().is_err());
    }
}

#[test]
fn agrees_with_std_parse() {
    for t in ["1", "-1", "+1", "2147483647", "-2147483648", "2147483648", "x", "", "+", "123456"] {
        assert_eq!(parse_i32(t), t.parse::<i32>().ok(), "{:?}", t);
    }
}

#[test]
fn hex_token_from_bytes() {
    assert_eq!(session_token_from_bytes(&vec![0x00, 0xAB, 0xFF, 0x5c]), "00ABFF5C");
    assert_eq!(session_token_from_bytes(&vec![]), "");
}

#[test]
fn generated_token_is_upper_hex_of_the_length() {
    let t = generate_session_token(64).unwrap();
    assert_eq!(t.len(), 128);
    assert!(t.chars().all(|c| c.is_ascii_digit() || ('A'..='F').contains(&c)));
    let u = generate_session_token(64).unwrap();
    assert_ne!(t, u);
    assert_eq!(generate_session_token(0).unwrap(), "");
}

#[test]
fn newest_rows_first() {
    assert_eq!(newest_first(vec![1, 2, 3]), vec![3, 2, 1]);
    assert_eq!(newest_first(Vec::<i32>::new()), Vec::<i32>::new());
    assert_eq!(newest_first(vec!["only"]), vec!["only"]);
}

#[test]
fn price_table_in_hundredths() {
    let cases = [
        ("BTC", 4000000),
        ("BCH", 90000),
        ("ETH", 85000),
        ("LTC", 17000),
        ("XRP", 80),
        ("PLN", 100),
        ("USD", 400),
        ("EUR", 440),
        ("DOGE", 0),
        ("btc", 0),
        ("", 0),
    ];
    for (name, price) in cases {
        assert_eq!(check_current_price_pln(&name.to_string()), price, "{}", name);
    }
}

fn trade(buy: &str, sell: &str) -> TradeCurrencies {
    TradeCurrencies { buy_currency: buy.to_string(), sell_currency: sell.to_string() }
}

#[test]
fn summary_has_one_row_per_coin_in_first_seen_order() {
    let trades = vec![trade("BTC", "PLN"), trade("ETH", "PLN"), trade("BTC", "USD"), trade("LTC", "LTC")];
    let plan = summary_plan(&trades);
    let rows: Vec<(&str, usize, Side)> =
        plan.iter().map(|e| (e.coin.as_str(), e.transaction, e.side)).collect();
    assert_eq!(
        rows,
        vec![
            ("BTC", 0, Side::Bought),
            ("PLN", 0, Side::Sold),
            ("ETH", 1, Side::Bought),
            ("USD", 2, Side::Sold),
            ("LTC", 3, Side::Bought),
        ]
    );
    assert!(summary_plan(&vec![]).is_empty());
}
