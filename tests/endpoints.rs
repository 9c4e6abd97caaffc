use useful_api::congressbeer::CongressBeerData;
use useful_api::decimal::{push_decimal, push_signed_decimal};
use useful_api::hello::hello;
use useful_api::mensatoshi::{
    item_satoshi, mensatoshi, price_from_eur_cents, FetchFailure, MENSA_PRICE_CENTS,
};
use useful_api::price_cache::{PriceCache, SatoshiPriceCache, STALENESS_WINDOW_MS};
use useful_api::response::{is_json_format, respond, ApiError, ApiResponse};
use useful_api::shark::{shark, shark_message, SharkFailure, StoreAvailability};

fn err(text: &str) -> ApiError {
    ApiError { message: text.to_string() }
}

/// One call of the cache as the endpoint makes it, counting fetches.
fn get_price(
    cache: &mut PriceCache,
    now: u64,
    fetch: &mut dyn FnMut() -> Result<u64, ApiError>,
    fetches: &mut u32,
) -> Result<u64, ApiError> {
    if let Some(p) = cache.fresh_price_at(now) {
        return Ok(p);
    }
    *fetches += 1;
    let fetched = fetch();
    cache.record_fetch(fetched, now)
}

#[test]
fn hello_plain_by_default() {
    match hello(None) {
        ApiResponse::Plain(m) => assert_eq!(m, "Hello, World!"),
        _ => panic!("expected plain text"),
    }
}

#[test]
fn hello_json_when_asked() {
    match hello(Some("json".to_string())) {
        ApiResponse::Json(d) => assert_eq!(d.message, "Hello, World!"),
        _ => panic!("expected json"),
    }
}

#[test]
fn hello_other_format_is_plain() {
    assert!(matches!(hello(Some("xml".to_string())), ApiResponse::Plain(_)));
    assert!(matches!(hello(Some("JSON".to_string())), ApiResponse::Plain(_)));
    assert!(matches!(hello(Some(String::new())), ApiResponse::Plain(_)));
}

#[test]
fn format_selector() {
    assert!(is_json_format(&Some("json".to_string())));
    assert!(!is_json_format(&Some("jsonx".to_string())));
    assert!(!is_json_format(&None));
    let beer = CongressBeerData { congressbeers: 2, message: "m".to_string() };
    match respond(&None, beer, "plain".to_string()) {
        ApiResponse::Plain(m) => assert_eq!(m, "plain"),
        _ => panic!("expected plain text"),
    }
}

#[test]
fn end_to_end_plain() {
    match mensatoshi(Ok(8_333_333_330_000_000), None) {
        ApiResponse::Plain(m) => {
            assert_eq!(m, "Der Mensa-Eintopf kostet aktuell 10000000 Satoshi.")
        }
        _ => panic!("expected plain text"),
    }
}

#[test]
fn end_to_end_json() {
    match mensatoshi(Ok(8_333_333_330_000_000), Some("json".to_string())) {
        ApiResponse::Json(d) => {
            assert_eq!(d.satoshi, 10_000_000);
            assert_eq!(d.message, "Der Mensa-Eintopf kostet aktuell 10000000 Satoshi.");
        }
        _ => panic!("expected json"),
    }
}

#[test]
fn mensatoshi_passes_error_on() {
    match mensatoshi(Err(err("boom")), Some("json".to_string())) {
        ApiResponse::Error(e) => assert_eq!(e.message, "boom"),
        _ => panic!("expected an error"),
    }
}

#[test]
fn derived_computation_rounds_to_nearest() {
    assert_eq!(MENSA_PRICE_CENTS, 120);
    // 1.20 * 1666.666666667 = 2000.0000000004
    assert_eq!(item_satoshi(120, 1_666_666_666_667), 2000);
    // 1.00 * 0.5 rounds up to 1
    assert_eq!(item_satoshi(100, 500_000_000), 1);
    assert_eq!(item_satoshi(100, 499_999_999), 0);
    assert_eq!(item_satoshi(0, 123_456), 0);
    assert_eq!(item_satoshi(120, u64::MAX), 22_136_092_888);
    match mensatoshi(Ok(1_666_666_666_667), None) {
        ApiResponse::Plain(m) => assert_eq!(m, "Der Mensa-Eintopf kostet aktuell 2000 Satoshi."),
        _ => panic!("expected plain text"),
    }
}

#[test]
fn price_from_feed() {
    // 60000.00 EUR per BTC: 1666.666... satoshi per euro
    assert_eq!(price_from_eur_cents(6_000_000).unwrap(), 1_666_666_666_667);
    // 100000.00 EUR per BTC: 1000 satoshi per euro
    assert_eq!(price_from_eur_cents(10_000_000).unwrap(), 1_000_000_000_000);
    assert_eq!(price_from_eur_cents(1).unwrap(), 10_000_000_000_000_000_000);
}

#[test]
fn huge_feed_price_stays_positive() {
    // 3 * 10^10 EUR per BTC: 0.00333... satoshi per euro
    assert_eq!(price_from_eur_cents(3_000_000_000_000).unwrap(), 3_333_333);
    assert_eq!(price_from_eur_cents(u64::MAX).unwrap(), 1);
}

#[test]
fn zero_feed_price_is_a_decode_failure() {
    let e = price_from_eur_cents(0).unwrap_err();
    assert_eq!(e.message, "Error deserializing CoinGecko response. Probably rate limited.");
}

#[test]
fn failure_messages() {
    assert_eq!(FetchFailure::ClientConstruction.into_api_error().message, "Error creating HTTP client");
    assert_eq!(FetchFailure::Transport.into_api_error().message, "Error fetching data from CoinGecko");
    assert_eq!(
        FetchFailure::Decode.into_api_error().message,
        "Error deserializing CoinGecko response. Probably rate limited."
    );
}

#[test]
fn decimal_notation() {
    let mut s = String::from("n=");
    push_decimal(&mut s, 0);
    assert_eq!(s, "n=0");
    let mut s = String::new();
    push_decimal(&mut s, u64::MAX);
    assert_eq!(s, "18446744073709551615");
    let mut s = String::new();
    push_signed_decimal(&mut s, -42);
    assert_eq!(s, "-42");
    let mut s = String::new();
    push_signed_decimal(&mut s, i64::MIN);
    assert_eq!(s, "-9223372036854775808");
}

#[test]
fn fresh_entry_is_reused_without_fetch() {
    let mut cache = PriceCache::new();
    let mut fetches = 0;
    let mut next = 500u64;
    let mut fetch = || {
        next += 1;
        Ok(next)
    };
    let first = get_price(&mut cache, 1_000, &mut fetch, &mut fetches).unwrap();
    assert_eq!(first, 501);
    for now in [1_000, 1_001, 5_000, 1_000 + STALENESS_WINDOW_MS - 1] {
        assert_eq!(get_price(&mut cache, now, &mut fetch, &mut fetches).unwrap(), 501);
    }
    assert_eq!(fetches, 1);
    assert_eq!(cache.entry(), Some(SatoshiPriceCache { price: 501, time: 1_000 }));
}

#[test]
fn expired_entry_is_refreshed_once() {
    let mut cache = PriceCache::new();
    let mut fetches = 0;
    let mut next = 0u64;
    let mut fetch = || {
        next += 10;
        Ok(next)
    };
    get_price(&mut cache, 0, &mut fetch, &mut fetches).unwrap();
    let later = STALENESS_WINDOW_MS;
    assert_eq!(cache.fresh_price_at(later), None);
    assert_eq!(get_price(&mut cache, later, &mut fetch, &mut fetches).unwrap(), 20);
    assert_eq!(fetches, 2);
    assert_eq!(cache.entry(), Some(SatoshiPriceCache { price: 20, time: later }));
    assert_eq!(get_price(&mut cache, later + 1, &mut fetch, &mut fetches).unwrap(), 20);
    assert_eq!(fetches, 2);
}

#[test]
fn clock_before_fetch_counts_as_fresh() {
    let mut cache = PriceCache::new();
    cache.record_fetch(Ok(7), 5_000).unwrap();
    assert_eq!(cache.fresh_price_at(4_000), Some(7));
}

#[test]
fn failed_refresh_reports_error_and_keeps_entry() {
    let mut cache = PriceCache::new();
    cache.record_fetch(Ok(42), 0).unwrap();
    let mut fetches = 0;
    let mut failing = || Err(err("feed down"));
    let now = STALENESS_WINDOW_MS + 1;
    let e = get_price(&mut cache, now, &mut failing, &mut fetches).unwrap_err();
    assert_eq!(e.message, "feed down");
    assert_eq!(cache.entry(), Some(SatoshiPriceCache { price: 42, time: 0 }));
    let mut working = || Ok(43);
    assert_eq!(get_price(&mut cache, now + 1, &mut working, &mut fetches).unwrap(), 43);
    assert_eq!(cache.entry(), Some(SatoshiPriceCache { price: 43, time: now + 1 }));
    assert_eq!(fetches, 2);
}

#[test]
fn queued_callers_share_one_fetch() {
    let mut cache = PriceCache::new();
    let mut fetches = 0;
    let mut outcomes = vec![Err(err("rate limited")), Ok(900), Ok(901), Ok(902)].into_iter();
    let mut fetch = || outcomes.next().unwrap();
    let results: Vec<_> = (0..5u64)
        .map(|k| get_price(&mut cache, 100 + k, &mut fetch, &mut fetches))
        .collect();
    assert!(results[0].is_err());
    for r in &results[1..] {
        assert_eq!(*r.as_ref().unwrap(), 900);
    }
    assert!(fetches >= 1 && fetches <= 5);
    assert_eq!(fetches, 2);
}

#[test]
fn watched_store_found() {
    let stores = vec![
        StoreAvailability { class_unit_code: "148".to_string(), quantity: Some(9) },
        StoreAvailability { class_unit_code: "147".to_string(), quantity: Some(12) },
        StoreAvailability { class_unit_code: "147".to_string(), quantity: Some(3) },
    ];
    assert_eq!(shark_message(&stores), "Ikea currently has 12 BLÃ…HAJ in stock");
}

#[test]
fn watched_store_without_quantity_has_none() {
    let stores = vec![StoreAvailability { class_unit_code: "147".to_string(), quantity: None }];
    assert_eq!(shark_message(&stores), "Ikea currently has 0 BLÃ…HAJ in stock");
    let stores = vec![StoreAvailability { class_unit_code: "147".to_string(), quantity: Some(-2) }];
    assert_eq!(shark_message(&stores), "Ikea currently has -2 BLÃ…HAJ in stock");
}

#[test]
fn watched_store_missing() {
    assert_eq!(shark_message(&vec![]), "Store 147 not found in Ikea response");
    let stores = vec![StoreAvailability { class_unit_code: "1470".to_string(), quantity: Some(1) }];
    assert_eq!(shark_message(&stores), "Store 147 not found in Ikea response");
}

#[test]
fn shark_answers_failures() {
    assert_eq!(shark(Err(SharkFailure::Transport)), "Error fetching data from Ikea");
    assert_eq!(shark(Err(SharkFailure::Decode)), "Error parsing Ikea response");
    let stores = vec![StoreAvailability { class_unit_code: "147".to_string(), quantity: Some(5) }];
    assert_eq!(shark(Ok(stores)), "Ikea currently has 5 BLÃ…HAJ in stock");
}

#[test]
fn entry_is_stamped_when_the_fetch_returns() {
    let mut cache = PriceCache::new();
    let checked = 1_000;
    assert_eq!(cache.fresh_price_at(checked), None);
    let returned = 4_000;
    assert_eq!(cache.record_fetch(Ok(77), returned).unwrap(), 77);
    assert_eq!(cache.entry(), Some(SatoshiPriceCache { price: 77, time: returned }));
    assert_eq!(cache.fresh_price_at(returned + STALENESS_WINDOW_MS - 1), Some(77));
    assert_eq!(cache.fresh_price_at(returned + STALENESS_WINDOW_MS), None);
}
