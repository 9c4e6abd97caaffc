use vstd::prelude::*;

use crate::decimal::{decimal, push_decimal};
use crate::response::{asks_json, respond, ApiError, ApiResponse};

verus! {

/// Satoshi in one bitcoin.
pub const SATOSHI_PER_BTC: u64 = 100_000_000;

/// The price of a Mensa stew, in euro cents.
pub const MENSA_PRICE_CENTS: u64 = 120;

/// Why a price could not be fetched.
pub enum FetchFailure {
    /// The HTTP client could not be built.
    ClientConstruction,
    /// The price feed could not be reached.
    Transport,
    /// The answer did not have the expected shape, or held no usable price.
    Decode,
}

/// The message that reports a fetch failure.
pub open spec fn failure_message(f: FetchFailure) -> Seq<char> {
    match f {
        FetchFailure::ClientConstruction => "Error creating HTTP client"@,
        FetchFailure::Transport => "Error fetching data from CoinGecko"@,
        FetchFailure::Decode => "Error deserializing CoinGecko response. Probably rate limited."@,
    }
}

impl FetchFailure {
    /// The error that callers see for this failure.
    pub fn into_api_error(self) -> (r: ApiError)
        ensures
            r.message@ == failure_message(self),
    {
        let text = match self {
            FetchFailure::ClientConstruction => "Error creating HTTP client",
            FetchFailure::Transport => "Error fetching data from CoinGecko",
            FetchFailure::Decode => "Error deserializing CoinGecko response. Probably rate limited.",
        };
        ApiError { message: String::from_str(text) }
    }
}

/// `a / b` rounded to the nearest integer, halves rounded up.
pub open spec fn round_div(a: nat, b: nat) -> nat {
    (a + b / 2) / b
}

/// Units of a price in one satoshi per euro: prices are held in billionths
/// of a satoshi per euro.
pub const PRICE_UNITS_PER_SATOSHI: u64 = 1_000_000_000;

/// The price the cache holds, in billionths of a satoshi per euro, for a
/// bitcoin price in euro cents.
pub open spec fn price_for_eur_cents(eur_cents_per_btc: nat) -> nat {
    round_div((SATOSHI_PER_BTC * PRICE_UNITS_PER_SATOSHI * 100) as nat, eur_cents_per_btc)
}

/// Turns the bitcoin price that the feed reports, in euro cents, into the
/// price the cache holds: billionths of a satoshi per euro. Every positive
/// bitcoin price gives a positive price; a price of zero is no usable answer.
pub fn price_from_eur_cents(eur_cents_per_btc: u64) -> (r: Result<u64, ApiError>)
    ensures
        eur_cents_per_btc == 0 <==> r is Err,
        r is Err ==> r->Err_0.message@ == failure_message(FetchFailure::Decode),
        r is Ok ==> r->Ok_0 == price_for_eur_cents(eur_cents_per_btc as nat),
        r is Ok ==> r->Ok_0 > 0,
{
    if eur_cents_per_btc == 0 {
        return Err(FetchFailure::Decode.into_api_error());
    }
    let scaled: u128 = 10_000_000_000_000_000_000;
    assert(scaled == SATOSHI_PER_BTC * PRICE_UNITS_PER_SATOSHI * 100);
    let cents = eur_cents_per_btc as u128;
    let r: u128 = (scaled + cents / 2) / cents;
    assert(r <= scaled) by (nonlinear_arith)
        requires
            r as int == (scaled as int + cents as int / 2) / cents as int,
            cents >= 1,
    ;
    assert(r >= 1) by (nonlinear_arith)
        requires
            r as int == (scaled as int + cents as int / 2) / cents as int,
            cents >= 1,
            cents <= u64::MAX,
            scaled == 10_000_000_000_000_000_000u128,
    ;
    Ok(r as u64)
}

/// Satoshi, rounded to the nearest, for an item costing `item_cents` at a
/// price of `price` billionths of a satoshi per euro.
pub open spec fn item_satoshi_spec(item_cents: nat, price: nat) -> nat {
    round_div(item_cents * price, (100 * PRICE_UNITS_PER_SATOSHI) as nat)
}

/// What an item costing `item_cents` costs in satoshi, rounded to the
/// nearest, at `price` billionths of a satoshi per euro.
pub fn item_satoshi(item_cents: u64, price: u64) -> (r: u64)
    requires
        item_satoshi_spec(item_cents as nat, price as nat) <= u64::MAX,
    ensures
        r == item_satoshi_spec(item_cents as nat, price as nat),
{
    assert(item_cents as int * price as int <= u64::MAX as int * u64::MAX as int) by (nonlinear_arith)
        requires
            item_cents <= u64::MAX,
            price <= u64::MAX,
    ;
    let product: u128 = item_cents as u128 * price as u128;
    let divisor: u128 = 100_000_000_000;
    assert(divisor == 100 * PRICE_UNITS_PER_SATOSHI);
    assert(product + divisor / 2 < 0x1_0000_0000_0000_0000_0000_0000_0000_0000) by (nonlinear_arith)
        requires
            product == item_cents as int * price as int,
            item_cents <= u64::MAX,
            price <= u64::MAX,
            divisor == 100_000_000_000,
    ;
    ((product + divisor / 2) / divisor) as u64
}

/// The sentence that states the price of a Mensa stew in satoshi.
pub open spec fn mensa_message(satoshi: nat) -> Seq<char> {
    "Der Mensa-Eintopf kostet aktuell "@ + decimal(satoshi) + " Satoshi."@
}

/// The price of a Mensa stew in structured form.
pub struct MensaSatoshiData {
    pub satoshi: u64,
    pub message: String,
}

/// The price of a Mensa stew in satoshi at the given price, or the error that
/// kept the price from being had.
pub fn mensatoshi(price: Result<u64, ApiError>, format: Option<String>) -> (r: ApiResponse<
    MensaSatoshiData,
>)
    ensures
        price is Err ==> r == ApiResponse::<MensaSatoshiData>::Error(price->Err_0),
        price is Ok && asks_json(format) ==> r is Json,
        price is Ok && !asks_json(format) ==> r is Plain,
        price is Ok ==> ({
            let n = item_satoshi_spec(MENSA_PRICE_CENTS as nat, price->Ok_0 as nat);
            &&& r is Json ==> r->Json_0.satoshi == n && r->Json_0.message@ == mensa_message(n)
            &&& r is Plain ==> r->Plain_0@ == mensa_message(n)
        }),
{
    let satoshi_per_eur = match price {
        Ok(p) => p,
        Err(e) => return ApiResponse::Error(e),
    };
    assert(item_satoshi_spec(MENSA_PRICE_CENTS as nat, satoshi_per_eur as nat) <= u64::MAX) by (nonlinear_arith)
        requires
            satoshi_per_eur <= u64::MAX,
    ;
    let satoshi = item_satoshi(MENSA_PRICE_CENTS, satoshi_per_eur);
    let mut message = String::from_str("Der Mensa-Eintopf kostet aktuell ");
    push_decimal(&mut message, satoshi);
    message.append(" Satoshi.");
    let data = MensaSatoshiData { satoshi, message: message.clone() };
    respond(&format, data, message)
}

} // verus!
