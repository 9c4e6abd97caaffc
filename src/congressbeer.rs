use vstd::prelude::*;

verus! {

/// How many congress beers an amount of satoshi buys, in structured form.
pub struct CongressBeerData {
    pub congressbeers: i64,
    pub message: String,
}

} // verus!
