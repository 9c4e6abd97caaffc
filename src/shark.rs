use vstd::prelude::*;

use crate::decimal::{push_signed_decimal, signed_decimal};

verus! {

/// What the store-stock feed reports for one store: its code, and the
/// quantity on hand where the store reports one.
pub struct StoreAvailability {
    pub class_unit_code: String,
    pub quantity: Option<i32>,
}

/// The quantity on hand that a report stands for: none reported counts as zero.
pub open spec fn reported_quantity(a: StoreAvailability) -> int {
    match a.quantity {
        Some(q) => q as int,
        None => 0,
    }
}

/// The quantity at the first report of the watched store, if any report is of it.
pub open spec fn watched_store_quantity(stores: Seq<StoreAvailability>) -> Option<int>
    decreases stores.len(),
{
    if stores.len() == 0 {
        None
    } else if stores[0].class_unit_code@ == "147"@ {
        Some(reported_quantity(stores[0]))
    } else {
        watched_store_quantity(stores.drop_first())
    }
}

/// The sentence that reports the stock of the watched store, or its absence.
pub open spec fn shark_message_spec(stores: Seq<StoreAvailability>) -> Seq<char> {
    match watched_store_quantity(stores) {
        Some(q) => "Ikea currently has "@ + signed_decimal(q) + " BLÃ…HAJ in stock"@,
        None => "Store 147 not found in Ikea response"@,
    }
}

/// Reports how many sharks the watched store has in stock.
pub fn shark_message(stores: &Vec<StoreAvailability>) -> (r: String)
    ensures
        r@ == shark_message_spec(stores@),
{
    let watched = String::from_str("147");
    let mut i: usize = 0;
    assert(stores@.subrange(0, stores@.len() as int) =~= stores@);
    while i < stores.len()
        invariant
            i <= stores@.len(),
            watched@ == "147"@,
            watched_store_quantity(stores@.subrange(i as int, stores@.len() as int))
                == watched_store_quantity(stores@),
        decreases stores.len() - i,
    {
        let store = &stores[i];
        proof {
            let tail = stores@.subrange(i as int, stores@.len() as int);
            assert(tail.drop_first() =~= stores@.subrange(i + 1, stores@.len() as int));
            assert(tail[0] == stores@[i as int]);
        }
        if store.class_unit_code == watched {
            let quantity: i32 = match store.quantity {
                Some(q) => q,
                None => 0,
            };
            let mut message = String::from_str("Ikea currently has ");
            push_signed_decimal(&mut message, quantity as i64);
            message.append(" BLÃ…HAJ in stock");
            return message;
        }
        i = i + 1;
    }
    proof {
        assert(stores@.subrange(i as int, stores@.len() as int).len() == 0);
    }
    String::from_str("Store 147 not found in Ikea response")
}

/// Why the store-stock report could not be had.
pub enum SharkFailure {
    /// The feed could not be reached.
    Transport,
    /// The answer did not have the expected shape.
    Decode,
}

/// The sentence that the stock endpoint answers with, for a report or for
/// the failure that kept it from being had.
pub open spec fn shark_spec(report: Result<Seq<StoreAvailability>, SharkFailure>) -> Seq<char> {
    match report {
        Ok(stores) => shark_message_spec(stores),
        Err(SharkFailure::Transport) => "Error fetching data from Ikea"@,
        Err(SharkFailure::Decode) => "Error parsing Ikea response"@,
    }
}

/// Answers the stock endpoint from the fetched report.
pub fn shark(report: Result<Vec<StoreAvailability>, SharkFailure>) -> (r: String)
    ensures
        r@ == shark_spec(
            match report {
                Ok(stores) => Ok(stores@),
                Err(f) => Err(f),
            },
        ),
{
    match report {
        Ok(stores) => shark_message(&stores),
        Err(SharkFailure::Transport) => String::from_str("Error fetching data from Ikea"),
        Err(SharkFailure::Decode) => String::from_str("Error parsing Ikea response"),
    }
}

} // verus!
