use vstd::prelude::*;
use crate::error::SchemaError;

verus! {

/// A well-formed address answer: its UTF-8 encoding is exactly 20 bytes.
pub open spec fn is_address(s: Seq<char>) -> bool {
    vstd::utf8::encode_utf8(s).len() == 20
}

/// The market primitive one listing sells through.
#[derive(Clone, Copy, Debug, PartialEq, Eq, Structural)]
pub enum MarketType {
    FixedPrice,
    DutchAuction,
}

impl MarketType {
    /// Builds the market primitive from the selection index, in catalog
    /// order.  An index outside the market catalog is the driver breaking
    /// its promise and is reported.
    pub fn from_index(index: usize) -> (r: Result<MarketType, SchemaError>)
        ensures
            index == 0 ==> r == Ok::<MarketType, SchemaError>(MarketType::FixedPrice),
            index == 1 ==> r == Ok::<MarketType, SchemaError>(MarketType::DutchAuction),
            index >= 2 ==> r == Err::<MarketType, SchemaError>(SchemaError::IndexOutOfBounds),
    {
        if index == 0 {
            Ok(MarketType::FixedPrice)
        } else if index == 1 {
            Ok(MarketType::DutchAuction)
        } else {
            Err(SchemaError::IndexOutOfBounds)
        }
    }
}

/// One primary-market listing: who administers the sale, who receives the
/// proceeds, and through which market primitive it sells.
pub struct Listing {
    pub admin: String,
    pub receiver: String,
    pub market: MarketType,
}

impl Listing {
    /// Both addresses are 20 bytes long.
    pub open spec fn wf(self) -> bool {
        &&& is_address(self.admin@)
        &&& is_address(self.receiver@)
    }
}

/// Produces one listing per chosen market primitive — exactly `count` of
/// them, all sharing the one administrator/receiver pair collected before
/// the loop.  The loop has no early exit.
pub fn build_listings(
    count: u64,
    admin: &String,
    receiver: &String,
    markets: &Vec<MarketType>,
) -> (r: Vec<Listing>)
    requires
        markets@.len() == count,
        is_address(admin@),
        is_address(receiver@),
    ensures
        r@.len() == count,
        forall|i: int|
            0 <= i < r@.len() ==> {
                &&& (#[trigger] r@[i]).admin@ == admin@
                &&& r@[i].receiver@ == receiver@
                &&& r@[i].market == markets@[i]
                &&& r@[i].wf()
            },
{
    let n: usize = markets.len();
    let mut r: Vec<Listing> = Vec::new();
    let mut i: usize = 0;
    while i < n
        invariant
            n == markets@.len(),
            i <= n,
            is_address(admin@),
            is_address(receiver@),
            r@.len() == i,
            forall|j: int|
                0 <= j < i ==> {
                    &&& (#[trigger] r@[j]).admin@ == admin@
                    &&& r@[j].receiver@ == receiver@
                    &&& r@[j].market == markets@[j]
                    &&& r@[j].wf()
                },
        decreases n - i,
    {
        r.push(
            Listing { admin: admin.clone(), receiver: receiver.clone(), market: markets[i] },
        );
        i += 1;
    }
    r
}

} // verus!
