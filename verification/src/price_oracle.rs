//! Price resolution for registering a name of a given length: either a
//! flat fixed price, or a tier table sorted ascending by length with a
//! floor price below the table and a ceiling price above it.

use vstd::prelude::*;

use crate::common::{to_wei, WEI_SCALE};
use crate::ContractError;

verus! {

/// Which pricing mode is active.
#[derive(Clone, Copy, Debug, PartialEq, Eq, Structural)]
pub enum PriceType {
    Fixed,
    Dynamic,
}

/// One tier of the dynamic price table: the price for names of exactly
/// this length.
#[derive(Clone, Copy, Debug, PartialEq, Eq, Structural)]
pub struct PriceItem {
    pub price: u128,
    pub length: u8,
}

/// Mathematical value of a [`PriceOracleContract`].
pub ghost struct PriceConfigView {
    pub current_type: PriceType,
    pub price_fixed: u128,
    pub price_less: u128,
    pub price_more: u128,
    pub price_mid: Seq<PriceItem>,
}

/// The price configuration store.
pub struct PriceOracleContract {
    current_type: PriceType,
    price_fixed: u128,
    price_less: u128,
    price_more: u128,
    price_mid: Vec<PriceItem>,
}

impl View for PriceOracleContract {
    type V = PriceConfigView;

    closed spec fn view(&self) -> PriceConfigView {
        PriceConfigView {
            current_type: self.current_type,
            price_fixed: self.price_fixed,
            price_less: self.price_less,
            price_more: self.price_more,
            price_mid: self.price_mid@,
        }
    }
}

/// The price of the first tier whose length matches `length` exactly,
/// scanning the table in order.
pub open spec fn tier_exact(price_mid: Seq<PriceItem>, length: u8) -> Option<u128>
    decreases price_mid.len(),
{
    if price_mid.len() == 0 {
        None
    } else if price_mid[0].length == length {
        Some(price_mid[0].price)
    } else {
        tier_exact(price_mid.drop_first(), length)
    }
}

/// The price resolved for a name of `length` characters. Fixed mode
/// returns the stored flat price unconditionally. Dynamic mode rejects
/// a table whose first price is zero, returns the floor price below the
/// first tier's length, the ceiling price above the last tier's length,
/// the matching tier's price on an exact length match, and the ceiling
/// price for a gap inside the covered range.
pub open spec fn spec_get_price(cfg: PriceConfigView, length: u8) -> Result<u128, ContractError> {
    match cfg.current_type {
        PriceType::Fixed => Ok(cfg.price_fixed),
        PriceType::Dynamic => {
            if cfg.price_mid.len() == 0 {
                Err(ContractError::InvariantViolation)
            } else if cfg.price_mid[0].price == 0 {
                Err(ContractError::InvariantViolation)
            } else if length < cfg.price_mid[0].length {
                Ok(cfg.price_less)
            } else if cfg.price_mid[cfg.price_mid.len() - 1].length < length {
                Ok(cfg.price_more)
            } else {
                match tier_exact(cfg.price_mid, length) {
                    Some(p) => Ok(p),
                    None => Ok(cfg.price_more),
                }
            }
        },
    }
}

/// What storing a price configuration leaves behind. Fixed mode stores
/// the price scaled to base units and ignores the tier arguments.
/// Dynamic mode demands a positive floor price and a non-empty table,
/// stores the floor price and the ceiling price as given (unscaled),
/// and replaces the table wholesale.
pub open spec fn spec_set_price(
    cfg: PriceConfigView,
    price_type: PriceType,
    price: u128,
    price_mid: Seq<PriceItem>,
    price_more: u128,
) -> Result<PriceConfigView, ContractError> {
    match price_type {
        PriceType::Fixed => Ok(
            PriceConfigView {
                current_type: PriceType::Fixed,
                price_fixed: (price * WEI_SCALE) as u128,
                ..cfg
            },
        ),
        PriceType::Dynamic => {
            if price == 0 {
                Err(ContractError::InvalidPrice)
            } else if price_mid.len() == 0 {
                Err(ContractError::EmptyTierTable)
            } else {
                Ok(
                    PriceConfigView {
                        current_type: PriceType::Dynamic,
                        price_fixed: cfg.price_fixed,
                        price_less: price,
                        price_more,
                        price_mid,
                    },
                )
            }
        },
    }
}

impl PriceOracleContract {
    /// Internal validity: a dynamic configuration always holds a
    /// non-empty tier table.
    pub open spec fn wf(self) -> bool {
        self@.current_type == PriceType::Dynamic ==> self@.price_mid.len() > 0
    }

    /// A fresh configuration: fixed mode with a zero price.
    pub fn init() -> (r: Self)
        ensures
            r.wf(),
            r@ == (PriceConfigView {
                current_type: PriceType::Fixed,
                price_fixed: 0,
                price_less: 0,
                price_more: 0,
                price_mid: Seq::<PriceItem>::empty(),
            }),
    {
        let r = PriceOracleContract {
            current_type: PriceType::Fixed,
            price_fixed: 0,
            price_less: 0,
            price_more: 0,
            price_mid: Vec::new(),
        };
        proof {
            assert(r@.price_mid =~= Seq::<PriceItem>::empty());
        }
        r
    }

    /// Resolves the price for a name of `length` characters, exactly as
    /// [`spec_get_price`] says.
    pub fn get_price(&self, length: u8) -> (r: Result<u128, ContractError>)
        requires
            self.wf(),
        ensures
            r == spec_get_price(self@, length),
    {
        match self.current_type {
            PriceType::Fixed => Ok(self.price_fixed),
            PriceType::Dynamic => {
                let first = self.price_mid[0];
                if first.price == 0 {
                    return Err(ContractError::InvariantViolation);
                }
                let last = self.price_mid[self.price_mid.len() - 1];
                if length < first.length {
                    return Ok(self.price_less);
                }
                if last.length < length {
                    return Ok(self.price_more);
                }
                let ghost mid = self@.price_mid;
                proof {
                    assert(mid.skip(0) =~= mid);
                }
                let mut i: usize = 0;
                while i < self.price_mid.len()
                    invariant
                        i <= mid.len(),
                        mid == self@.price_mid,
                        self@.current_type == PriceType::Dynamic,
                        mid.len() > 0,
                        mid[0].price != 0,
                        mid[0].length <= length,
                        length <= mid[mid.len() - 1].length,
                        self@.price_more == self.price_more,
                        tier_exact(mid.skip(i as int), length) == tier_exact(mid, length),
                    decreases mid.len() - i,
                {
                    proof {
                        assert(mid.skip(i as int).len() == mid.len() - i);
                        assert(mid.skip(i as int)[0] == mid[i as int]);
                    }
                    if self.price_mid[i].length == length {
                        proof {
                            assert(tier_exact(mid.skip(i as int), length) == Some(
                                mid[i as int].price,
                            ));
                        }
                        return Ok(self.price_mid[i].price);
                    }
                    proof {
                        assert(mid.skip(i as int).drop_first() =~= mid.skip(i as int + 1));
                    }
                    i += 1;
                }
                proof {
                    assert(mid.skip(mid.len() as int).len() == 0);
                }
                Ok(self.price_more)
            },
        }
    }

    /// Stores a price configuration, exactly as [`spec_set_price`]
    /// says. On rejection nothing changes.
    pub fn set_price(
        &mut self,
        price_type: PriceType,
        price: u128,
        price_mid: Vec<PriceItem>,
        price_more: u128,
    ) -> (r: Result<(), ContractError>)
        requires
            old(self).wf(),
            price_type == PriceType::Fixed ==> price * WEI_SCALE <= u128::MAX,
        ensures
            final(self).wf(),
            match spec_set_price(old(self)@, price_type, price, price_mid@, price_more) {
                Ok(c) => r == Ok::<(), ContractError>(()) && final(self)@ == c,
                Err(e) => r == Err::<(), ContractError>(e) && final(self)@ == old(self)@,
            },
    {
        match price_type {
            PriceType::Fixed => {
                self.current_type = PriceType::Fixed;
                self.price_fixed = to_wei(price);
                Ok(())
            },
            PriceType::Dynamic => {
                if price == 0 {
                    return Err(ContractError::InvalidPrice);
                }
                if price_mid.len() == 0 {
                    return Err(ContractError::EmptyTierTable);
                }
                self.current_type = PriceType::Dynamic;
                self.price_less = price;
                self.price_mid = price_mid;
                self.price_more = price_more;
                Ok(())
            },
        }
    }
}

/// Fixed-price round-trip law: after storing a fixed price, resolving
/// the price for any length returns that price scaled to base units.
pub proof fn lemma_fixed_price_round_trip(
    cfg: PriceConfigView,
    price: u128,
    price_mid: Seq<PriceItem>,
    price_more: u128,
    length: u8,
)
    requires
        price * WEI_SCALE <= u128::MAX,
    ensures
        match spec_set_price(cfg, PriceType::Fixed, price, price_mid, price_more) {
            Ok(c) => spec_get_price(c, length) == Ok::<u128, ContractError>(
                (price * WEI_SCALE) as u128,
            ),
            Err(_) => false,
        },
{
}

} // verus!
