//! A self-contained constant-product pool for tests and simulations:
//! one asset quoted against the numeraire, priced by the same formula
//! and policy as the engine.
use vstd::prelude::*;
use crate::amm;
use crate::amm::{BURN_BPS, MAX_AMOUNT, SWAP_FEE_BPS};
use crate::contract::is_pnyx;

verus! {

/// Marginal price quoted per one million input units, before price
/// impact: the reserve ratio less the swap fee, truncated.
pub open spec fn spot_price_of(in_reserve: int, out_reserve: int) -> int {
    out_reserve * 1000000 * (10000 - SWAP_FEE_BPS) / (in_reserve * 10000)
}

/// A pool of one asset against the numeraire, with fixed reserves.
#[derive(Debug)]
pub struct MockPool {
    pub pnyx_reserve: u128,
    pub asset_reserve: u128,
    pub asset_denom: String,
}

impl MockPool {
    /// Both reserves are positive and within the pricing range.
    pub open spec fn wf(self) -> bool {
        &&& 1 <= self.pnyx_reserve <= MAX_AMOUNT
        &&& 1 <= self.asset_reserve <= MAX_AMOUNT
    }

    /// A pool with the given reserves.
    pub fn new(asset_denom: &str, pnyx: u128, asset: u128) -> (r: Self)
        requires
            1 <= pnyx <= MAX_AMOUNT,
            1 <= asset <= MAX_AMOUNT,
        ensures
            r.wf(),
            r.pnyx_reserve == pnyx,
            r.asset_reserve == asset,
            r.asset_denom@ == asset_denom@,
    {
        MockPool {
            pnyx_reserve: pnyx,
            asset_reserve: asset,
            asset_denom: asset_denom.to_owned(),
        }
    }

    /// Swap output and burn for a trade into this pool, under the
    /// engine's fee and burn policy. Selling the numeraire buys the
    /// asset and burns nothing; selling the asset buys the numeraire
    /// and burns a share of it; any other denomination is rejected.
    pub fn compute_swap_output(&self, input_denom: &str, input_amount: u128) -> (r: Result<
        (u128, u128),
        String,
    >)
        requires
            self.wf(),
            input_amount <= MAX_AMOUNT,
        ensures
            is_pnyx(input_denom@) ==> r == Result::<(u128, u128), String>::Ok(
                (
                    amm::swap_output(
                        self.pnyx_reserve as int,
                        self.asset_reserve as int,
                        input_amount as int,
                        false,
                        SWAP_FEE_BPS as int,
                        BURN_BPS as int,
                    ) as u128,
                    0u128,
                ),
            ),
            !is_pnyx(input_denom@) && input_denom@ == self.asset_denom@ ==> r == Result::<
                (u128, u128),
                String,
            >::Ok(
                (
                    amm::swap_output(
                        self.asset_reserve as int,
                        self.pnyx_reserve as int,
                        input_amount as int,
                        true,
                        SWAP_FEE_BPS as int,
                        BURN_BPS as int,
                    ) as u128,
                    amm::swap_burn(
                        self.asset_reserve as int,
                        self.pnyx_reserve as int,
                        input_amount as int,
                        true,
                        SWAP_FEE_BPS as int,
                        BURN_BPS as int,
                    ) as u128,
                ),
            ),
            !is_pnyx(input_denom@) && input_denom@ != self.asset_denom@ ==> (r matches Err(m)
                && m@ == "unknown denom: "@ + input_denom@),
    {
        let input_owned = input_denom.to_owned();
        let sells_pnyx = input_owned == crate::contract::pnyx_denom();
        if sells_pnyx {
            let result = amm::compute_swap_output(
                self.pnyx_reserve,
                self.asset_reserve,
                input_amount,
                false,
            );
            Ok(result)
        } else if input_owned == self.asset_denom {
            let result = amm::compute_swap_output(
                self.asset_reserve,
                self.pnyx_reserve,
                input_amount,
                true,
            );
            Ok(result)
        } else {
            Err("unknown denom: ".to_owned().concat(input_denom))
        }
    }

    /// Marginal spot price for a trade into this pool: output units per
    /// one million input units, fee included, ignoring price impact.
    /// Any denomination other than the two pool legs is rejected.
    pub fn spot_price(&self, input_denom: &str) -> (r: Result<u128, String>)
        requires
            self.wf(),
        ensures
            is_pnyx(input_denom@) ==> r == Result::<u128, String>::Ok(
                spot_price_of(self.pnyx_reserve as int, self.asset_reserve as int) as u128,
            ),
            !is_pnyx(input_denom@) && input_denom@ == self.asset_denom@ ==> r == Result::<
                u128,
                String,
            >::Ok(spot_price_of(self.asset_reserve as int, self.pnyx_reserve as int) as u128),
            !is_pnyx(input_denom@) && input_denom@ != self.asset_denom@ ==> (r matches Err(m)
                && m@ == "unknown denom: "@ + input_denom@),
    {
        let input_owned = input_denom.to_owned();
        let sells_pnyx = input_owned == crate::contract::pnyx_denom();
        let (in_reserve, out_reserve) = if sells_pnyx {
            (self.pnyx_reserve, self.asset_reserve)
        } else if input_owned == self.asset_denom {
            (self.asset_reserve, self.pnyx_reserve)
        } else {
            return Err("unknown denom: ".to_owned().concat(input_denom));
        };
        assert(out_reserve * 1000000 * (10000 - SWAP_FEE_BPS)
            <= MAX_AMOUNT * 1000000 * 10000) by (nonlinear_arith)
            requires
                out_reserve <= MAX_AMOUNT,
        ;
        assert(in_reserve * 10000 >= 10000) by (nonlinear_arith)
            requires
                in_reserve >= 1,
        ;
        let price = out_reserve * 1000000 * (10000 - SWAP_FEE_BPS as u128) / (in_reserve * 10000);
        Ok(price)
    }
}

} // verus!
