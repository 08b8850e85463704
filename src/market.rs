use vstd::prelude::*;
use crate::commodity::{Drug, NUM_DRUGS, drug_at};
use crate::game::{GameState, PRICE_CAP};
use crate::random::roll;

verus! {

/// A price after a shock that multiplies it by `k`, held at the price ceiling.
pub open spec fn raised(p: int, k: int) -> int {
    if p * k <= PRICE_CAP {
        p * k
    } else {
        PRICE_CAP as int
    }
}

impl GameState {
    /// Everything but the prices is as in `o`.
    pub open spec fn same_but_prices(self, o: Self) -> bool {
        &&& self.day == o.day
        &&& self.days_left == o.days_left
        &&& self.geo == o.geo
        &&& self.guns == o.guns
        &&& self.maxloan == o.maxloan
        &&& self.phase == o.phase
        &&& self.damage == o.damage
        &&& self.cops == o.cops
        &&& self.fight_pending == o.fight_pending
        &&& self.cash == o.cash
        &&& self.bank == o.bank
        &&& self.debt == o.debt
        &&& self.hold == o.hold
        &&& self.stash@ == o.stash@
        &&& self.trench_coat@ == o.trench_coat@
        &&& self.stage == o.stage
        &&& self.notices@ == o.notices@
    }

    /// Whether `draws` holds one draw per commodity, each within the
    /// commodity's range.
    pub open spec fn draws_in_range(draws: Seq<i64>) -> bool {
        &&& draws.len() == NUM_DRUGS
        &&& forall|i: int|
            0 <= i < NUM_DRUGS ==> drug_at(i).low() <= #[trigger] draws[i] <= drug_at(i).high()
    }

    /// Sets today's prices from one draw per commodity: each price is ten
    /// times its draw.
    pub fn apply_price_draws(&mut self, draws: &Vec<i64>)
        requires
            old(self).wf(),
            GameState::draws_in_range(draws@),
        ensures
            final(self).wf(),
            final(self).same_but_prices(*old(self)),
            final(self).prices@.len() == NUM_DRUGS,
            forall|i: int| 0 <= i < NUM_DRUGS ==> #[trigger] final(self).prices@[i] == draws@[i] * 10,
    {
        let mut i: usize = 0;
        while i < NUM_DRUGS
            invariant
                0 <= i <= NUM_DRUGS,
                GameState::draws_in_range(draws@),
                self.wf(),
                self.same_but_prices(*old(self)),
                forall|j: int| 0 <= j < i ==> #[trigger] self.prices@[j] == draws@[j] * 10,
            decreases NUM_DRUGS - i,
        {
            let p = draws[i] * 10;
            self.prices.set(i, p);
            i = i + 1;
        }
    }

    /// Draws a fresh price for every commodity: a whole number of tens within
    /// the commodity's range.
    pub fn roll_prices(&mut self)
        requires
            old(self).wf(),
        ensures
            final(self).wf(),
            final(self).same_but_prices(*old(self)),
            forall|i: int|
                0 <= i < NUM_DRUGS ==> {
                    &&& drug_at(i).low() * 10 <= #[trigger] final(self).prices@[i] <= drug_at(
                        i,
                    ).high() * 10
                    &&& final(self).prices@[i] % 10 == 0
                },
    {
        let mut draws: Vec<i64> = Vec::new();
        let mut i: usize = 0;
        while i < NUM_DRUGS
            invariant
                0 <= i <= NUM_DRUGS,
                draws@.len() == i,
                forall|j: int|
                    0 <= j < i ==> drug_at(j).low() <= #[trigger] draws@[j] <= drug_at(j).high(),
            decreases NUM_DRUGS - i,
        {
            let d = Drug::from_index(i);
            let (lo, hi) = d.price_range();
            draws.push(roll(lo, hi));
            i = i + 1;
        }
        self.apply_price_draws(&draws);
    }

    /// Multiplies today's price of `d` by `k`, held at the price ceiling.
    pub fn raise_price(&mut self, d: Drug, k: i64)
        requires
            old(self).wf(),
            1 <= k <= 10,
        ensures
            final(self).wf(),
            final(self).prices@ == old(self).prices@.update(
                d.idx(),
                raised(old(self).price(d), k as int) as i64,
            ),
            final(self).same_but_prices(*old(self)),
    {
        let i = d.index();
        let p = self.prices[i];
        if p <= PRICE_CAP / k {
            proof {
                assert(p * k <= PRICE_CAP) by (nonlinear_arith)
                    requires
                        0 <= p <= PRICE_CAP / k,
                        1 <= k,
                ;
            }
            self.prices.set(i, p * k);
        } else {
            proof {
                assert(p * k > PRICE_CAP) by (nonlinear_arith)
                    requires
                        p > PRICE_CAP / k,
                        1 <= k,
                ;
            }
            self.prices.set(i, PRICE_CAP);
        }
    }

    /// Divides today's price of `d` by `k`, rounding down.
    pub fn cut_price(&mut self, d: Drug, k: i64)
        requires
            old(self).wf(),
            1 <= k,
        ensures
            final(self).wf(),
            final(self).prices@ == old(self).prices@.update(
                d.idx(),
                (old(self).price(d) / k as int) as i64,
            ),
            final(self).same_but_prices(*old(self)),
    {
        let i = d.index();
        let p = self.prices[i];
        self.prices.set(i, p / k);
    }
}

} // verus!
