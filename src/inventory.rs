use vstd::prelude::*;
use crate::commodity::{Drug, NUM_DRUGS};
use crate::game::{GameState, MONEY_CAP, QTY_CAP, sum6};

verus! {

/// Which way a transfer moves goods.
#[derive(Clone, Copy, PartialEq, Eq, Structural, Debug)]
pub enum Direction {
    /// From the coat into the stash.
    ToStash,
    /// From the stash into the coat.
    ToCoat,
}

proof fn lemma_sum6_update(s: Seq<i64>, i: int, x: i64)
    requires
        s.len() == NUM_DRUGS,
        0 <= i < NUM_DRUGS,
    ensures
        sum6(s.update(i, x)) == sum6(s) - s[i] + x,
{
}

proof fn lemma_entry_le_sum(s: Seq<i64>, i: int)
    requires
        s.len() == NUM_DRUGS,
        0 <= i < NUM_DRUGS,
        forall|j: int| 0 <= j < NUM_DRUGS ==> 0 <= #[trigger] s[j],
    ensures
        s[i] <= sum6(s),
{
    assert(0 <= s[0] && 0 <= s[1] && 0 <= s[2] && 0 <= s[3] && 0 <= s[4] && 0 <= s[5]);
}

impl GameState {
    /// How many units of `d` the cash buys at today's price; none when the price is 0.
    pub open spec fn afford(self, d: Drug) -> int {
        if self.price(d) > 0 {
            self.cash as int / self.price(d)
        } else {
            0
        }
    }

    /// Whether a transfer is accepted. An amount of 0 is accepted and changes nothing.
    pub open spec fn transfer_ok(self, d: Drug, amount: int, dir: Direction) -> bool {
        amount == 0 || (0 < amount && match dir {
            Direction::ToStash => amount <= self.coat(d) && self.stashed(d) + amount <= QTY_CAP,
            Direction::ToCoat => amount <= self.stashed(d) && amount <= self.hold,
        })
    }

    /// Whether a purchase is accepted. An amount of 0 is accepted and changes nothing.
    pub open spec fn buy_ok(self, d: Drug, amount: int) -> bool {
        amount == 0 || (0 < amount && amount * self.price(d) <= self.cash && amount <= self.hold)
    }

    /// Whether a sale is accepted. An amount of 0 is accepted and changes nothing.
    pub open spec fn sell_ok(self, d: Drug, amount: int) -> bool {
        amount == 0 || (0 < amount && amount <= self.coat(d) && self.cash + amount * self.price(
            d,
        ) <= MONEY_CAP)
    }

    /// How many units of `d` the cash buys at today's price.
    pub fn affordable(&self, d: Drug) -> (r: i64)
        requires
            self.wf(),
        ensures
            r as int == self.afford(d),
            0 <= r,
    {
        let price = self.prices[d.index()];
        if price > 0 {
            self.cash / price
        } else {
            0
        }
    }

    /// Moves `amount` units of `d` between the coat and the stash. Rejected
    /// requests change nothing; the caller asks again.
    pub fn transfer(&mut self, d: Drug, amount: i64, dir: Direction) -> (ok: bool)
        requires
            old(self).wf(),
        ensures
            final(self).wf(),
            ok == old(self).transfer_ok(d, amount as int, dir),
            !ok ==> *final(self) == *old(self),
            ok ==> final(self).same_money(*old(self)),
            ok ==> final(self).stage == old(self).stage,
            ok && dir == Direction::ToStash ==> {
                &&& final(self).trench_coat@ == old(self).trench_coat@.update(
                    d.idx(),
                    (old(self).coat(d) - amount) as i64,
                )
                &&& final(self).stash@ == old(self).stash@.update(
                    d.idx(),
                    (old(self).stashed(d) + amount) as i64,
                )
                &&& final(self).hold == old(self).hold + amount
            },
            ok && dir == Direction::ToCoat ==> {
                &&& final(self).trench_coat@ == old(self).trench_coat@.update(
                    d.idx(),
                    (old(self).coat(d) + amount) as i64,
                )
                &&& final(self).stash@ == old(self).stash@.update(
                    d.idx(),
                    (old(self).stashed(d) - amount) as i64,
                )
                &&& final(self).hold == old(self).hold - amount
            },
            final(self).capacity() == old(self).capacity(),
            final(self).hold >= 0,
            final(self).notices@ == old(self).notices@,
    {
        let i = d.index();
        if amount == 0 {
            return true;
        }
        if amount < 0 {
            return false;
        }
        let c = self.trench_coat[i];
        let s = self.stash[i];
        proof {
            lemma_entry_le_sum(self.trench_coat@, i as int);
        }
        match dir {
            Direction::ToStash => {
                if amount > c || s > QTY_CAP - amount {
                    return false;
                }
                proof {
                    lemma_sum6_update(self.trench_coat@, i as int, (c - amount) as i64);
                }
                self.trench_coat.set(i, c - amount);
                self.stash.set(i, s + amount);
                self.hold = self.hold + amount;
            },
            Direction::ToCoat => {
                if amount > s || amount > self.hold {
                    return false;
                }
                proof {
                    lemma_sum6_update(self.trench_coat@, i as int, (c + amount) as i64);
                }
                self.trench_coat.set(i, c + amount);
                self.stash.set(i, s - amount);
                self.hold = self.hold - amount;
            },
        }
        true
    }

    /// Buys `amount` units of `d` at today's price. Rejected requests change nothing.
    pub fn buy(&mut self, d: Drug, amount: i64) -> (ok: bool)
        requires
            old(self).wf(),
        ensures
            final(self).wf(),
            ok == old(self).buy_ok(d, amount as int),
            amount > 0 && amount * old(self).price(d) > old(self).cash ==> !ok,
            !ok ==> *final(self) == *old(self),
            ok ==> {
                &&& final(self).same_world(*old(self))
                &&& final(self).stage == old(self).stage
                &&& final(self).bank == old(self).bank
                &&& final(self).debt == old(self).debt
                &&& final(self).cash == old(self).cash - amount * old(self).price(d)
                &&& final(self).trench_coat@ == old(self).trench_coat@.update(
                    d.idx(),
                    (old(self).coat(d) + amount) as i64,
                )
                &&& final(self).stash@ == old(self).stash@
                &&& final(self).hold == old(self).hold - amount
            },
            final(self).capacity() == old(self).capacity(),
            final(self).hold >= 0,
            final(self).notices@ == old(self).notices@,
    {
        let i = d.index();
        let price = self.prices[i];
        if amount == 0 {
            return true;
        }
        if amount < 0 || amount > self.hold {
            return false;
        }
        if price > 0 {
            let afford = self.cash / price;
            proof {
                let c = self.cash as int;
                let p = price as int;
                let a = amount as int;
                if a <= c / p {
                    assert(a * p <= c) by (nonlinear_arith)
                        requires
                            0 < p,
                            0 <= c,
                            a <= c / p,
                    ;
                } else {
                    assert(a * p > c) by (nonlinear_arith)
                        requires
                            0 < p,
                            0 <= c,
                            a > c / p,
                    ;
                }
            }
            if amount > afford {
                return false;
            }
        }
        proof {
            if price == 0 {
                assert(amount * price == 0) by (nonlinear_arith)
                    requires
                        price == 0,
                ;
            }
        }
        let c = self.trench_coat[i];
        proof {
            lemma_entry_le_sum(self.trench_coat@, i as int);
            lemma_sum6_update(self.trench_coat@, i as int, (c + amount) as i64);
        }
        self.trench_coat.set(i, c + amount);
        self.cash = self.cash - amount * price;
        self.hold = self.hold - amount;
        true
    }

    /// Sells `amount` units of `d` at today's price. Rejected requests change nothing.
    pub fn sell(&mut self, d: Drug, amount: i64) -> (ok: bool)
        requires
            old(self).wf(),
        ensures
            final(self).wf(),
            ok == old(self).sell_ok(d, amount as int),
            !ok ==> *final(self) == *old(self),
            ok ==> {
                &&& final(self).same_world(*old(self))
                &&& final(self).stage == old(self).stage
                &&& final(self).bank == old(self).bank
                &&& final(self).debt == old(self).debt
                &&& final(self).cash == old(self).cash + amount * old(self).price(d)
                &&& final(self).trench_coat@ == old(self).trench_coat@.update(
                    d.idx(),
                    (old(self).coat(d) - amount) as i64,
                )
                &&& final(self).stash@ == old(self).stash@
                &&& final(self).hold == old(self).hold + amount
            },
            final(self).capacity() == old(self).capacity(),
            final(self).hold >= 0,
            final(self).notices@ == old(self).notices@,
    {
        let i = d.index();
        if amount == 0 {
            return true;
        }
        let c = self.trench_coat[i];
        if amount < 0 || amount > c {
            return false;
        }
        let price = self.prices[i];
        proof {
            lemma_entry_le_sum(self.trench_coat@, i as int);
            assert(amount * price <= QTY_CAP * 1_000_000_000) by (nonlinear_arith)
                requires
                    0 < amount <= QTY_CAP,
                    0 <= price <= 1_000_000_000,
            ;
        }
        let proceeds = amount * price;
        if self.cash + proceeds > MONEY_CAP {
            return false;
        }
        proof {
            lemma_sum6_update(self.trench_coat@, i as int, (c - amount) as i64);
        }
        self.trench_coat.set(i, c - amount);
        self.cash = self.cash + proceeds;
        self.hold = self.hold + amount;
        true
    }

    /// Whether a repayment is accepted: no more than the cash and no more than the debt.
    pub open spec fn repay_ok(self, amount: int) -> bool {
        amount == 0 || (0 < amount && amount <= self.cash && amount <= self.debt)
    }

    /// Whether a loan is accepted: the debt stays within the shark's limit.
    pub open spec fn borrow_ok(self, amount: int) -> bool {
        amount == 0 || (0 < amount && self.debt + amount <= self.maxloan && self.cash + amount
            <= MONEY_CAP)
    }

    /// Whether a bank deposit is accepted.
    pub open spec fn deposit_ok(self, amount: int) -> bool {
        0 < amount && amount <= self.cash && self.bank + amount <= MONEY_CAP
    }

    /// Whether a bank withdrawal is accepted.
    pub open spec fn withdraw_ok(self, amount: int) -> bool {
        0 < amount && amount <= self.bank && self.cash + amount <= MONEY_CAP
    }

    /// Pays `amount` of the debt from the cash. Rejected requests change nothing.
    pub fn repay_debt(&mut self, amount: i64) -> (ok: bool)
        requires
            old(self).wf(),
        ensures
            final(self).wf(),
            ok == old(self).repay_ok(amount as int),
            !ok ==> *final(self) == *old(self),
            ok ==> {
                &&& final(self).same_world(*old(self))
                &&& final(self).stage == old(self).stage
                &&& final(self).bank == old(self).bank
                &&& final(self).cash == old(self).cash - amount
                &&& final(self).debt == old(self).debt - amount
            },
            final(self).hold == old(self).hold,
            final(self).stash@ == old(self).stash@,
            final(self).trench_coat@ == old(self).trench_coat@,
            final(self).notices@ == old(self).notices@,
    {
        if amount < 0 || amount > self.cash || amount > self.debt {
            return false;
        }
        self.cash = self.cash - amount;
        self.debt = self.debt - amount;
        true
    }

    /// Borrows `amount` from the loan shark. Rejected requests change nothing.
    pub fn borrow_money(&mut self, amount: i64) -> (ok: bool)
        requires
            old(self).wf(),
        ensures
            final(self).wf(),
            ok == old(self).borrow_ok(amount as int),
            !ok ==> *final(self) == *old(self),
            ok ==> {
                &&& final(self).same_world(*old(self))
                &&& final(self).stage == old(self).stage
                &&& final(self).bank == old(self).bank
                &&& final(self).cash == old(self).cash + amount
                &&& final(self).debt == old(self).debt + amount
            },
            final(self).hold == old(self).hold,
            final(self).stash@ == old(self).stash@,
            final(self).trench_coat@ == old(self).trench_coat@,
            final(self).notices@ == old(self).notices@,
    {
        if amount == 0 {
            return true;
        }
        if amount < 0 || amount > self.maxloan - self.debt || amount > MONEY_CAP - self.cash {
            return false;
        }
        self.cash = self.cash + amount;
        self.debt = self.debt + amount;
        true
    }

    /// Moves `amount` of cash into the bank. Rejected requests change nothing.
    pub fn deposit(&mut self, amount: i64) -> (ok: bool)
        requires
            old(self).wf(),
        ensures
            final(self).wf(),
            ok == old(self).deposit_ok(amount as int),
            !ok ==> *final(self) == *old(self),
            ok ==> {
                &&& final(self).same_world(*old(self))
                &&& final(self).stage == old(self).stage
                &&& final(self).debt == old(self).debt
                &&& final(self).cash == old(self).cash - amount
                &&& final(self).bank == old(self).bank + amount
            },
            final(self).hold == old(self).hold,
            final(self).stash@ == old(self).stash@,
            final(self).trench_coat@ == old(self).trench_coat@,
            final(self).notices@ == old(self).notices@,
    {
        if amount <= 0 || amount > self.cash || amount > MONEY_CAP - self.bank {
            return false;
        }
        self.cash = self.cash - amount;
        self.bank = self.bank + amount;
        true
    }

    /// Moves `amount` from the bank into cash. Rejected requests change nothing.
    pub fn withdraw(&mut self, amount: i64) -> (ok: bool)
        requires
            old(self).wf(),
        ensures
            final(self).wf(),
            ok == old(self).withdraw_ok(amount as int),
            !ok ==> *final(self) == *old(self),
            ok ==> {
                &&& final(self).same_world(*old(self))
                &&& final(self).stage == old(self).stage
                &&& final(self).debt == old(self).debt
                &&& final(self).cash == old(self).cash + amount
                &&& final(self).bank == old(self).bank - amount
            },
            final(self).hold == old(self).hold,
            final(self).stash@ == old(self).stash@,
            final(self).trench_coat@ == old(self).trench_coat@,
            final(self).notices@ == old(self).notices@,
    {
        if amount <= 0 || amount > self.bank || amount > MONEY_CAP - self.cash {
            return false;
        }
        self.cash = self.cash + amount;
        self.bank = self.bank - amount;
        true
    }
}

} // verus!
