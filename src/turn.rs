use vstd::prelude::*;
use crate::game::{GameState, Stage, MONEY_CAP};

verus! {

/// A balance after one day of interest: `pct` percent of it, rounded down,
/// held at the money ceiling.
pub open spec fn compound(v: int, pct: int) -> int {
    if v * pct / 100 <= MONEY_CAP {
        v * pct / 100
    } else {
        MONEY_CAP as int
    }
}

/// Percent of the debt owed after one day.
pub const DEBT_RATE: i64 = 110;
/// Percent of the bank balance held after one day.
pub const BANK_RATE: i64 = 105;

/// The final score of a net worth: 100 above fifty million, 99 from twenty-five
/// million, 98 from ten million, else the net worth in hundred-thousands, from 0 to 97.
pub open spec fn score_of(net: int) -> int {
    if net > 50_000_000 {
        100
    } else if net >= 25_000_000 {
        99
    } else if net >= 10_000_000 {
        98
    } else if net <= 0 {
        0
    } else if net * 100 / 10_000_000 > 97 {
        97
    } else {
        net * 100 / 10_000_000
    }
}

/// The dealer rank that a score earns.
#[derive(Clone, Copy, PartialEq, Eq, Structural, Debug)]
pub enum Rank {
    /// A score of 100.
    Hero,
    /// A score of 99.
    DopeMan,
    /// A score of 98.
    God,
    /// From 76 to 97.
    Kingpin,
    /// From 51 to 75.
    RunTheTown,
    /// From 31 to 50.
    OwnTheBlock,
    /// 30 or less.
    SmallTime,
}

pub open spec fn rank_of(score: int) -> Rank {
    if score >= 100 {
        Rank::Hero
    } else if score == 99 {
        Rank::DopeMan
    } else if score == 98 {
        Rank::God
    } else if score >= 76 {
        Rank::Kingpin
    } else if score >= 51 {
        Rank::RunTheTown
    } else if score >= 31 {
        Rank::OwnTheBlock
    } else {
        Rank::SmallTime
    }
}

impl Rank {
    /// The rank that `score` earns.
    pub fn for_score(score: i64) -> (r: Rank)
        ensures
            r == rank_of(score as int),
    {
        if score >= 100 {
            Rank::Hero
        } else if score == 99 {
            Rank::DopeMan
        } else if score == 98 {
            Rank::God
        } else if score >= 76 {
            Rank::Kingpin
        } else if score >= 51 {
            Rank::RunTheTown
        } else if score >= 31 {
            Rank::OwnTheBlock
        } else {
            Rank::SmallTime
        }
    }
}

/// The score of a net worth `net`.
pub fn score_for(net: i64) -> (r: i64)
    ensures
        r as int == score_of(net as int),
        0 <= r <= 100,
{
    if net > 50_000_000 {
        100
    } else if net >= 25_000_000 {
        99
    } else if net >= 10_000_000 {
        98
    } else if net <= 0 {
        0
    } else {
        let c = net * 100 / 10_000_000;
        if c > 97 {
            97
        } else {
            c
        }
    }
}

/// The score never falls as the net worth grows; no net worth above zero
/// scores less than none, and none at all scores 0.
pub proof fn lemma_score_monotone(a: int, b: int)
    requires
        a <= b,
    ensures
        score_of(a) <= score_of(b),
        a <= 0 ==> score_of(a) == 0,
        0 <= score_of(a) <= 100,
{
    if 0 < a && b < 10_000_000 {
        vstd::arithmetic::div_mod::lemma_div_is_ordered(a * 100, b * 100, 10_000_000);
    }
    if 0 < a && a < 10_000_000 {
        vstd::arithmetic::div_mod::lemma_div_pos_is_pos(a * 100, 10_000_000);
    }
}

impl GameState {
    /// Net worth: bank balance and cash, less the debt.
    pub open spec fn net_worth(self) -> int {
        self.bank + self.cash - self.debt
    }

    /// The final score of this state.
    pub fn final_score(&self) -> (r: i64)
        requires
            self.wf(),
        ensures
            r as int == score_of(self.net_worth()),
    {
        score_for(self.bank + self.cash - self.debt)
    }

    /// One day of interest: the debt grows by a tenth, the bank balance by a
    /// twentieth, each rounded down.
    pub fn apply_interest(&mut self)
        requires
            old(self).wf(),
        ensures
            final(self).wf(),
            final(self).debt == compound(old(self).debt as int, DEBT_RATE as int),
            final(self).bank == compound(old(self).bank as int, BANK_RATE as int),
            final(self).same_world(*old(self)),
            final(self).cash == old(self).cash,
            final(self).hold == old(self).hold,
            final(self).stash@ == old(self).stash@,
            final(self).trench_coat@ == old(self).trench_coat@,
            final(self).stage == old(self).stage,
            final(self).notices@ == old(self).notices@,
    {
        let d = self.debt * DEBT_RATE / 100;
        self.debt = if d <= MONEY_CAP {
            d
        } else {
            MONEY_CAP
        };
        let b = self.bank * BANK_RATE / 100;
        self.bank = if b <= MONEY_CAP {
            b
        } else {
            MONEY_CAP
        };
    }

    /// The calendar part of a new day: one day fewer is left; when none is,
    /// the game is over; otherwise the day count grows and interest is applied.
    /// Returns whether the game goes on.
    pub fn pass_day(&mut self) -> (goes_on: bool)
        requires
            old(self).wf(),
            !old(self).is_over(),
        ensures
            final(self).wf(),
            final(self).days_left == old(self).days_left - 1,
            goes_on == (final(self).days_left > 0),
            goes_on == !final(self).is_over(),
            !goes_on ==> final(self).day == old(self).day && final(self).debt == old(self).debt
                && final(self).bank == old(self).bank,
            goes_on ==> final(self).day == old(self).day + 1 && final(self).debt == compound(
                old(self).debt as int,
                DEBT_RATE as int,
            ) && final(self).bank == compound(old(self).bank as int, BANK_RATE as int)
                && final(self).stage == old(self).stage,
            final(self).cash == old(self).cash,
            final(self).hold == old(self).hold,
            final(self).stash@ == old(self).stash@,
            final(self).trench_coat@ == old(self).trench_coat@,
            final(self).prices@ == old(self).prices@,
            final(self).geo == old(self).geo,
            final(self).guns == old(self).guns,
            final(self).damage == old(self).damage,
            final(self).phase == old(self).phase,
            final(self).fight_pending == old(self).fight_pending,
    {
        self.days_left = self.days_left - 1;
        if self.days_left <= 0 {
            self.stage = Stage::GameOver;
            false
        } else {
            self.day = self.day + 1;
            self.apply_interest();
            true
        }
    }
}

} // verus!
