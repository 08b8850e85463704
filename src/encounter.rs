use vstd::prelude::*;
use crate::game::{
    GameState, Phase, Notice, Stage, MAX_COPS, MONEY_CAP, FATAL_DAMAGE, DOCTOR_RATE_LOW,
    DOCTOR_RATE_HIGH,
};

verus! {

/// How a move in an encounter ended.
#[derive(Clone, Copy, PartialEq, Eq, Structural, Debug)]
pub enum Clash {
    /// The player got away.
    Escaped,
    /// The last opponent went down.
    AllDown,
    /// The opponents fired back; the stage says whether the player lives.
    UnderFire,
}

/// Damage above which the doctor is offered after an encounter.
pub const DOCTOR_THRESHOLD: i64 = 10;

/// Damage dealt by opponent fire: negative or zero is a miss.
pub open spec fn fire_damage(cops: int, a: int, b: int) -> int {
    a * cops - b
}

/// The encounter chance of a draw from 1 to 100 with `hold` units of room free.
pub open spec fn chase_chance(hold: int, draw: int) -> int {
    draw / (hold + 1)
}

/// What the doctor asks for treating `damage` at `rate` per ten points.
pub open spec fn doctor_cost(damage: int, rate: int) -> int {
    damage * rate / 10
}

impl GameState {
    /// The stage after an encounter that was left alive and not lost: the
    /// doctor when the damage is above 10 (at `rate`), else the main menu.
    pub open spec fn after_encounter(self, rate: int) -> Stage {
        if self.damage > DOCTOR_THRESHOLD {
            Stage::Doctor { cost: doctor_cost(self.damage as int, rate) as i64 }
        } else {
            self.menu_stage()
        }
    }

    /// `new` is `self` after a run with draws `getaway` (1 escapes, 2 does
    /// not), `a` and `b` (the opponents' fire) and `rate` (the doctor's).
    pub open spec fn ran(self, new: Self, getaway: int, a: int, b: int, rate: int) -> bool {
        &&& new.same_trade(self)
        &&& new.guns == self.guns
        &&& new.cops == self.cops
        &&& new.is_over() == (new.damage >= FATAL_DAMAGE)
        &&& getaway == 1 ==> {
            &&& new.damage == self.damage
            &&& new.stage == self.after_encounter(rate)
            &&& new.stage != Stage::Encounter
        }
        &&& getaway != 1 ==> {
            &&& new.phase == self.phase
            &&& new.damage == self.damage + if fire_damage(self.cops as int, a, b) > 0 {
                fire_damage(self.cops as int, a, b)
            } else {
                0
            }
            &&& new.is_over() || new.stage == Stage::Encounter
        }
    }

    /// `new` is `self` after a shot with draws `kill` (0 misses), `a` and `b`
    /// (the fire back), `reward` (the money found) and `rate` (the doctor's).
    pub open spec fn shot(self, new: Self, kill: int, a: int, b: int, reward: int, rate: int) -> bool {
        &&& new.guns == self.guns
        &&& new.bank == self.bank
        &&& new.debt == self.debt
        &&& new.hold == self.hold
        &&& new.stash@ == self.stash@
        &&& new.trench_coat@ == self.trench_coat@
        &&& new.prices@ == self.prices@
        &&& new.day == self.day
        &&& new.days_left == self.days_left
        &&& new.geo == self.geo
        &&& new.maxloan == self.maxloan
        &&& new.fight_pending == self.fight_pending
        &&& new.is_over() == (new.damage >= FATAL_DAMAGE)
        &&& kill == 0 ==> new.cops == self.cops
        &&& kill > 0 ==> new.cops == self.cops - 1
        &&& kill > 0 && self.cops == 1 ==> {
            &&& new.damage == self.damage
            &&& new.stage == self.after_encounter(rate)
            &&& new.stage != Stage::Encounter
            &&& new.cash == if self.cash + reward <= MONEY_CAP {
                self.cash + reward
            } else {
                MONEY_CAP as int
            }
        }
        &&& !(kill > 0 && self.cops == 1) ==> {
            &&& new.cash == self.cash
            &&& new.phase == self.phase
            &&& new.damage == self.damage + if fire_damage(new.cops as int, a, b) > 0 {
                fire_damage(new.cops as int, a, b)
            } else {
                0
            }
            &&& new.is_over() || new.stage == Stage::Encounter
        }
    }

    /// The encounter check of the day on `draw`: `new` stands in an encounter
    /// with `chance / 9 + 2` opponents when the chance is at least 1, else at
    /// the main menu; nothing else differs but whether a check is owed.
    pub open spec fn checked(self, new: Self, draw: int) -> bool {
        &&& new.stash@ == self.stash@
        &&& new.prices@ == self.prices@
        &&& new.cash == self.cash
        &&& new.bank == self.bank
        &&& new.debt == self.debt
        &&& new.hold == self.hold
        &&& new.trench_coat@ == self.trench_coat@
        &&& new.guns == self.guns
        &&& new.damage == self.damage
        &&& new.day == self.day
        &&& new.days_left == self.days_left
        &&& new.geo == self.geo
        &&& new.maxloan == self.maxloan
        &&& if chase_chance(self.hold as int, draw) >= 1 {
            &&& new.stage == Stage::Encounter
            &&& new.cops == chase_chance(self.hold as int, draw) / 9 + 2
            &&& new.phase == self.phase
        } else {
            &&& new.stage == self.menu_stage()
            &&& new.phase == Phase::Normal
            &&& new.cops == self.cops
        }
    }

    /// Goods, money, prices and calendar are as in `o`.
    pub open spec fn same_trade(self, o: Self) -> bool {
        &&& self.day == o.day
        &&& self.days_left == o.days_left
        &&& self.geo == o.geo
        &&& self.maxloan == o.maxloan
        &&& self.prices@ == o.prices@
        &&& self.fight_pending == o.fight_pending
        &&& self.cash == o.cash
        &&& self.bank == o.bank
        &&& self.debt == o.debt
        &&& self.hold == o.hold
        &&& self.stash@ == o.stash@
        &&& self.trench_coat@ == o.trench_coat@
    }

    /// The day's encounter check on a draw from 1 to 100: the chance is the draw
    /// divided by one more than the free room; an encounter starts when it is at
    /// least 1, with `chance / 9 + 2` opponents.
    pub fn encounter_check(&mut self, draw: i64) -> (started: bool)
        requires
            old(self).wf(),
            !old(self).is_over(),
            1 <= draw <= 100,
        ensures
            final(self).wf(),
            final(self).same_trade(*old(self)),
            final(self).guns == old(self).guns,
            final(self).damage == old(self).damage,
            final(self).phase == old(self).phase,
            started == (chase_chance(old(self).hold as int, draw as int) >= 1),
            started ==> final(self).cops == chase_chance(old(self).hold as int, draw as int) / 9 + 2,
            started ==> final(self).stage == Stage::Encounter,
            !started ==> *final(self) == *old(self),
    {
        let chance = draw / (self.hold + 1);
        if chance >= 1 {
            self.cops = chance / 9 + 2;
            self.stage = Stage::Encounter;
            self.notices.push(Notice::Chased { cops: self.cops });
            true
        } else {
            false
        }
    }

    /// The opponents fire: `a` from 0 to 3 per opponent, less `b` from 2 to 18.
    /// A hit adds to the damage; at 50 or more the game is over.
    pub fn take_fire(&mut self, a: i64, b: i64) -> (hit: i64)
        requires
            old(self).wf(),
            !old(self).is_over(),
            old(self).cops >= 1,
            0 <= a <= 3,
            2 <= b <= 18,
        ensures
            final(self).wf(),
            final(self).same_trade(*old(self)),
            final(self).guns == old(self).guns,
            final(self).cops == old(self).cops,
            final(self).phase == old(self).phase,
            hit == fire_damage(old(self).cops as int, a as int, b as int),
            hit <= 0 ==> final(self).damage == old(self).damage,
            hit > 0 ==> final(self).damage == old(self).damage + hit,
            final(self).is_over() == (final(self).damage >= FATAL_DAMAGE),
            !final(self).is_over() ==> final(self).stage == Stage::Encounter,
    {
        self.notices.push(Notice::FiringOnYou);
        proof {
            let c = self.cops as int;
            assert(0 <= a * c <= 3 * MAX_COPS) by (nonlinear_arith)
                requires
                    0 <= a <= 3,
                    0 <= c <= MAX_COPS,
            ;
        }
        let hit = a * self.cops - b;
        if hit <= 0 {
            self.notices.push(Notice::TheyMissed);
        } else {
            self.damage = self.damage + hit;
            self.notices.push(Notice::Hit { damage: hit });
        }
        if self.damage >= FATAL_DAMAGE {
            self.notices.push(Notice::Wasted);
            self.stage = Stage::GameOver;
        } else {
            self.stage = Stage::Encounter;
        }
        hit
    }

    /// The player runs: `getaway` 1 escapes (then the doctor at `rate`, see
    /// `check_doctor`), 2 leaves the player under fire with draws `a` and `b`
    /// (see `take_fire`). Running is the one move of an unarmed player.
    pub fn run_away(&mut self, getaway: i64, a: i64, b: i64, rate: i64) -> (r: Clash)
        requires
            old(self).wf(),
            old(self).stage == Stage::Encounter,
            1 <= getaway <= 2,
            0 <= a <= 3,
            2 <= b <= 18,
            DOCTOR_RATE_LOW <= rate <= DOCTOR_RATE_HIGH,
        ensures
            final(self).wf(),
            old(self).ran(*final(self), getaway as int, a as int, b as int, rate as int),
            getaway == 1 ==> r == Clash::Escaped,
            getaway == 2 ==> r == Clash::UnderFire,
    {
        if getaway == 1 {
            self.notices.push(Notice::Escaped);
            self.check_doctor(rate);
            Clash::Escaped
        } else {
            self.take_fire(a, b);
            Clash::UnderFire
        }
    }

    /// The armed player fires: `kill` from 0 to twice the guns; 0 misses and the
    /// opponents fire back with draws `a` and `b`; otherwise one opponent falls,
    /// and the rest, if any, fire back. When the last one falls, `reward`
    /// joins the cash and the doctor is offered at `rate` (see `check_doctor`).
    pub fn shoot(&mut self, kill: i64, a: i64, b: i64, reward: i64, rate: i64) -> (r: Clash)
        requires
            old(self).wf(),
            old(self).stage == Stage::Encounter,
            old(self).guns > 0,
            0 <= kill,
            0 <= a <= 3,
            2 <= b <= 18,
            200 <= reward <= 1000,
            DOCTOR_RATE_LOW <= rate <= DOCTOR_RATE_HIGH,
        ensures
            final(self).wf(),
            old(self).shot(*final(self), kill as int, a as int, b as int, reward as int, rate as int),
            kill > 0 && old(self).cops == 1 ==> r == Clash::AllDown,
            !(kill > 0 && old(self).cops == 1) ==> r == Clash::UnderFire,
    {
        self.notices.push(Notice::FiringOnThem);
        if kill == 0 {
            self.notices.push(Notice::MissedThem);
            self.take_fire(a, b);
            Clash::UnderFire
        } else {
            if self.cops <= 1 {
                self.notices.push(Notice::KilledAll);
                self.fight_reward(reward);
                self.check_doctor(rate);
                self.cops = 0;
                Clash::AllDown
            } else {
                self.cops = self.cops - 1;
                self.notices.push(Notice::KilledOne);
                self.take_fire(a, b);
                Clash::UnderFire
            }
        }
    }

    /// The money found on the fallen: `amount` joins the cash, held at the money ceiling.
    pub fn fight_reward(&mut self, amount: i64)
        requires
            old(self).wf(),
            0 <= amount <= 1000,
        ensures
            final(self).wf(),
            final(self).cash == if old(self).cash + amount <= MONEY_CAP {
                old(self).cash + amount
            } else {
                MONEY_CAP as int
            },
            final(self).stage == old(self).stage,
            final(self).damage == old(self).damage,
            final(self).guns == old(self).guns,
            final(self).cops == old(self).cops,
            final(self).bank == old(self).bank,
            final(self).debt == old(self).debt,
            final(self).hold == old(self).hold,
            final(self).stash@ == old(self).stash@,
            final(self).trench_coat@ == old(self).trench_coat@,
            final(self).prices@ == old(self).prices@,
            final(self).day == old(self).day,
            final(self).days_left == old(self).days_left,
            final(self).geo == old(self).geo,
            final(self).maxloan == old(self).maxloan,
            final(self).phase == old(self).phase,
            final(self).fight_pending == old(self).fight_pending,
    {
        if self.cash <= MONEY_CAP - amount {
            self.cash = self.cash + amount;
        } else {
            self.cash = MONEY_CAP;
        }
        self.notices.push(Notice::Reward { amount });
    }

    /// Offers the doctor at `rate` (200 to 1000) per ten points of damage.
    pub fn doctor(&mut self, rate: i64)
        requires
            old(self).wf(),
            !old(self).is_over(),
            DOCTOR_RATE_LOW <= rate <= DOCTOR_RATE_HIGH,
        ensures
            final(self).wf(),
            final(self).same_trade(*old(self)),
            final(self).guns == old(self).guns,
            final(self).damage == old(self).damage,
            final(self).cops == old(self).cops,
            final(self).phase == old(self).phase,
            final(self).stage == (Stage::Doctor {
                cost: doctor_cost(old(self).damage as int, rate as int) as i64,
            }),
            final(self).notices@ == old(self).notices@,
    {
        proof {
            let d = self.damage as int;
            let r = rate as int;
            assert(0 <= d * r <= FATAL_DAMAGE * DOCTOR_RATE_HIGH) by (nonlinear_arith)
                requires
                    0 <= d < FATAL_DAMAGE,
                    DOCTOR_RATE_LOW <= r <= DOCTOR_RATE_HIGH,
            ;
        }
        let cost = self.damage * rate / 10;
        self.stage = Stage::Doctor { cost };
    }

    /// After an encounter that the player left alive: the doctor at `rate` when
    /// the damage is above 10, else the main menu.
    pub fn check_doctor(&mut self, rate: i64)
        requires
            old(self).wf(),
            !old(self).is_over(),
            DOCTOR_RATE_LOW <= rate <= DOCTOR_RATE_HIGH,
        ensures
            final(self).wf(),
            final(self).same_trade(*old(self)),
            final(self).guns == old(self).guns,
            final(self).damage == old(self).damage,
            final(self).cops == old(self).cops,
            final(self).stage == old(self).after_encounter(rate as int),
            old(self).damage > DOCTOR_THRESHOLD ==> final(self).phase == old(self).phase,
    {
        if self.damage > DOCTOR_THRESHOLD {
            self.doctor(rate);
        } else {
            self.main_menu();
        }
    }

    /// Whether the doctor's treatment goes through: the cash covers the cost.
    pub open spec fn treatment_ok(self, cost: int) -> bool {
        self.cash >= cost
    }

    /// Pays the doctor `cost` when the cash covers it, which heals all damage.
    pub fn pay_doctor(&mut self, cost: i64) -> (ok: bool)
        requires
            old(self).wf(),
            0 <= cost,
        ensures
            final(self).wf(),
            ok == old(self).treatment_ok(cost as int),
            ok ==> final(self).cash == old(self).cash - cost && final(self).damage == 0,
            !ok ==> *final(self) == *old(self),
            final(self).stage == old(self).stage,
            final(self).guns == old(self).guns,
            final(self).bank == old(self).bank,
            final(self).debt == old(self).debt,
            final(self).hold == old(self).hold,
            final(self).stash@ == old(self).stash@,
            final(self).trench_coat@ == old(self).trench_coat@,
            final(self).phase == old(self).phase,
            final(self).day == old(self).day,
            final(self).days_left == old(self).days_left,
            final(self).geo == old(self).geo,
            final(self).prices@ == old(self).prices@,
            final(self).cops == old(self).cops,
            final(self).maxloan == old(self).maxloan,
            final(self).fight_pending == old(self).fight_pending,
    {
        if self.cash >= cost {
            self.cash = self.cash - cost;
            self.damage = 0;
            true
        } else {
            false
        }
    }
}

} // verus!
