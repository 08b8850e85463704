use vstd::prelude::*;
use crate::commodity::{Drug, NUM_DRUGS};
use crate::game::{
    GameState, Notice, Stage, sum6, QTY_CAP, MONEY_CAP, GUN_MODELS, GUN_PRICE_LOW, GUN_PRICE_HIGH,
    COAT_SPACE_LOW, COAT_SPACE_HIGH, COAT_PRICE_LOW, COAT_PRICE_HIGH,
};
use crate::market::raised;
use crate::random::roll;

verus! {

/// The random events of a day.
#[derive(Clone, Copy, PartialEq, Eq, Structural, Debug)]
pub enum Event {
    /// Part of the carried weed is used up.
    Brownies,
    /// Weed of doubtful quality is offered; smoking it ends the game.
    Paraquat,
    /// A fifth of the cash is lost.
    Mugged,
    /// Cocaine costs six times as much.
    CokeBust,
    /// Heroin costs six times as much.
    Addicts,
    /// Weed costs a fifth.
    WeedBottomOut,
    /// Part of every carried commodity is dropped.
    PoliceDogs,
    /// Cocaine costs a sixth.
    CheapCocaine,
    /// Heroin costs a sixth.
    CheapHeroin,
    /// Some units of one commodity are found.
    FindDrugs,
    /// Ludes cost a sixth.
    CheapLudes,
    /// Acid costs a tenth.
    CheapAcid,
    /// A gun is offered.
    GunSale,
    /// A bigger coat is offered.
    CoatSale,
}

/// Free capacity that separates the police-dogs event from the lucky find.
pub const CAPACITY_GATE: i64 = 32;
/// Largest number of units a lucky find brings.
pub const FIND_MAX: i64 = 32;

/// Whether event `e` waits for the player's answer.
pub open spec fn waits_for_answer(e: Event) -> bool {
    e == Event::Paraquat || e == Event::GunSale || e == Event::CoatSale
}

/// The commodity whose price event `e` changes, if any.
pub open spec fn price_target(e: Event) -> Option<Drug> {
    match e {
        Event::CokeBust | Event::CheapCocaine => Some(Drug::Cocaine),
        Event::Addicts | Event::CheapHeroin => Some(Drug::Heroin),
        Event::WeedBottomOut => Some(Drug::Weed),
        Event::CheapLudes => Some(Drug::Ludes),
        Event::CheapAcid => Some(Drug::Acid),
        _ => None,
    }
}

/// A count after losing the part `1/n` of it, rounded down.
pub open spec fn after_loss(q: int, n: int) -> int {
    q - q / n
}

impl GameState {
    /// The events that may fire in this state, in the order they are drawn from.
    pub open spec fn event_pool(self) -> Seq<Event> {
        (if self.coat(Drug::Weed) > 1 {
            seq![Event::Brownies]
        } else {
            Seq::empty()
        }) + (if self.hold < CAPACITY_GATE {
            seq![Event::PoliceDogs]
        } else {
            Seq::empty()
        }) + (if self.hold > CAPACITY_GATE {
            seq![Event::FindDrugs]
        } else {
            Seq::empty()
        }) + seq![
            Event::Paraquat,
            Event::Mugged,
            Event::CokeBust,
            Event::Addicts,
            Event::WeedBottomOut,
            Event::CoatSale,
            Event::CheapHeroin,
            Event::CheapCocaine,
            Event::CheapLudes,
            Event::CheapAcid,
            Event::GunSale,
        ]
    }

    /// The events that may fire in this state.
    pub fn possible_events(&self) -> (r: Vec<Event>)
        requires
            self.wf(),
        ensures
            r@ == self.event_pool(),
    {
        let mut v: Vec<Event> = Vec::new();
        if self.trench_coat[Drug::Weed.index()] > 1 {
            v.push(Event::Brownies);
        }
        if self.hold < CAPACITY_GATE {
            v.push(Event::PoliceDogs);
        }
        if self.hold > CAPACITY_GATE {
            v.push(Event::FindDrugs);
        }
        v.push(Event::Paraquat);
        v.push(Event::Mugged);
        v.push(Event::CokeBust);
        v.push(Event::Addicts);
        v.push(Event::WeedBottomOut);
        v.push(Event::CoatSale);
        v.push(Event::CheapHeroin);
        v.push(Event::CheapCocaine);
        v.push(Event::CheapLudes);
        v.push(Event::CheapAcid);
        v.push(Event::GunSale);
        assert(v@ =~= self.event_pool());
        v
    }

    /// Everything but the goods and the notices is as in `o`.
    pub open spec fn same_but_goods(self, o: Self) -> bool {
        &&& self.same_money(o)
        &&& self.stage == o.stage
        &&& self.stash@ == o.stash@
    }

    /// Your mama used `1/n` of the carried weed; its room is free again.
    pub fn brownies(&mut self, n: i64)
        requires
            old(self).wf(),
            1 <= n <= 5,
        ensures
            final(self).wf(),
            final(self).same_but_goods(*old(self)),
            final(self).trench_coat@ == old(self).trench_coat@.update(
                Drug::Weed.idx(),
                after_loss(old(self).coat(Drug::Weed), n as int) as i64,
            ),
            final(self).hold == old(self).hold + old(self).coat(Drug::Weed) / n as int,
            final(self).capacity() == old(self).capacity(),
    {
        let i = Drug::Weed.index();
        let w = self.trench_coat[i];
        let dropped = w / n;
        proof {
            assert(0 <= dropped <= w) by (nonlinear_arith)
                requires
                    0 <= w,
                    1 <= n,
                    dropped == w / n,
            ;
            assert(sum6(self.trench_coat@.update(i as int, (w - dropped) as i64)) == sum6(
                self.trench_coat@,
            ) - dropped);
        }
        self.trench_coat.set(i, w - dropped);
        self.hold = self.hold + dropped;
        self.notices.push(Notice::Brownies);
    }

    /// Mugged in the subway: a fifth of the cash is gone, rounded in the thief's favour.
    pub fn mugged(&mut self)
        requires
            old(self).wf(),
        ensures
            final(self).wf(),
            final(self).cash == old(self).cash * 4 / 5,
            final(self).same_world(*old(self)),
            final(self).bank == old(self).bank,
            final(self).debt == old(self).debt,
            final(self).hold == old(self).hold,
            final(self).stash@ == old(self).stash@,
            final(self).trench_coat@ == old(self).trench_coat@,
            final(self).stage == old(self).stage,
    {
        self.cash = self.cash * 4 / 5;
        self.notices.push(Notice::Mugged);
    }

    /// Police dogs chase you: of every carried commodity the part `1/n` is
    /// dropped, and its room is free again.
    pub fn policedogs(&mut self, n: i64)
        requires
            old(self).wf(),
            2 <= n <= 5,
        ensures
            final(self).wf(),
            final(self).same_but_goods(*old(self)),
            forall|i: int|
                0 <= i < NUM_DRUGS ==> #[trigger] final(self).trench_coat@[i] == after_loss(
                    old(self).trench_coat@[i] as int,
                    n as int,
                ),
            final(self).capacity() == old(self).capacity(),
    {
        let mut i: usize = 0;
        while i < NUM_DRUGS
            invariant
                0 <= i <= NUM_DRUGS,
                2 <= n <= 5,
                old(self).wf(),
                self.wf(),
                self.same_but_goods(*old(self)),
                self.capacity() == old(self).capacity(),
                forall|j: int|
                    0 <= j < i ==> #[trigger] self.trench_coat@[j] == after_loss(
                        old(self).trench_coat@[j] as int,
                        n as int,
                    ),
                forall|j: int|
                    i <= j < NUM_DRUGS ==> #[trigger] self.trench_coat@[j]
                        == old(self).trench_coat@[j],
            decreases NUM_DRUGS - i,
        {
            let q = self.trench_coat[i];
            let dropped = q / n;
            proof {
                assert(0 <= dropped <= q) by (nonlinear_arith)
                    requires
                        0 <= q,
                        1 <= n,
                        dropped == q / n,
                ;
                assert(sum6(self.trench_coat@.update(i as int, (q - dropped) as i64)) == sum6(
                    self.trench_coat@,
                ) - dropped);
            }
            self.trench_coat.set(i, q - dropped);
            self.hold = self.hold + dropped;
            i = i + 1;
        }
        self.notices.push(Notice::PoliceDogs { blocks: n });
    }

    /// Found `n` units of `d` on a dead dude: they go into the coat and take
    /// as much room. The event is only drawn while more than 32 units of room
    /// are free, so the room never runs out.
    pub fn finddrugs(&mut self, d: Drug, n: i64)
        requires
            old(self).wf(),
            old(self).hold > CAPACITY_GATE,
            1 <= n <= FIND_MAX,
        ensures
            final(self).wf(),
            final(self).same_but_goods(*old(self)),
            final(self).trench_coat@ == old(self).trench_coat@.update(
                d.idx(),
                (old(self).coat(d) + n) as i64,
            ),
            final(self).hold == old(self).hold - n,
            final(self).hold > 0,
            final(self).capacity() == old(self).capacity(),
    {
        let i = d.index();
        let q = self.trench_coat[i];
        proof {
            assert(0 <= self.trench_coat@[0] && 0 <= self.trench_coat@[1] && 0
                <= self.trench_coat@[2] && 0 <= self.trench_coat@[3] && 0 <= self.trench_coat@[4]
                && 0 <= self.trench_coat@[5]);
            assert(sum6(self.trench_coat@.update(i as int, (q + n) as i64)) == sum6(
                self.trench_coat@,
            ) + n);
        }
        self.trench_coat.set(i, q + n);
        self.hold = self.hold - n;
        self.notices.push(Notice::FoundDrugs { drug: d, amount: n });
    }

    /// Offers gun model `gun` at `price`; the answer comes at the `GunOffer` stage.
    pub fn gunsale(&mut self, gun: usize, price: i64)
        requires
            old(self).wf(),
            !old(self).is_over(),
            gun < GUN_MODELS,
            GUN_PRICE_LOW <= price <= GUN_PRICE_HIGH,
        ensures
            final(self).wf(),
            final(self).same_money(*old(self)),
            final(self).stage == (Stage::GunOffer { gun, price }),
            final(self).hold == old(self).hold,
            final(self).stash@ == old(self).stash@,
            final(self).trench_coat@ == old(self).trench_coat@,
            final(self).notices@ == old(self).notices@,
    {
        self.stage = Stage::GunOffer { gun, price };
    }

    /// Offers a coat with `space` more room at `price`; the answer comes at the
    /// `CoatOffer` stage.
    pub fn coatsale(&mut self, space: i64, price: i64)
        requires
            old(self).wf(),
            !old(self).is_over(),
            COAT_SPACE_LOW <= space <= COAT_SPACE_HIGH,
            COAT_PRICE_LOW <= price <= COAT_PRICE_HIGH,
        ensures
            final(self).wf(),
            final(self).same_money(*old(self)),
            final(self).stage == (Stage::CoatOffer { space, price }),
            final(self).hold == old(self).hold,
            final(self).stash@ == old(self).stash@,
            final(self).trench_coat@ == old(self).trench_coat@,
            final(self).notices@ == old(self).notices@,
    {
        self.stage = Stage::CoatOffer { space, price };
    }

    /// Whether buying the offered gun goes through.
    pub open spec fn gun_affordable(self, price: int) -> bool {
        self.cash >= price && self.guns < QTY_CAP
    }

    /// Whether buying the offered coat goes through.
    pub open spec fn coat_affordable(self, space: int, price: int) -> bool {
        self.cash >= price && self.capacity() + space <= QTY_CAP
    }

    /// Pays for the offered gun when the cash allows it.
    pub fn buy_gun(&mut self, price: i64) -> (ok: bool)
        requires
            old(self).wf(),
            0 <= price <= MONEY_CAP,
        ensures
            final(self).wf(),
            ok == old(self).gun_affordable(price as int),
            ok ==> final(self).cash == old(self).cash - price && final(self).guns == old(self).guns + 1,
            !ok ==> *final(self) == *old(self),
            final(self).hold == old(self).hold,
            final(self).stash@ == old(self).stash@,
            final(self).trench_coat@ == old(self).trench_coat@,
            final(self).stage == old(self).stage,
            final(self).bank == old(self).bank,
            final(self).debt == old(self).debt,
            final(self).damage == old(self).damage,
            final(self).phase == old(self).phase,
            final(self).fight_pending == old(self).fight_pending,
            final(self).prices@ == old(self).prices@,
            final(self).day == old(self).day,
            final(self).days_left == old(self).days_left,
            final(self).geo == old(self).geo,
            final(self).cops == old(self).cops,
            final(self).maxloan == old(self).maxloan,
    {
        if self.cash >= price && self.guns < QTY_CAP {
            self.cash = self.cash - price;
            self.guns = self.guns + 1;
            true
        } else {
            false
        }
    }

    /// Pays for the offered coat when the cash allows it; the coat has `space` more room.
    pub fn buy_coat(&mut self, space: i64, price: i64) -> (ok: bool)
        requires
            old(self).wf(),
            0 <= price <= MONEY_CAP,
            0 <= space <= QTY_CAP,
        ensures
            final(self).wf(),
            ok == old(self).coat_affordable(space as int, price as int),
            ok ==> final(self).cash == old(self).cash - price && final(self).hold == old(self).hold + space,
            ok ==> final(self).capacity() == old(self).capacity() + space,
            !ok ==> *final(self) == *old(self),
            final(self).guns == old(self).guns,
            final(self).stash@ == old(self).stash@,
            final(self).trench_coat@ == old(self).trench_coat@,
            final(self).stage == old(self).stage,
            final(self).bank == old(self).bank,
            final(self).debt == old(self).debt,
            final(self).damage == old(self).damage,
            final(self).phase == old(self).phase,
            final(self).fight_pending == old(self).fight_pending,
            final(self).prices@ == old(self).prices@,
            final(self).day == old(self).day,
            final(self).days_left == old(self).days_left,
            final(self).geo == old(self).geo,
            final(self).cops == old(self).cops,
            final(self).maxloan == old(self).maxloan,
    {
        let carried = self.trench_coat[0] + self.trench_coat[1] + self.trench_coat[2]
            + self.trench_coat[3] + self.trench_coat[4] + self.trench_coat[5];
        if self.cash >= price && carried + self.hold <= QTY_CAP - space {
            self.cash = self.cash - price;
            self.hold = self.hold + space;
            true
        } else {
            false
        }
    }

    /// What no event touches: the stash, the bank, the debt, the guns, the
    /// damage, the opponents and the calendar.
    pub open spec fn keeps_for_event(self, new: Self) -> bool {
        &&& new.stash@ == self.stash@
        &&& new.bank == self.bank
        &&& new.debt == self.debt
        &&& new.guns == self.guns
        &&& new.damage == self.damage
        &&& new.cops == self.cops
        &&& new.day == self.day
        &&& new.days_left == self.days_left
        &&& new.geo == self.geo
        &&& new.maxloan == self.maxloan
        &&& new.phase == self.phase
        &&& new.fight_pending == self.fight_pending
        &&& new.capacity() == self.capacity()
    }

    /// Room, coat and cash are as before.
    pub open spec fn keeps_goods_cash(self, new: Self) -> bool {
        &&& new.hold == self.hold
        &&& new.trench_coat@ == self.trench_coat@
        &&& new.cash == self.cash
    }

    /// Room, coat, cash and stage are as before; only prices may differ.
    pub open spec fn quiet(self, new: Self) -> bool {
        &&& self.keeps_goods_cash(new)
        &&& new.stage == self.stage
    }

    /// `new` is `self` after the part `1/n` of the carried weed was used up.
    pub open spec fn spoiled_by(self, new: Self, n: int) -> bool {
        &&& new.trench_coat@ == self.trench_coat@.update(
            Drug::Weed.idx(),
            after_loss(self.coat(Drug::Weed), n) as i64,
        )
        &&& new.hold == self.hold + self.coat(Drug::Weed) / n
    }

    /// `new` is `self` after the part `1/n` of every carried commodity was dropped.
    pub open spec fn dropped_by(self, new: Self, n: int) -> bool {
        &&& new.trench_coat@.len() == NUM_DRUGS
        &&& forall|i: int|
            0 <= i < NUM_DRUGS ==> #[trigger] new.trench_coat@[i] == after_loss(
                self.trench_coat@[i] as int,
                n,
            )
        &&& new.capacity() == self.capacity()
    }

    /// `new` is `self` after `n` units of `d` were found.
    pub open spec fn found_by(self, new: Self, d: Drug, n: int) -> bool {
        &&& new.trench_coat@ == self.trench_coat@.update(d.idx(), (self.coat(d) + n) as i64)
        &&& new.hold == self.hold - n
    }

    /// `new` is `self` with today's price of `d` set to `p`.
    pub open spec fn price_set(self, new: Self, d: Drug, p: int) -> bool {
        new.prices@ == self.prices@.update(d.idx(), p as i64)
    }

    /// `new` is `self` after event `e`, for some draw within the event's ranges.
    pub open spec fn event_applied(self, new: Self, e: Event) -> bool {
        &&& self.keeps_for_event(new)
        &&& match e {
            Event::Brownies => (exists|n: int| 1 <= n <= 5 && #[trigger] self.spoiled_by(new, n))
                && new.cash == self.cash && new.prices@ == self.prices@ && new.stage == self.stage,
            Event::PoliceDogs => (exists|n: int|
                2 <= n <= 5 && #[trigger] self.dropped_by(new, n)) && new.cash == self.cash
                && new.prices@ == self.prices@ && new.stage == self.stage,
            Event::FindDrugs => (exists|d: Drug, n: int|
                1 <= n <= FIND_MAX && #[trigger] self.found_by(new, d, n)) && new.cash == self.cash
                && new.prices@ == self.prices@ && new.stage == self.stage,
            Event::Paraquat => self.keeps_goods_cash(new) && new.prices@ == self.prices@
                && new.stage == Stage::Paraquat,
            Event::GunSale => self.keeps_goods_cash(new) && new.prices@ == self.prices@
                && new.stage is GunOffer,
            Event::CoatSale => self.keeps_goods_cash(new) && new.prices@ == self.prices@
                && new.stage is CoatOffer,
            Event::Mugged => new.cash == self.cash * 4 / 5 && new.hold == self.hold
                && new.trench_coat@ == self.trench_coat@ && new.prices@ == self.prices@
                && new.stage == self.stage,
            Event::CokeBust => self.quiet(new) && self.price_set(
                new,
                Drug::Cocaine,
                raised(self.price(Drug::Cocaine), 6),
            ),
            Event::Addicts => self.quiet(new) && self.price_set(
                new,
                Drug::Heroin,
                raised(self.price(Drug::Heroin), 6),
            ),
            Event::WeedBottomOut => self.quiet(new) && self.price_set(
                new,
                Drug::Weed,
                self.price(Drug::Weed) / 5,
            ),
            Event::CheapCocaine => self.quiet(new) && self.price_set(
                new,
                Drug::Cocaine,
                self.price(Drug::Cocaine) / 6,
            ),
            Event::CheapHeroin => self.quiet(new) && self.price_set(
                new,
                Drug::Heroin,
                self.price(Drug::Heroin) / 6,
            ),
            Event::CheapLudes => self.quiet(new) && self.price_set(
                new,
                Drug::Ludes,
                self.price(Drug::Ludes) / 6,
            ),
            Event::CheapAcid => self.quiet(new) && self.price_set(
                new,
                Drug::Acid,
                self.price(Drug::Acid) / 10,
            ),
        }
    }

    /// Applies event `e`, drawing what it needs at random. Returns whether the
    /// event waits for the player's answer (an offer); the stage then says which.
    pub fn apply_event(&mut self, e: Event) -> (waits: bool)
        requires
            old(self).wf(),
            !old(self).is_over(),
            old(self).event_pool().contains(e),
        ensures
            final(self).wf(),
            !final(self).is_over(),
            old(self).event_applied(*final(self), e),
            waits == waits_for_answer(e),
    {
        proof {
            self.lemma_event_gates();
        }
        match e {
            Event::Brownies => {
                let n = roll(1, 5);
                self.brownies(n);
                assert(old(self).spoiled_by(*self, n as int));
                false
            },
            Event::Paraquat => {
                self.stage = Stage::Paraquat;
                true
            },
            Event::Mugged => {
                self.mugged();
                false
            },
            Event::CokeBust => {
                self.raise_price(Drug::Cocaine, 6);
                self.notices.push(Notice::CokeBust);
                false
            },
            Event::Addicts => {
                self.raise_price(Drug::Heroin, 6);
                self.notices.push(Notice::Addicts);
                false
            },
            Event::WeedBottomOut => {
                self.cut_price(Drug::Weed, 5);
                self.notices.push(Notice::WeedBottomOut);
                false
            },
            Event::PoliceDogs => {
                let n = roll(2, 5);
                self.policedogs(n);
                assert(old(self).dropped_by(*self, n as int));
                false
            },
            Event::CheapCocaine => {
                self.cut_price(Drug::Cocaine, 6);
                self.notices.push(Notice::CheapCocaine);
                false
            },
            Event::CheapHeroin => {
                self.cut_price(Drug::Heroin, 6);
                self.notices.push(Notice::CheapHeroin);
                false
            },
            Event::FindDrugs => {
                let n = roll(1, FIND_MAX);
                let k = roll(0, 5);
                let d = Drug::from_index(k as usize);
                self.finddrugs(d, n);
                assert(old(self).found_by(*self, d, n as int));
                false
            },
            Event::CheapLudes => {
                self.cut_price(Drug::Ludes, 6);
                self.notices.push(Notice::CheapLudes);
                false
            },
            Event::CheapAcid => {
                self.cut_price(Drug::Acid, 10);
                self.notices.push(Notice::CheapAcid);
                false
            },
            Event::GunSale => {
                let gun = roll(0, (GUN_MODELS - 1) as i64);
                let price = roll(GUN_PRICE_LOW, GUN_PRICE_HIGH);
                self.gunsale(gun as usize, price);
                true
            },
            Event::CoatSale => {
                let space = roll(COAT_SPACE_LOW, COAT_SPACE_HIGH);
                let price = roll(COAT_PRICE_LOW, COAT_PRICE_HIGH);
                self.coatsale(space, price);
                true
            },
        }
    }

    /// Each gated event is in the pool only when its condition holds: spoilage
    /// only with more than one unit of weed carried, police dogs only with less
    /// than 32 units of room free, the lucky find only with more than 32.
    pub proof fn lemma_event_gates(self)
        ensures
            self.event_pool().contains(Event::Brownies) ==> self.coat(Drug::Weed) > 1,
            self.event_pool().contains(Event::PoliceDogs) ==> self.hold < CAPACITY_GATE,
            self.event_pool().contains(Event::FindDrugs) ==> self.hold > CAPACITY_GATE,
            11 <= self.event_pool().len() <= 13,
    {
        let tail = seq![
            Event::Paraquat,
            Event::Mugged,
            Event::CokeBust,
            Event::Addicts,
            Event::WeedBottomOut,
            Event::CoatSale,
            Event::CheapHeroin,
            Event::CheapCocaine,
            Event::CheapLudes,
            Event::CheapAcid,
            Event::GunSale,
        ];
        assert(!tail.contains(Event::Brownies) && !tail.contains(Event::PoliceDogs)
            && !tail.contains(Event::FindDrugs)) by {
            assert forall|k: int| 0 <= k < tail.len() implies tail[k] != Event::Brownies
                && tail[k] != Event::PoliceDogs && tail[k] != Event::FindDrugs by {}
        }
    }
}

} // verus!
