use vstd::prelude::*;
use crate::commodity::{Drug, Location, NUM_DRUGS, drug_at, drug_for_key, location_for_key};
use crate::encounter::{Clash, chase_chance};
use crate::events::{Event, price_target, waits_for_answer};
use crate::game::{
    menu_for, GameState, Notice, Phase, Stage, DOCTOR_RATE_LOW, DOCTOR_RATE_HIGH, FATAL_DAMAGE, MONEY_CAP,
};
use crate::inventory::Direction;
use crate::random::roll;
use crate::turn::{compound, DEBT_RATE, BANK_RATE};

verus! {

/// One answer of the player.
#[derive(Clone, Copy, PartialEq, Eq, Structural, Debug)]
pub enum Input {
    /// A single key.
    Key(char),
    /// A whole amount.
    Number(i64),
    /// The player interrupts the game.
    Quit,
}

/// The key that interrupts the game (Ctrl-C).
pub const INTERRUPT: char = '\u{3}';

impl Input {
    /// A key other than the interrupt.
    pub open spec fn is_plain_key(self) -> bool {
        match self {
            Input::Key(c) => c != INTERRUPT,
            _ => false,
        }
    }
}

pub open spec fn is_yes(c: char) -> bool {
    c == 'y' || c == 'Y'
}

pub open spec fn is_no(c: char) -> bool {
    c == 'n' || c == 'N'
}

/// Whether `new` stands where a day may stand once its event and encounter
/// check are done: an offer, an encounter, or the main menu `menu`.
pub open spec fn at_day_stage(new: GameState, menu: Stage) -> bool {
    new.stage is Paraquat || new.stage is GunOffer || new.stage is CoatOffer || new.stage
        == Stage::Encounter || new.stage == menu
}

impl GameState {
    /// `new` follows `self` once an event is settled: the encounter check when
    /// one is owed, else the main menu.
    pub open spec fn event_followed(self, new: Self) -> bool {
        &&& !new.is_over()
        &&& !new.fight_pending
        &&& new.stage == Stage::Encounter || new.stage == self.menu_stage()
        &&& !self.fight_pending ==> new.stage == self.menu_stage()
        &&& self.fight_pending ==> exists|draw: int|
            1 <= draw <= 100 && #[trigger] self.checked(new, draw)
        &&& new.stage == Stage::Encounter ==> new.phase == self.phase
        &&& new.prices@ == self.prices@
        &&& new.stash@ == self.stash@
        &&& new.trench_coat@ == self.trench_coat@
        &&& new.cash == self.cash
        &&& new.bank == self.bank
        &&& new.debt == self.debt
        &&& new.hold == self.hold
        &&& new.day == self.day
        &&& new.days_left == self.days_left
        &&& new.geo == self.geo
        &&& new.guns == self.guns
        &&& new.damage == self.damage
        &&& new.maxloan == self.maxloan
    }

    /// `new` is `self` after a day's event `e` and what follows it.
    pub open spec fn day_opened(self, new: Self, e: Event) -> bool {
        &&& self.event_pool().contains(e)
        &&& !new.is_over()
        &&& exists|mid: GameState|
            #[trigger] self.event_applied(mid, e) && if waits_for_answer(e) {
                new == mid
            } else {
                mid.event_followed(new)
            }
        &&& at_day_stage(new, self.menu_stage())
        &&& new.stage != self.menu_stage() ==> new.phase == self.phase
        &&& new.day == self.day
        &&& new.days_left == self.days_left
        &&& new.geo == self.geo
        &&& new.bank == self.bank
        &&& new.debt == self.debt
        &&& new.guns == self.guns
        &&& new.damage == self.damage
        &&& new.stash@ == self.stash@
        &&& new.capacity() == self.capacity()
        &&& forall|i: int|
            0 <= i < NUM_DRUGS && price_target(e) != Some(drug_at(i)) ==> #[trigger] new.prices@[i]
                == self.prices@[i]
    }

    /// `new` is `self` after travel started a new day, whose event is `r`
    /// (none when no day was left). `menu` and `phase` are the main menu and
    /// phase of `self` once the travel is done.
    pub open spec fn day_passed(self, new: Self, r: Option<Event>, menu: Stage, phase: Phase) -> bool {
        &&& new.days_left == self.days_left - 1
        &&& (r is None) == new.is_over()
        &&& (r is None) == (new.days_left <= 0)
        &&& r is None ==> {
            &&& new.day == self.day
            &&& new.debt == self.debt
            &&& new.bank == self.bank
            &&& new.cash == self.cash
            &&& new.prices@ == self.prices@
            &&& new.hold == self.hold
            &&& new.stash@ == self.stash@
            &&& new.trench_coat@ == self.trench_coat@
        }
        &&& r is Some ==> exists|mid: GameState|
            {
                &&& #[trigger] mid.day_opened(new, r->0)
                &&& mid.fight_pending
                &&& mid.day == self.day + 1
                &&& mid.days_left == self.days_left - 1
                &&& mid.debt == compound(self.debt as int, DEBT_RATE as int)
                &&& mid.bank == compound(self.bank as int, BANK_RATE as int)
                &&& mid.cash == self.cash
                &&& mid.hold == self.hold
                &&& mid.stash@ == self.stash@
                &&& mid.trench_coat@ == self.trench_coat@
                &&& mid.guns == self.guns
                &&& mid.damage == self.damage
                &&& mid.menu_stage() == menu
                &&& mid.phase == phase
                &&& forall|i: int|
                    0 <= i < NUM_DRUGS ==> drug_at(i).low() * 10 <= #[trigger] mid.prices@[i]
                        <= drug_at(i).high() * 10
            }
        &&& r is Some ==> {
            &&& new.day == self.day + 1
            &&& new.debt == compound(self.debt as int, DEBT_RATE as int)
            &&& new.bank == compound(self.bank as int, BANK_RATE as int)
            &&& self.event_pool().contains(r->0)
            &&& at_day_stage(new, menu)
            &&& new.stage != menu ==> new.phase == phase
            &&& new.stash@ == self.stash@
            &&& new.guns == self.guns
            &&& new.damage == self.damage
            &&& new.capacity() == self.capacity()
            &&& forall|i: int|
                0 <= i < NUM_DRUGS && price_target(r->0) != Some(drug_at(i)) ==> {
                    &&& drug_at(i).low() * 10 <= #[trigger] new.prices@[i] <= drug_at(i).high()
                        * 10
                    &&& new.prices@[i] % 10 == 0
                }
        }
    }

    /// Whether play goes on after the key `key` closes a pause: every key but
    /// the interrupt does.
    pub fn wait_for_key_press(key: char) -> (goes_on: bool)
        ensures
            goes_on == (key != INTERRUPT),
    {
        key != INTERRUPT
    }

    /// The commodity that a menu letter picks, in either case.
    pub fn get_drug_from_char(c: char) -> (r: Option<Drug>)
        ensures
            r == drug_for_key(c),
    {
        match c {
            'c' | 'C' => Some(Drug::Cocaine),
            'h' | 'H' => Some(Drug::Heroin),
            'a' | 'A' => Some(Drug::Acid),
            'w' | 'W' => Some(Drug::Weed),
            's' | 'S' => Some(Drug::Speed),
            'l' | 'L' => Some(Drug::Ludes),
            _ => None,
        }
    }

    /// Ends the game where it stands.
    pub fn quit(&mut self)
        requires
            old(self).wf(),
        ensures
            final(self).wf(),
            final(self).is_over(),
            final(self).same_goods(*old(self)),
    {
        self.stage = Stage::GameOver;
    }

    /// Draws one event from the pool of this state and applies it.
    pub fn roll_event(&mut self) -> (r: (Event, bool))
        requires
            old(self).wf(),
            !old(self).is_over(),
        ensures
            final(self).wf(),
            !final(self).is_over(),
            old(self).event_pool().contains(r.0),
            old(self).event_applied(*final(self), r.0),
            r.1 == waits_for_answer(r.0),
    {
        let pool = self.possible_events();
        proof {
            self.lemma_event_gates();
        }
        let k = roll(0, (pool.len() - 1) as i64);
        let e = pool[k as usize];
        let waits = self.apply_event(e);
        (e, waits)
    }

    /// What follows an event: the day's encounter check when one is owed,
    /// else the main menu.
    pub fn after_event(&mut self)
        requires
            old(self).wf(),
            !old(self).is_over(),
        ensures
            final(self).wf(),
            old(self).event_followed(*final(self)),
    {
        if self.fight_pending {
            self.fight_pending = false;
            let ghost before = *self;
            self.roll_fight();
            proof {
                let draw = choose|draw: int| 1 <= draw <= 100 && #[trigger] before.checked(*self, draw);
                assert(old(self).checked(*self, draw));
            }
        } else {
            self.main_menu();
        }
    }

    /// The day's encounter check on a fresh draw; without an encounter, the main menu.
    pub fn roll_fight(&mut self)
        requires
            old(self).wf(),
            !old(self).is_over(),
        ensures
            final(self).wf(),
            !final(self).is_over(),
            final(self).stage == Stage::Encounter || old(self).menu_shown(*final(self)),
            final(self).stage == Stage::Encounter ==> final(self).phase == old(self).phase,
            exists|draw: int| 1 <= draw <= 100 && #[trigger] old(self).checked(*final(self), draw),
            final(self).same_trade(*old(self)),
            final(self).guns == old(self).guns,
            final(self).damage == old(self).damage,
    {
        let draw = roll(1, 100);
        if !self.encounter_check(draw) {
            self.main_menu();
        }
        assert(old(self).checked(*self, draw as int));
    }

    /// The event of a day, then what follows it. Returns the event.
    fn open_day(&mut self) -> (e: Event)
        requires
            old(self).wf(),
            !old(self).is_over(),
        ensures
            final(self).wf(),
            old(self).day_opened(*final(self), e),
    {
        let (e, waits) = self.roll_event();
        let ghost mid = *self;
        if !waits {
            self.after_event();
        }
        assert(old(self).event_applied(mid, e));
        proof {
            assert forall|i: int|
                0 <= i < NUM_DRUGS && price_target(e) != Some(drug_at(i)) implies #[trigger] self.prices@[i]
                == old(self).prices@[i] by {
                assert(drug_at(i).idx() == i);
            }
        }
        e
    }

    /// Travel has happened: a new day begins. When no day is left the game is
    /// over; otherwise the prices are rolled anew, interest is applied, one
    /// event fires and the encounter check follows. Returns the day's event.
    pub fn new_day(&mut self) -> (r: Option<Event>)
        requires
            old(self).wf(),
            !old(self).is_over(),
        ensures
            final(self).wf(),
            final(self).geo == old(self).geo,
            old(self).day_passed(
                *final(self),
                r,
                menu_for(old(self).phase, (old(self).day + 1) as i64),
                old(self).phase,
            ),
    {
        if self.pass_day() {
            self.roll_prices();
            self.fight_pending = true;
            let ghost mid = *self;
            let e = self.open_day();
            assert(mid.day_opened(*self, e));
            Some(e)
        } else {
            None
        }
    }

    /// Post-state of `start_game`.
    pub open spec fn after_start_game(self, new: Self, reply: char) -> bool {
        if is_yes(reply) {
            new.same_goods(self) && new.stage == Stage::Rules
        } else if is_no(reply) {
            exists|e: Event| #[trigger] self.day_opened(new, e)
        } else {
            new == self
        }
    }

    /// Answer to "do you want instructions?": yes shows them, no starts the
    /// game with its first event.
    pub fn start_game(&mut self, reply: char)
        requires
            old(self).wf(),
            old(self).stage == Stage::Instructions,
        ensures
            final(self).wf(),
            old(self).after_start_game(*final(self), reply),
    {
        if reply == 'y' || reply == 'Y' {
            self.stage = Stage::Rules;
        } else if reply == 'n' || reply == 'N' {
            self.open_day();
        }
    }

    /// Post-state of `instructions`.
    pub open spec fn after_instructions(self, new: Self) -> bool {
        exists|e: Event| #[trigger] self.day_opened(new, e)
    }

    /// The instructions were read: the game starts with its first event.
    pub fn instructions(&mut self)
        requires
            old(self).wf(),
            old(self).stage == Stage::Rules,
        ensures
            final(self).wf(),
            old(self).after_instructions(*final(self)),
    {
        self.open_day();
    }

    /// `new` is `self` with only the stage set to `st` on a yes, `sn` on a
    /// no, and unchanged on any other key.
    pub open spec fn yes_no_step(self, new: Self, reply: char, sy: Stage, sn: Stage) -> bool {
        if is_yes(reply) {
            new.same_goods(self) && new.stage == sy
        } else if is_no(reply) {
            new.same_goods(self) && new.stage == sn
        } else {
            new == self
        }
    }

    /// Answer to "visit the loan shark?": yes asks for a repayment, no moves on
    /// to the stash; other keys are ignored.
    pub fn loan(&mut self, reply: char)
        requires
            old(self).wf(),
            old(self).stage == Stage::LoanShark,
        ensures
            final(self).wf(),
            old(self).yes_no_step(*final(self), reply, Stage::Repay, Stage::TransferStash),
    {
        if reply == 'y' || reply == 'Y' {
            self.stage = Stage::Repay;
        } else if reply == 'n' || reply == 'N' {
            self.stage = Stage::TransferStash;
        }
    }

    /// Post-state of `repay`.
    pub open spec fn after_repay(self, new: Self, amount: int) -> bool {
        if self.repay_ok(amount) {
            &&& new.same_world(self)
            &&& new.stage == Stage::Borrow
            &&& new.cash == self.cash - amount
            &&& new.debt == self.debt - amount
            &&& new.bank == self.bank
            &&& new.hold == self.hold
            &&& new.stash@ == self.stash@
            &&& new.trench_coat@ == self.trench_coat@
        } else {
            new == self
        }
    }

    /// Amount to repay: 0 skips to borrowing; an amount above the cash or
    /// the debt is asked again; otherwise it is paid and borrowing follows.
    pub fn repay(&mut self, amount: i64)
        requires
            old(self).wf(),
            old(self).stage == Stage::Repay,
        ensures
            final(self).wf(),
            old(self).after_repay(*final(self), amount as int),
    {
        if self.repay_debt(amount) {
            self.stage = Stage::Borrow;
        }
    }

    /// Post-state of `borrow`.
    pub open spec fn after_borrow(self, new: Self, amount: int) -> bool {
        &&& new.same_world(self)
        &&& new.bank == self.bank
        &&& new.hold == self.hold
        &&& new.stash@ == self.stash@
        &&& new.trench_coat@ == self.trench_coat@
        &&& if self.borrow_ok(amount) {
            &&& new.stage == Stage::TransferStash
            &&& new.cash == self.cash + amount
            &&& new.debt == self.debt + amount
        } else {
            &&& new.stage == Stage::Borrow
            &&& new.cash == self.cash
            &&& new.debt == self.debt
        }
    }

    /// Amount to borrow: 0 skips to the stash; a loan that keeps the debt
    /// within the limit is granted and the stash follows; a larger one is
    /// refused and asked again.
    pub fn borrow(&mut self, amount: i64)
        requires
            old(self).wf(),
            old(self).stage == Stage::Borrow,
        ensures
            final(self).wf(),
            old(self).after_borrow(*final(self), amount as int),
    {
        if self.borrow_money(amount) {
            self.stage = Stage::TransferStash;
        } else {
            self.notices.push(Notice::LoanRefused);
        }
    }

    /// Answer to "transfer to the stash?": yes asks which commodity, no moves on
    /// to the bank; other keys are ignored.
    pub fn stash(&mut self, reply: char)
        requires
            old(self).wf(),
            old(self).stage == Stage::TransferStash,
        ensures
            final(self).wf(),
            old(self).yes_no_step(*final(self), reply, Stage::StashWhich, Stage::VisitBank),
    {
        if reply == 'y' || reply == 'Y' {
            self.stage = Stage::StashWhich;
        } else if reply == 'n' || reply == 'N' {
            self.stage = Stage::VisitBank;
        }
    }

    /// Post-state of `stashing`.
    pub open spec fn after_stashing(self, new: Self, reply: char) -> bool {
        &&& new.same_goods(self)
        &&& new.stage == match drug_for_key(reply) {
            Some(d) => Stage::StashDeposit(d),
            None => Stage::TransferStash,
        }
    }

    /// Which commodity to move: a known letter asks how much to stash, any
    /// other key goes back to the stash question.
    pub fn stashing(&mut self, reply: char)
        requires
            old(self).wf(),
            old(self).stage == Stage::StashWhich,
        ensures
            final(self).wf(),
            old(self).after_stashing(*final(self), reply),
    {
        match GameState::get_drug_from_char(reply) {
            Some(d) => {
                self.stage = Stage::StashDeposit(d);
            },
            None => {
                self.stage = Stage::TransferStash;
            },
        }
    }

    /// `new` is `self` after moving `amount` of `d` the way `dir` says, or
    /// unchanged in goods when the move is refused; money and world unchanged.
    pub open spec fn moved(self, new: Self, d: Drug, amount: int, dir: Direction) -> bool {
        &&& new.same_money(self)
        &&& if self.transfer_ok(d, amount, dir) {
            match dir {
                Direction::ToStash => {
                    &&& new.trench_coat@ == self.trench_coat@.update(
                        d.idx(),
                        (self.coat(d) - amount) as i64,
                    )
                    &&& new.stash@ == self.stash@.update(d.idx(), (self.stashed(d) + amount) as i64)
                    &&& new.hold == self.hold + amount
                },
                Direction::ToCoat => {
                    &&& new.trench_coat@ == self.trench_coat@.update(
                        d.idx(),
                        (self.coat(d) + amount) as i64,
                    )
                    &&& new.stash@ == self.stash@.update(d.idx(), (self.stashed(d) - amount) as i64)
                    &&& new.hold == self.hold - amount
                },
            }
        } else {
            &&& new.hold == self.hold
            &&& new.stash@ == self.stash@
            &&& new.trench_coat@ == self.trench_coat@
        }
    }

    /// Amount of `d` to move from the coat into the stash: an accepted transfer
    /// (0 included) goes on to taking; a rejected one back to the stash question.
    pub fn stash_deposit(&mut self, d: Drug, amount: i64)
        requires
            old(self).wf(),
            old(self).stage == Stage::StashDeposit(d),
        ensures
            final(self).wf(),
            old(self).moved(*final(self), d, amount as int, Direction::ToStash),
            final(self).stage == if old(self).transfer_ok(d, amount as int, Direction::ToStash) {
                Stage::StashTake(d)
            } else {
                Stage::TransferStash
            },
    {
        if self.transfer(d, amount, Direction::ToStash) {
            self.stage = Stage::StashTake(d);
        } else {
            self.stage = Stage::TransferStash;
        }
    }

    /// Amount of `d` to take from the stash into the coat: an accepted transfer
    /// (0 included) goes on to the bank; a rejected one back to the stash question.
    pub fn stash_take(&mut self, d: Drug, amount: i64)
        requires
            old(self).wf(),
            old(self).stage == Stage::StashTake(d),
        ensures
            final(self).wf(),
            old(self).moved(*final(self), d, amount as int, Direction::ToCoat),
            final(self).stage == if old(self).transfer_ok(d, amount as int, Direction::ToCoat) {
                Stage::VisitBank
            } else {
                Stage::TransferStash
            },
    {
        if self.transfer(d, amount, Direction::ToCoat) {
            self.stage = Stage::VisitBank;
        } else {
            self.stage = Stage::TransferStash;
        }
    }

    /// Post-state of `banking`.
    pub open spec fn after_banking(self, new: Self, reply: char) -> bool {
        if is_yes(reply) {
            new.same_goods(self) && new.stage == Stage::Deposit
        } else if is_no(reply) {
            self.menu_shown(new)
        } else {
            new == self
        }
    }

    /// Answer to "visit the bank?": yes asks for a deposit, no goes to the main
    /// menu; other keys are ignored.
    pub fn banking(&mut self, reply: char)
        requires
            old(self).wf(),
            old(self).stage == Stage::VisitBank,
        ensures
            final(self).wf(),
            old(self).after_banking(*final(self), reply),
    {
        if reply == 'y' || reply == 'Y' {
            self.stage = Stage::Deposit;
        } else if reply == 'n' || reply == 'N' {
            self.main_menu();
        }
    }

    /// Post-state of `visit_bank`.
    pub open spec fn after_deposit(self, new: Self, amount: int) -> bool {
        &&& new.same_world(self)
        &&& new.stage == Stage::Withdraw
        &&& new.debt == self.debt
        &&& new.hold == self.hold
        &&& new.stash@ == self.stash@
        &&& new.trench_coat@ == self.trench_coat@
        &&& if self.deposit_ok(amount) {
            new.cash == self.cash - amount && new.bank == self.bank + amount
        } else {
            new.cash == self.cash && new.bank == self.bank
        }
    }

    /// Amount to deposit: taken when the cash covers it, else ignored; the
    /// withdrawal follows.
    pub fn visit_bank(&mut self, amount: i64)
        requires
            old(self).wf(),
            old(self).stage == Stage::Deposit,
        ensures
            final(self).wf(),
            old(self).after_deposit(*final(self), amount as int),
    {
        self.deposit(amount);
        self.stage = Stage::Withdraw;
    }

    /// Post-state of `bank_withdraw`.
    pub open spec fn after_withdraw(self, new: Self, amount: int) -> bool {
        &&& new.stage == self.menu_stage()
        &&& new.phase == Phase::Normal
        &&& new.stash@ == self.stash@
        &&& new.prices@ == self.prices@
        &&& new.debt == self.debt
        &&& new.guns == self.guns
        &&& new.damage == self.damage
        &&& new.cops == self.cops
        &&& new.day == self.day
        &&& new.days_left == self.days_left
        &&& new.geo == self.geo
        &&& new.maxloan == self.maxloan
        &&& new.fight_pending == self.fight_pending
        &&& new.hold == self.hold
        &&& new.trench_coat@ == self.trench_coat@
        &&& if self.withdraw_ok(amount) {
            new.cash == self.cash + amount && new.bank == self.bank - amount
        } else {
            new.cash == self.cash && new.bank == self.bank
        }
    }

    /// Amount to withdraw: paid out when the balance covers it, else ignored;
    /// the main menu follows.
    pub fn bank_withdraw(&mut self, amount: i64)
        requires
            old(self).wf(),
            old(self).stage == Stage::Withdraw,
        ensures
            final(self).wf(),
            old(self).after_withdraw(*final(self), amount as int),
    {
        self.withdraw(amount);
        self.main_menu();
    }

    /// Post-state of `buy_sell_jet`.
    pub open spec fn after_buy_sell_jet(self, new: Self, reply: char) -> bool {
        &&& new.same_goods(self)
        &&& new.stage == if reply == 'b' || reply == 'B' {
            Stage::BuyWhich
        } else if reply == 's' || reply == 'S' {
            Stage::SellWhich
        } else if reply == 'j' || reply == 'J' {
            Stage::Jet
        } else {
            Stage::BuySellJet
        }
        &&& new.stage == Stage::BuySellJet ==> new == self
    }

    /// Buy, sell or jet: `b`, `s` or `j` in either case; other keys are ignored.
    pub fn buy_sell_jet(&mut self, reply: char)
        requires
            old(self).wf(),
            old(self).stage == Stage::BuySellJet,
        ensures
            final(self).wf(),
            old(self).after_buy_sell_jet(*final(self), reply),
    {
        if reply == 'b' || reply == 'B' {
            self.stage = Stage::BuyWhich;
        } else if reply == 's' || reply == 'S' {
            self.stage = Stage::SellWhich;
        } else if reply == 'j' || reply == 'J' {
            self.stage = Stage::Jet;
        }
    }

    /// `new` is `self` after picking a commodity with `reply`: its amount
    /// stage `pick(d)`, or the main menu for an unknown letter.
    pub open spec fn after_pick(self, new: Self, reply: char, selling: bool) -> bool {
        match drug_for_key(reply) {
            Some(d) => new.same_goods(self) && new.stage == if selling {
                Stage::Sell(d)
            } else {
                Stage::Buy(d)
            },
            None => self.menu_shown(new),
        }
    }

    /// Which commodity to buy: a known letter asks how much, any other key
    /// goes back to the main menu.
    pub fn buying(&mut self, reply: char)
        requires
            old(self).wf(),
            old(self).stage == Stage::BuyWhich,
        ensures
            final(self).wf(),
            old(self).after_pick(*final(self), reply, false),
    {
        match GameState::get_drug_from_char(reply) {
            Some(d) => {
                self.stage = Stage::Buy(d);
            },
            None => {
                self.main_menu();
            },
        }
    }

    /// Post-state of `buy_drug`.
    pub open spec fn after_buy(self, new: Self, d: Drug, amount: int) -> bool {
        &&& self.menu_after(new)
        &&& if self.buy_ok(d, amount) {
            &&& new.cash == self.cash - amount * self.price(d)
            &&& new.trench_coat@ == self.trench_coat@.update(d.idx(), (self.coat(d) + amount) as i64)
            &&& new.hold == self.hold - amount
        } else {
            &&& new.cash == self.cash
            &&& new.trench_coat@ == self.trench_coat@
            &&& new.hold == self.hold
        }
    }

    /// Amount of `d` to buy: bought when the cash and the room allow it, else
    /// nothing happens; the main menu follows either way.
    pub fn buy_drug(&mut self, d: Drug, amount: i64)
        requires
            old(self).wf(),
            old(self).stage == Stage::Buy(d),
        ensures
            final(self).wf(),
            old(self).after_buy(*final(self), d, amount as int),
    {
        self.buy(d, amount);
        self.main_menu();
    }

    /// Which commodity to sell: a known letter asks how much, any other key
    /// goes back to the main menu.
    pub fn selling(&mut self, reply: char)
        requires
            old(self).wf(),
            old(self).stage == Stage::SellWhich,
        ensures
            final(self).wf(),
            old(self).after_pick(*final(self), reply, true),
    {
        match GameState::get_drug_from_char(reply) {
            Some(d) => {
                self.stage = Stage::Sell(d);
            },
            None => {
                self.main_menu();
            },
        }
    }

    /// Post-state of `sell_drug`.
    pub open spec fn after_sell(self, new: Self, d: Drug, amount: int) -> bool {
        &&& self.menu_after(new)
        &&& if self.sell_ok(d, amount) {
            &&& new.cash == self.cash + amount * self.price(d)
            &&& new.trench_coat@ == self.trench_coat@.update(d.idx(), (self.coat(d) - amount) as i64)
            &&& new.hold == self.hold + amount
        } else {
            &&& new.cash == self.cash
            &&& new.trench_coat@ == self.trench_coat@
            &&& new.hold == self.hold
        }
    }

    /// Amount of `d` to sell: sold when the coat holds that much, else nothing
    /// happens; the main menu follows either way.
    pub fn sell_drug(&mut self, d: Drug, amount: i64)
        requires
            old(self).wf(),
            old(self).stage == Stage::Sell(d),
        ensures
            final(self).wf(),
            old(self).after_sell(*final(self), d, amount as int),
    {
        self.sell(d, amount);
        self.main_menu();
    }

    /// The main menu after travelling to `loc`: coming home to the Bronx
    /// brings the loan shark back.
    pub open spec fn jet_menu(self, loc: Location) -> Stage {
        if loc == Location::Bronx {
            Stage::LoanShark
        } else {
            menu_for(self.phase, (self.day + 1) as i64)
        }
    }

    /// The phase after travelling to `loc`.
    pub open spec fn jet_phase(self, loc: Location) -> Phase {
        if loc == Location::Bronx {
            Phase::ForcedLoanVisit
        } else {
            self.phase
        }
    }

    /// Post-state of `jet`, whose result is the new day's event.
    pub open spec fn after_jet(self, new: Self, reply: char, r: Option<Event>) -> bool {
        match location_for_key(reply) {
            Some(loc) => {
                &&& new.geo == loc
                &&& self.day_passed(new, r, self.jet_menu(loc), self.jet_phase(loc))
            },
            None => self.menu_shown(new) && r is None,
        }
    }

    /// Where to travel: a digit from 1 to 6 moves there and starts a new day
    /// (coming home to the Bronx brings the loan shark back once); any other
    /// key goes back to the main menu. Returns the new day's event.
    pub fn jet(&mut self, reply: char) -> (r: Option<Event>)
        requires
            old(self).wf(),
            old(self).stage == Stage::Jet,
        ensures
            final(self).wf(),
            old(self).after_jet(*final(self), reply, r),
    {
        match Location::from_key(reply) {
            Some(loc) => {
                self.geo = loc;
                if loc == Location::Bronx {
                    self.phase = Phase::ForcedLoanVisit;
                }
                self.new_day()
            },
            None => {
                self.main_menu();
                None
            },
        }
    }

    /// Post-state of `paraquat`.
    pub open spec fn after_paraquat(self, new: Self, reply: char) -> bool {
        if is_yes(reply) {
            new.same_goods(self) && new.is_over()
        } else if is_no(reply) {
            self.event_followed(new)
        } else {
            new == self
        }
    }

    /// Answer to "will you smoke it?": yes ends the game, no goes on with the day.
    pub fn paraquat(&mut self, reply: char)
        requires
            old(self).wf(),
            old(self).stage == Stage::Paraquat,
        ensures
            final(self).wf(),
            old(self).after_paraquat(*final(self), reply),
    {
        if reply == 'y' || reply == 'Y' {
            self.notices.push(Notice::Hallucinated);
            self.stage = Stage::GameOver;
        } else if reply == 'n' || reply == 'N' {
            self.after_event();
        }
    }

    /// Where the encounter check on `draw` leaves `new`, with the room `new` has.
    pub open spec fn check_result(self, new: Self, draw: int) -> bool {
        if chase_chance(new.hold as int, draw) >= 1 {
            new.stage == Stage::Encounter && new.cops == chase_chance(new.hold as int, draw) / 9 + 2
        } else {
            new.stage == self.menu_stage()
        }
    }

    /// An offer's purchase, then what follows the event, settles the offer.
    proof fn lemma_settled(self, bought: Self, new: Self)
        requires
            bought.fight_pending == self.fight_pending,
            bought.phase == self.phase,
            bought.day == self.day,
            bought.event_followed(new),
        ensures
            self.fight_pending ==> exists|draw: int|
                1 <= draw <= 100 && #[trigger] self.check_result(new, draw),
    {
        if self.fight_pending {
            let draw = choose|draw: int| 1 <= draw <= 100 && #[trigger] bought.checked(new, draw);
            assert(self.check_result(new, draw));
        }
    }

    /// `new` follows `self` once an offer was answered: the offer's purchase
    /// aside, as `event_followed` says.
    pub open spec fn offer_settled(self, new: Self) -> bool {
        &&& !new.is_over()
        &&& !new.fight_pending
        &&& new.stage == Stage::Encounter || new.stage == self.menu_stage()
        &&& !self.fight_pending ==> new.stage == self.menu_stage()
        &&& self.fight_pending ==> exists|draw: int|
            1 <= draw <= 100 && #[trigger] self.check_result(new, draw)
        &&& new.prices@ == self.prices@
        &&& new.stash@ == self.stash@
        &&& new.trench_coat@ == self.trench_coat@
        &&& new.bank == self.bank
        &&& new.debt == self.debt
        &&& new.day == self.day
        &&& new.days_left == self.days_left
        &&& new.geo == self.geo
        &&& new.damage == self.damage
    }

    /// Post-state of `gunsale_answer`.
    pub open spec fn after_gun_offer(self, new: Self, reply: char, price: int) -> bool {
        if is_yes(reply) && self.gun_affordable(price) {
            self.offer_settled(new) && new.cash == self.cash - price && new.guns == self.guns + 1
                && new.hold == self.hold
        } else if is_yes(reply) || is_no(reply) {
            self.offer_settled(new) && new.cash == self.cash && new.guns == self.guns && new.hold
                == self.hold
        } else {
            new == self
        }
    }

    /// Answer to the offer of gun model `gun` at `price`: yes buys it when the
    /// cash covers it; either answer goes on with the day.
    pub fn gunsale_answer(&mut self, reply: char, gun: usize, price: i64)
        requires
            old(self).wf(),
            old(self).stage == (Stage::GunOffer { gun, price }),
        ensures
            final(self).wf(),
            old(self).after_gun_offer(*final(self), reply, price as int),
    {
        let ghost start = *self;
        if reply == 'y' || reply == 'Y' {
            self.buy_gun(price);
            let ghost bought = *self;
            self.after_event();
            proof {
                start.lemma_settled(bought, *self);
            }
        } else if reply == 'n' || reply == 'N' {
            self.after_event();
            proof {
                start.lemma_settled(start, *self);
            }
        }
    }

    /// Post-state of `coatsale_answer`.
    pub open spec fn after_coat_offer(self, new: Self, reply: char, space: int, price: int) -> bool {
        if is_yes(reply) && self.coat_affordable(space, price) {
            self.offer_settled(new) && new.cash == self.cash - price && new.hold == self.hold
                + space && new.guns == self.guns
        } else if is_yes(reply) || is_no(reply) {
            self.offer_settled(new) && new.cash == self.cash && new.hold == self.hold && new.guns
                == self.guns
        } else {
            new == self
        }
    }

    /// Answer to the coat offer of `space` more room at `price`: yes buys it
    /// when the cash covers it; either answer goes on with the day.
    pub fn coatsale_answer(&mut self, reply: char, space: i64, price: i64)
        requires
            old(self).wf(),
            old(self).stage == (Stage::CoatOffer { space, price }),
        ensures
            final(self).wf(),
            old(self).after_coat_offer(*final(self), reply, space as int, price as int),
    {
        let ghost start = *self;
        if reply == 'y' || reply == 'Y' {
            self.buy_coat(space, price);
            let ghost bought = *self;
            self.after_event();
            proof {
                start.lemma_settled(bought, *self);
            }
        } else if reply == 'n' || reply == 'N' {
            self.after_event();
            proof {
                start.lemma_settled(start, *self);
            }
        }
    }

    /// Post-state of `doctor_answer`.
    pub open spec fn after_doctor(self, new: Self, reply: char, cost: int) -> bool {
        if is_yes(reply) || is_no(reply) {
            &&& new.stage == self.menu_stage()
            &&& new.phase == Phase::Normal
            &&& new.cops == self.cops
            &&& new.maxloan == self.maxloan
            &&& new.fight_pending == self.fight_pending
            &&& new.stash@ == self.stash@
            &&& new.prices@ == self.prices@
            &&& new.bank == self.bank
            &&& new.debt == self.debt
            &&& new.guns == self.guns
            &&& new.day == self.day
            &&& new.days_left == self.days_left
            &&& new.geo == self.geo
            &&& new.hold == self.hold
            &&& new.trench_coat@ == self.trench_coat@
            &&& if is_yes(reply) && self.treatment_ok(cost) {
                new.cash == self.cash - cost && new.damage == 0
            } else {
                new.cash == self.cash && new.damage == self.damage
            }
        } else {
            new == self
        }
    }

    /// Answer to the doctor's offer at `cost`: yes heals when the cash covers
    /// it; either answer goes to the main menu.
    pub fn doctor_answer(&mut self, reply: char, cost: i64)
        requires
            old(self).wf(),
            old(self).stage == (Stage::Doctor { cost }),
        ensures
            final(self).wf(),
            old(self).after_doctor(*final(self), reply, cost as int),
    {
        if reply == 'y' || reply == 'Y' {
            self.pay_doctor(cost);
            self.main_menu();
        } else if reply == 'n' || reply == 'N' {
            self.main_menu();
        }
    }

    /// Whether `reply` is a run in an encounter.
    pub open spec fn runs(self, reply: char) -> bool {
        reply == 'r' || reply == 'R' || (self.guns == 0 && is_yes(reply))
    }

    /// Whether `reply` is a shot in an encounter.
    pub open spec fn fights(self, reply: char) -> bool {
        self.guns > 0 && (reply == 'f' || reply == 'F')
    }

    /// Post-state of `fight`.
    pub open spec fn after_fight(self, new: Self, reply: char) -> bool {
        if !self.runs(reply) && !self.fights(reply) {
            new == self
        } else {
            &&& new.guns == self.guns
            &&& new.bank == self.bank
            &&& new.debt == self.debt
            &&& new.hold == self.hold
            &&& new.stash@ == self.stash@
            &&& new.trench_coat@ == self.trench_coat@
            &&& new.prices@ == self.prices@
            &&& new.day == self.day
            &&& new.days_left == self.days_left
            &&& new.geo == self.geo
            &&& new.is_over() == (new.damage >= FATAL_DAMAGE)
            &&& new.damage >= self.damage
            &&& new.stage == Stage::Encounter || new.is_over() || (new.damage == self.damage
                && exists|rate: int|
                DOCTOR_RATE_LOW <= rate <= DOCTOR_RATE_HIGH && new.stage
                    == #[trigger] self.after_encounter(rate))
            &&& self.runs(reply) ==> exists|getaway: int, a: int, b: int, rate: int|
                1 <= getaway <= 2 && 0 <= a <= 3 && 2 <= b <= 18 && DOCTOR_RATE_LOW <= rate
                    <= DOCTOR_RATE_HIGH && #[trigger] self.ran(new, getaway, a, b, rate)
            &&& self.fights(reply) ==> exists|kill: int, a: int, b: int, reward: int, rate: int|
                0 <= kill <= 2 * self.guns && 0 <= a <= 3 && 2 <= b <= 18 && 200 <= reward <= 1000
                    && DOCTOR_RATE_LOW <= rate <= DOCTOR_RATE_HIGH && #[trigger] self.shot(
                    new,
                    kill,
                    a,
                    b,
                    reward,
                    rate,
                )
            &&& self.runs(reply) ==> new.cops == self.cops && new.cash == self.cash
            &&& self.fights(reply) ==> new.cops == self.cops || new.cops == self.cops - 1
            &&& self.fights(reply) && new.cops == 0 ==> new.cash <= self.cash + 1000 && (new.cash
                >= self.cash + 200 || new.cash == MONEY_CAP)
            &&& self.fights(reply) && new.cops != 0 ==> new.cash == self.cash
        }
    }

    /// The player's move in an encounter. Unarmed, `r` or `y` runs and any other
    /// key is ignored; armed, `r` runs, `f` fights and any other key is ignored.
    /// The outcome is drawn at random.
    pub fn fight(&mut self, reply: char)
        requires
            old(self).wf(),
            old(self).stage == Stage::Encounter,
        ensures
            final(self).wf(),
            old(self).after_fight(*final(self), reply),
    {
        let runs = reply == 'r' || reply == 'R' || (self.guns == 0 && (reply == 'y' || reply
            == 'Y'));
        let fights = self.guns > 0 && (reply == 'f' || reply == 'F');
        if runs {
            let getaway = roll(1, 2);
            let a = roll(0, 3);
            let b = roll(2, 18);
            let rate = roll(DOCTOR_RATE_LOW, DOCTOR_RATE_HIGH);
            self.run_away(getaway, a, b, rate);
            assert(old(self).ran(*self, getaway as int, a as int, b as int, rate as int));
        } else if fights {
            let kill = roll(0, self.guns * 2);
            let a = roll(0, 3);
            let b = roll(2, 18);
            let reward = roll(200, 1000);
            let rate = roll(DOCTOR_RATE_LOW, DOCTOR_RATE_HIGH);
            self.shoot(kill, a, b, reward, rate);
            assert(old(self).shot(
                *self,
                kill as int,
                a as int,
                b as int,
                reward as int,
                rate as int,
            ));
        }
    }

    /// `new` is `self` after the player's answer `input`.
    pub open spec fn answered(self, new: Self, input: Input) -> bool {
        if self.is_over() {
            new == self
        } else {
            match input {
                Input::Quit => new.is_over() && new.same_goods(self),
                Input::Key(c) => if c == INTERRUPT {
                    new.is_over() && new.same_goods(self)
                } else {
                    match self.stage {
                        Stage::Instructions => self.after_start_game(new, c),
                        Stage::Rules => self.after_instructions(new),
                        Stage::LoanShark => self.yes_no_step(
                            new,
                            c,
                            Stage::Repay,
                            Stage::TransferStash,
                        ),
                        Stage::TransferStash => self.yes_no_step(
                            new,
                            c,
                            Stage::StashWhich,
                            Stage::VisitBank,
                        ),
                        Stage::StashWhich => self.after_stashing(new, c),
                        Stage::VisitBank => self.after_banking(new, c),
                        Stage::BuySellJet => self.after_buy_sell_jet(new, c),
                        Stage::BuyWhich => self.after_pick(new, c, false),
                        Stage::SellWhich => self.after_pick(new, c, true),
                        Stage::Jet => exists|r: Option<Event>| #[trigger] self.after_jet(new, c, r),
                        Stage::Paraquat => self.after_paraquat(new, c),
                        Stage::GunOffer { gun: _, price } => self.after_gun_offer(
                            new,
                            c,
                            price as int,
                        ),
                        Stage::CoatOffer { space, price } => self.after_coat_offer(
                            new,
                            c,
                            space as int,
                            price as int,
                        ),
                        Stage::Encounter => self.after_fight(new, c),
                        Stage::Doctor { cost } => self.after_doctor(new, c, cost as int),
                        _ => new == self,
                    }
                },
                Input::Number(n) => match self.stage {
                    Stage::Repay => self.after_repay(new, n as int),
                    Stage::Borrow => self.after_borrow(new, n as int),
                    Stage::StashDeposit(d) => self.moved(new, d, n as int, Direction::ToStash)
                        && new.stage == if self.transfer_ok(d, n as int, Direction::ToStash) {
                        Stage::StashTake(d)
                    } else {
                        Stage::TransferStash
                    },
                    Stage::StashTake(d) => self.moved(new, d, n as int, Direction::ToCoat)
                        && new.stage == if self.transfer_ok(d, n as int, Direction::ToCoat) {
                        Stage::VisitBank
                    } else {
                        Stage::TransferStash
                    },
                    Stage::Deposit => self.after_deposit(new, n as int),
                    Stage::Withdraw => self.after_withdraw(new, n as int),
                    Stage::Buy(d) => self.after_buy(new, d, n as int),
                    Stage::Sell(d) => self.after_sell(new, d, n as int),
                    _ => new == self,
                },
            }
        }
    }

    /// Hands the player's answer to the stage that waits for it. An answer of
    /// the wrong kind (a key where an amount is asked, or the reverse) changes
    /// nothing; the interrupt ends the game.
    pub fn answer(&mut self, input: Input)
        requires
            old(self).wf(),
        ensures
            final(self).wf(),
            old(self).answered(*final(self), input),
            input == Input::Quit ==> final(self).is_over(),
            input == Input::Key(INTERRUPT) ==> final(self).is_over(),
            input.is_plain_key() && old(self).stage.wants_amount() ==> *final(self) == *old(self),
            input is Number && !old(self).stage.wants_amount() ==> *final(self) == *old(self),
    {
        if self.stage == Stage::GameOver {
            return ;
        }
        match input {
            Input::Quit => {
                self.quit();
            },
            Input::Key(c) => {
                if c == INTERRUPT {
                    self.quit();
                    return ;
                }
                match self.stage {
                    Stage::Instructions => self.start_game(c),
                    Stage::Rules => self.instructions(),
                    Stage::LoanShark => self.loan(c),
                    Stage::TransferStash => self.stash(c),
                    Stage::StashWhich => self.stashing(c),
                    Stage::VisitBank => self.banking(c),
                    Stage::BuySellJet => self.buy_sell_jet(c),
                    Stage::BuyWhich => self.buying(c),
                    Stage::SellWhich => self.selling(c),
                    Stage::Jet => {
                        self.jet(c);
                    },
                    Stage::Paraquat => self.paraquat(c),
                    Stage::GunOffer { gun, price } => self.gunsale_answer(c, gun, price),
                    Stage::CoatOffer { space, price } => self.coatsale_answer(c, space, price),
                    Stage::Encounter => self.fight(c),
                    Stage::Doctor { cost } => self.doctor_answer(c, cost),
                    _ => {},
                }
            },
            Input::Number(n) => {
                match self.stage {
                    Stage::Repay => self.repay(n),
                    Stage::Borrow => self.borrow(n),
                    Stage::StashDeposit(d) => self.stash_deposit(d, n),
                    Stage::StashTake(d) => self.stash_take(d, n),
                    Stage::Deposit => self.visit_bank(n),
                    Stage::Withdraw => self.bank_withdraw(n),
                    Stage::Buy(d) => self.buy_drug(d, n),
                    Stage::Sell(d) => self.sell_drug(d, n),
                    _ => {},
                }
            },
        }
    }
}

/// Selling back at the same price what was just bought restores the cash,
/// the free room and the coat.
pub proof fn lemma_buy_then_sell_restores(s0: GameState, s1: GameState, s2: GameState, d: Drug, a: int)
    requires
        s0.wf(),
        0 < a,
        s0.buy_ok(d, a),
        s0.after_buy(s1, d, a),
        s1.after_sell(s2, d, a),
        s1.sell_ok(d, a),
    ensures
        s2.cash == s0.cash,
        s2.hold == s0.hold,
        s2.trench_coat@ == s0.trench_coat@,
        s2.stash@ == s0.stash@,
        s2.prices@ == s0.prices@,
{
    assert(s2.trench_coat@ =~= s0.trench_coat@);
}

/// Taking back from the stash what was just put there restores the stash,
/// the coat and the free room.
pub proof fn lemma_stash_then_take_restores(s0: GameState, s1: GameState, s2: GameState, d: Drug, a: int)
    requires
        s0.wf(),
        s0.transfer_ok(d, a, Direction::ToStash),
        s0.moved(s1, d, a, Direction::ToStash),
        s1.moved(s2, d, a, Direction::ToCoat),
        s1.transfer_ok(d, a, Direction::ToCoat),
    ensures
        s2.stash@ == s0.stash@,
        s2.trench_coat@ == s0.trench_coat@,
        s2.hold == s0.hold,
        s2.cash == s0.cash,
{
    assert(s2.trench_coat@ =~= s0.trench_coat@);
    assert(s2.stash@ =~= s0.stash@);
}

} // verus!
