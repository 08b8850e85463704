use vstd::prelude::*;
use crate::commodity::{Drug, Location, NUM_DRUGS};

verus! {

/// Ceiling on any single commodity count and on total carrying capacity.
pub const QTY_CAP: i64 = 1_000_000_000;
/// Ceiling on cash, bank balance and debt.
pub const MONEY_CAP: i64 = 1_000_000_000_000_000;
/// Ceiling on a unit price.
pub const PRICE_CAP: i64 = 1_000_000_000;
/// Length of the game in days.
pub const DAYS_TOTAL: i64 = 31;
/// Accumulated damage at which the player dies.
pub const FATAL_DAMAGE: i64 = 50;
/// Ceiling on accumulated damage; it is never reached while the game runs.
pub const DAMAGE_CAP: i64 = 100;
/// Most opponents an encounter can start with.
pub const MAX_COPS: i64 = 13;
pub const START_CASH: i64 = 2000;
pub const START_DEBT: i64 = 5500;
pub const MAX_LOAN: i64 = 9450;
pub const START_HOLD: i64 = 100;

/// Where the main menu goes next.
#[derive(Clone, Copy, PartialEq, Eq, Structural, Debug)]
pub enum Phase {
    /// Game start: the first menu leads to the loan shark.
    Intro,
    /// The buy / sell / travel menu.
    Normal,
    /// Just came home: the next menu leads to the loan shark once.
    ForcedLoanVisit,
}

/// The input the game waits for.
#[derive(Clone, Copy, PartialEq, Eq, Structural, Debug)]
pub enum Stage {
    /// "Do you want instructions?" (y / n).
    Instructions,
    /// The instructions are shown; any key starts the game.
    Rules,
    /// "Visit the loan shark?" (y / n).
    LoanShark,
    /// Amount to repay.
    Repay,
    /// Amount to borrow.
    Borrow,
    /// "Transfer to the stash?" (y / n).
    TransferStash,
    /// Which commodity to move between stash and coat.
    StashWhich,
    /// Amount to move from the coat into the stash.
    StashDeposit(Drug),
    /// Amount to take from the stash into the coat.
    StashTake(Drug),
    /// "Visit the bank?" (y / n).
    VisitBank,
    /// Amount to deposit.
    Deposit,
    /// Amount to withdraw.
    Withdraw,
    /// Buy, sell or jet (b / s / j).
    BuySellJet,
    /// Which commodity to buy.
    BuyWhich,
    /// Amount to buy.
    Buy(Drug),
    /// Which commodity to sell.
    SellWhich,
    /// Amount to sell.
    Sell(Drug),
    /// Where to travel (1 to 6).
    Jet,
    /// "Will you smoke it?" (y / n).
    Paraquat,
    /// "Will you buy this gun?" (y / n); `gun` indexes the gun names.
    GunOffer { gun: usize, price: i64 },
    /// "Will you buy a bigger coat?" (y / n).
    CoatOffer { space: i64, price: i64 },
    /// Run, or fight when armed.
    Encounter,
    /// "Pay the doctor?" (y / n).
    Doctor { cost: i64 },
    /// The game is over; only the score remains.
    GameOver,
}

/// Lowest and highest asking price of a gun.
pub const GUN_PRICE_LOW: i64 = 250;
pub const GUN_PRICE_HIGH: i64 = 500;
/// Number of gun models on offer.
pub const GUN_MODELS: usize = 4;
/// Range of extra capacity and of price of a coat upgrade.
pub const COAT_SPACE_LOW: i64 = 32;
pub const COAT_SPACE_HIGH: i64 = 64;
pub const COAT_PRICE_LOW: i64 = 150;
pub const COAT_PRICE_HIGH: i64 = 400;
/// Range of the doctor's rate, per ten points of damage.
pub const DOCTOR_RATE_LOW: i64 = 200;
pub const DOCTOR_RATE_HIGH: i64 = 1000;

impl Stage {
    pub open spec fn wf(self) -> bool {
        match self {
            Stage::GunOffer { gun, price } => gun < GUN_MODELS && GUN_PRICE_LOW <= price
                <= GUN_PRICE_HIGH,
            Stage::CoatOffer { space, price } => COAT_SPACE_LOW <= space <= COAT_SPACE_HIGH
                && COAT_PRICE_LOW <= price <= COAT_PRICE_HIGH,
            Stage::Doctor { cost } => 0 <= cost <= FATAL_DAMAGE * DOCTOR_RATE_HIGH / 10,
            _ => true,
        }
    }

    /// Whether the stage waits for an amount rather than a key.
    pub open spec fn wants_amount(self) -> bool {
        match self {
            Stage::Repay | Stage::Borrow | Stage::StashDeposit(_) | Stage::StashTake(_)
            | Stage::Deposit | Stage::Withdraw | Stage::Buy(_) | Stage::Sell(_) => true,
            _ => false,
        }
    }

    /// Whether the stage waits for an amount rather than a key.
    pub fn wants_number(&self) -> (r: bool)
        ensures
            r == self.wants_amount(),
    {
        match self {
            Stage::Repay | Stage::Borrow | Stage::StashDeposit(_) | Stage::StashTake(_)
            | Stage::Deposit | Stage::Withdraw | Stage::Buy(_) | Stage::Sell(_) => true,
            _ => false,
        }
    }
}

/// Something that happened, for the front end to tell the player.
#[derive(Clone, Copy, PartialEq, Eq, Structural, Debug)]
pub enum Notice {
    LoanRefused,
    Brownies,
    Hallucinated,
    Mugged,
    CokeBust,
    Addicts,
    WeedBottomOut,
    PoliceDogs { blocks: i64 },
    CheapCocaine,
    CheapHeroin,
    FoundDrugs { drug: Drug, amount: i64 },
    CheapLudes,
    CheapAcid,
    Chased { cops: i64 },
    Escaped,
    FiringOnThem,
    MissedThem,
    KilledOne,
    KilledAll,
    Reward { amount: i64 },
    FiringOnYou,
    TheyMissed,
    Hit { damage: i64 },
    Wasted,
}

/// The stage that the main menu leads to in `phase` on day `day`: at game
/// start (day 0) and on coming home, the loan shark; otherwise buy / sell / jet.
pub open spec fn menu_for(phase: Phase, day: i64) -> Stage {
    match phase {
        Phase::Intro => if day == 0 {
            Stage::LoanShark
        } else {
            Stage::BuySellJet
        },
        Phase::ForcedLoanVisit => Stage::LoanShark,
        Phase::Normal => Stage::BuySellJet,
    }
}

/// Sum of the six per-commodity entries.
pub open spec fn sum6(s: Seq<i64>) -> int {
    s[0] + s[1] + s[2] + s[3] + s[4] + s[5]
}

/// The whole state of one game.
pub struct GameState {
    /// Days elapsed.
    pub day: i64,
    /// Days still to play.
    pub days_left: i64,
    /// Current place.
    pub geo: Location,
    pub cash: i64,
    /// Number of guns carried.
    pub guns: i64,
    pub bank: i64,
    pub debt: i64,
    /// Largest debt the loan shark allows.
    pub maxloan: i64,
    /// Free carrying capacity of the coat.
    pub hold: i64,
    /// Units kept at home, by commodity position.
    pub stash: Vec<i64>,
    /// Units carried in the coat, by commodity position.
    pub trench_coat: Vec<i64>,
    /// Today's unit prices, by commodity position.
    pub prices: Vec<i64>,
    pub phase: Phase,
    /// Accumulated injury.
    pub damage: i64,
    /// Opponents left in the current encounter.
    pub cops: i64,
    /// What the game waits for.
    pub stage: Stage,
    /// An encounter check is still owed for the day that began.
    pub fight_pending: bool,
    /// What happened since the front end last looked.
    pub notices: Vec<Notice>,
}

impl GameState {
    pub open spec fn coat(self, d: Drug) -> int {
        self.trench_coat@[d.idx()] as int
    }

    pub open spec fn stashed(self, d: Drug) -> int {
        self.stash@[d.idx()] as int
    }

    pub open spec fn price(self, d: Drug) -> int {
        self.prices@[d.idx()] as int
    }

    /// Units carried in the coat, all commodities together.
    pub open spec fn carried(self) -> int {
        sum6(self.trench_coat@)
    }

    /// Total capacity of the coat: free space plus what it holds.
    pub open spec fn capacity(self) -> int {
        self.hold + self.carried()
    }

    pub open spec fn is_over(self) -> bool {
        self.stage == Stage::GameOver
    }

    /// The invariant of a game in progress or finished.
    pub open spec fn wf(self) -> bool {
        &&& self.stash@.len() == NUM_DRUGS
        &&& self.trench_coat@.len() == NUM_DRUGS
        &&& self.prices@.len() == NUM_DRUGS
        &&& forall|i: int| 0 <= i < NUM_DRUGS ==> 0 <= #[trigger] self.stash@[i] <= QTY_CAP
        &&& forall|i: int| 0 <= i < NUM_DRUGS ==> 0 <= #[trigger] self.trench_coat@[i]
        &&& forall|i: int| 0 <= i < NUM_DRUGS ==> 0 <= #[trigger] self.prices@[i] <= PRICE_CAP
        &&& 0 <= self.hold
        &&& self.capacity() <= QTY_CAP
        &&& 0 <= self.cash <= MONEY_CAP
        &&& 0 <= self.bank <= MONEY_CAP
        &&& 0 <= self.debt <= MONEY_CAP
        &&& 0 <= self.maxloan <= MONEY_CAP
        &&& 0 <= self.guns <= QTY_CAP
        &&& 0 <= self.day <= DAYS_TOTAL
        &&& 0 <= self.days_left <= DAYS_TOTAL
        &&& self.day + self.days_left <= DAYS_TOTAL
        &&& !self.is_over() ==> self.days_left >= 1
        &&& 0 <= self.cops <= MAX_COPS
        &&& 0 <= self.damage <= DAMAGE_CAP
        &&& !self.is_over() ==> self.damage < FATAL_DAMAGE
        &&& self.stage == Stage::Encounter ==> self.cops >= 1
        &&& self.stage.wf()
    }

    /// The fields that trading, banking and the menus leave alone.
    pub open spec fn same_world(self, o: Self) -> bool {
        &&& self.day == o.day
        &&& self.days_left == o.days_left
        &&& self.geo == o.geo
        &&& self.guns == o.guns
        &&& self.maxloan == o.maxloan
        &&& self.prices@ == o.prices@
        &&& self.phase == o.phase
        &&& self.damage == o.damage
        &&& self.cops == o.cops
        &&& self.fight_pending == o.fight_pending
    }

    /// The same world, and the same money.
    pub open spec fn same_money(self, o: Self) -> bool {
        &&& self.same_world(o)
        &&& self.cash == o.cash
        &&& self.bank == o.bank
        &&& self.debt == o.debt
    }

    /// The same money, and the same goods.
    pub open spec fn same_goods(self, o: Self) -> bool {
        &&& self.same_money(o)
        &&& self.hold == o.hold
        &&& self.stash@ == o.stash@
        &&& self.trench_coat@ == o.trench_coat@
    }

    /// A new game: day 0 of 31, in the Bronx, 2000 in cash, 5500 of debt,
    /// room for 100 units, nothing owned, prices not rolled yet.
    pub fn new() -> (g: GameState)
        ensures
            g.wf(),
            g.day == 0,
            g.days_left == DAYS_TOTAL,
            g.geo == Location::Bronx,
            g.cash == START_CASH,
            g.bank == 0,
            g.debt == START_DEBT,
            g.maxloan == MAX_LOAN,
            g.hold == START_HOLD,
            g.guns == 0,
            g.damage == 0,
            g.cops == 0,
            forall|i: int| 0 <= i < NUM_DRUGS ==> g.stash@[i] == 0 && g.trench_coat@[i] == 0
                && g.prices@[i] == 0,
            g.phase == Phase::Intro,
            g.stage == Stage::Instructions,
            !g.fight_pending,
            g.notices@.len() == 0,
    {
        let g = GameState {
            day: 0,
            days_left: DAYS_TOTAL,
            geo: Location::Bronx,
            cash: START_CASH,
            guns: 0,
            bank: 0,
            debt: START_DEBT,
            maxloan: MAX_LOAN,
            hold: START_HOLD,
            stash: vec![0i64; NUM_DRUGS],
            trench_coat: vec![0i64; NUM_DRUGS],
            prices: vec![0i64; NUM_DRUGS],
            phase: Phase::Intro,
            damage: 0,
            cops: 0,
            stage: Stage::Instructions,
            fight_pending: false,
            notices: Vec::new(),
        };
        g
    }

    /// The stage that the main menu leads to in this state.
    pub open spec fn menu_stage(self) -> Stage {
        menu_for(self.phase, self.day)
    }

    /// `new` stands at the main menu reached from `self`; cash, room and coat
    /// may differ, nothing else.
    pub open spec fn menu_after(self, new: Self) -> bool {
        &&& new.stage == self.menu_stage()
        &&& new.phase == Phase::Normal
        &&& new.stash@ == self.stash@
        &&& new.prices@ == self.prices@
        &&& new.bank == self.bank
        &&& new.debt == self.debt
        &&& new.guns == self.guns
        &&& new.damage == self.damage
        &&& new.cops == self.cops
        &&& new.day == self.day
        &&& new.days_left == self.days_left
        &&& new.geo == self.geo
        &&& new.maxloan == self.maxloan
        &&& new.fight_pending == self.fight_pending
    }

    /// `new` is `self` back at the main menu, nothing else changed.
    pub open spec fn menu_shown(self, new: Self) -> bool {
        &&& self.menu_after(new)
        &&& new.cash == self.cash
        &&& new.hold == self.hold
        &&& new.trench_coat@ == self.trench_coat@
    }

    /// Back to the main menu: at game start and on coming home it leads to the
    /// loan shark (once), otherwise to buy / sell / jet.
    pub fn main_menu(&mut self)
        requires
            old(self).wf(),
            !old(self).is_over(),
        ensures
            final(self).wf(),
            old(self).menu_shown(*final(self)),
            final(self).notices@ == old(self).notices@,
    {
        match self.phase {
            Phase::Intro => {
                self.phase = Phase::Normal;
                if self.day == 0 {
                    self.stage = Stage::LoanShark;
                } else {
                    self.stage = Stage::BuySellJet;
                }
            },
            Phase::ForcedLoanVisit => {
                self.phase = Phase::Normal;
                self.stage = Stage::LoanShark;
            },
            Phase::Normal => {
                self.stage = Stage::BuySellJet;
            },
        }
    }

    /// Units of `d` carried in the coat.
    pub fn coat_amount(&self, d: Drug) -> (r: i64)
        requires
            self.wf(),
        ensures
            r as int == self.coat(d),
    {
        self.trench_coat[d.index()]
    }

    /// Units of `d` kept in the stash.
    pub fn stash_amount(&self, d: Drug) -> (r: i64)
        requires
            self.wf(),
        ensures
            r as int == self.stashed(d),
    {
        self.stash[d.index()]
    }

    /// Today's price of `d`.
    pub fn price_of(&self, d: Drug) -> (r: i64)
        requires
            self.wf(),
        ensures
            r as int == self.price(d),
    {
        self.prices[d.index()]
    }

    /// Hands out and clears what happened since the last call.
    pub fn take_notices(&mut self) -> (r: Vec<Notice>)
        ensures
            r@ == old(self).notices@,
            final(self).notices@.len() == 0,
            final(self).same_goods(*old(self)),
            final(self).stage == old(self).stage,
            final(self).wf() == old(self).wf(),
    {
        let mut r: Vec<Notice> = Vec::new();
        std::mem::swap(&mut r, &mut self.notices);
        r
    }
}

} // verus!
