use vstd::prelude::*;
use crate::commodity::{Drug, NUM_DRUGS};
use crate::game::{GameState, FATAL_DAMAGE};
use crate::inventory::Direction;

verus! {

/// A purchase, accepted or not, leaves the free room and every carried count
/// non-negative and the coat's total capacity unchanged.
pub proof fn lemma_buy_keeps_room(s: GameState, new: GameState, d: Drug, amount: int)
    requires
        s.wf(),
        s.after_buy(new, d, amount),
    ensures
        new.hold >= 0,
        forall|i: int| 0 <= i < NUM_DRUGS ==> #[trigger] new.trench_coat@[i] >= 0,
        new.capacity() == s.capacity(),
{
}

/// A sale, accepted or not, leaves the free room and every carried count
/// non-negative and the coat's total capacity unchanged.
pub proof fn lemma_sell_keeps_room(s: GameState, new: GameState, d: Drug, amount: int)
    requires
        s.wf(),
        s.after_sell(new, d, amount),
    ensures
        new.hold >= 0,
        forall|i: int| 0 <= i < NUM_DRUGS ==> #[trigger] new.trench_coat@[i] >= 0,
        new.capacity() == s.capacity(),
{
}

/// A move between coat and stash, accepted or not, leaves the free room and
/// every count non-negative, the coat's total capacity unchanged, and the
/// units of the moved commodity, coat and stash together, unchanged.
pub proof fn lemma_transfer_keeps_room(
    s: GameState,
    new: GameState,
    d: Drug,
    amount: int,
    dir: Direction,
)
    requires
        s.wf(),
        s.moved(new, d, amount, dir),
    ensures
        new.hold >= 0,
        forall|i: int| 0 <= i < NUM_DRUGS ==> #[trigger] new.trench_coat@[i] >= 0,
        forall|i: int| 0 <= i < NUM_DRUGS ==> #[trigger] new.stash@[i] >= 0,
        new.capacity() == s.capacity(),
        new.coat(d) + new.stashed(d) == s.coat(d) + s.stashed(d),
{
}

/// A purchase that costs more than the cash is refused: cash, room, coat,
/// stash, prices, bank and debt stay as they were.
pub proof fn lemma_unaffordable_buy_refused(s: GameState, new: GameState, d: Drug, amount: int)
    requires
        s.wf(),
        amount > 0,
        amount * s.price(d) > s.cash,
        s.after_buy(new, d, amount),
    ensures
        new.cash == s.cash,
        new.hold == s.hold,
        new.trench_coat@ == s.trench_coat@,
        new.stash@ == s.stash@,
        new.prices@ == s.prices@,
        new.bank == s.bank,
        new.debt == s.debt,
{
}

/// An unarmed player cannot fight, and a run that fails leaves the player
/// under the opponents' fire: none of them falls, and the damage grows by
/// the hit, if any.
pub proof fn lemma_unarmed_failed_run(
    s: GameState,
    new: GameState,
    reply: char,
    a: int,
    b: int,
    rate: int,
)
    requires
        s.guns == 0,
        s.ran(new, 2, a, b, rate),
    ensures
        !s.fights(reply),
        new.cops == s.cops,
        new.damage >= s.damage,
        new.is_over() || new.stage == crate::game::Stage::Encounter,
{
}

/// After any move in an encounter the game is over exactly when the damage
/// has reached 50: 49 goes on, 50 ends it.
pub proof fn lemma_fatal_threshold(s: GameState, new: GameState, reply: char)
    requires
        s.wf(),
        s.stage == crate::game::Stage::Encounter,
        s.after_fight(new, reply),
    ensures
        new.is_over() == (new.damage >= FATAL_DAMAGE),
{
}

} // verus!
