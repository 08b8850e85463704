use drugwars::{
    score_for, Clash, Direction, Drug, Event, GameState, Input, Location, Notice, Phase, Rank,
    Stage, CAPACITY_GATE, DAYS_TOTAL, FATAL_DAMAGE, MAX_LOAN, START_CASH, START_DEBT, START_HOLD,
};

const ALL: [Drug; 6] = [Drug::Cocaine, Drug::Heroin, Drug::Acid, Drug::Weed, Drug::Speed, Drug::Ludes];

fn carried(g: &GameState) -> i64 {
    g.trench_coat.iter().sum()
}

fn snapshot(g: &GameState) -> (i64, i64, i64, i64, Vec<i64>, Vec<i64>, Vec<i64>, Stage) {
    (g.cash, g.bank, g.debt, g.hold, g.stash.clone(), g.trench_coat.clone(), g.prices.clone(), g.stage)
}

fn priced_game() -> GameState {
    let mut g = GameState::new();
    g.prices = vec![20000, 8000, 2000, 500, 100, 30];
    g
}

#[test]
fn new_game_starting_values() {
    let g = GameState::new();
    assert_eq!(g.day, 0);
    assert_eq!(g.days_left, 31);
    assert_eq!(g.cash, 2000);
    assert_eq!(g.debt, 5500);
    assert_eq!(g.bank, 0);
    assert_eq!(g.maxloan, 9450);
    assert_eq!(g.hold, 100);
    assert_eq!(g.guns, 0);
    assert_eq!(g.geo, Location::Bronx);
    assert_eq!(g.phase, Phase::Intro);
    assert_eq!(g.stage, Stage::Instructions);
    assert_eq!(g.stash, vec![0; 6]);
    assert_eq!(g.trench_coat, vec![0; 6]);
    assert_eq!((START_CASH, START_DEBT, MAX_LOAN, START_HOLD, DAYS_TOTAL), (2000, 5500, 9450, 100, 31));
}

#[test]
fn format_number_groups_digits() {
    assert_eq!(GameState::format_number(0), "0");
    assert_eq!(GameState::format_number(7), "7");
    assert_eq!(GameState::format_number(999), "999");
    assert_eq!(GameState::format_number(1000), "1,000");
    assert_eq!(GameState::format_number(1234567), "1,234,567");
    assert_eq!(GameState::format_number(1000005), "1,000,005");
    assert_eq!(GameState::format_number(-5500), "-5,500");
    assert_eq!(GameState::format_number(-12), "-12");
    assert_eq!(GameState::format_number(i64::MIN), "-9,223,372,036,854,775,808");
    assert_eq!(GameState::format_number(i64::MAX), "9,223,372,036,854,775,807");
}

#[test]
fn drug_names_and_keys() {
    let names: Vec<&str> = ALL.iter().map(|d| d.as_str()).collect();
    assert_eq!(names, vec!["COCAINE", "HEROIN", "ACID", "WEED", "SPEED", "LUDES"]);
    assert_eq!(GameState::get_drug_from_char('c'), Some(Drug::Cocaine));
    assert_eq!(GameState::get_drug_from_char('H'), Some(Drug::Heroin));
    assert_eq!(GameState::get_drug_from_char('a'), Some(Drug::Acid));
    assert_eq!(GameState::get_drug_from_char('W'), Some(Drug::Weed));
    assert_eq!(GameState::get_drug_from_char('s'), Some(Drug::Speed));
    assert_eq!(GameState::get_drug_from_char('l'), Some(Drug::Ludes));
    assert_eq!(GameState::get_drug_from_char('x'), None);
    assert_eq!(Location::from_key('5'), Some(Location::ConeyIsland));
    assert_eq!(Location::from_key('7'), None);
    assert_eq!(Location::CentralPark.as_str(), "CENTRAL PARK");
}

#[test]
fn transfer_moves_goods_and_keeps_capacity() {
    let mut g = GameState::new();
    g.trench_coat[3] = 10;
    g.hold = 90;
    assert!(g.transfer(Drug::Weed, 4, Direction::ToStash));
    assert_eq!(g.trench_coat[3], 6);
    assert_eq!(g.stash[3], 4);
    assert_eq!(g.hold, 94);
    assert!(g.transfer(Drug::Weed, 3, Direction::ToCoat));
    assert_eq!(g.trench_coat[3], 9);
    assert_eq!(g.stash[3], 1);
    assert_eq!(g.hold, 91);
    assert_eq!(g.hold + carried(&g), 100);
}

#[test]
fn transfer_zero_is_a_no_op() {
    let mut g = GameState::new();
    let before = snapshot(&g);
    assert!(g.transfer(Drug::Acid, 0, Direction::ToStash));
    assert!(g.transfer(Drug::Acid, 0, Direction::ToCoat));
    assert_eq!(snapshot(&g), before);
}

#[test]
fn transfer_rejections_leave_state_unchanged() {
    let mut g = GameState::new();
    g.trench_coat[0] = 5;
    g.hold = 2;
    g.stash[1] = 10;
    let before = snapshot(&g);
    assert!(!g.transfer(Drug::Cocaine, 6, Direction::ToStash));
    assert!(!g.transfer(Drug::Heroin, 11, Direction::ToCoat));
    assert!(!g.transfer(Drug::Heroin, 3, Direction::ToCoat));
    assert!(!g.transfer(Drug::Cocaine, -1, Direction::ToStash));
    assert_eq!(snapshot(&g), before);
    assert!(g.transfer(Drug::Heroin, 2, Direction::ToCoat));
    assert_eq!(g.hold, 0);
}

#[test]
fn buy_and_sell_round_trip() {
    let mut g = priced_game();
    assert_eq!(g.affordable(Drug::Weed), 4);
    assert!(g.buy(Drug::Weed, 4));
    assert_eq!(g.cash, 0);
    assert_eq!(g.trench_coat[3], 4);
    assert_eq!(g.hold, 96);
    g.prices[3] = 900;
    assert!(g.sell(Drug::Weed, 3));
    assert_eq!(g.cash, 2700);
    assert_eq!(g.trench_coat[3], 1);
    assert_eq!(g.hold, 99);
    assert_eq!(g.hold + carried(&g), 100);
}

#[test]
fn buy_beyond_cash_is_rejected_unchanged() {
    let mut g = priced_game();
    let before = snapshot(&g);
    // 5 * 500 = 2500 > 2000
    assert!(!g.buy(Drug::Weed, 5));
    assert_eq!(snapshot(&g), before);
    // one unit of cocaine costs 20000
    assert!(!g.buy(Drug::Cocaine, 1));
    assert_eq!(snapshot(&g), before);
}

#[test]
fn buy_beyond_room_is_rejected() {
    let mut g = priced_game();
    g.cash = 1_000_000;
    g.hold = 3;
    assert!(!g.buy(Drug::Ludes, 4));
    assert!(g.buy(Drug::Ludes, 3));
    assert_eq!(g.hold, 0);
    assert_eq!(g.cash, 1_000_000 - 90);
}

#[test]
fn sell_more_than_carried_is_rejected() {
    let mut g = priced_game();
    g.trench_coat[2] = 2;
    g.hold = 98;
    let before = snapshot(&g);
    assert!(!g.sell(Drug::Acid, 3));
    assert!(!g.sell(Drug::Acid, -2));
    assert_eq!(snapshot(&g), before);
}

#[test]
fn affordable_with_zero_price_is_zero() {
    let mut g = GameState::new();
    assert_eq!(g.affordable(Drug::Speed), 0);
    g.prices[4] = 700;
    assert_eq!(g.affordable(Drug::Speed), 2);
}

#[test]
fn free_goods_can_be_taken_up_to_the_room() {
    let mut g = GameState::new();
    assert!(g.buy(Drug::Speed, 5));
    assert_eq!((g.cash, g.trench_coat[4], g.hold), (2000, 5, 95));
    assert!(!g.buy(Drug::Speed, 96));
}

#[test]
fn price_draws_set_ten_times_the_draw() {
    let mut g = GameState::new();
    g.apply_price_draws(&vec![1500, 1400, 100, 55, 25, 1]);
    assert_eq!(g.prices, vec![15000, 14000, 1000, 550, 250, 10]);
}

#[test]
fn selling_back_what_was_bought_restores_state() {
    let mut g = priced_game();
    g.phase = Phase::Normal;
    g.cash = 10000;
    let before = snapshot(&g);
    g.stage = Stage::Buy(Drug::Acid);
    g.answer(Input::Number(3));
    assert_eq!((g.cash, g.trench_coat[2], g.hold), (4000, 3, 97));
    g.stage = Stage::Sell(Drug::Acid);
    g.answer(Input::Number(3));
    assert_eq!(snapshot(&g).0, before.0);
    assert_eq!(g.trench_coat, before.5);
    assert_eq!(g.hold, before.3);
}

#[test]
fn stashing_and_taking_back_restores_goods() {
    let mut g = GameState::new();
    g.trench_coat = vec![1, 2, 3, 4, 5, 6];
    g.hold = 79;
    let coat = g.trench_coat.clone();
    g.stage = Stage::StashDeposit(Drug::Acid);
    g.answer(Input::Number(3));
    assert_eq!(g.stage, Stage::StashTake(Drug::Acid));
    g.answer(Input::Number(3));
    assert_eq!(g.stage, Stage::VisitBank);
    assert_eq!(g.trench_coat, coat);
    assert_eq!(g.stash, vec![0; 6]);
    assert_eq!(g.hold, 79);
}

#[test]
fn spoilage_event_frees_room() {
    for _ in 0..50 {
        let mut g = priced_game();
        g.trench_coat[3] = 60;
        g.hold = 40;
        g.apply_event(Event::Brownies);
        let w = g.trench_coat[3];
        assert!([0, 30, 40, 45, 48].contains(&w), "weed {}", w);
        assert_eq!(g.hold + carried(&g), 100);
    }
}

#[test]
fn rolled_prices_stay_in_range() {
    let ranges = [(1500, 3000), (500, 1400), (100, 450), (30, 90), (7, 25), (1, 6)];
    let mut g = GameState::new();
    for _ in 0..200 {
        g.roll_prices();
        for (i, (lo, hi)) in ranges.iter().enumerate() {
            let p = g.prices[i];
            assert!(p >= lo * 10 && p <= hi * 10, "price {} out of range", p);
            assert_eq!(p % 10, 0);
        }
    }
}

#[test]
fn event_pool_gating() {
    let mut g = GameState::new();
    g.hold = CAPACITY_GATE;
    g.trench_coat[3] = 1;
    let pool = g.possible_events();
    assert_eq!(pool.len(), 11);
    assert!(!pool.contains(&Event::Brownies));
    assert!(!pool.contains(&Event::PoliceDogs));
    assert!(!pool.contains(&Event::FindDrugs));

    g.trench_coat[3] = 2;
    g.hold = 31;
    let pool = g.possible_events();
    assert_eq!(pool.len(), 13);
    assert!(pool.contains(&Event::Brownies));
    assert!(pool.contains(&Event::PoliceDogs));
    assert!(!pool.contains(&Event::FindDrugs));

    g.hold = 33;
    let pool = g.possible_events();
    assert!(pool.contains(&Event::FindDrugs));
    assert!(!pool.contains(&Event::PoliceDogs));
}

#[test]
fn rolled_events_respect_gating() {
    for _ in 0..200 {
        let mut g = priced_game();
        g.stage = Stage::BuySellJet;
        g.hold = 32;
        let (e, _) = g.roll_event();
        assert!(e != Event::Brownies && e != Event::PoliceDogs && e != Event::FindDrugs);
        assert!(g.hold >= 0);
    }
}

#[test]
fn price_events() {
    let mut g = priced_game();
    g.apply_event(Event::CokeBust);
    assert_eq!(g.prices[0], 120000);
    g.apply_event(Event::Addicts);
    assert_eq!(g.prices[1], 48000);
    g.apply_event(Event::WeedBottomOut);
    assert_eq!(g.prices[3], 100);
    g.apply_event(Event::CheapCocaine);
    assert_eq!(g.prices[0], 20000);
    g.apply_event(Event::CheapHeroin);
    assert_eq!(g.prices[1], 8000);
    g.apply_event(Event::CheapLudes);
    assert_eq!(g.prices[5], 5);
    g.apply_event(Event::CheapAcid);
    assert_eq!(g.prices[2], 200);
}

#[test]
fn mugging_takes_a_fifth() {
    let mut g = GameState::new();
    g.mugged();
    assert_eq!(g.cash, 1600);
    g.cash = 2001;
    g.mugged();
    assert_eq!(g.cash, 1600);
    assert!(g.take_notices().contains(&Notice::Mugged));
}

#[test]
fn brownies_and_police_dogs_restore_room() {
    let mut g = GameState::new();
    g.trench_coat = vec![9, 0, 4, 10, 1, 0];
    g.hold = 76;
    g.brownies(3);
    assert_eq!(g.trench_coat[3], 7);
    assert_eq!(g.hold, 79);
    g.policedogs(2);
    assert_eq!(g.trench_coat, vec![5, 0, 2, 4, 1, 0]);
    assert_eq!(g.hold, 88);
    assert_eq!(g.hold + carried(&g), 100);
}

#[test]
fn found_drugs_take_room() {
    let mut g = GameState::new();
    g.finddrugs(Drug::Speed, 32);
    assert_eq!(g.trench_coat[4], 32);
    assert_eq!(g.hold, 68);
    assert!(g.take_notices().contains(&Notice::FoundDrugs { drug: Drug::Speed, amount: 32 }));
}

#[test]
fn gun_and_coat_offers() {
    let mut g = GameState::new();
    g.stage = Stage::BuySellJet;
    g.phase = Phase::Normal;
    g.gunsale(1, 400);
    assert_eq!(g.stage, Stage::GunOffer { gun: 1, price: 400 });
    g.answer(Input::Key('y'));
    assert_eq!(g.guns, 1);
    assert_eq!(g.cash, 1600);
    assert_eq!(g.stage, Stage::BuySellJet);
    g.coatsale(40, 300);
    g.answer(Input::Key('Y'));
    assert_eq!(g.hold, 140);
    assert_eq!(g.cash, 1300);
    g.cash = 100;
    g.coatsale(40, 300);
    g.answer(Input::Key('y'));
    assert_eq!(g.hold, 140);
    assert_eq!(g.cash, 100);
    g.gunsale(0, 250);
    g.answer(Input::Key('n'));
    assert_eq!(g.guns, 1);
}

#[test]
fn paraquat_yes_ends_the_game() {
    let mut g = GameState::new();
    g.stage = Stage::Paraquat;
    g.answer(Input::Key('q'));
    assert_eq!(g.stage, Stage::Paraquat);
    g.answer(Input::Key('y'));
    assert!(g.stage == Stage::GameOver);
}

#[test]
fn score_boundaries() {
    assert_eq!(score_for(0), 0);
    assert_eq!(score_for(-5_000_000), 0);
    assert_eq!(score_for(i64::MIN), 0);
    assert_eq!(score_for(10_000_000), 98);
    assert_eq!(score_for(9_999_999), 97);
    assert_eq!(score_for(5_000_000), 50);
    assert_eq!(score_for(25_000_000), 99);
    assert_eq!(score_for(50_000_000), 99);
    assert_eq!(score_for(50_000_001), 100);
    assert_eq!(score_for(i64::MAX), 100);
}

#[test]
fn score_never_falls_as_net_grows() {
    let mut last = 0;
    let mut net: i64 = -1_000_000;
    while net <= 60_000_000 {
        let s = score_for(net);
        assert!(s >= last);
        last = s;
        net += 250_000;
    }
}

#[test]
fn ranks() {
    assert_eq!(Rank::for_score(100), Rank::Hero);
    assert_eq!(Rank::for_score(99), Rank::DopeMan);
    assert_eq!(Rank::for_score(98), Rank::God);
    assert_eq!(Rank::for_score(97), Rank::Kingpin);
    assert_eq!(Rank::for_score(76), Rank::Kingpin);
    assert_eq!(Rank::for_score(75), Rank::RunTheTown);
    assert_eq!(Rank::for_score(51), Rank::RunTheTown);
    assert_eq!(Rank::for_score(50), Rank::OwnTheBlock);
    assert_eq!(Rank::for_score(31), Rank::OwnTheBlock);
    assert_eq!(Rank::for_score(30), Rank::SmallTime);
    assert_eq!(Rank::for_score(0), Rank::SmallTime);
}

#[test]
fn interest_compounds_daily() {
    let mut g = GameState::new();
    g.bank = 1000;
    g.apply_interest();
    assert_eq!(g.debt, 6050);
    assert_eq!(g.bank, 1050);
    g.apply_interest();
    assert_eq!(g.debt, 6655);
    assert_eq!(g.bank, 1102);
}

#[test]
fn month_without_trades_ends_with_compounded_debt() {
    let mut g = GameState::new();
    g.stage = Stage::BuySellJet;
    let mut debt: i64 = 5500;
    let mut bank: i64 = 0;
    let mut days = 0;
    while g.pass_day() {
        days += 1;
        debt = debt * 110 / 100;
        bank = bank * 105 / 100;
        assert_eq!(g.debt, debt);
    }
    assert_eq!(days, 30);
    assert_eq!(g.days_left, 0);
    assert_eq!(g.day, 30);
    assert!(g.stage == Stage::GameOver);
    assert_eq!(g.debt, debt);
    assert_eq!(g.bank, bank);
    let net = g.bank + g.cash - g.debt;
    assert_eq!(net, 2000 - debt);
    assert!(net < 0);
    assert_eq!(g.final_score(), 0);
}

#[test]
fn new_day_at_last_day_ends_the_game() {
    let mut g = priced_game();
    g.stage = Stage::BuySellJet;
    g.days_left = 1;
    g.day = 30;
    g.new_day();
    assert_eq!(g.days_left, 0);
    assert_eq!(g.day, 30);
    assert!(g.stage == Stage::GameOver);
}

#[test]
fn unarmed_run_that_fails_draws_fire() {
    let mut g = GameState::new();
    g.stage = Stage::Encounter;
    g.cops = 2;
    assert_eq!(g.guns, 0);
    let r = g.run_away(2, 3, 2, 500);
    assert_eq!(r, Clash::UnderFire);
    assert_eq!(g.cops, 2);
    assert_eq!(g.damage, 4);
    assert_eq!(g.stage, Stage::Encounter);
    let notes = g.take_notices();
    assert!(notes.contains(&Notice::FiringOnYou));
    assert!(!notes.contains(&Notice::FiringOnThem));
}

#[test]
fn unarmed_player_cannot_fight() {
    let mut g = GameState::new();
    g.stage = Stage::Encounter;
    g.cops = 3;
    g.fight('f');
    assert_eq!(g.stage, Stage::Encounter);
    assert_eq!(g.cops, 3);
    assert_eq!(g.damage, 0);
}

#[test]
fn escape_goes_to_menu_or_doctor() {
    let mut g = GameState::new();
    g.phase = Phase::Normal;
    g.stage = Stage::Encounter;
    g.cops = 2;
    assert_eq!(g.run_away(1, 3, 2, 500), Clash::Escaped);
    assert_eq!(g.stage, Stage::BuySellJet);

    g.stage = Stage::Encounter;
    g.damage = 20;
    assert_eq!(g.run_away(1, 0, 2, 500), Clash::Escaped);
    assert_eq!(g.stage, Stage::Doctor { cost: 1000 });
    g.answer(Input::Key('y'));
    assert_eq!(g.damage, 0);
    assert_eq!(g.cash, 1000);
    assert_eq!(g.stage, Stage::BuySellJet);
}

#[test]
fn doctor_refused_when_cash_short() {
    let mut g = GameState::new();
    g.phase = Phase::Normal;
    g.damage = 30;
    g.cash = 10;
    g.check_doctor(1000);
    assert_eq!(g.stage, Stage::Doctor { cost: 3000 });
    g.answer(Input::Key('y'));
    assert_eq!(g.damage, 30);
    assert_eq!(g.cash, 10);
    assert_eq!(g.stage, Stage::BuySellJet);
}

#[test]
fn damage_49_survives_50_is_fatal() {
    let mut g = GameState::new();
    g.stage = Stage::Encounter;
    g.cops = 3;
    g.damage = 45;
    // 3 * 3 - 5 = 4
    assert_eq!(g.take_fire(3, 5), 4);
    assert_eq!(g.damage, 49);
    assert_eq!(g.stage, Stage::Encounter);

    let mut h = GameState::new();
    h.stage = Stage::Encounter;
    h.cops = 3;
    h.damage = 46;
    assert_eq!(h.take_fire(3, 5), 4);
    assert_eq!(h.damage, FATAL_DAMAGE);
    assert!(h.stage == Stage::GameOver);
}

#[test]
fn opponents_can_miss() {
    let mut g = GameState::new();
    g.stage = Stage::Encounter;
    g.cops = 2;
    g.damage = 5;
    assert_eq!(g.take_fire(1, 18), -16);
    assert_eq!(g.damage, 5);
    assert_eq!(g.stage, Stage::Encounter);
}

#[test]
fn shooting_the_last_opponent_wins_a_reward() {
    let mut g = GameState::new();
    g.phase = Phase::Normal;
    g.stage = Stage::Encounter;
    g.guns = 1;
    g.cops = 2;
    assert_eq!(g.shoot(2, 0, 2, 700, 500), Clash::UnderFire);
    assert_eq!(g.cops, 1);
    assert_eq!(g.damage, 0);
    assert_eq!(g.shoot(0, 1, 2, 700, 500), Clash::UnderFire);
    assert_eq!(g.cops, 1);
    assert_eq!(g.shoot(1, 0, 2, 700, 500), Clash::AllDown);
    assert_eq!(g.cops, 0);
    assert_eq!(g.cash, 2700);
    assert_eq!(g.stage, Stage::BuySellJet);
}

#[test]
fn encounter_chance() {
    let mut g = GameState::new();
    g.phase = Phase::Normal;
    g.stage = Stage::BuySellJet;
    assert!(!g.encounter_check(100));
    assert_eq!(g.stage, Stage::BuySellJet);
    g.hold = 9;
    assert!(g.encounter_check(100));
    assert_eq!(g.cops, 3);
    assert_eq!(g.stage, Stage::Encounter);
    g.hold = 0;
    g.stage = Stage::BuySellJet;
    assert!(g.encounter_check(100));
    assert_eq!(g.cops, 13);
}

#[test]
fn loan_shark_flow() {
    let mut g = GameState::new();
    g.stage = Stage::LoanShark;
    g.answer(Input::Key('y'));
    assert_eq!(g.stage, Stage::Repay);
    g.answer(Input::Number(3000));
    assert_eq!(g.stage, Stage::Repay);
    g.answer(Input::Number(500));
    assert_eq!((g.cash, g.debt), (1500, 5000));
    assert_eq!(g.stage, Stage::Borrow);
    g.answer(Input::Number(5000));
    assert_eq!(g.stage, Stage::Borrow);
    assert!(g.take_notices().contains(&Notice::LoanRefused));
    g.answer(Input::Number(4450));
    assert_eq!((g.cash, g.debt), (5950, 9450));
    assert_eq!(g.stage, Stage::TransferStash);
}

#[test]
fn stash_and_bank_flow() {
    let mut g = GameState::new();
    g.phase = Phase::Normal;
    g.trench_coat[0] = 3;
    g.hold = 97;
    g.stage = Stage::TransferStash;
    g.answer(Input::Key('y'));
    assert_eq!(g.stage, Stage::StashWhich);
    g.answer(Input::Key('c'));
    assert_eq!(g.stage, Stage::StashDeposit(Drug::Cocaine));
    g.answer(Input::Number(4));
    assert_eq!(g.stage, Stage::TransferStash);
    g.answer(Input::Key('y'));
    g.answer(Input::Key('c'));
    g.answer(Input::Number(3));
    assert_eq!(g.stage, Stage::StashTake(Drug::Cocaine));
    assert_eq!((g.trench_coat[0], g.stash[0], g.hold), (0, 3, 100));
    g.answer(Input::Number(1));
    assert_eq!(g.stage, Stage::VisitBank);
    assert_eq!((g.trench_coat[0], g.stash[0], g.hold), (1, 2, 99));
    g.answer(Input::Key('y'));
    g.answer(Input::Number(1500));
    assert_eq!(g.stage, Stage::Withdraw);
    assert_eq!((g.cash, g.bank), (500, 1500));
    g.answer(Input::Number(2000));
    assert_eq!((g.cash, g.bank), (500, 1500));
    assert_eq!(g.stage, Stage::BuySellJet);
}

#[test]
fn first_menu_visits_the_loan_shark_once() {
    let mut g = GameState::new();
    g.main_menu();
    assert_eq!(g.stage, Stage::LoanShark);
    assert_eq!(g.phase, Phase::Normal);
    g.main_menu();
    assert_eq!(g.stage, Stage::BuySellJet);
}

#[test]
fn menu_buy_and_sell() {
    let mut g = priced_game();
    g.phase = Phase::Normal;
    g.stage = Stage::BuySellJet;
    g.answer(Input::Key('x'));
    assert_eq!(g.stage, Stage::BuySellJet);
    g.answer(Input::Key('b'));
    g.answer(Input::Key('w'));
    assert_eq!(g.stage, Stage::Buy(Drug::Weed));
    g.answer(Input::Key('w'));
    assert_eq!(g.stage, Stage::Buy(Drug::Weed));
    g.answer(Input::Number(2));
    assert_eq!(g.stage, Stage::BuySellJet);
    assert_eq!((g.cash, g.trench_coat[3], g.hold), (1000, 2, 98));
    g.answer(Input::Key('S'));
    g.answer(Input::Key('w'));
    g.answer(Input::Number(1));
    assert_eq!((g.cash, g.trench_coat[3], g.hold), (1500, 1, 99));
    assert_eq!(g.stage, Stage::BuySellJet);
}

#[test]
fn travel_starts_a_new_day() {
    let mut g = priced_game();
    g.phase = Phase::Normal;
    g.stage = Stage::Jet;
    g.jet('9');
    assert_eq!(g.stage, Stage::BuySellJet);
    assert_eq!(g.days_left, 31);
    g.stage = Stage::Jet;
    g.jet('4');
    assert_eq!(g.geo, Location::Manhattan);
    assert_eq!(g.days_left, 30);
    assert_eq!(g.day, 1);
    assert_eq!(g.debt, 6050);
    assert!(g.stage != Stage::Jet);
}

#[test]
fn coming_home_brings_the_loan_shark_back() {
    let mut g = priced_game();
    g.phase = Phase::Normal;
    g.stage = Stage::Jet;
    g.geo = Location::Brooklyn;
    g.hold = 10_000;
    g.jet('1');
    assert_eq!(g.geo, Location::Bronx);
    assert_eq!(g.days_left, 30);
    // an offer may wait; answering it finishes the day
    for _ in 0..3 {
        match g.stage {
            Stage::GunOffer { .. } | Stage::CoatOffer { .. } | Stage::Paraquat => g.answer(Input::Key('n')),
            _ => {}
        }
    }
    assert!(g.stage == Stage::LoanShark || g.stage == Stage::Encounter);
}

#[test]
fn interrupt_key_ends_the_game() {
    assert!(!GameState::wait_for_key_press('\u{3}'));
    assert!(GameState::wait_for_key_press('x'));
    let mut g = GameState::new();
    g.stage = Stage::BuySellJet;
    g.answer(Input::Key('\u{3}'));
    assert!(g.stage == Stage::GameOver);
    let before = snapshot(&g);
    g.answer(Input::Key('b'));
    assert_eq!(snapshot(&g), before);
    let mut h = GameState::new();
    h.answer(Input::Quit);
    assert!(h.stage == Stage::GameOver);
}

#[test]
fn wrong_kind_of_answer_is_ignored() {
    let mut g = GameState::new();
    g.stage = Stage::Repay;
    let before = snapshot(&g);
    g.answer(Input::Key('5'));
    assert_eq!(snapshot(&g), before);
    g.stage = Stage::BuySellJet;
    g.answer(Input::Number(5));
    assert_eq!(g.stage, Stage::BuySellJet);
}

#[test]
fn instructions_lead_into_the_game() {
    let mut g = priced_game();
    g.answer(Input::Key('y'));
    assert_eq!(g.stage, Stage::Rules);
    g.answer(Input::Key(' '));
    assert!(g.stage != Stage::Rules);
    assert!(g.stage != Stage::GameOver);
}

#[test]
fn intro_menu_sends_to_the_loan_shark_only_on_day_zero() {
    let mut g = GameState::new();
    g.day = 3;
    g.days_left = 28;
    g.main_menu();
    assert_eq!(g.stage, Stage::BuySellJet);
    assert_eq!(g.phase, Phase::Normal);
}
