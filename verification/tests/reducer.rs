use property_game::{
    Action, Bid, Card, CardEffect, ChanceCard, CommunityChestCard, ErrorKind, GameState, Money,
    PlayerId, PropertyId, RollResult, Square, StateError, Transaction, TransactionType,
};

const LOT: PropertyId = PropertyId(1);

fn game_with(balances: &[i16]) -> GameState {
    let mut state = GameState::init();
    for (i, b) in balances.iter().enumerate() {
        assert_eq!(state.add_player(Money(*b)), Some(PlayerId(i as i8)));
    }
    state
}

fn balance(state: &GameState, p: i8) -> i16 {
    state.players()[p as usize].balance.0
}

fn owner(state: &GameState, q: PropertyId) -> Option<PlayerId> {
    match state.squares()[q.0 as usize] {
        Square::Property(pr) => pr.owner,
        _ => panic!("not a property"),
    }
}

fn lot(state: &GameState) -> property_game::Property {
    match state.squares()[1] {
        Square::Property(pr) => pr,
        _ => panic!("not a property"),
    }
}

fn rejected(state: &mut GameState, action: Action, kind: ErrorKind) {
    let players = state.players().clone();
    let squares = state.squares().clone();
    let events = state.events().clone();
    assert_eq!(state.check(&action), Err(kind));
    assert_eq!(state.apply(action), Err(kind.to_error()));
    assert_eq!(*state.players(), players);
    assert_eq!(*state.squares(), squares);
    assert_eq!(*state.events(), events);
}

fn accepted(state: &mut GameState, action: Action) {
    let before = state.events().len();
    assert_eq!(state.check(&action), Ok(()));
    assert_eq!(state.apply(action.clone()), Ok(()));
    assert_eq!(state.events().len(), before + 1);
    assert_eq!(state.events().last(), Some(&action));
}

#[test]
fn roll_dice_with_invalid_player_raises() {
    let mut state = GameState::init();
    let result = state.apply(Action::RollDice(PlayerId(0), RollResult(1, 2)));
    assert_eq!(
        result,
        Err(StateError::new("player 0 is not a valid player"))
    );
}

#[test]
fn roll_dice_with_valid_player_logs_roll() {
    let mut state = GameState::init();
    let id = PlayerId(0);
    assert_eq!(state.add_player(Money(1500)), Some(id));
    let result = state.apply(Action::RollDice(id, RollResult(1, 2)));
    assert_eq!(result, Ok(()));
    assert_eq!(*state.events(), [Action::RollDice(id, RollResult(1, 2))]);
}

#[test]
fn roll_without_players_is_unknown_player_and_logs_nothing() {
    let mut state = GameState::init();
    let action = Action::RollDice(PlayerId(0), RollResult(1, 2));
    assert_eq!(state.check(&action), Err(ErrorKind::UnknownPlayer(PlayerId(0))));
    assert!(state.apply(action).is_err());
    assert!(state.events().is_empty());
    assert!(state.players().is_empty());
}

#[test]
fn new_game_has_the_board_and_nothing_else() {
    let state = GameState::init();
    assert_eq!(state.squares().len(), 2);
    assert_eq!(state.squares()[0], Square::Go);
    let pr = lot(&state);
    assert_eq!(pr.name, "Mediterranean Ave");
    assert_eq!(pr.price, Money(60));
    assert_eq!(pr.base, Money(2));
    assert_eq!(pr.houses, [Money(10), Money(30), Money(90), Money(160)]);
    assert_eq!(pr.hotel, Money(250));
    assert_eq!(pr.mortgage, Money(30));
    assert_eq!(pr.house_cost, Money(50));
    assert_eq!(pr.hotel_cost, (Money(50), 4));
    assert_eq!(pr.owner, None);
    assert!(!pr.mortgaged && !pr.has_hotel);
    assert_eq!(pr.house_count, 0);
    assert!(state.players().is_empty());
    assert!(state.events().is_empty());
}

#[test]
fn players_get_their_place_as_id() {
    let mut state = GameState::init();
    assert_eq!(state.add_player(Money(-1)), None);
    assert!(state.players().is_empty());
    assert_eq!(state.add_player(Money(10)), Some(PlayerId(0)));
    assert_eq!(state.add_player(Money(20)), Some(PlayerId(1)));
    let second = state.players()[1];
    assert_eq!(second.id, PlayerId(1));
    assert_eq!(second.balance, Money(20));
    assert_eq!(second.position, 0);
    assert!(second.active && !second.in_jail);
    assert_eq!(second.jail_cards, 0);
}

#[test]
fn the_129th_player_is_refused() {
    let mut state = GameState::init();
    for i in 0..128 {
        assert_eq!(state.add_player(Money(0)), Some(PlayerId(i as i8)));
    }
    assert_eq!(state.add_player(Money(0)), None);
    assert_eq!(state.players().len(), 128);
    accepted(&mut state, Action::RollDice(PlayerId(127), RollResult(6, 6)));
}

#[test]
fn negative_player_id_is_unknown() {
    let mut state = game_with(&[100]);
    rejected(
        &mut state,
        Action::RollDice(PlayerId(-3), RollResult(1, 1)),
        ErrorKind::UnknownPlayer(PlayerId(-3)),
    );
    assert_eq!(
        state.apply(Action::ReceiveSalary(PlayerId(-3))),
        Err(StateError::new("player -3 is not a valid player"))
    );
    assert_eq!(
        state.apply(Action::ReceiveSalary(PlayerId(-128))),
        Err(StateError::new("player -128 is not a valid player"))
    );
    assert_eq!(
        state.apply(Action::ReceiveSalary(PlayerId(127))),
        Err(StateError::new("player 127 is not a valid player"))
    );
}

#[test]
fn every_kind_has_its_sentence() {
    let p = PlayerId(7);
    let q = PropertyId(12);
    assert_eq!(ErrorKind::UnknownPlayer(p).message(), "player 7 is not a valid player");
    assert_eq!(ErrorKind::UnknownProperty(q).message(), "property 12 is not a valid property");
    assert_eq!(ErrorKind::NotOwner(p).message(), "player 7 is not the owner");
    assert_eq!(ErrorKind::InsufficientFunds(p).message(), "player 7 has insufficient funds");
    assert_eq!(ErrorKind::PropertyAlreadyOwned(q).message(), "property 12 is already owned");
    assert_eq!(
        ErrorKind::InvalidBuildingState(q).message(),
        "property 12 is in an invalid building state"
    );
    assert_eq!(ErrorKind::NotPlayersTurn(p).message(), "player 7 is not on turn");
    assert_eq!(ErrorKind::PlayerInactive(p).message(), "player 7 is inactive");
    assert_eq!(ErrorKind::NotInJail(p).message(), "player 7 is not in jail");
    assert_eq!(ErrorKind::AmountOutOfRange(p).message(), "player 7 has an amount out of range");
    assert_eq!(ErrorKind::NotOwner(p).subject(), 7);
    assert_eq!(ErrorKind::NotOwner(p).to_error().description(), "player 7 is not the owner");
    assert_eq!(StateError::new("foo").description(), "foo");
}

#[test]
fn unknown_player_comes_before_unknown_property() {
    let mut state = game_with(&[100]);
    rejected(
        &mut state,
        Action::BuyProperty(PlayerId(1), PropertyId(9)),
        ErrorKind::UnknownPlayer(PlayerId(1)),
    );
    rejected(
        &mut state,
        Action::BuyProperty(PlayerId(0), PropertyId(9)),
        ErrorKind::UnknownProperty(PropertyId(9)),
    );
    rejected(
        &mut state,
        Action::BuyProperty(PlayerId(0), PropertyId(0)),
        ErrorKind::UnknownProperty(PropertyId(0)),
    );
    rejected(
        &mut state,
        Action::MortgageProperty(PlayerId(0), PropertyId(-1)),
        ErrorKind::UnknownProperty(PropertyId(-1)),
    );
    rejected(
        &mut state,
        Action::AuctionProperty(PropertyId(2), vec![]),
        ErrorKind::UnknownProperty(PropertyId(2)),
    );
}

#[test]
fn buying_with_too_little_money_changes_nothing() {
    let mut state = game_with(&[50]);
    rejected(
        &mut state,
        Action::BuyProperty(PlayerId(0), LOT),
        ErrorKind::InsufficientFunds(PlayerId(0)),
    );
    assert_eq!(balance(&state, 0), 50);
    assert_eq!(owner(&state, LOT), None);
}

#[test]
fn buying_and_selling_with_the_bank() {
    let mut state = game_with(&[60, 500]);
    rejected(&mut state, Action::SellProperty(PlayerId(0), LOT), ErrorKind::NotOwner(PlayerId(0)));
    accepted(&mut state, Action::BuyProperty(PlayerId(0), LOT));
    assert_eq!(balance(&state, 0), 0);
    assert_eq!(owner(&state, LOT), Some(PlayerId(0)));
    rejected(
        &mut state,
        Action::BuyProperty(PlayerId(1), LOT),
        ErrorKind::PropertyAlreadyOwned(LOT),
    );
    rejected(
        &mut state,
        Action::BuyProperty(PlayerId(0), LOT),
        ErrorKind::PropertyAlreadyOwned(LOT),
    );
    rejected(&mut state, Action::SellProperty(PlayerId(1), LOT), ErrorKind::NotOwner(PlayerId(1)));
    accepted(&mut state, Action::SellProperty(PlayerId(0), LOT));
    assert_eq!(balance(&state, 0), 60);
    assert_eq!(owner(&state, LOT), None);
    accepted(&mut state, Action::BuyProperty(PlayerId(1), LOT));
    assert_eq!(balance(&state, 1), 440);
    assert_eq!(owner(&state, LOT), Some(PlayerId(1)));
    assert_eq!(state.events().len(), 3);
}

#[test]
fn houses_and_hotel() {
    let mut state = game_with(&[335]);
    let p = PlayerId(0);
    rejected(&mut state, Action::BuyHouse(p, LOT), ErrorKind::NotOwner(p));
    accepted(&mut state, Action::BuyProperty(p, LOT));
    rejected(&mut state, Action::SellHouse(p, LOT), ErrorKind::InvalidBuildingState(LOT));
    rejected(&mut state, Action::BuyHotel(p, LOT), ErrorKind::InvalidBuildingState(LOT));
    rejected(&mut state, Action::SellHotel(p, LOT), ErrorKind::InvalidBuildingState(LOT));
    for n in 1..=4 {
        accepted(&mut state, Action::BuyHouse(p, LOT));
        assert_eq!(lot(&state).house_count, n);
        assert_eq!(balance(&state, 0), 275 - 50 * n as i16);
    }
    rejected(&mut state, Action::BuyHouse(p, LOT), ErrorKind::InvalidBuildingState(LOT));
    rejected(&mut state, Action::SellProperty(p, LOT), ErrorKind::InvalidBuildingState(LOT));
    rejected(&mut state, Action::MortgageProperty(p, LOT), ErrorKind::InvalidBuildingState(LOT));
    accepted(&mut state, Action::BuyHotel(p, LOT));
    assert_eq!(balance(&state, 0), 25);
    assert!(lot(&state).has_hotel);
    assert_eq!(lot(&state).house_count, 0);
    rejected(&mut state, Action::BuyHouse(p, LOT), ErrorKind::InvalidBuildingState(LOT));
    rejected(&mut state, Action::BuyHotel(p, LOT), ErrorKind::InvalidBuildingState(LOT));
    accepted(&mut state, Action::SellHotel(p, LOT));
    assert_eq!(balance(&state, 0), 50);
    assert!(!lot(&state).has_hotel);
    assert_eq!(lot(&state).house_count, 4);
    accepted(&mut state, Action::SellHouse(p, LOT));
    assert_eq!(balance(&state, 0), 75);
    assert_eq!(lot(&state).house_count, 3);
    accepted(&mut state, Action::BuyHouse(p, LOT));
    assert_eq!(balance(&state, 0), 25);
    rejected(&mut state, Action::BuyHotel(p, LOT), ErrorKind::InsufficientFunds(p));
}

#[test]
fn mortgage_and_interest() {
    let mut state = game_with(&[62]);
    let p = PlayerId(0);
    accepted(&mut state, Action::BuyProperty(p, LOT));
    rejected(&mut state, Action::UnmortgageProperty(p, LOT), ErrorKind::InvalidBuildingState(LOT));
    accepted(&mut state, Action::MortgageProperty(p, LOT));
    assert!(lot(&state).mortgaged);
    assert_eq!(balance(&state, 0), 32);
    rejected(&mut state, Action::MortgageProperty(p, LOT), ErrorKind::InvalidBuildingState(LOT));
    rejected(&mut state, Action::BuyHouse(p, LOT), ErrorKind::InvalidBuildingState(LOT));
    rejected(&mut state, Action::UnmortgageProperty(p, LOT), ErrorKind::InsufficientFunds(p));
    accepted(&mut state, Action::PayTaxes(p, Money(0)));
    accepted(&mut state, Action::ReceiveSalary(p));
    accepted(&mut state, Action::UnmortgageProperty(p, LOT));
    assert!(!lot(&state).mortgaged);
    assert_eq!(balance(&state, 0), 232 - 33);
    assert_eq!(owner(&state, LOT), Some(p));
}

#[test]
fn taxes_and_salary() {
    let mut state = game_with(&[100, 32700]);
    let p = PlayerId(0);
    accepted(&mut state, Action::PayTaxes(p, Money(100)));
    assert_eq!(balance(&state, 0), 0);
    rejected(&mut state, Action::PayTaxes(p, Money(1)), ErrorKind::InsufficientFunds(p));
    rejected(&mut state, Action::PayTaxes(p, Money(-5)), ErrorKind::AmountOutOfRange(p));
    accepted(&mut state, Action::ReceiveSalary(p));
    assert_eq!(balance(&state, 0), 200);
    assert_eq!(balance(&state, 1), 32700);
    rejected(
        &mut state,
        Action::ReceiveSalary(PlayerId(1)),
        ErrorKind::AmountOutOfRange(PlayerId(1)),
    );
}

#[test]
fn moving_goes_round_the_board() {
    let mut state = game_with(&[0]);
    let p = PlayerId(0);
    accepted(&mut state, Action::MoveForward(p, 3));
    assert_eq!(state.players()[0].position, 1);
    accepted(&mut state, Action::MoveForward(p, 1));
    assert_eq!(state.players()[0].position, 0);
    accepted(&mut state, Action::MoveForward(p, -1));
    assert_eq!(state.players()[0].position, 1);
    accepted(&mut state, Action::MoveForward(p, -128));
    assert_eq!(state.players()[0].position, 1);
    accepted(&mut state, Action::MoveForward(p, 127));
    assert_eq!(state.players()[0].position, 0);
    assert_eq!(balance(&state, 0), 0);
}

#[test]
fn advance_is_the_remainder() {
    assert_eq!(property_game::game::advance(0, 12, 40), 12);
    assert_eq!(property_game::game::advance(35, 12, 40), 7);
    assert_eq!(property_game::game::advance(39, 1, 40), 0);
    assert_eq!(property_game::game::advance(2, -3, 40), 39);
    assert_eq!(property_game::game::advance(3, -3, 40), 0);
    assert_eq!(property_game::game::advance(5, -128, 40), 37);
    assert_eq!(property_game::game::advance(5, 127, 40), 12);
    assert_eq!(property_game::game::advance(0, -7, 1), 0);
    assert_eq!(property_game::game::advance(usize::MAX - 1, 100, usize::MAX), 99);
}

#[test]
fn cards_carry_their_effect() {
    let mut state = game_with(&[10]);
    let p = PlayerId(0);
    let chance = |e| Card::Chance(ChanceCard(e));
    let chest = |e| Card::CommunityChest(CommunityChestCard(e));
    assert_eq!(chance(CardEffect::Move(2)).effect(), CardEffect::Move(2));
    assert_eq!(chest(CardEffect::GetOutOfJailFree).effect(), CardEffect::GetOutOfJailFree);
    accepted(&mut state, Action::DrawCard(p, chance(CardEffect::Move(-3))));
    assert_eq!(state.players()[0].position, 1);
    accepted(&mut state, Action::DrawCard(p, chest(CardEffect::Collect(Money(15)))));
    assert_eq!(balance(&state, 0), 25);
    accepted(&mut state, Action::DrawCard(p, chance(CardEffect::Pay(Money(20)))));
    assert_eq!(balance(&state, 0), 5);
    rejected(
        &mut state,
        Action::DrawCard(p, chest(CardEffect::Pay(Money(6)))),
        ErrorKind::InsufficientFunds(p),
    );
    rejected(
        &mut state,
        Action::DrawCard(p, chest(CardEffect::Collect(Money(-1)))),
        ErrorKind::AmountOutOfRange(p),
    );
    rejected(
        &mut state,
        Action::DrawCard(p, chest(CardEffect::Collect(Money(32767)))),
        ErrorKind::AmountOutOfRange(p),
    );
    accepted(&mut state, Action::DrawCard(p, chance(CardEffect::GetOutOfJailFree)));
    assert_eq!(state.players()[0].jail_cards, 1);
    for _ in 1..255 {
        accepted(&mut state, Action::DrawCard(p, chance(CardEffect::GetOutOfJailFree)));
    }
    assert_eq!(state.players()[0].jail_cards, 255);
    rejected(
        &mut state,
        Action::DrawCard(p, chance(CardEffect::GetOutOfJailFree)),
        ErrorKind::AmountOutOfRange(p),
    );
}

#[test]
fn jail_and_fine() {
    let mut state = game_with(&[70]);
    let p = PlayerId(0);
    rejected(&mut state, Action::PayJailFine(p), ErrorKind::NotInJail(p));
    accepted(&mut state, Action::GoToJail(p));
    assert!(state.players()[0].in_jail);
    accepted(&mut state, Action::PayJailFine(p));
    assert!(!state.players()[0].in_jail);
    assert_eq!(balance(&state, 0), 20);
    accepted(&mut state, Action::GoToJail(p));
    rejected(&mut state, Action::PayJailFine(p), ErrorKind::InsufficientFunds(p));
    assert!(state.players()[0].in_jail);
}

#[test]
fn highest_bid_wins_and_first_of_equals() {
    let bids = vec![
        Bid(PlayerId(0), Money(100)),
        Bid(PlayerId(1), Money(120)),
        Bid(PlayerId(2), Money(120)),
        Bid(PlayerId(0), Money(110)),
    ];
    assert_eq!(property_game::auction::winner(&bids), Some(1));
    assert_eq!(property_game::auction::winner(&vec![]), None);
    assert_eq!(property_game::auction::winner(&vec![Bid(PlayerId(4), Money(-7))]), Some(0));
    assert_eq!(property_game::auction::unknown_bidder(2, &bids), Some(2));
    assert_eq!(property_game::auction::unknown_bidder(3, &bids), None);
    assert_eq!(
        property_game::auction::unknown_bidder(3, &vec![Bid(PlayerId(-1), Money(1))]),
        Some(0)
    );
    let mut state = game_with(&[500, 500, 500]);
    accepted(&mut state, Action::AuctionProperty(LOT, bids.clone()));
    assert_eq!(owner(&state, LOT), Some(PlayerId(1)));
    assert_eq!(balance(&state, 0), 500);
    assert_eq!(balance(&state, 1), 380);
    assert_eq!(balance(&state, 2), 500);
    rejected(
        &mut state,
        Action::AuctionProperty(LOT, bids),
        ErrorKind::PropertyAlreadyOwned(LOT),
    );
}

#[test]
fn auctions_that_fail_or_find_no_taker() {
    let mut state = game_with(&[500, 50]);
    accepted(&mut state, Action::AuctionProperty(LOT, vec![]));
    assert_eq!(owner(&state, LOT), None);
    rejected(
        &mut state,
        Action::AuctionProperty(
            PropertyId(7),
            vec![Bid(PlayerId(0), Money(1)), Bid(PlayerId(5), Money(2)), Bid(PlayerId(9), Money(3))],
        ),
        ErrorKind::UnknownPlayer(PlayerId(5)),
    );
    rejected(
        &mut state,
        Action::AuctionProperty(LOT, vec![Bid(PlayerId(0), Money(10)), Bid(PlayerId(1), Money(51))]),
        ErrorKind::InsufficientFunds(PlayerId(1)),
    );
    rejected(
        &mut state,
        Action::AuctionProperty(LOT, vec![Bid(PlayerId(0), Money(-10))]),
        ErrorKind::AmountOutOfRange(PlayerId(0)),
    );
    accepted(&mut state, Action::DeclareBankruptcy(PlayerId(1)));
    rejected(
        &mut state,
        Action::AuctionProperty(LOT, vec![Bid(PlayerId(1), Money(0))]),
        ErrorKind::PlayerInactive(PlayerId(1)),
    );
    assert_eq!(owner(&state, LOT), None);
}

fn deal(ty: TransactionType, cost: i16) -> Transaction {
    Transaction { ty, cost: Money(cost) }
}

#[test]
fn rent_moves_money_between_players() {
    let mut state = game_with(&[100, 32700, 7]);
    let a = PlayerId(0);
    let b = PlayerId(1);
    accepted(&mut state, Action::TransactWithPlayer(a, deal(TransactionType::PayRent(b), 60)));
    assert_eq!(balance(&state, 0), 40);
    assert_eq!(balance(&state, 1), 32760);
    assert_eq!(balance(&state, 2), 7);
    assert_eq!(balance(&state, 0) as i32 + balance(&state, 1) as i32, 100 + 32700);
    rejected(
        &mut state,
        Action::TransactWithPlayer(a, deal(TransactionType::PayRent(b), 41)),
        ErrorKind::InsufficientFunds(a),
    );
    rejected(
        &mut state,
        Action::TransactWithPlayer(a, deal(TransactionType::PayRent(b), 8)),
        ErrorKind::AmountOutOfRange(b),
    );
    rejected(
        &mut state,
        Action::TransactWithPlayer(a, deal(TransactionType::PayRent(b), -1)),
        ErrorKind::AmountOutOfRange(a),
    );
    rejected(
        &mut state,
        Action::TransactWithPlayer(a, deal(TransactionType::PayRent(PlayerId(3)), 1)),
        ErrorKind::UnknownPlayer(PlayerId(3)),
    );
    rejected(
        &mut state,
        Action::TransactWithPlayer(PlayerId(4), deal(TransactionType::PayRent(PlayerId(3)), 1)),
        ErrorKind::UnknownPlayer(PlayerId(4)),
    );
    accepted(&mut state, Action::TransactWithPlayer(b, deal(TransactionType::PayRent(b), 32760)));
    assert_eq!(balance(&state, 1), 32760);
}

#[test]
fn players_trade_a_property() {
    let mut state = game_with(&[100, 100]);
    let a = PlayerId(0);
    let b = PlayerId(1);
    rejected(
        &mut state,
        Action::TransactWithPlayer(a, deal(TransactionType::BuyProperty(b, LOT), 10)),
        ErrorKind::NotOwner(b),
    );
    rejected(
        &mut state,
        Action::TransactWithPlayer(a, deal(TransactionType::SellProperty(b, LOT), 10)),
        ErrorKind::NotOwner(a),
    );
    rejected(
        &mut state,
        Action::TransactWithPlayer(a, deal(TransactionType::SellProperty(b, PropertyId(0)), 10)),
        ErrorKind::UnknownProperty(PropertyId(0)),
    );
    accepted(&mut state, Action::BuyProperty(b, LOT));
    accepted(
        &mut state,
        Action::TransactWithPlayer(a, deal(TransactionType::BuyProperty(b, LOT), 30)),
    );
    assert_eq!(owner(&state, LOT), Some(a));
    assert_eq!(balance(&state, 0), 70);
    assert_eq!(balance(&state, 1), 70);
    rejected(
        &mut state,
        Action::TransactWithPlayer(a, deal(TransactionType::SellProperty(b, LOT), 71)),
        ErrorKind::InsufficientFunds(b),
    );
    accepted(
        &mut state,
        Action::TransactWithPlayer(a, deal(TransactionType::SellProperty(b, LOT), 70)),
    );
    assert_eq!(owner(&state, LOT), Some(b));
    assert_eq!(balance(&state, 0), 140);
    assert_eq!(balance(&state, 1), 0);
    accepted(&mut state, Action::MortgageProperty(b, LOT));
    rejected(
        &mut state,
        Action::TransactWithPlayer(a, deal(TransactionType::BuyProperty(b, LOT), 1)),
        ErrorKind::InvalidBuildingState(LOT),
    );
}

#[test]
fn players_trade_a_card() {
    let mut state = game_with(&[100, 100]);
    let a = PlayerId(0);
    let b = PlayerId(1);
    let buy = Action::TransactWithPlayer(a, deal(TransactionType::BuyGetOutOfJailFreeCard(b), 25));
    rejected(&mut state, buy.clone(), ErrorKind::NotOwner(b));
    accepted(
        &mut state,
        Action::DrawCard(b, Card::Chance(ChanceCard(CardEffect::GetOutOfJailFree))),
    );
    accepted(&mut state, buy.clone());
    assert_eq!(state.players()[0].jail_cards, 1);
    assert_eq!(state.players()[1].jail_cards, 0);
    assert_eq!(balance(&state, 0), 75);
    assert_eq!(balance(&state, 1), 125);
    rejected(&mut state, buy, ErrorKind::NotOwner(b));
    accepted(
        &mut state,
        Action::TransactWithPlayer(a, deal(TransactionType::BuyGetOutOfJailFreeCard(a), 75)),
    );
    assert_eq!(state.players()[0].jail_cards, 1);
    assert_eq!(balance(&state, 0), 75);
}

#[test]
fn a_bankrupt_player_keeps_the_id_and_nothing_else() {
    let mut state = game_with(&[400, 100]);
    let a = PlayerId(0);
    let b = PlayerId(1);
    accepted(&mut state, Action::BuyProperty(a, LOT));
    accepted(&mut state, Action::BuyHouse(a, LOT));
    accepted(&mut state, Action::GoToJail(a));
    accepted(
        &mut state,
        Action::DrawCard(a, Card::Chance(ChanceCard(CardEffect::GetOutOfJailFree))),
    );
    accepted(&mut state, Action::DeclareBankruptcy(b));
    assert_eq!(owner(&state, LOT), Some(a));
    assert_eq!(lot(&state).house_count, 1);
    accepted(&mut state, Action::DeclareBankruptcy(a));
    let gone = state.players()[0];
    assert_eq!(gone.id, a);
    assert_eq!(gone.balance, Money(0));
    assert!(!gone.active && !gone.in_jail);
    assert_eq!(gone.jail_cards, 0);
    let pr = lot(&state);
    assert_eq!(pr.owner, None);
    assert_eq!(pr.house_count, 0);
    assert!(!pr.mortgaged && !pr.has_hotel);
    assert_eq!(pr.price, Money(60));
    assert_eq!(state.players().len(), 2);
    rejected(&mut state, Action::RollDice(a, RollResult(3, 4)), ErrorKind::PlayerInactive(a));
    rejected(&mut state, Action::ReceiveSalary(a), ErrorKind::PlayerInactive(a));
    rejected(&mut state, Action::DeclareBankruptcy(a), ErrorKind::PlayerInactive(a));
    rejected(&mut state, Action::BuyProperty(a, LOT), ErrorKind::PlayerInactive(a));
    rejected(
        &mut state,
        Action::TransactWithPlayer(b, deal(TransactionType::PayRent(a), 0)),
        ErrorKind::PlayerInactive(b),
    );
    assert_eq!(state.events().len(), 6);
}

#[test]
fn the_dice_add_up() {
    assert_eq!(RollResult(1, 2).total(), 3);
    assert_eq!(RollResult(127, 127).total(), 254);
    assert_eq!(RollResult(-128, -128).total(), -256);
}

#[test]
fn parts_of_an_action() {
    let buy = Action::BuyProperty(PlayerId(2), PropertyId(5));
    assert_eq!(property_game::game::actor(&buy), Some(PlayerId(2)));
    assert_eq!(property_game::game::target(&buy), Some(PropertyId(5)));
    assert_eq!(property_game::game::bank_deal(&buy), Some((PlayerId(2), PropertyId(5))));
    let auction = Action::AuctionProperty(PropertyId(3), vec![]);
    assert_eq!(property_game::game::actor(&auction), None);
    assert_eq!(property_game::game::target(&auction), Some(PropertyId(3)));
    assert_eq!(property_game::game::bank_deal(&auction), None);
    let sale = deal(TransactionType::SellProperty(PlayerId(1), PropertyId(4)), 9);
    assert_eq!(sale.partner(), PlayerId(1));
    assert_eq!(property_game::game::parties(PlayerId(0), &sale), (PlayerId(1), PlayerId(0)));
    let rent = deal(TransactionType::PayRent(PlayerId(1)), 9);
    assert_eq!(property_game::game::parties(PlayerId(0), &rent), (PlayerId(0), PlayerId(1)));
    assert_eq!(
        property_game::game::target(&Action::TransactWithPlayer(PlayerId(0), sale)),
        Some(PropertyId(4))
    );
    assert_eq!(property_game::game::target(&Action::GoToJail(PlayerId(0))), None);
    let state = GameState::init();
    let pr = lot(&state);
    let (legal, after, delta) =
        property_game::game::deal_on(&Action::UnmortgageProperty(PlayerId(0), LOT), &pr);
    assert!(!legal);
    assert!(!after.mortgaged);
    assert_eq!(delta, -33);
    let (legal, after, delta) = property_game::game::deal_on(&buy, &pr);
    assert!(legal);
    assert_eq!(after.owner, Some(PlayerId(2)));
    assert_eq!(delta, -60);
}

#[test]
fn rent_follows_the_buildings() {
    let state = GameState::init();
    let mut pr = lot(&state);
    assert_eq!(pr.rent(), Money(2));
    pr.house_count = 1;
    assert_eq!(pr.rent(), Money(10));
    pr.house_count = 3;
    assert_eq!(pr.rent(), Money(90));
    pr.house_count = 4;
    assert_eq!(pr.rent(), Money(160));
    pr.house_count = 0;
    pr.has_hotel = true;
    assert_eq!(pr.rent(), Money(250));
    pr.mortgaged = true;
    assert_eq!(pr.rent(), Money(0));
}

#[test]
fn a_move_past_go_brings_the_salary() {
    let mut state = game_with(&[0]);
    let p = PlayerId(0);
    assert_eq!(state.consequence(&Action::MoveForward(p, 1)), None);
    assert_eq!(state.consequence(&Action::MoveForward(p, 2)), Some(Action::ReceiveSalary(p)));
    assert_eq!(state.consequence(&Action::MoveForward(p, -2)), None);
    assert_eq!(state.consequence(&Action::MoveForward(p, 0)), None);
    assert_eq!(state.consequence(&Action::MoveForward(PlayerId(1), 2)), None);
    assert_eq!(state.consequence(&Action::RollDice(p, RollResult(1, 1))), None);
    accepted(&mut state, Action::MoveForward(p, 1));
    let card = Card::CommunityChest(CommunityChestCard(CardEffect::Move(1)));
    assert_eq!(state.consequence(&Action::DrawCard(p, card)), Some(Action::ReceiveSalary(p)));
    let card = Card::CommunityChest(CommunityChestCard(CardEffect::Collect(Money(1))));
    assert_eq!(state.consequence(&Action::DrawCard(p, card)), None);
    let salary = state.consequence(&Action::MoveForward(p, 1)).unwrap();
    accepted(&mut state, Action::MoveForward(p, 1));
    accepted(&mut state, salary);
    assert_eq!(balance(&state, 0), 200);
    assert_eq!(state.position_of(p), Some(0));
}

#[test]
fn questions_about_players_and_properties() {
    let mut state = game_with(&[100, 7]);
    assert_eq!(state.balance_of(PlayerId(1)), Some(Money(7)));
    assert_eq!(state.balance_of(PlayerId(2)), None);
    assert_eq!(state.balance_of(PlayerId(-1)), None);
    assert_eq!(state.position_of(PlayerId(0)), Some(0));
    assert_eq!(state.position_of(PlayerId(2)), None);
    assert_eq!(state.owner_of(LOT), None);
    accepted(&mut state, Action::BuyProperty(PlayerId(0), LOT));
    assert_eq!(state.owner_of(LOT), Some(PlayerId(0)));
    assert_eq!(state.owner_of(PropertyId(0)), None);
    assert_eq!(state.owner_of(PropertyId(2)), None);
    assert_eq!(state.balance_of(PlayerId(0)), Some(Money(40)));
}

#[test]
fn a_game_can_be_copied_and_goes_its_own_way() {
    let mut state = game_with(&[100]);
    let copy = state.clone();
    accepted(&mut state, Action::BuyProperty(PlayerId(0), LOT));
    assert_eq!(copy.owner_of(LOT), None);
    assert_eq!(copy.balance_of(PlayerId(0)), Some(Money(100)));
    assert!(copy.events().is_empty());
    assert_eq!(state.events().len(), 1);
}

#[test]
fn submit_tells_the_kind() {
    let mut state = game_with(&[50]);
    let buy = Action::BuyProperty(PlayerId(0), LOT);
    assert_eq!(state.submit(buy.clone()), Err(ErrorKind::InsufficientFunds(PlayerId(0))));
    assert!(state.events().is_empty());
    assert_eq!(state.balance_of(PlayerId(0)), Some(Money(50)));
    assert_eq!(state.owner_of(LOT), None);
    assert_eq!(state.submit(Action::ReceiveSalary(PlayerId(0))), Ok(()));
    assert_eq!(state.submit(buy.clone()), Ok(()));
    assert_eq!(*state.events(), [Action::ReceiveSalary(PlayerId(0)), buy]);
    assert_eq!(state.balance_of(PlayerId(0)), Some(Money(190)));
    assert_eq!(
        state.submit(Action::GoToJail(PlayerId(1))),
        Err(ErrorKind::UnknownPlayer(PlayerId(1)))
    );
    assert_eq!(state.events().len(), 2);
}

#[test]
fn owned_by_lists_what_a_player_owns() {
    let mut state = game_with(&[100, 100]);
    assert_eq!(state.owned_by(PlayerId(0)), vec![]);
    accepted(&mut state, Action::BuyProperty(PlayerId(1), LOT));
    assert_eq!(state.owned_by(PlayerId(0)), vec![]);
    assert_eq!(state.owned_by(PlayerId(1)), vec![LOT]);
    assert_eq!(state.owned_by(PlayerId(2)), vec![]);
    accepted(&mut state, Action::DeclareBankruptcy(PlayerId(1)));
    assert_eq!(state.owned_by(PlayerId(1)), vec![]);
}

#[test]
fn ensure_player_knows_who_plays() {
    let state = game_with(&[1, 2]);
    assert_eq!(state.ensure_player(0), Ok(()));
    assert_eq!(state.ensure_player(1), Ok(()));
    assert_eq!(
        state.ensure_player(2),
        Err(StateError::new("player 2 is not a valid player"))
    );
    assert_eq!(
        state.ensure_player(-1),
        Err(StateError::new("player -1 is not a valid player"))
    );
    assert_eq!(
        GameState::init().ensure_player(0),
        Err(StateError::new("player 0 is not a valid player"))
    );
}
