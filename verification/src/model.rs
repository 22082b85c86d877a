//! The mathematical model of a game: what a state is, which actions it
//! accepts, and what an accepted action does to it.

use crate::auction::{first_unknown_bidder, spec_winner};
use crate::error::ErrorKind;
use crate::types::{
    Action, CardEffect, Money, Player, PlayerId, Property, PropertyId, Square, Transaction,
    TransactionType,
};
use vstd::prelude::*;

verus! {

/// What a player collects for passing Go.
pub const SALARY: i16 = 200;

/// What it costs to leave jail.
pub const JAIL_FINE: i16 = 50;

/// The largest balance that a player can hold.
pub const MAX_BALANCE: i16 = 32767;

/// The largest number of get-out-of-jail-free cards that a player can hold.
pub const MAX_JAIL_CARDS: u8 = 255;

/// A game as plain sequences: the board, the players in turn order, and the
/// log of applied actions, oldest first.
pub struct GameView {
    pub squares: Seq<Square>,
    pub players: Seq<Player>,
    pub events: Seq<Action>,
}

/// A deal between a player and the bank over one property: whether the
/// property's state admits it, the property afterwards, and the change of
/// the player's balance.
pub struct Deal {
    pub legal: bool,
    pub after: Property,
    pub delta: int,
}

/// The first of two possible faults.
pub open spec fn either(a: Option<ErrorKind>, b: Option<ErrorKind>) -> Option<ErrorKind> {
    if a is Some {
        a
    } else {
        b
    }
}

impl Property {
    /// Neither mortgaged nor built on.
    pub open spec fn bare(self) -> bool {
        !self.mortgaged && self.house_count == 0 && !self.has_hotel
    }

    /// Prices are not negative, there are at most four houses, and a hotel
    /// stands in place of houses, never beside them.
    pub open spec fn sound(self) -> bool {
        &&& self.price.0 >= 0
        &&& self.mortgage.0 >= 0
        &&& self.house_cost.0 >= 0
        &&& self.hotel_cost.0.0 >= 0
        &&& self.house_count <= 4
        &&& (self.has_hotel ==> self.house_count == 0)
    }

    /// The property as the bank holds it.
    pub open spec fn released(self) -> Property {
        Property { owner: None, mortgaged: false, house_count: 0, has_hotel: false, ..self }
    }
}

impl Square {
    /// The square after `p` gave up everything: a property of `p` goes back
    /// to the bank, any other square stays.
    pub open spec fn without(self, p: PlayerId) -> Square {
        match self {
            Square::Property(pr) => if pr.owner == Some(p) {
                Square::Property(pr.released())
            } else {
                self
            },
            _ => self,
        }
    }
}

impl Square {
    /// The square as the board was laid out: a property without owner,
    /// mortgage or buildings, any other square as it is.
    pub open spec fn laid_out(self) -> Square {
        match self {
            Square::Property(pr) => Square::Property(pr.released()),
            _ => self,
        }
    }
}

impl GameView {
    /// Whether `other` is played on the same board by the same players:
    /// square for square the same but for owners, mortgages and buildings,
    /// and player for player the same id.
    pub open spec fn same_table(self, other: GameView) -> bool {
        &&& self.squares.len() == other.squares.len()
        &&& self.players.len() == other.players.len()
        &&& forall|i: int|
            0 <= i < self.squares.len() ==> (#[trigger] self.squares[i]).laid_out()
                == other.squares[i].laid_out()
        &&& forall|i: int|
            0 <= i < self.players.len() ==> (#[trigger] self.players[i]).id == other.players[i].id
    }
}

impl Action {
    /// The player and the property of an action that deals with the bank
    /// over a property.
    pub open spec fn spec_bank_deal(self) -> Option<(PlayerId, PropertyId)> {
        match self {
            Action::BuyProperty(p, q) => Some((p, q)),
            Action::SellProperty(p, q) => Some((p, q)),
            Action::BuyHouse(p, q) => Some((p, q)),
            Action::SellHouse(p, q) => Some((p, q)),
            Action::BuyHotel(p, q) => Some((p, q)),
            Action::SellHotel(p, q) => Some((p, q)),
            Action::MortgageProperty(p, q) => Some((p, q)),
            Action::UnmortgageProperty(p, q) => Some((p, q)),
            _ => None,
        }
    }

    /// The player who acts; an auction has bidders instead.
    pub open spec fn spec_actor(self) -> Option<PlayerId> {
        match self {
            Action::RollDice(p, _) => Some(p),
            Action::MoveForward(p, _) => Some(p),
            Action::BuyProperty(p, _) => Some(p),
            Action::SellProperty(p, _) => Some(p),
            Action::BuyHouse(p, _) => Some(p),
            Action::SellHouse(p, _) => Some(p),
            Action::BuyHotel(p, _) => Some(p),
            Action::SellHotel(p, _) => Some(p),
            Action::PayTaxes(p, _) => Some(p),
            Action::ReceiveSalary(p) => Some(p),
            Action::DrawCard(p, _) => Some(p),
            Action::GoToJail(p) => Some(p),
            Action::PayJailFine(p) => Some(p),
            Action::AuctionProperty(_, _) => None,
            Action::MortgageProperty(p, _) => Some(p),
            Action::UnmortgageProperty(p, _) => Some(p),
            Action::TransactWithPlayer(p, _) => Some(p),
            Action::DeclareBankruptcy(p) => Some(p),
        }
    }

    /// The property that the action names, if it names one.
    pub open spec fn spec_target(self) -> Option<PropertyId> {
        match self {
            Action::AuctionProperty(q, _) => Some(q),
            Action::TransactWithPlayer(_, t) => match t.ty {
                TransactionType::BuyProperty(_, q) => Some(q),
                TransactionType::SellProperty(_, q) => Some(q),
                _ => None,
            },
            _ => match self.spec_bank_deal() {
                Some((_, q)) => Some(q),
                None => None,
            },
        }
    }

    /// Whether the action names the player `p`: as the one who acts, as the
    /// other party of a transaction, or as a bidder.
    pub open spec fn mentions(self, p: PlayerId) -> bool {
        match self {
            Action::AuctionProperty(_, bids) => exists|i: int|
                0 <= i < bids@.len() && (#[trigger] bids@[i]).0 == p,
            Action::TransactWithPlayer(a, t) => a == p || t.spec_partner() == p,
            _ => self.spec_actor() == Some(p),
        }
    }

    /// What the property's state says to one of the eight dealings with the
    /// bank. A property is sold back at its price, a house or a hotel at half
    /// its price; to lift a mortgage costs its value and a tenth of it.
    pub open spec fn deal_on(self, prop: Property) -> Deal {
        match self {
            Action::BuyProperty(p, _) => Deal {
                legal: true,
                after: Property { owner: Some(p), ..prop },
                delta: -prop.price.0,
            },
            Action::SellProperty(_, _) => Deal {
                legal: prop.bare(),
                after: Property { owner: None, ..prop },
                delta: prop.price.0 as int,
            },
            Action::BuyHouse(_, _) => Deal {
                legal: !prop.mortgaged && !prop.has_hotel && prop.house_count < 4,
                after: Property { house_count: (prop.house_count + 1) as u8, ..prop },
                delta: -prop.house_cost.0,
            },
            Action::SellHouse(_, _) => Deal {
                legal: prop.house_count > 0,
                after: if prop.house_count > 0 {
                    Property { house_count: (prop.house_count - 1) as u8, ..prop }
                } else {
                    prop
                },
                delta: prop.house_cost.0 / 2,
            },
            Action::BuyHotel(_, _) => Deal {
                legal: !prop.mortgaged && !prop.has_hotel && prop.house_count == 4,
                after: Property { house_count: 0, has_hotel: true, ..prop },
                delta: -prop.hotel_cost.0.0,
            },
            Action::SellHotel(_, _) => Deal {
                legal: prop.has_hotel,
                after: Property { house_count: 4, has_hotel: false, ..prop },
                delta: prop.hotel_cost.0.0 / 2,
            },
            Action::MortgageProperty(_, _) => Deal {
                legal: prop.bare(),
                after: Property { mortgaged: true, ..prop },
                delta: prop.mortgage.0 as int,
            },
            Action::UnmortgageProperty(_, _) => Deal {
                legal: prop.mortgaged,
                after: Property { mortgaged: false, ..prop },
                delta: -(prop.mortgage.0 + prop.mortgage.0 / 10),
            },
            _ => Deal { legal: false, after: prop, delta: 0 },
        }
    }
}

impl Transaction {
    /// Who pays: the buyer of a property or a card, or the tenant.
    pub open spec fn payer(self, actor: PlayerId) -> PlayerId {
        match self.ty {
            TransactionType::SellProperty(o, _) => o,
            _ => actor,
        }
    }

    /// Who is paid.
    pub open spec fn payee(self, actor: PlayerId) -> PlayerId {
        match self.ty {
            TransactionType::SellProperty(_, _) => actor,
            _ => self.spec_partner(),
        }
    }
}

impl GameView {
    pub open spec fn has_player(self, p: PlayerId) -> bool {
        0 <= p.0 < self.players.len()
    }

    pub open spec fn has_property(self, q: PropertyId) -> bool {
        0 <= q.0 < self.squares.len() && self.squares[q.0 as int] is Property
    }

    pub open spec fn player(self, p: PlayerId) -> Player {
        self.players[p.0 as int]
    }

    pub open spec fn property(self, q: PropertyId) -> Property {
        self.squares[q.0 as int]->Property_0
    }

    /// Whether `p` owns the property `q`.
    pub open spec fn owns(self, p: PlayerId, q: PropertyId) -> bool {
        self.has_property(q) && self.property(q).owner == Some(p)
    }

    /// The state is valid: the board is not empty and can be counted; each player's id is its
    /// place in the list, no balance is negative and every position is on
    /// the board; each property is sound and its owner, if any, is a player.
    pub open spec fn wf(self) -> bool {
        &&& 0 < self.squares.len() <= usize::MAX
        &&& forall|i: int|
            0 <= i < self.players.len() ==> {
                &&& (#[trigger] self.players[i]).id.0 == i
                &&& self.players[i].balance.0 >= 0
                &&& self.players[i].position < self.squares.len()
            }
        &&& forall|i: int|
            0 <= i < self.squares.len() ==> match #[trigger] self.squares[i] {
                Square::Property(pr) => pr.sound() && match pr.owner {
                    Some(o) => self.has_player(o),
                    None => true,
                },
                _ => true,
            }
    }

    pub open spec fn with_player(self, p: PlayerId, pl: Player) -> GameView {
        GameView { players: self.players.update(p.0 as int, pl), ..self }
    }

    pub open spec fn with_property(self, q: PropertyId, pr: Property) -> GameView {
        GameView { squares: self.squares.update(q.0 as int, Square::Property(pr)), ..self }
    }

    /// The balance of `p` changed by `delta`, which may be negative.
    pub open spec fn credit(self, p: PlayerId, delta: int) -> GameView {
        self.with_player(
            p,
            Player { balance: Money((self.player(p).balance.0 + delta) as i16), ..self.player(p) },
        )
    }

    /// The number of get-out-of-jail-free cards of `p` changed by `n`.
    pub open spec fn give_card(self, p: PlayerId, n: int) -> GameView {
        self.with_player(
            p,
            Player { jail_cards: (self.player(p).jail_cards + n) as u8, ..self.player(p) },
        )
    }

    /// `p` moved by `n` squares round the board, backwards if `n` is negative.
    pub open spec fn moved(self, p: PlayerId, n: int) -> GameView {
        self.with_player(
            p,
            Player {
                position: ((self.player(p).position + n) % (self.squares.len() as int)) as usize,
                ..self.player(p)
            },
        )
    }

    /// `p` gave up: the properties go back to the bank, bare; the player
    /// keeps nothing and plays no more.
    pub open spec fn bankrupt(self, p: PlayerId) -> GameView {
        GameView {
            squares: Seq::new(self.squares.len(), |i: int| self.squares[i].without(p)),
            players: self.players.update(
                p.0 as int,
                Player {
                    balance: Money(0),
                    in_jail: false,
                    jail_cards: 0,
                    active: false,
                    ..self.player(p)
                },
            ),
            ..self
        }
    }

    /// Whether `p`, moving `n` squares forward, lands on Go or passes it. Go
    /// is the first square.
    pub open spec fn passes_go(self, p: PlayerId, n: int) -> bool {
        n > 0 && self.player(p).position + n >= self.squares.len()
    }

    /// The action that an action brings with it, to be submitted after it: the
    /// salary for a move, by the dice or by a card, that lands on Go or passes
    /// it, judged from where the player stands before the move.
    pub open spec fn consequence(self, action: Action) -> Option<Action> {
        match action {
            Action::MoveForward(p, n) => if self.has_player(p) && self.passes_go(p, n as int) {
                Some(Action::ReceiveSalary(p))
            } else {
                None
            },
            Action::DrawCard(p, card) => match card.spec_effect() {
                CardEffect::Move(n) => if self.has_player(p) && self.passes_go(p, n as int) {
                    Some(Action::ReceiveSalary(p))
                } else {
                    None
                },
                _ => None,
            },
            _ => None,
        }
    }

    pub open spec fn inactive(self, p: PlayerId) -> Option<ErrorKind> {
        if !self.player(p).active {
            Some(ErrorKind::PlayerInactive(p))
        } else {
            None
        }
    }

    /// What stands against taking `amount` from `p`.
    pub open spec fn charge_fault(self, p: PlayerId, amount: int) -> Option<ErrorKind> {
        if amount < 0 {
            Some(ErrorKind::AmountOutOfRange(p))
        } else if self.player(p).balance.0 < amount {
            Some(ErrorKind::InsufficientFunds(p))
        } else {
            None
        }
    }

    /// What stands against giving `amount` to `p`.
    pub open spec fn grant_fault(self, p: PlayerId, amount: int) -> Option<ErrorKind> {
        if amount < 0 || self.player(p).balance.0 + amount > MAX_BALANCE {
            Some(ErrorKind::AmountOutOfRange(p))
        } else {
            None
        }
    }

    /// What stands against changing the balance of `p` by `delta`.
    pub open spec fn balance_fault(self, p: PlayerId, delta: int) -> Option<ErrorKind> {
        if delta < 0 {
            self.charge_fault(p, -delta)
        } else {
            self.grant_fault(p, delta)
        }
    }

    /// What stands against `p` receiving one more get-out-of-jail-free card.
    pub open spec fn card_fault(self, p: PlayerId) -> Option<ErrorKind> {
        if self.player(p).jail_cards >= MAX_JAIL_CARDS {
            Some(ErrorKind::AmountOutOfRange(p))
        } else {
            None
        }
    }

    /// What stands against `holder` handing the property `q` to another
    /// player: it must be the holder's, and bare.
    pub open spec fn holding_fault(self, holder: PlayerId, q: PropertyId) -> Option<ErrorKind> {
        if self.property(q).owner != Some(holder) {
            Some(ErrorKind::NotOwner(holder))
        } else if !self.property(q).bare() {
            Some(ErrorKind::InvalidBuildingState(q))
        } else {
            None
        }
    }

    /// What stands against a deal of `p` with the bank over `q`: first
    /// ownership, then the state of the buildings, then the money.
    pub open spec fn deal_fault(self, action: Action, p: PlayerId, q: PropertyId) -> Option<
        ErrorKind,
    > {
        let prop = self.property(q);
        let deal = action.deal_on(prop);
        if action is BuyProperty && prop.owner is Some {
            Some(ErrorKind::PropertyAlreadyOwned(q))
        } else if !(action is BuyProperty) && prop.owner != Some(p) {
            Some(ErrorKind::NotOwner(p))
        } else if !deal.legal {
            Some(ErrorKind::InvalidBuildingState(q))
        } else {
            self.balance_fault(p, deal.delta)
        }
    }

    /// What stands against the thing that a transaction hands over.
    pub open spec fn item_fault(self, actor: PlayerId, t: Transaction) -> Option<ErrorKind> {
        match t.ty {
            TransactionType::BuyProperty(o, q) => self.holding_fault(o, q),
            TransactionType::SellProperty(_, q) => self.holding_fault(actor, q),
            TransactionType::BuyGetOutOfJailFreeCard(o) => if self.player(o).jail_cards == 0 {
                Some(ErrorKind::NotOwner(o))
            } else {
                self.give_card(o, -1).card_fault(actor)
            },
            TransactionType::PayRent(_) => None,
        }
    }

    /// What stands against moving `amount` from one player to another.
    pub open spec fn transfer_fault(self, from: PlayerId, to: PlayerId, amount: int) -> Option<
        ErrorKind,
    > {
        either(self.charge_fault(from, amount), self.credit(from, -amount).grant_fault(to, amount))
    }

    /// `amount` moved from one player to another.
    pub open spec fn transfer(self, from: PlayerId, to: PlayerId, amount: int) -> GameView {
        self.credit(from, -amount).credit(to, amount)
    }

    /// The first player that the action names and the game does not have.
    pub open spec fn unknown_player(self, action: Action) -> Option<PlayerId> {
        match action {
            Action::AuctionProperty(_, bids) => match first_unknown_bidder(
                self.players.len(),
                bids@,
                0,
            ) {
                Some(i) => Some(bids@[i].0),
                None => None,
            },
            Action::TransactWithPlayer(p, t) => if !self.has_player(p) {
                Some(p)
            } else if !self.has_player(t.spec_partner()) {
                Some(t.spec_partner())
            } else {
                None
            },
            _ => match action.spec_actor() {
                Some(p) => if !self.has_player(p) {
                    Some(p)
                } else {
                    None
                },
                None => None,
            },
        }
    }

    /// The property that the action names, if the board has none such.
    pub open spec fn unknown_property(self, action: Action) -> Option<PropertyId> {
        match action.spec_target() {
            Some(q) => if !self.has_property(q) {
                Some(q)
            } else {
                None
            },
            None => None,
        }
    }

    /// What the rules of the action itself have against it, once every
    /// player and property that it names is known. A player who gave up
    /// cannot act. Turn order is not enforced.
    pub open spec fn violation(self, action: Action) -> Option<ErrorKind> {
        match action {
            Action::RollDice(p, _) => self.inactive(p),
            Action::MoveForward(p, _) => self.inactive(p),
            Action::PayTaxes(p, m) => either(self.inactive(p), self.charge_fault(p, m.0 as int)),
            Action::ReceiveSalary(p) => either(
                self.inactive(p),
                self.grant_fault(p, SALARY as int),
            ),
            Action::DrawCard(p, card) => either(
                self.inactive(p),
                match card.spec_effect() {
                    CardEffect::Move(_) => None,
                    CardEffect::Pay(m) => self.charge_fault(p, m.0 as int),
                    CardEffect::Collect(m) => self.grant_fault(p, m.0 as int),
                    CardEffect::GetOutOfJailFree => self.card_fault(p),
                },
            ),
            Action::GoToJail(p) => self.inactive(p),
            Action::PayJailFine(p) => either(
                self.inactive(p),
                if !self.player(p).in_jail {
                    Some(ErrorKind::NotInJail(p))
                } else {
                    self.charge_fault(p, JAIL_FINE as int)
                },
            ),
            Action::AuctionProperty(q, bids) => if self.property(q).owner is Some {
                Some(ErrorKind::PropertyAlreadyOwned(q))
            } else if bids@.len() == 0 {
                None
            } else {
                let best = bids@[spec_winner(bids@)];
                either(self.inactive(best.0), self.charge_fault(best.0, best.1.0 as int))
            },
            Action::TransactWithPlayer(p, t) => either(
                self.inactive(p),
                either(
                    self.inactive(t.spec_partner()),
                    either(
                        self.item_fault(p, t),
                        self.transfer_fault(t.payer(p), t.payee(p), t.cost.0 as int),
                    ),
                ),
            ),
            Action::DeclareBankruptcy(p) => self.inactive(p),
            _ => match action.spec_bank_deal() {
                Some((p, q)) => either(self.inactive(p), self.deal_fault(action, p, q)),
                None => None,
            },
        }
    }

    /// Whether the game accepts the action, and if not, why: unknown
    /// players come first, then unknown properties, then the action's own
    /// rules.
    pub open spec fn check(self, action: Action) -> Result<(), ErrorKind> {
        match self.unknown_player(action) {
            Some(p) => Err(ErrorKind::UnknownPlayer(p)),
            None => match self.unknown_property(action) {
                Some(q) => Err(ErrorKind::UnknownProperty(q)),
                None => match self.violation(action) {
                    Some(kind) => Err(kind),
                    None => Ok(()),
                },
            },
        }
    }

    /// What an accepted action does to the board and the players.
    pub open spec fn effect(self, action: Action) -> GameView {
        match action {
            Action::RollDice(_, _) => self,
            Action::MoveForward(p, n) => self.moved(p, n as int),
            Action::PayTaxes(p, m) => self.credit(p, -m.0),
            Action::ReceiveSalary(p) => self.credit(p, SALARY as int),
            Action::DrawCard(p, card) => match card.spec_effect() {
                CardEffect::Move(n) => self.moved(p, n as int),
                CardEffect::Pay(m) => self.credit(p, -m.0),
                CardEffect::Collect(m) => self.credit(p, m.0 as int),
                CardEffect::GetOutOfJailFree => self.give_card(p, 1),
            },
            Action::GoToJail(p) => self.with_player(p, Player { in_jail: true, ..self.player(p) }),
            Action::PayJailFine(p) => self.with_player(
                p,
                Player { in_jail: false, ..self.player(p) },
            ).credit(p, -JAIL_FINE),
            Action::AuctionProperty(q, bids) => if bids@.len() == 0 {
                self
            } else {
                let best = bids@[spec_winner(bids@)];
                self.with_property(q, Property { owner: Some(best.0), ..self.property(q) }).credit(
                    best.0,
                    -best.1.0,
                )
            },
            Action::TransactWithPlayer(p, t) => {
                let paid = self.transfer(t.payer(p), t.payee(p), t.cost.0 as int);
                match t.ty {
                    TransactionType::BuyProperty(_, q) => paid.with_property(
                        q,
                        Property { owner: Some(p), ..paid.property(q) },
                    ),
                    TransactionType::SellProperty(o, q) => paid.with_property(
                        q,
                        Property { owner: Some(o), ..paid.property(q) },
                    ),
                    TransactionType::BuyGetOutOfJailFreeCard(o) => paid.give_card(o, -1).give_card(
                        p,
                        1,
                    ),
                    TransactionType::PayRent(_) => paid,
                }
            },
            Action::DeclareBankruptcy(p) => self.bankrupt(p),
            _ => match action.spec_bank_deal() {
                Some((p, q)) => self.with_property(q, action.deal_on(self.property(q)).after).credit(
                    p,
                    action.deal_on(self.property(q)).delta,
                ),
                None => self,
            },
        }
    }

    /// The state after an accepted action: its effect, then the action at
    /// the end of the log.
    pub open spec fn step(self, action: Action) -> GameView {
        GameView { events: self.events.push(action), ..self.effect(action) }
    }
}

} // verus!
