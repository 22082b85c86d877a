//! The game itself: the state, and the one entry point that changes it.

use crate::auction::{unknown_bidder, winner};
use crate::error::{ErrorKind, StateError};
use crate::laws::{lemma_bidder_known, lemma_step_keeps_wf};
use crate::model::{GameView, JAIL_FINE, MAX_BALANCE, MAX_JAIL_CARDS, SALARY};
use crate::types::{
    Action, Bid, CardEffect, Money, Player, PlayerId, Property, PropertyId, Square, Transaction,
    TransactionType,
};
use vstd::arithmetic::div_mod::lemma_fundamental_div_mod;
use vstd::arithmetic::div_mod::lemma_fundamental_div_mod_converse_mod;
use vstd::pervasive::unreached;
use vstd::prelude::*;

verus! {

/// A game in progress: the board, fixed from the start; the players in
/// turn order; and every action that was applied, oldest first.
#[derive(Clone, Debug)]
pub struct GameState {
    squares: Vec<Square>,
    players: Vec<Player>,
    events: Vec<Action>,
}

/// The one property on the board so far, as the bank holds it at the start.
pub open spec fn is_mediterranean(pr: Property) -> bool {
    &&& pr.name == "Mediterranean Ave"
    &&& pr.price == Money(60)
    &&& pr.base == Money(2)
    &&& pr.houses[0] == Money(10)
    &&& pr.houses[1] == Money(30)
    &&& pr.houses[2] == Money(90)
    &&& pr.houses[3] == Money(160)
    &&& pr.hotel == Money(250)
    &&& pr.mortgage == Money(30)
    &&& pr.house_cost == Money(50)
    &&& pr.hotel_cost == (Money(50), 4i8)
    &&& pr.owner is None
    &&& !pr.mortgaged
    &&& pr.house_count == 0
    &&& !pr.has_hotel
}

/// Where a player stands after moving `n` squares, backwards if `n` is
/// negative, from `pos` on a board of `len` squares.
pub fn advance(pos: usize, n: i8, len: usize) -> (r: usize)
    requires
        pos < len,
    ensures
        r == (pos + n) % (len as int),
{
    let ghost d: int = len as int;
    if n >= 0 {
        let k: usize = (n as usize) % len;
        proof {
            lemma_fundamental_div_mod(n as int, d);
        }
        if pos >= len - k {
            let r: usize = pos - (len - k);
            proof {
                assert(pos + n == ((n as int) / d + 1) * d + r) by (nonlinear_arith)
                    requires
                        n == d * ((n as int) / d) + k,
                        r == pos - (d - k),
                ;
                lemma_fundamental_div_mod_converse_mod(
                    pos + n,
                    d,
                    (n as int) / d + 1,
                    r as int,
                );
            }
            r
        } else {
            let r: usize = pos + k;
            proof {
                assert(pos + n == ((n as int) / d) * d + r) by (nonlinear_arith)
                    requires
                        n == d * ((n as int) / d) + k,
                        r == pos + k,
                ;
                lemma_fundamental_div_mod_converse_mod(pos + n, d, (n as int) / d, r as int);
            }
            r
        }
    } else {
        let back: usize = (-(n as i16)) as usize;
        let k: usize = back % len;
        proof {
            lemma_fundamental_div_mod(back as int, d);
        }
        if pos >= k {
            let r: usize = pos - k;
            proof {
                assert(pos + n == (-((back as int) / d)) * d + r) by (nonlinear_arith)
                    requires
                        back == d * ((back as int) / d) + k,
                        back == -n,
                        r == pos - k,
                ;
                lemma_fundamental_div_mod_converse_mod(
                    pos + n,
                    d,
                    -((back as int) / d),
                    r as int,
                );
            }
            r
        } else {
            let r: usize = len - k + pos;
            proof {
                assert(pos + n == (-((back as int) / d) - 1) * d + r) by (nonlinear_arith)
                    requires
                        back == d * ((back as int) / d) + k,
                        back == -n,
                        r == d - k + pos,
                ;
                lemma_fundamental_div_mod_converse_mod(
                    pos + n,
                    d,
                    -((back as int) / d) - 1,
                    r as int,
                );
            }
            r
        }
    }
}

/// What the property's state says to one of the eight dealings with the
/// bank: whether it admits the deal, the property afterwards, and the change
/// of the player's balance.
pub fn deal_on(action: &Action, prop: &Property) -> (d: (bool, Property, i32))
    requires
        prop.sound(),
    ensures
        d.0 == action.deal_on(*prop).legal,
        d.1 == action.deal_on(*prop).after,
        d.2 == action.deal_on(*prop).delta,
{
    let pr: Property = *prop;
    match action {
        Action::BuyProperty(p, _) => (true, Property { owner: Some(*p), ..pr }, -(pr.price.0 as i32)),
        Action::SellProperty(_, _) => (
            !pr.mortgaged && pr.house_count == 0 && !pr.has_hotel,
            Property { owner: None, ..pr },
            pr.price.0 as i32,
        ),
        Action::BuyHouse(_, _) => (
            !pr.mortgaged && !pr.has_hotel && pr.house_count < 4,
            Property { house_count: pr.house_count + 1, ..pr },
            -(pr.house_cost.0 as i32),
        ),
        Action::SellHouse(_, _) => (
            pr.house_count > 0,
            if pr.house_count > 0 {
                Property { house_count: pr.house_count - 1, ..pr }
            } else {
                pr
            },
            (pr.house_cost.0 / 2) as i32,
        ),
        Action::BuyHotel(_, _) => (
            !pr.mortgaged && !pr.has_hotel && pr.house_count == 4,
            Property { house_count: 0, has_hotel: true, ..pr },
            -(pr.hotel_cost.0.0 as i32),
        ),
        Action::SellHotel(_, _) => (
            pr.has_hotel,
            Property { house_count: 4, has_hotel: false, ..pr },
            (pr.hotel_cost.0.0 / 2) as i32,
        ),
        Action::MortgageProperty(_, _) => (
            !pr.mortgaged && pr.house_count == 0 && !pr.has_hotel,
            Property { mortgaged: true, ..pr },
            pr.mortgage.0 as i32,
        ),
        Action::UnmortgageProperty(_, _) => (
            pr.mortgaged,
            Property { mortgaged: false, ..pr },
            -(pr.mortgage.0 as i32 + (pr.mortgage.0 / 10) as i32),
        ),
        _ => (false, pr, 0),
    }
}

impl View for GameState {
    type V = GameView;

    closed spec fn view(&self) -> GameView {
        GameView { squares: self.squares@, players: self.players@, events: self.events@ }
    }
}

impl GameState {
    /// A new game: the board laid out, no players, nothing logged.
    pub fn init() -> (g: GameState)
        ensures
            g@.wf(),
            g@.players.len() == 0,
            g@.events.len() == 0,
            g@.squares.len() == 2,
            g@.squares[0] == Square::Go,
            g@.squares[1] is Property,
            is_mediterranean(g@.squares[1]->Property_0),
    {
        let mut squares: Vec<Square> = Vec::new();
        squares.push(Square::Go);
        squares.push(
            Square::Property(
                Property {
                    name: "Mediterranean Ave",
                    price: Money(60),
                    base: Money(2),
                    houses: [Money(10), Money(30), Money(90), Money(160)],
                    hotel: Money(250),
                    mortgage: Money(30),
                    house_cost: Money(50),
                    hotel_cost: (Money(50), 4),
                    owner: None,
                    mortgaged: false,
                    house_count: 0,
                    has_hotel: false,
                },
            ),
        );
        GameState { squares, players: Vec::new(), events: Vec::new() }
    }

    /// Registers the next player, on the first square with `balance` in
    /// hand, and returns the new player's id: the number of players before.
    /// Refuses a negative balance, and a 129th player.
    pub fn add_player(&mut self, balance: Money) -> (r: Option<PlayerId>)
        requires
            old(self)@.wf(),
        ensures
            final(self)@.wf(),
            match r {
                Some(id) => {
                    &&& balance.0 >= 0
                    &&& old(self)@.players.len() < 128
                    &&& id.0 == old(self)@.players.len()
                    &&& final(self)@ == (GameView {
                        players: old(self)@.players.push(
                            Player {
                                id,
                                balance,
                                position: 0,
                                in_jail: false,
                                jail_cards: 0,
                                active: true,
                            },
                        ),
                        ..old(self)@
                    })
                },
                None => (balance.0 < 0 || old(self)@.players.len() >= 128) && *final(self) == *old(
                    self,
                ),
            },
    {
        if balance.0 < 0 || self.players.len() >= 128 {
            return None;
        }
        let id: PlayerId = PlayerId(self.players.len() as i8);
        self.players.push(
            Player { id, balance, position: 0, in_jail: false, jail_cards: 0, active: true },
        );
        Some(id)
    }

    /// The players, in turn order.
    pub fn players(&self) -> (r: &Vec<Player>)
        ensures
            r@ == self@.players,
    {
        &self.players
    }

    /// The board.
    pub fn squares(&self) -> (r: &Vec<Square>)
        ensures
            r@ == self@.squares,
    {
        &self.squares
    }

    /// The log: every applied action, oldest first.
    pub fn events(&self) -> (r: &Vec<Action>)
        ensures
            r@ == self@.events,
    {
        &self.events
    }

    /// Whether the game has a player of this number; if not, the error
    /// says so in words.
    pub fn ensure_player(&self, player_id: i8) -> (r: Result<(), StateError>)
        ensures
            match r {
                Ok(_) => self@.has_player(PlayerId(player_id)),
                Err(e) => !self@.has_player(PlayerId(player_id)) && e.message@
                    == ErrorKind::UnknownPlayer(PlayerId(player_id)).spec_message(),
            },
    {
        if self.has_player(PlayerId(player_id)) {
            Ok(())
        } else {
            Err(ErrorKind::UnknownPlayer(PlayerId(player_id)).to_error())
        }
    }

    /// What the player holds, if there is such a player.
    pub fn balance_of(&self, p: PlayerId) -> (r: Option<Money>)
        ensures
            r == if self@.has_player(p) {
                Some(self@.player(p).balance)
            } else {
                None
            },
    {
        if self.has_player(p) {
            Some(self.player(p).balance)
        } else {
            None
        }
    }

    /// Where the player stands, if there is such a player.
    pub fn position_of(&self, p: PlayerId) -> (r: Option<usize>)
        ensures
            r == if self@.has_player(p) {
                Some(self@.player(p).position)
            } else {
                None
            },
    {
        if self.has_player(p) {
            Some(self.player(p).position)
        } else {
            None
        }
    }

    /// Who owns the property: nobody, if it is the bank's or if there is no
    /// such property.
    pub fn owner_of(&self, q: PropertyId) -> (r: Option<PlayerId>)
        ensures
            r == if self@.has_property(q) {
                self@.property(q).owner
            } else {
                None
            },
    {
        if self.has_property(q) {
            self.property(q).owner
        } else {
            None
        }
    }

    fn passes_go(&self, p: PlayerId, n: i8) -> (b: bool)
        requires
            self@.wf(),
        ensures
            b == (self@.has_player(p) && self@.passes_go(p, n as int)),
    {
        if !self.has_player(p) || n <= 0 {
            false
        } else {
            n as usize >= self.squares.len() - self.player(p).position
        }
    }

    /// The action that `action` brings with it, to be submitted after it:
    /// the salary for a move that lands on Go or passes it. To be asked
    /// before the move is applied.
    pub fn consequence(&self, action: &Action) -> (r: Option<Action>)
        requires
            self@.wf(),
        ensures
            r == self@.consequence(*action),
    {
        match action {
            Action::MoveForward(p, n) => if self.passes_go(*p, *n) {
                Some(Action::ReceiveSalary(*p))
            } else {
                None
            },
            Action::DrawCard(p, card) => match card.effect() {
                CardEffect::Move(n) => if self.passes_go(*p, n) {
                    Some(Action::ReceiveSalary(*p))
                } else {
                    None
                },
                _ => None,
            },
            _ => None,
        }
    }

    fn has_player(&self, p: PlayerId) -> (b: bool)
        ensures
            b == self@.has_player(p),
    {
        p.0 >= 0 && (p.0 as usize) < self.players.len()
    }

    fn has_property(&self, q: PropertyId) -> (b: bool)
        ensures
            b == self@.has_property(q),
    {
        if q.0 < 0 || q.0 as usize >= self.squares.len() {
            false
        } else {
            match self.squares[q.0 as usize] {
                Square::Property(_) => true,
                _ => false,
            }
        }
    }

    fn player(&self, p: PlayerId) -> (pl: Player)
        requires
            self@.has_player(p),
        ensures
            pl == self@.player(p),
    {
        self.players[p.0 as usize]
    }

    fn property(&self, q: PropertyId) -> (pr: Property)
        requires
            self@.has_property(q),
        ensures
            pr == self@.property(q),
    {
        match self.squares[q.0 as usize] {
            Square::Property(pr) => pr,
            _ => unreached(),
        }
    }

    fn set_player(&mut self, p: PlayerId, pl: Player)
        requires
            old(self)@.has_player(p),
        ensures
            final(self)@ == old(self)@.with_player(p, pl),
    {
        self.players[p.0 as usize] = pl;
    }

    fn set_property(&mut self, q: PropertyId, pr: Property)
        requires
            old(self)@.has_property(q),
        ensures
            final(self)@ == old(self)@.with_property(q, pr),
    {
        self.squares[q.0 as usize] = Square::Property(pr);
    }

    fn credit(&mut self, p: PlayerId, delta: i32)
        requires
            old(self)@.has_player(p),
            0 <= old(self)@.player(p).balance.0 + delta <= MAX_BALANCE,
        ensures
            final(self)@ == old(self)@.credit(p, delta as int),
    {
        let pl: Player = self.player(p);
        let balance: i16 = (pl.balance.0 as i32 + delta) as i16;
        self.set_player(p, Player { balance: Money(balance), ..pl });
    }

    fn give_card(&mut self, p: PlayerId, n: i8)
        requires
            old(self)@.has_player(p),
            0 <= old(self)@.player(p).jail_cards + n <= MAX_JAIL_CARDS,
        ensures
            final(self)@ == old(self)@.give_card(p, n as int),
    {
        let pl: Player = self.player(p);
        let cards: u8 = (pl.jail_cards as i16 + n as i16) as u8;
        self.set_player(p, Player { jail_cards: cards, ..pl });
    }

    fn move_player(&mut self, p: PlayerId, n: i8)
        requires
            old(self)@.wf(),
            old(self)@.has_player(p),
        ensures
            final(self)@ == old(self)@.moved(p, n as int),
    {
        let pl: Player = self.player(p);
        let position: usize = advance(pl.position, n, self.squares.len());
        self.set_player(p, Player { position, ..pl });
    }

    fn bankrupt(&mut self, p: PlayerId)
        requires
            old(self)@.has_player(p),
        ensures
            final(self)@ == old(self)@.bankrupt(p),
    {
        let pl: Player = self.player(p);
        self.set_player(
            p,
            Player { balance: Money(0), in_jail: false, jail_cards: 0, active: false, ..pl },
        );
        let ghost before: Seq<Square> = self.squares@;
        let mut i: usize = 0;
        while i < self.squares.len()
            invariant
                0 <= i <= self.squares@.len(),
                self.squares@.len() == before.len(),
                self.players@ == old(self).players@.update(
                    p.0 as int,
                    Player {
                        balance: Money(0),
                        in_jail: false,
                        jail_cards: 0,
                        active: false,
                        ..old(self)@.player(p)
                    },
                ),
                self.events@ == old(self).events@,
                before == old(self).squares@,
                forall|j: int| 0 <= j < i ==> self.squares@[j] == (#[trigger] before[j]).without(p),
                forall|j: int| i <= j < before.len() ==> self.squares@[j] == before[j],
            decreases self.squares@.len() - i,
        {
            match self.squares[i] {
                Square::Property(pr) => {
                    if pr.owner == Some(p) {
                        self.squares[i] = Square::Property(
                            Property {
                                owner: None,
                                mortgaged: false,
                                house_count: 0,
                                has_hotel: false,
                                ..pr
                            },
                        );
                    }
                },
                _ => {},
            }
            i += 1;
        }
        assert(self.squares@ =~= Seq::new(before.len(), |j: int| before[j].without(p)));
    }

    fn inactive(&self, p: PlayerId) -> (r: Option<ErrorKind>)
        requires
            self@.has_player(p),
        ensures
            r == self@.inactive(p),
    {
        if !self.player(p).active {
            Some(ErrorKind::PlayerInactive(p))
        } else {
            None
        }
    }

    fn charge_fault(&self, p: PlayerId, amount: i32) -> (r: Option<ErrorKind>)
        requires
            self@.has_player(p),
        ensures
            r == self@.charge_fault(p, amount as int),
    {
        if amount < 0 {
            Some(ErrorKind::AmountOutOfRange(p))
        } else if (self.player(p).balance.0 as i32) < amount {
            Some(ErrorKind::InsufficientFunds(p))
        } else {
            None
        }
    }

    fn grant_fault(&self, p: PlayerId, amount: i32) -> (r: Option<ErrorKind>)
        requires
            self@.has_player(p),
            amount <= 2 * MAX_BALANCE,
        ensures
            r == self@.grant_fault(p, amount as int),
    {
        if amount < 0 || self.player(p).balance.0 as i32 + amount > MAX_BALANCE as i32 {
            Some(ErrorKind::AmountOutOfRange(p))
        } else {
            None
        }
    }

    fn balance_fault(&self, p: PlayerId, delta: i32) -> (r: Option<ErrorKind>)
        requires
            self@.has_player(p),
            -2 * MAX_BALANCE <= delta <= 2 * MAX_BALANCE,
        ensures
            r == self@.balance_fault(p, delta as int),
    {
        if delta < 0 {
            self.charge_fault(p, -delta)
        } else {
            self.grant_fault(p, delta)
        }
    }

    fn card_fault(&self, p: PlayerId) -> (r: Option<ErrorKind>)
        requires
            self@.has_player(p),
        ensures
            r == self@.card_fault(p),
    {
        if self.player(p).jail_cards >= MAX_JAIL_CARDS {
            Some(ErrorKind::AmountOutOfRange(p))
        } else {
            None
        }
    }

    fn holding_fault(&self, holder: PlayerId, q: PropertyId) -> (r: Option<ErrorKind>)
        requires
            self@.has_property(q),
        ensures
            r == self@.holding_fault(holder, q),
    {
        let pr: Property = self.property(q);
        let held: bool = match pr.owner {
            Some(o) => o == holder,
            None => false,
        };
        if !held {
            Some(ErrorKind::NotOwner(holder))
        } else if pr.mortgaged || pr.house_count != 0 || pr.has_hotel {
            Some(ErrorKind::InvalidBuildingState(q))
        } else {
            None
        }
    }

    fn deal_fault(&self, action: &Action, p: PlayerId, q: PropertyId) -> (r: Option<ErrorKind>)
        requires
            self@.wf(),
            self@.has_player(p),
            self@.has_property(q),
            action.spec_bank_deal() == Some((p, q)),
        ensures
            r == self@.deal_fault(*action, p, q),
    {
        let pr: Property = self.property(q);
        let deal: (bool, Property, i32) = deal_on(action, &pr);
        let buying: bool = match action {
            Action::BuyProperty(_, _) => true,
            _ => false,
        };
        let held: bool = match pr.owner {
            Some(o) => o == p,
            None => false,
        };
        if buying && pr.owner.is_some() {
            Some(ErrorKind::PropertyAlreadyOwned(q))
        } else if !buying && !held {
            Some(ErrorKind::NotOwner(p))
        } else if !deal.0 {
            Some(ErrorKind::InvalidBuildingState(q))
        } else {
            self.balance_fault(p, deal.2)
        }
    }

    fn item_fault(&self, actor: PlayerId, t: &Transaction) -> (r: Option<ErrorKind>)
        requires
            self@.has_player(actor),
            self@.has_player(t.spec_partner()),
            self@.unknown_property(Action::TransactWithPlayer(actor, *t)) is None,
        ensures
            r == self@.item_fault(actor, *t),
    {
        match t.ty {
            TransactionType::BuyProperty(o, q) => self.holding_fault(o, q),
            TransactionType::SellProperty(_, q) => self.holding_fault(actor, q),
            TransactionType::BuyGetOutOfJailFreeCard(o) => {
                let theirs: u8 = self.player(o).jail_cards;
                if theirs == 0 {
                    Some(ErrorKind::NotOwner(o))
                } else {
                    let mine: u8 = if actor == o {
                        theirs - 1
                    } else {
                        self.player(actor).jail_cards
                    };
                    if mine >= MAX_JAIL_CARDS {
                        Some(ErrorKind::AmountOutOfRange(actor))
                    } else {
                        None
                    }
                }
            },
            TransactionType::PayRent(_) => None,
        }
    }

    fn transfer_fault(&self, from: PlayerId, to: PlayerId, amount: i16) -> (r: Option<ErrorKind>)
        requires
            self@.has_player(from),
            self@.has_player(to),
        ensures
            r == self@.transfer_fault(from, to, amount as int),
    {
        let charge: Option<ErrorKind> = self.charge_fault(from, amount as i32);
        if charge.is_some() {
            return charge;
        }
        let held: i32 = if from == to {
            self.player(to).balance.0 as i32 - amount as i32
        } else {
            self.player(to).balance.0 as i32
        };
        if held + amount as i32 > MAX_BALANCE as i32 {
            Some(ErrorKind::AmountOutOfRange(to))
        } else {
            None
        }
    }

    fn transfer(&mut self, from: PlayerId, to: PlayerId, amount: i16)
        requires
            old(self)@.wf(),
            old(self)@.has_player(from),
            old(self)@.has_player(to),
            old(self)@.transfer_fault(from, to, amount as int) is None,
        ensures
            final(self)@ == old(self)@.transfer(from, to, amount as int),
    {
        self.credit(from, -(amount as i32));
        self.credit(to, amount as i32);
    }

    fn unknown_player(&self, action: &Action) -> (r: Option<PlayerId>)
        ensures
            r == self@.unknown_player(*action),
    {
        match action {
            Action::AuctionProperty(_, bids) => match unknown_bidder(self.players.len(), bids) {
                Some(i) => Some(bids[i].0),
                None => None,
            },
            Action::TransactWithPlayer(p, t) => {
                if !self.has_player(*p) {
                    Some(*p)
                } else if !self.has_player(t.partner()) {
                    Some(t.partner())
                } else {
                    None
                }
            },
            _ => match actor(action) {
                Some(p) => if !self.has_player(p) {
                    Some(p)
                } else {
                    None
                },
                None => None,
            },
        }
    }

    fn unknown_property(&self, action: &Action) -> (r: Option<PropertyId>)
        ensures
            r == self@.unknown_property(*action),
    {
        match target(action) {
            Some(q) => if !self.has_property(q) {
                Some(q)
            } else {
                None
            },
            None => None,
        }
    }

    fn violation(&self, action: &Action) -> (r: Option<ErrorKind>)
        requires
            self@.wf(),
            self@.unknown_player(*action) is None,
            self@.unknown_property(*action) is None,
        ensures
            r == self@.violation(*action),
    {
        match action {
            Action::AuctionProperty(q, bids) => {
                if self.property(*q).owner.is_some() {
                    return Some(ErrorKind::PropertyAlreadyOwned(*q));
                }
                match winner(bids) {
                    None => None,
                    Some(w) => {
                        let best: Bid = bids[w];
                        proof {
                            lemma_bidder_known(self@.players.len(), bids@, 0, w as int);
                        }
                        let idle: Option<ErrorKind> = self.inactive(best.0);
                        if idle.is_some() {
                            idle
                        } else {
                            self.charge_fault(best.0, best.1.0 as i32)
                        }
                    },
                }
            },
            _ => {
                let p: PlayerId = match actor(action) {
                    Some(p) => p,
                    None => unreached(),
                };
                let idle: Option<ErrorKind> = self.inactive(p);
                if idle.is_some() {
                    return idle;
                }
                match action {
                    Action::PayTaxes(_, m) => self.charge_fault(p, m.0 as i32),
                    Action::ReceiveSalary(_) => self.grant_fault(p, SALARY as i32),
                    Action::DrawCard(_, card) => match card.effect() {
                        CardEffect::Move(_) => None,
                        CardEffect::Pay(m) => self.charge_fault(p, m.0 as i32),
                        CardEffect::Collect(m) => self.grant_fault(p, m.0 as i32),
                        CardEffect::GetOutOfJailFree => self.card_fault(p),
                    },
                    Action::PayJailFine(_) => if !self.player(p).in_jail {
                        Some(ErrorKind::NotInJail(p))
                    } else {
                        self.charge_fault(p, JAIL_FINE as i32)
                    },
                    Action::TransactWithPlayer(_, t) => {
                        let other: Option<ErrorKind> = self.inactive(t.partner());
                        if other.is_some() {
                            return other;
                        }
                        let item: Option<ErrorKind> = self.item_fault(p, t);
                        if item.is_some() {
                            return item;
                        }
                        let (from, to) = parties(p, t);
                        self.transfer_fault(from, to, t.cost.0)
                    },
                    _ => match bank_deal(action) {
                        Some((_, q)) => self.deal_fault(action, p, q),
                        None => None,
                    },
                }
            },
        }
    }

    /// Whether the game accepts the action, and if not, why. Changes
    /// nothing.
    pub fn check(&self, action: &Action) -> (r: Result<(), ErrorKind>)
        requires
            self@.wf(),
        ensures
            r == self@.check(*action),
    {
        match self.unknown_player(action) {
            Some(p) => Err(ErrorKind::UnknownPlayer(p)),
            None => match self.unknown_property(action) {
                Some(q) => Err(ErrorKind::UnknownProperty(q)),
                None => match self.violation(action) {
                    Some(kind) => Err(kind),
                    None => Ok(()),
                },
            },
        }
    }

    fn perform(&mut self, action: &Action)
        requires
            old(self)@.wf(),
            old(self)@.check(*action) is Ok,
        ensures
            final(self)@ == old(self)@.effect(*action),
    {
        match action {
            Action::RollDice(_, _) => {},
            Action::MoveForward(p, n) => self.move_player(*p, *n),
            Action::PayTaxes(p, m) => self.credit(*p, -(m.0 as i32)),
            Action::ReceiveSalary(p) => self.credit(*p, SALARY as i32),
            Action::DrawCard(p, card) => match card.effect() {
                CardEffect::Move(n) => self.move_player(*p, n),
                CardEffect::Pay(m) => self.credit(*p, -(m.0 as i32)),
                CardEffect::Collect(m) => self.credit(*p, m.0 as i32),
                CardEffect::GetOutOfJailFree => self.give_card(*p, 1),
            },
            Action::GoToJail(p) => {
                let pl: Player = self.player(*p);
                self.set_player(*p, Player { in_jail: true, ..pl });
            },
            Action::PayJailFine(p) => {
                let pl: Player = self.player(*p);
                self.set_player(*p, Player { in_jail: false, ..pl });
                self.credit(*p, -(JAIL_FINE as i32));
            },
            Action::AuctionProperty(q, bids) => match winner(bids) {
                None => {},
                Some(w) => {
                    let best: Bid = bids[w];
                    proof {
                        lemma_bidder_known(self@.players.len(), bids@, 0, w as int);
                    }
                    let pr: Property = self.property(*q);
                    self.set_property(*q, Property { owner: Some(best.0), ..pr });
                    self.credit(best.0, -(best.1.0 as i32));
                },
            },
            Action::TransactWithPlayer(p, t) => {
                let (from, to) = parties(*p, t);
                self.transfer(from, to, t.cost.0);
                match t.ty {
                    TransactionType::BuyProperty(_, q) => {
                        let pr: Property = self.property(q);
                        self.set_property(q, Property { owner: Some(*p), ..pr });
                    },
                    TransactionType::SellProperty(o, q) => {
                        let pr: Property = self.property(q);
                        self.set_property(q, Property { owner: Some(o), ..pr });
                    },
                    TransactionType::BuyGetOutOfJailFreeCard(o) => {
                        self.give_card(o, -1);
                        self.give_card(*p, 1);
                    },
                    TransactionType::PayRent(_) => {},
                }
            },
            Action::DeclareBankruptcy(p) => self.bankrupt(*p),
            _ => match bank_deal(action) {
                Some((p, q)) => {
                    let pr: Property = self.property(q);
                    let deal: (bool, Property, i32) = deal_on(action, &pr);
                    self.set_property(q, deal.1);
                    self.credit(p, deal.2);
                },
                None => {},
            },
        }
    }

    /// Applies one action. An accepted action takes effect and is then
    /// appended to the log, which grows by that one entry. A rejected action
    /// changes nothing, and the error says which rule stood against it.
    pub fn submit(&mut self, action: Action) -> (r: Result<(), ErrorKind>)
        requires
            old(self)@.wf(),
        ensures
            final(self)@.wf(),
            r == old(self)@.check(action),
            r is Ok ==> {
                &&& final(self)@ == old(self)@.step(action)
                &&& final(self)@.events.len() == old(self)@.events.len() + 1
                &&& final(self)@.events.last() == action
            },
            r is Err ==> *final(self) == *old(self),
    {
        match self.check(&action) {
            Err(kind) => Err(kind),
            Ok(_) => {
                self.perform(&action);
                self.events.push(action);
                proof {
                    lemma_step_keeps_wf(old(self)@, action);
                }
                Ok(())
            },
        }
    }

    /// Applies one action, as `submit` does, and reports a rejection in
    /// words.
    pub fn apply(&mut self, action: Action) -> (r: Result<(), StateError>)
        requires
            old(self)@.wf(),
        ensures
            final(self)@.wf(),
            match r {
                Ok(_) => {
                    &&& old(self)@.check(action) is Ok
                    &&& final(self)@ == old(self)@.step(action)
                    &&& final(self)@.events.len() == old(self)@.events.len() + 1
                    &&& final(self)@.events.last() == action
                },
                Err(e) => match old(self)@.check(action) {
                    Err(kind) => e.message@ == kind.spec_message() && *final(self) == *old(self),
                    Ok(_) => false,
                },
            },
    {
        match self.submit(action) {
            Err(kind) => Err(kind.to_error()),
            Ok(_) => Ok(()),
        }
    }

    /// The properties that `p` owns, in the order of the board.
    pub fn owned_by(&self, p: PlayerId) -> (r: Vec<PropertyId>)
        ensures
            forall|k: int| 0 <= k < r@.len() ==> self@.owns(p, #[trigger] r@[k]),
            forall|q: PropertyId| self@.owns(p, q) ==> r@.contains(q),
            forall|a: int, b: int| 0 <= a < b < r@.len() ==> r@[a].0 < r@[b].0,
    {
        let mut found: Vec<PropertyId> = Vec::new();
        let mut i: usize = 0;
        while i < self.squares.len() && i < 128
            invariant
                0 <= i <= 128,
                i <= self.squares@.len(),
                forall|k: int| 0 <= k < found@.len() ==> self@.owns(p, #[trigger] found@[k]),
                forall|k: int| 0 <= k < found@.len() ==> (#[trigger] found@[k]).0 < i,
                forall|q: PropertyId| self@.owns(p, q) && q.0 < i ==> found@.contains(q),
                forall|a: int, b: int| 0 <= a < b < found@.len() ==> found@[a].0 < found@[b].0,
            decreases 128 - i,
        {
            let q: PropertyId = PropertyId(i as i8);
            let ghost before: Seq<PropertyId> = found@;
            if self.owner_of(q) == Some(p) {
                found.push(q);
                assert(found@[before.len() as int] == q);
                assert forall|x: PropertyId| self@.owns(p, x) && x.0 < i + 1 implies found@.contains(
                    x,
                ) by {
                    if x.0 < i {
                        assert(before.contains(x));
                        let k = choose|k: int| 0 <= k < before.len() && before[k] == x;
                        assert(found@[k] == x);
                    } else {
                        assert(x == q);
                    }
                }
            } else {
                assert forall|x: PropertyId| self@.owns(p, x) && x.0 < i + 1 implies found@.contains(
                    x,
                ) by {
                    if x.0 < i {
                        assert(before.contains(x));
                    } else {
                        assert(x == q);
                    }
                }
            }
            i += 1;
        }
        found
    }
}

/// The player who acts; an auction has bidders instead.
pub fn actor(action: &Action) -> (r: Option<PlayerId>)
    ensures
        r == action.spec_actor(),
{
    match action {
        Action::RollDice(p, _) => Some(*p),
        Action::MoveForward(p, _) => Some(*p),
        Action::BuyProperty(p, _) => Some(*p),
        Action::SellProperty(p, _) => Some(*p),
        Action::BuyHouse(p, _) => Some(*p),
        Action::SellHouse(p, _) => Some(*p),
        Action::BuyHotel(p, _) => Some(*p),
        Action::SellHotel(p, _) => Some(*p),
        Action::PayTaxes(p, _) => Some(*p),
        Action::ReceiveSalary(p) => Some(*p),
        Action::DrawCard(p, _) => Some(*p),
        Action::GoToJail(p) => Some(*p),
        Action::PayJailFine(p) => Some(*p),
        Action::AuctionProperty(_, _) => None,
        Action::MortgageProperty(p, _) => Some(*p),
        Action::UnmortgageProperty(p, _) => Some(*p),
        Action::TransactWithPlayer(p, _) => Some(*p),
        Action::DeclareBankruptcy(p) => Some(*p),
    }
}

/// The player and the property of an action that deals with the bank over
/// a property.
pub fn bank_deal(action: &Action) -> (r: Option<(PlayerId, PropertyId)>)
    ensures
        r == action.spec_bank_deal(),
{
    match action {
        Action::BuyProperty(p, q) => Some((*p, *q)),
        Action::SellProperty(p, q) => Some((*p, *q)),
        Action::BuyHouse(p, q) => Some((*p, *q)),
        Action::SellHouse(p, q) => Some((*p, *q)),
        Action::BuyHotel(p, q) => Some((*p, *q)),
        Action::SellHotel(p, q) => Some((*p, *q)),
        Action::MortgageProperty(p, q) => Some((*p, *q)),
        Action::UnmortgageProperty(p, q) => Some((*p, *q)),
        _ => None,
    }
}

/// The property that the action names, if it names one.
pub fn target(action: &Action) -> (r: Option<PropertyId>)
    ensures
        r == action.spec_target(),
{
    match action {
        Action::AuctionProperty(q, _) => Some(*q),
        Action::TransactWithPlayer(_, t) => match t.ty {
            TransactionType::BuyProperty(_, q) => Some(q),
            TransactionType::SellProperty(_, q) => Some(q),
            _ => None,
        },
        _ => match bank_deal(action) {
            Some((_, q)) => Some(q),
            None => None,
        },
    }
}

/// Who pays and who is paid in a transaction of `actor`.
pub fn parties(actor: PlayerId, t: &Transaction) -> (r: (PlayerId, PlayerId))
    ensures
        r.0 == t.payer(actor),
        r.1 == t.payee(actor),
{
    match t.ty {
        TransactionType::SellProperty(o, _) => (o, actor),
        _ => (actor, t.partner()),
    }
}

} // verus!
