//! The vocabulary of the game: identifiers, money, board squares, cards and
//! the actions that a player or the game can submit.

use vstd::prelude::*;

verus! {

/// Identifies a player: the player's index in turn order.
#[derive(Copy, Clone, Debug, PartialEq, Eq, Structural)]
pub struct PlayerId(pub i8);

/// Identifies a property: its index in the board's list of squares.
#[derive(Copy, Clone, Debug, PartialEq, Eq, Structural)]
pub struct PropertyId(pub i8);

/// A signed amount of currency units.
#[derive(Copy, Clone, Debug, PartialEq, Eq, Structural)]
pub struct Money(pub i16);

/// One participant. A bankrupt player stays in the list, inactive.
#[derive(Copy, Clone, Debug, PartialEq)]
pub struct Player {
    pub id: PlayerId,
    pub balance: Money,
    pub position: usize,
    pub in_jail: bool,
    pub jail_cards: u8,
    pub active: bool,
}

/// A square that can be owned: its fixed terms and its ownership state.
#[derive(Copy, Clone, Debug, PartialEq)]
pub struct Property {
    pub name: &'static str,
    pub price: Money,
    pub base: Money,
    pub houses: [Money; 4],
    pub hotel: Money,
    pub mortgage: Money,
    pub house_cost: Money,
    /// The price of a hotel and the number of houses it replaces.
    pub hotel_cost: (Money, i8),
    pub owner: Option<PlayerId>,
    pub mortgaged: bool,
    pub house_count: u8,
    pub has_hotel: bool,
}

/// One position on the board.
#[derive(Copy, Clone, Debug, PartialEq)]
pub enum Square {
    Go,
    Property(Property),
    Tax,
    Chance,
    CommunityChest,
    Jail,
    GoToJail,
    FreeParking,
    Railroad,
    Utility,
}

/// The two dice of one roll.
#[derive(Copy, Clone, Debug, PartialEq)]
pub struct RollResult(pub i8, pub i8);

/// What a drawn card does to the player who drew it.
#[derive(Copy, Clone, Debug, PartialEq)]
pub enum CardEffect {
    /// Move by this many squares, backwards if negative.
    Move(i8),
    /// Pay this amount to the bank.
    Pay(Money),
    /// Collect this amount from the bank.
    Collect(Money),
    /// Keep the card: it frees its holder from jail.
    GetOutOfJailFree,
}

#[derive(Copy, Clone, Debug, PartialEq)]
pub struct ChanceCard(pub CardEffect);

#[derive(Copy, Clone, Debug, PartialEq)]
pub struct CommunityChestCard(pub CardEffect);

#[derive(Copy, Clone, Debug, PartialEq)]
pub enum Card {
    Chance(ChanceCard),
    CommunityChest(CommunityChestCard),
}

/// An amount that a player offers in an auction.
#[derive(Copy, Clone, Debug, PartialEq)]
pub struct Bid(pub PlayerId, pub Money);

/// What two players exchange. The player named here is the other party; the
/// acting player is named by the action.
#[derive(Copy, Clone, Debug, PartialEq)]
pub enum TransactionType {
    /// The acting player buys the property from the other party.
    BuyProperty(PlayerId, PropertyId),
    /// The acting player buys a get-out-of-jail-free card from the other party.
    BuyGetOutOfJailFreeCard(PlayerId),
    /// The acting player sells the property to the other party.
    SellProperty(PlayerId, PropertyId),
    /// The acting player pays rent to the other party.
    PayRent(PlayerId),
}

#[derive(Copy, Clone, Debug, PartialEq)]
pub struct Transaction {
    pub ty: TransactionType,
    pub cost: Money,
}

/// Everything that can change the state of a game.
#[derive(Clone, Debug, PartialEq)]
pub enum Action {
    RollDice(PlayerId, RollResult),
    MoveForward(PlayerId, i8),
    /// From the bank.
    BuyProperty(PlayerId, PropertyId),
    /// To the bank.
    SellProperty(PlayerId, PropertyId),
    BuyHouse(PlayerId, PropertyId),
    SellHouse(PlayerId, PropertyId),
    BuyHotel(PlayerId, PropertyId),
    SellHotel(PlayerId, PropertyId),
    PayTaxes(PlayerId, Money),
    /// For passing Go.
    ReceiveSalary(PlayerId),
    DrawCard(PlayerId, Card),
    GoToJail(PlayerId),
    PayJailFine(PlayerId),
    AuctionProperty(PropertyId, Vec<Bid>),
    MortgageProperty(PlayerId, PropertyId),
    UnmortgageProperty(PlayerId, PropertyId),
    TransactWithPlayer(PlayerId, Transaction),
    DeclareBankruptcy(PlayerId),
}

impl Property {
    /// The rent that a visitor owes: nothing while the property is
    /// mortgaged; else the hotel's rent, the rent for the number of houses,
    /// or the base rent of the bare lot.
    pub open spec fn spec_rent(self) -> Money {
        if self.mortgaged {
            Money(0)
        } else if self.has_hotel {
            self.hotel
        } else if self.house_count == 0 {
            self.base
        } else {
            self.houses[self.house_count - 1]
        }
    }

    pub fn rent(&self) -> (r: Money)
        requires
            self.house_count <= 4,
        ensures
            r == self.spec_rent(),
    {
        if self.mortgaged {
            Money(0)
        } else if self.has_hotel {
            self.hotel
        } else if self.house_count == 0 {
            self.base
        } else {
            self.houses[(self.house_count - 1) as usize]
        }
    }
}

impl RollResult {
    /// The sum of the two dice.
    pub fn total(&self) -> (t: i16)
        ensures
            t == self.0 + self.1,
    {
        self.0 as i16 + self.1 as i16
    }
}

impl Card {
    /// The effect that the card carries, whichever deck it came from.
    pub open spec fn spec_effect(self) -> CardEffect {
        match self {
            Card::Chance(c) => c.0,
            Card::CommunityChest(c) => c.0,
        }
    }

    pub fn effect(&self) -> (e: CardEffect)
        ensures
            e == self.spec_effect(),
    {
        match self {
            Card::Chance(c) => c.0,
            Card::CommunityChest(c) => c.0,
        }
    }
}

impl Transaction {
    /// The other party of the transaction.
    pub open spec fn spec_partner(self) -> PlayerId {
        match self.ty {
            TransactionType::BuyProperty(o, _) => o,
            TransactionType::BuyGetOutOfJailFreeCard(o) => o,
            TransactionType::SellProperty(o, _) => o,
            TransactionType::PayRent(o) => o,
        }
    }

    pub fn partner(&self) -> (o: PlayerId)
        ensures
            o == self.spec_partner(),
    {
        match self.ty {
            TransactionType::BuyProperty(o, _) => o,
            TransactionType::BuyGetOutOfJailFreeCard(o) => o,
            TransactionType::SellProperty(o, _) => o,
            TransactionType::PayRent(o) => o,
        }
    }
}

} // verus!
