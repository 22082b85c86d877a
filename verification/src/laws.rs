//! What holds of every game, whatever actions it is given.

use crate::auction::{first_unknown_bidder, lemma_highest_first_wins, spec_winner};
use crate::error::ErrorKind;
use crate::model::{GameView, JAIL_FINE, MAX_BALANCE, SALARY};
use crate::types::{
    Action, Bid, CardEffect, Money, Player, PlayerId, Property, PropertyId, Square, Transaction,
    TransactionType,
};
use vstd::arithmetic::div_mod::lemma_mod_bound;
use vstd::prelude::*;

verus! {

/// To replace a player by one with the same id, a balance that is not
/// negative and a position on the board leaves a valid state valid.
pub proof fn lemma_with_player_keeps_wf(v: GameView, p: PlayerId, pl: Player)
    requires
        v.wf(),
        v.has_player(p),
        pl.id == p,
        pl.balance.0 >= 0,
        pl.position < v.squares.len(),
    ensures
        v.with_player(p, pl).wf(),
{
    let w = v.with_player(p, pl);
    assert(v.players[p.0 as int].id.0 == p.0);
    assert forall|i: int| 0 <= i < w.squares.len() implies match #[trigger] w.squares[i] {
        Square::Property(pr) => pr.sound() && match pr.owner {
            Some(o) => w.has_player(o),
            None => true,
        },
        _ => true,
    } by {
        assert(w.squares[i] == v.squares[i]);
    }
}

/// To replace a property by a sound one whose owner, if any, is a player
/// leaves a valid state valid.
pub proof fn lemma_with_property_keeps_wf(v: GameView, q: PropertyId, pr: Property)
    requires
        v.wf(),
        v.has_property(q),
        pr.sound(),
        pr.owner matches Some(o) ==> v.has_player(o),
    ensures
        v.with_property(q, pr).wf(),
{
    let w = v.with_property(q, pr);
    assert forall|i: int| 0 <= i < w.players.len() implies {
        &&& (#[trigger] w.players[i]).id.0 == i
        &&& w.players[i].balance.0 >= 0
        &&& w.players[i].position < w.squares.len()
    } by {
        assert(w.players[i] == v.players[i]);
    }
    assert forall|i: int| 0 <= i < w.squares.len() implies match #[trigger] w.squares[i] {
        Square::Property(x) => x.sound() && match x.owner {
            Some(o) => w.has_player(o),
            None => true,
        },
        _ => true,
    } by {
        if i != q.0 {
            assert(w.squares[i] == v.squares[i]);
        }
    }
}

/// A change of balance that stays within what a balance can hold leaves a
/// valid state valid.
pub proof fn lemma_credit_keeps_wf(v: GameView, p: PlayerId, delta: int)
    requires
        v.wf(),
        v.has_player(p),
        0 <= v.player(p).balance.0 + delta <= MAX_BALANCE,
    ensures
        v.credit(p, delta).wf(),
        v.credit(p, delta).squares == v.squares,
        v.credit(p, delta).players.len() == v.players.len(),
{
    assert(v.players[p.0 as int].id.0 == p.0);
    lemma_with_player_keeps_wf(
        v,
        p,
        Player { balance: Money((v.player(p).balance.0 + delta) as i16), ..v.player(p) },
    );
}

/// A change in the number of cards that stays within what a hand can hold
/// leaves a valid state valid.
pub proof fn lemma_give_card_keeps_wf(v: GameView, p: PlayerId, n: int)
    requires
        v.wf(),
        v.has_player(p),
    ensures
        v.give_card(p, n).wf(),
{
    assert(v.players[p.0 as int].id.0 == p.0);
    lemma_with_player_keeps_wf(
        v,
        p,
        Player { jail_cards: (v.player(p).jail_cards + n) as u8, ..v.player(p) },
    );
}

/// A move leaves a valid state valid: the player stays on the board.
pub proof fn lemma_moved_keeps_wf(v: GameView, p: PlayerId, n: int)
    requires
        v.wf(),
        v.has_player(p),
    ensures
        v.moved(p, n).wf(),
{
    assert(v.players[p.0 as int].id.0 == p.0);
    lemma_mod_bound(v.player(p).position + n, v.squares.len() as int);
    lemma_with_player_keeps_wf(
        v,
        p,
        Player {
            position: ((v.player(p).position + n) % (v.squares.len() as int)) as usize,
            ..v.player(p)
        },
    );
}

/// A bankruptcy leaves a valid state valid.
pub proof fn lemma_bankrupt_keeps_wf(v: GameView, p: PlayerId)
    requires
        v.wf(),
        v.has_player(p),
    ensures
        v.bankrupt(p).wf(),
{
    let w = v.bankrupt(p);
    assert(v.players[p.0 as int].id.0 == p.0);
    assert forall|i: int| 0 <= i < w.players.len() implies {
        &&& (#[trigger] w.players[i]).id.0 == i
        &&& w.players[i].balance.0 >= 0
        &&& w.players[i].position < w.squares.len()
    } by {
        if i != p.0 {
            assert(w.players[i] == v.players[i]);
        }
    }
    assert forall|i: int| 0 <= i < w.squares.len() implies match #[trigger] w.squares[i] {
        Square::Property(x) => x.sound() && match x.owner {
            Some(o) => w.has_player(o),
            None => true,
        },
        _ => true,
    } by {
        assert(w.squares[i] == v.squares[i].without(p));
    }
}

/// Where no bidder is unknown from `from` on, the bidder at `i` is a player.
pub proof fn lemma_bidder_known(players: nat, bids: Seq<Bid>, from: int, i: int)
    requires
        0 <= from <= i < bids.len(),
        first_unknown_bidder(players, bids, from) is None,
    ensures
        0 <= bids[i].0.0 < players,
    decreases i - from,
{
    if from < i {
        lemma_bidder_known(players, bids, from + 1, i);
    }
}

/// An accepted action leaves a valid state valid: ids stay in place, no
/// balance turns negative, every owner is a player, and no property holds
/// more than four houses or houses beside a hotel.
pub proof fn lemma_step_keeps_wf(v: GameView, action: Action)
    requires
        v.wf(),
        v.check(action) is Ok,
    ensures
        v.step(action).wf(),
{
    let w = v.effect(action);
    assert(w.wf()) by {
        match action {
            Action::RollDice(_, _) => {},
            Action::MoveForward(p, n) => {
                lemma_moved_keeps_wf(v, p, n as int);
            },
            Action::PayTaxes(p, m) => {
                lemma_credit_keeps_wf(v, p, -m.0);
            },
            Action::ReceiveSalary(p) => {
                lemma_credit_keeps_wf(v, p, SALARY as int);
            },
            Action::DrawCard(p, card) => {
                match card.spec_effect() {
                    CardEffect::Move(n) => {
                        lemma_moved_keeps_wf(v, p, n as int);
                    },
                    CardEffect::Pay(m) => {
                        lemma_credit_keeps_wf(v, p, -m.0);
                    },
                    CardEffect::Collect(m) => {
                        lemma_credit_keeps_wf(v, p, m.0 as int);
                    },
                    CardEffect::GetOutOfJailFree => {
                        lemma_give_card_keeps_wf(v, p, 1);
                    },
                }
            },
            Action::GoToJail(p) => {
                assert(v.players[p.0 as int].id.0 == p.0);
                lemma_with_player_keeps_wf(v, p, Player { in_jail: true, ..v.player(p) });
            },
            Action::PayJailFine(p) => {
                assert(v.players[p.0 as int].id.0 == p.0);
                let u = v.with_player(p, Player { in_jail: false, ..v.player(p) });
                lemma_with_player_keeps_wf(v, p, Player { in_jail: false, ..v.player(p) });
                lemma_credit_keeps_wf(u, p, -JAIL_FINE);
            },
            Action::AuctionProperty(q, bids) => {
                if bids@.len() > 0 {
                    let i = spec_winner(bids@);
                    lemma_highest_first_wins(bids@);
                    lemma_bidder_known(v.players.len(), bids@, 0, i);
                    let best = bids@[i];
                    let u = v.with_property(q, Property { owner: Some(best.0), ..v.property(q) });
                    lemma_with_property_keeps_wf(
                        v,
                        q,
                        Property { owner: Some(best.0), ..v.property(q) },
                    );
                    lemma_credit_keeps_wf(u, best.0, -best.1.0);
                }
            },
            Action::TransactWithPlayer(p, t) => {
                lemma_transaction_keeps_wf(v, p, t);
            },
            Action::DeclareBankruptcy(p) => {
                lemma_bankrupt_keeps_wf(v, p);
            },
            _ => {
                let (p, q) = action.spec_bank_deal()->Some_0;
                let deal = action.deal_on(v.property(q));
                let u = v.with_property(q, deal.after);
                lemma_with_property_keeps_wf(v, q, deal.after);
                lemma_credit_keeps_wf(u, p, deal.delta);
            },
        }
    }
    assert(v.step(action).squares == w.squares);
    assert(v.step(action).players == w.players);
}

/// An accepted transaction between two players leaves a valid state valid.
pub proof fn lemma_transaction_keeps_wf(v: GameView, p: PlayerId, t: Transaction)
    requires
        v.wf(),
        v.check(Action::TransactWithPlayer(p, t)) is Ok,
    ensures
        v.effect(Action::TransactWithPlayer(p, t)).wf(),
{
    let from = t.payer(p);
    let to = t.payee(p);
    let amount = t.cost.0 as int;
    let half = v.credit(from, -amount);
    lemma_credit_keeps_wf(v, from, -amount);
    lemma_credit_keeps_wf(half, to, amount);
    let paid = v.transfer(from, to, amount);
    match t.ty {
        TransactionType::BuyProperty(_, q) => {
            lemma_with_property_keeps_wf(paid, q, Property { owner: Some(p), ..paid.property(q) });
        },
        TransactionType::SellProperty(o, q) => {
            lemma_with_property_keeps_wf(paid, q, Property { owner: Some(o), ..paid.property(q) });
        },
        TransactionType::BuyGetOutOfJailFreeCard(o) => {
            lemma_give_card_keeps_wf(paid, o, -1);
            lemma_give_card_keeps_wf(paid.give_card(o, -1), p, 1);
        },
        TransactionType::PayRent(_) => {},
    }
}

/// The games that a state goes through when it is given `actions` one
/// after the other: an accepted action takes effect, a rejected one is
/// passed over.
pub open spec fn run(v: GameView, actions: Seq<Action>) -> GameView
    decreases actions.len(),
{
    if actions.len() == 0 {
        v
    } else {
        let before = run(v, actions.drop_last());
        if before.check(actions.last()) is Ok {
            before.step(actions.last())
        } else {
            before
        }
    }
}

/// Whatever actions a valid state is given, it stays valid.
pub proof fn lemma_run_keeps_wf(v: GameView, actions: Seq<Action>)
    requires
        v.wf(),
    ensures
        run(v, actions).wf(),
    decreases actions.len(),
{
    if actions.len() > 0 {
        lemma_run_keeps_wf(v, actions.drop_last());
        let before = run(v, actions.drop_last());
        if before.check(actions.last()) is Ok {
            lemma_step_keeps_wf(before, actions.last());
        }
    }
}

/// After any sequence of actions, purchases, sales and auctions among
/// them, no property has two owners, and whoever owns one is a player.
pub proof fn lemma_one_owner(
    v: GameView,
    actions: Seq<Action>,
    q: PropertyId,
    a: PlayerId,
    b: PlayerId,
)
    requires
        v.wf(),
    ensures
        run(v, actions).owns(a, q) && run(v, actions).owns(b, q) ==> a == b,
        run(v, actions).owns(a, q) ==> run(v, actions).has_player(a),
{
    lemma_run_keeps_wf(v, actions);
    let w = run(v, actions);
    if w.owns(a, q) {
        assert(w.squares[q.0 as int] is Property);
    }
}

/// An accepted action leaves the table as it is: no square is added,
/// removed or given other terms, and no player is added, removed or given
/// another id.
pub proof fn lemma_step_keeps_table(v: GameView, action: Action)
    requires
        v.wf(),
        v.check(action) is Ok,
    ensures
        v.same_table(v.step(action)),
{
    let w = v.effect(action);
    assert(v.same_table(w)) by {
        match action {
            Action::AuctionProperty(q, bids) => {
                if bids@.len() > 0 {
                    lemma_highest_first_wins(bids@);
                    lemma_bidder_known(v.players.len(), bids@, 0, spec_winner(bids@));
                }
            },
            Action::DeclareBankruptcy(p) => {
                assert forall|i: int| 0 <= i < v.squares.len() implies (
                #[trigger] v.squares[i]).laid_out() == w.squares[i].laid_out() by {
                    assert(w.squares[i] == v.squares[i].without(p));
                }
            },
            _ => {},
        }
    }
    assert(v.step(action).squares == w.squares);
    assert(v.step(action).players == w.players);
}

/// Whatever actions a valid state is given, the table stays as it is and
/// the log only grows: what was logged stays in its place, and at most one
/// entry is added for each action.
pub proof fn lemma_run_keeps_table_and_log(v: GameView, actions: Seq<Action>)
    requires
        v.wf(),
    ensures
        v.same_table(run(v, actions)),
        v.events.len() <= run(v, actions).events.len() <= v.events.len() + actions.len(),
        forall|i: int| 0 <= i < v.events.len() ==> run(v, actions).events[i] == v.events[i],
    decreases actions.len(),
{
    if actions.len() > 0 {
        lemma_run_keeps_table_and_log(v, actions.drop_last());
        lemma_run_keeps_wf(v, actions.drop_last());
        let before = run(v, actions.drop_last());
        if before.check(actions.last()) is Ok {
            lemma_step_keeps_table(before, actions.last());
            let after = before.step(actions.last());
            assert forall|i: int| 0 <= i < v.squares.len() implies (#[trigger] v.squares[i]).laid_out()
                == after.squares[i].laid_out() by {
                assert(v.squares[i].laid_out() == before.squares[i].laid_out());
                assert(before.squares[i].laid_out() == after.squares[i].laid_out());
            }
            assert forall|i: int| 0 <= i < v.players.len() implies (#[trigger] v.players[i]).id
                == after.players[i].id by {
                assert(v.players[i].id == before.players[i].id);
                assert(before.players[i].id == after.players[i].id);
            }
        }
    }
}

/// The log of a run holds exactly the accepted actions: each accepted
/// action makes the log one longer and stands at its end, and a rejected
/// action leaves the whole state as it was.
pub proof fn lemma_log_grows_by_accepted(v: GameView, action: Action)
    ensures
        v.check(action) is Ok ==> run(v, seq![action]).events == v.events.push(action),
        v.check(action) is Ok ==> run(v, seq![action]).events.len() == v.events.len() + 1,
        v.check(action) is Ok ==> run(v, seq![action]).events.last() == action,
        v.check(action) is Err ==> run(v, seq![action]) == v,
{
    let one = seq![action];
    assert(one.drop_last().len() == 0);
    assert(one.last() == action);
    assert(run(v, one.drop_last()) == v);
}

/// Where no bidder from `from` on is unknown, the search finds none; where
/// one is, it finds an unknown bidder at or after `from`.
proof fn lemma_first_unknown_bidder(players: nat, bids: Seq<Bid>, from: int)
    requires
        0 <= from,
    ensures
        match first_unknown_bidder(players, bids, from) {
            Some(k) => from <= k < bids.len() && !(0 <= bids[k].0.0 < players),
            None => forall|i: int|
                from <= i < bids.len() ==> 0 <= (#[trigger] bids[i]).0.0 < players,
        },
    decreases bids.len() - from,
{
    if from < bids.len() {
        lemma_first_unknown_bidder(players, bids, from + 1);
    }
}

/// An action that names a player whom the game does not have is rejected
/// for an unknown player: one that the action names and the game lacks.
pub proof fn lemma_unknown_player_rejected(v: GameView, action: Action, p: PlayerId)
    requires
        action.mentions(p),
        !v.has_player(p),
    ensures
        match v.check(action) {
            Err(ErrorKind::UnknownPlayer(x)) => action.mentions(x) && !v.has_player(x),
            _ => false,
        },
{
    match action {
        Action::AuctionProperty(_, bids) => {
            lemma_first_unknown_bidder(v.players.len(), bids@, 0);
            let i = choose|i: int| 0 <= i < bids@.len() && (#[trigger] bids@[i]).0 == p;
            assert(!(0 <= bids@[i].0.0 < v.players.len()));
        },
        _ => {},
    }
}

/// All the money that the players hold.
pub open spec fn total(players: Seq<Player>) -> int
    decreases players.len(),
{
    if players.len() == 0 {
        0
    } else {
        total(players.drop_last()) + players.last().balance.0
    }
}

/// To replace one player changes the total by the difference of the two
/// balances.
pub proof fn lemma_total_update(players: Seq<Player>, i: int, pl: Player)
    requires
        0 <= i < players.len(),
    ensures
        total(players.update(i, pl)) == total(players) - players[i].balance.0 + pl.balance.0,
    decreases players.len(),
{
    let after = players.update(i, pl);
    if i == players.len() - 1 {
        assert(after.drop_last() =~= players.drop_last());
    } else {
        assert(after.drop_last() =~= players.drop_last().update(i, pl));
        lemma_total_update(players.drop_last(), i, pl);
    }
}

/// The bank is a source and a sink: what one player pays to it or gets
/// from it changes the players' total by exactly that amount.
pub proof fn lemma_credit_changes_total(v: GameView, p: PlayerId, delta: int)
    requires
        v.has_player(p),
        0 <= v.player(p).balance.0 + delta <= MAX_BALANCE,
    ensures
        total(v.credit(p, delta).players) == total(v.players) + delta,
{
    lemma_total_update(
        v.players,
        p.0 as int,
        Player { balance: Money((v.player(p).balance.0 + delta) as i16), ..v.player(p) },
    );
}

/// Money that moves from one player to another is conserved: the two hold
/// together what they held before, and so do all the players.
pub proof fn lemma_transfer_conserves_money(v: GameView, from: PlayerId, to: PlayerId, amount: int)
    requires
        v.wf(),
        v.has_player(from),
        v.has_player(to),
        v.transfer_fault(from, to, amount) is None,
    ensures
        total(v.transfer(from, to, amount).players) == total(v.players),
        from != to ==> v.transfer(from, to, amount).player(from).balance.0 + v.transfer(
            from,
            to,
            amount,
        ).player(to).balance.0 == v.player(from).balance.0 + v.player(to).balance.0,
        from == to ==> v.transfer(from, to, amount).player(from).balance == v.player(from).balance,
        forall|i: int|
            0 <= i < v.players.len() && i != from.0 && i != to.0 ==> v.transfer(
                from,
                to,
                amount,
            ).players[i] == v.players[i],
{
    lemma_credit_changes_total(v, from, -amount);
    lemma_credit_changes_total(v.credit(from, -amount), to, amount);
}

/// An accepted transaction between two players conserves money: the
/// players' total is the same before and after.
pub proof fn lemma_transaction_conserves_money(v: GameView, p: PlayerId, t: Transaction)
    requires
        v.wf(),
        v.check(Action::TransactWithPlayer(p, t)) is Ok,
    ensures
        total(v.step(Action::TransactWithPlayer(p, t)).players) == total(v.players),
{
    let from = t.payer(p);
    let to = t.payee(p);
    let amount = t.cost.0 as int;
    lemma_transfer_conserves_money(v, from, to, amount);
    let paid = v.transfer(from, to, amount);
    match t.ty {
        TransactionType::BuyGetOutOfJailFreeCard(o) => {
            lemma_total_update(
                paid.players,
                o.0 as int,
                Player { jail_cards: (paid.player(o).jail_cards + (-1)) as u8, ..paid.player(o) },
            );
            let given = paid.give_card(o, -1);
            lemma_total_update(
                given.players,
                p.0 as int,
                Player { jail_cards: (given.player(p).jail_cards + 1) as u8, ..given.player(p) },
            );
        },
        _ => {},
    }
}

} // verus!
