//! Lovers is not a role: it is a relationship any two players can end up in
//! through Cupid's `LinkLovers` action, whatever their roles (a Wolf and a
//! Villager can be lovers). It is modeled apart from `RoleBehavior` because
//! it is about a pair of players.
//!
//! The model of a `LoversState` is the sequence of linked pairs, in link
//! order. A player's partner is the other member of the first pair that
//! names them.

use vstd::prelude::*;
use crate::types::{PlayerId, Team};

verus! {

#[derive(Debug, Clone)]
pub struct LoversState {
    pairs: Vec<(PlayerId, PlayerId)>,
}

/// The partner of `id`: the other member of the first pair naming `id`.
pub open spec fn partner_in(pairs: Seq<(PlayerId, PlayerId)>, id: PlayerId) -> Option<PlayerId>
    decreases pairs.len(),
{
    if pairs.len() == 0 {
        None
    } else if pairs[0].0 == id {
        Some(pairs[0].1)
    } else if pairs[0].1 == id {
        Some(pairs[0].0)
    } else {
        partner_in(pairs.drop_first(), id)
    }
}

/// Lovers win when exactly two players are alive and they are mutually in
/// love: each is the other's partner.
pub open spec fn lovers_win_spec(pairs: Seq<(PlayerId, PlayerId)>, alive: Seq<PlayerId>) -> bool {
    &&& alive.len() == 2
    &&& partner_in(pairs, alive[0]) == Some(alive[1])
    &&& partner_in(pairs, alive[1]) == Some(alive[0])
}

/// Whether `id` is a member of some linked pair.
pub open spec fn is_linked(pairs: Seq<(PlayerId, PlayerId)>, id: PlayerId) -> bool {
    exists|i: int| 0 <= i < pairs.len() && names(#[trigger] pairs[i], id)
}

/// Whether a pair names `id`.
pub open spec fn names(pair: (PlayerId, PlayerId), id: PlayerId) -> bool {
    pair.0 == id || pair.1 == id
}

/// No player is a member of two different pairs.
pub open spec fn monogamous(pairs: Seq<(PlayerId, PlayerId)>) -> bool {
    forall|i: int, j: int|
        0 <= i < j < pairs.len() ==> {
            &&& (#[trigger] pairs[i]).0 != (#[trigger] pairs[j]).0
            &&& pairs[i].0 != pairs[j].1
            &&& pairs[i].1 != pairs[j].0
            &&& pairs[i].1 != pairs[j].1
        }
}

impl View for LoversState {
    type V = Seq<(PlayerId, PlayerId)>;

    closed spec fn view(&self) -> Seq<(PlayerId, PlayerId)> {
        self.pairs@
    }
}

impl Default for LoversState {
    fn default() -> (s: LoversState)
        ensures
            s@ == Seq::<(PlayerId, PlayerId)>::empty(),
    {
        LoversState::new()
    }
}

impl LoversState {
    /// No one is linked yet.
    pub fn new() -> (s: LoversState)
        ensures
            s@ == Seq::<(PlayerId, PlayerId)>::empty(),
    {
        LoversState { pairs: Vec::new() }
    }

    /// Links `a` and `b` as lovers.
    pub fn link(&mut self, a: PlayerId, b: PlayerId)
        ensures
            final(self)@ == old(self)@.push((a, b)),
    {
        self.pairs.push((a, b));
    }

    /// The partner of `id`, if `id` has been linked.
    pub fn partner_of(&self, id: PlayerId) -> (r: Option<PlayerId>)
        ensures
            r == partner_in(self@, id),
    {
        let mut i: usize = 0;
        assert(self.pairs@.subrange(0, self.pairs@.len() as int) =~= self.pairs@);
        while i < self.pairs.len()
            invariant
                0 <= i <= self.pairs@.len(),
                partner_in(self.pairs@, id) == partner_in(self.pairs@.subrange(i as int, self.pairs@.len() as int), id),
            decreases self.pairs@.len() - i,
        {
            let (a, b) = self.pairs[i];
            let ghost rest = self.pairs@.subrange(i as int, self.pairs@.len() as int);
            assert(rest.drop_first() =~= self.pairs@.subrange(i + 1, self.pairs@.len() as int));
            if a.0 == id.0 {
                return Some(b);
            } else if b.0 == id.0 {
                return Some(a);
            }
            i = i + 1;
        }
        assert(self.pairs@.subrange(i as int, self.pairs@.len() as int).len() == 0);
        None
    }

    /// Exactly two players are left alive and they are mutually in love:
    /// the Lovers win, overriding their individual teams.
    pub fn is_lovers_win(&self, alive: &[PlayerId]) -> (b: bool)
        ensures
            b == lovers_win_spec(self@, alive@),
    {
        if alive.len() != 2 {
            return false;
        }
        let first = match self.partner_of(alive[0]) {
            Some(p) => p.0 == alive[1].0,
            None => false,
        };
        let second = match self.partner_of(alive[1]) {
            Some(p) => p.0 == alive[0].0,
            None => false,
        };
        first && second
    }
}

/// The team a Lovers win is credited to.
pub const LOVERS_WIN_TEAM: Team = Team::Lovers;

/// Linking adds a pair at the end, so a player who already had a partner
/// keeps that partner.
pub proof fn lemma_partner_after_link(pairs: Seq<(PlayerId, PlayerId)>, a: PlayerId, b: PlayerId, id: PlayerId)
    ensures
        partner_in(pairs.push((a, b)), id) == (match partner_in(pairs, id) {
            Some(p) => Some(p),
            None => if a == id { Some(b) } else if b == id { Some(a) } else { None },
        }),
    decreases pairs.len(),
{
    let pushed = pairs.push((a, b));
    if pairs.len() > 0 {
        assert(pushed[0] == pairs[0]);
        assert(pushed.drop_first() =~= pairs.drop_first().push((a, b)));
        lemma_partner_after_link(pairs.drop_first(), a, b, id);
    } else {
        assert(pushed[0] == (a, b));
        assert(pushed.drop_first() =~= Seq::<(PlayerId, PlayerId)>::empty());
        assert(partner_in(pushed.drop_first(), id) is None);
    }
}

/// Law: once `a` and `b` are linked, each has the other as partner, unless
/// they already had a partner from an earlier link.
pub proof fn law_link_makes_partners(pairs: Seq<(PlayerId, PlayerId)>, a: PlayerId, b: PlayerId)
    ensures
        partner_in(pairs, a) is None ==> partner_in(pairs.push((a, b)), a) == Some(b),
        partner_in(pairs, b) is None ==> partner_in(pairs.push((a, b)), b) == Some(a),
{
    lemma_partner_after_link(pairs, a, b, a);
    lemma_partner_after_link(pairs, a, b, b);
}

/// Law: linking never changes anyone's existing partner.
pub proof fn law_link_keeps_partners(pairs: Seq<(PlayerId, PlayerId)>, a: PlayerId, b: PlayerId, id: PlayerId)
    requires
        partner_in(pairs, id) is Some,
    ensures
        partner_in(pairs.push((a, b)), id) == partner_in(pairs, id),
{
    lemma_partner_after_link(pairs, a, b, id);
}

/// Law: a player has a partner exactly when some pair names them, and that
/// partner is the other member of a pair naming them.
pub proof fn law_partner_is_linked(pairs: Seq<(PlayerId, PlayerId)>, id: PlayerId)
    ensures
        partner_in(pairs, id) is Some <==> is_linked(pairs, id),
        partner_in(pairs, id) matches Some(p) ==> exists|i: int| 0 <= i < pairs.len()
            && (pairs[i] == (id, p) || pairs[i] == (p, id)),
    decreases pairs.len(),
{
    if pairs.len() > 0 {
        let rest = pairs.drop_first();
        law_partner_is_linked(rest, id);
        if pairs[0].0 == id || pairs[0].1 == id {
            assert(names(pairs[0], id));
        } else {
            if is_linked(rest, id) {
                let i = choose|i: int| 0 <= i < rest.len() && names(#[trigger] rest[i], id);
                assert(pairs[i + 1] == rest[i]);
                assert(names(pairs[i + 1], id));
            }
            if is_linked(pairs, id) {
                let i = choose|i: int| 0 <= i < pairs.len() && names(#[trigger] pairs[i], id);
                assert(i > 0);
                assert(rest[i - 1] == pairs[i]);
                assert(names(rest[i - 1], id));
            }
            if let Some(p) = partner_in(rest, id) {
                let i = choose|i: int| 0 <= i < rest.len() && (rest[i] == (id, p) || rest[i] == (p, id));
                assert(pairs[i + 1] == rest[i]);
            }
        }
    }
}

/// When no player is in two pairs, the partner relation is symmetric.
pub proof fn lemma_partner_symmetric(pairs: Seq<(PlayerId, PlayerId)>, x: PlayerId, y: PlayerId)
    requires
        monogamous(pairs),
        partner_in(pairs, x) == Some(y),
    ensures
        partner_in(pairs, y) == Some(x),
    decreases pairs.len(),
{
    if pairs.len() > 0 {
        let rest = pairs.drop_first();
        assert(monogamous(rest)) by {
            assert forall|i: int, j: int| 0 <= i < j < rest.len() implies {
                &&& (#[trigger] rest[i]).0 != (#[trigger] rest[j]).0
                &&& rest[i].0 != rest[j].1
                &&& rest[i].1 != rest[j].0
                &&& rest[i].1 != rest[j].1
            } by {
                assert(rest[i] == pairs[i + 1] && rest[j] == pairs[j + 1]);
            }
        }
        if pairs[0].0 == x || pairs[0].1 == x {
            // y is the other member of the first pair
        } else {
            lemma_partner_symmetric(rest, x, y);
            // y occurs in a later pair, so not in the first one
            law_partner_is_linked(rest, y);
            let i = choose|i: int| 0 <= i < rest.len() && names(#[trigger] rest[i], y);
            assert(rest[i] == pairs[i + 1]);
            assert(pairs[0].0 != y && pairs[0].1 != y);
        }
    }
}

/// Law: a Lovers win does not depend on the order in which the two
/// survivors are listed.
pub proof fn law_lovers_win_symmetric(pairs: Seq<(PlayerId, PlayerId)>, x: PlayerId, y: PlayerId)
    ensures
        lovers_win_spec(pairs, seq![x, y]) == lovers_win_spec(pairs, seq![y, x]),
{
}

/// Law: when no player is in two pairs, the two survivors are mutually in
/// love as soon as the second is the first's partner.
pub proof fn law_one_partner_suffices_when_monogamous(pairs: Seq<(PlayerId, PlayerId)>, alive: Seq<PlayerId>)
    requires
        monogamous(pairs),
    ensures
        lovers_win_spec(pairs, alive) <==> (alive.len() == 2 && partner_in(pairs, alive[0]) == Some(alive[1])),
{
    if alive.len() == 2 && partner_in(pairs, alive[0]) == Some(alive[1]) {
        lemma_partner_symmetric(pairs, alive[0], alive[1]);
    }
}

/// Law: a Lovers win needs exactly two survivors, and they must be linked.
pub proof fn law_lovers_win_needs_two_linked(pairs: Seq<(PlayerId, PlayerId)>, alive: Seq<PlayerId>)
    requires
        lovers_win_spec(pairs, alive),
    ensures
        alive.len() == 2,
        is_linked(pairs, alive[0]),
{
    law_partner_is_linked(pairs, alive[0]);
}

} // verus!
