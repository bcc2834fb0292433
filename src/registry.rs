//! The set of idempotency tokens seen so far, with atomic check-and-insert.
use vstd::prelude::*;

verus! {

/// What a reservation found.
#[derive(Clone, Copy, Debug, PartialEq, Eq, Structural)]
pub enum Reservation {
    /// The request is to be processed: it carried no token, or a token not seen before.
    Fresh,
    /// The token was already reserved; nothing was changed.
    Duplicate,
}

/// The characters of an optional token.
pub open spec fn token_key(token: Option<String>) -> Option<Seq<char>> {
    match token {
        Some(t) => Some(t@),
        None => None,
    }
}

/// Reserving `token` against the set `keys`: the new set and the outcome.
pub open spec fn reserve_spec(keys: Set<Seq<char>>, token: Option<Seq<char>>) -> (Set<Seq<char>>, Reservation) {
    match token {
        None => (keys, Reservation::Fresh),
        Some(k) => if keys.contains(k) {
            (keys, Reservation::Duplicate)
        } else {
            (keys.insert(k), Reservation::Fresh)
        },
    }
}

/// Reserving each of `tokens` in turn, starting from `keys`: the final set
/// and the outcome of each reservation.
pub open spec fn reserve_all(keys: Set<Seq<char>>, tokens: Seq<Option<Seq<char>>>) -> (Set<Seq<char>>, Seq<Reservation>)
    decreases tokens.len(),
{
    if tokens.len() == 0 {
        (keys, Seq::empty())
    } else {
        let (k, rs) = reserve_all(keys, tokens.drop_last());
        let (k2, r) = reserve_spec(k, tokens.last());
        (k2, rs.push(r))
    }
}

/// Whether the `i`-th of `tokens` is reserved fresh when they are reserved in
/// turn from `keys`: it carries no token, or one that neither `keys` nor an
/// earlier entry holds.
pub open spec fn first_sighting(keys: Set<Seq<char>>, tokens: Seq<Option<Seq<char>>>, i: int) -> bool {
    match tokens[i] {
        None => true,
        Some(k) => !keys.contains(k) && forall|j: int| 0 <= j < i ==> tokens[j] != Some(k),
    }
}

/// Reserving a sequence of tokens in turn: the `i`-th reservation is fresh
/// exactly when its token is absent or sighted for the first time, and the
/// final set holds the starting set and every token presented.
pub proof fn lemma_reserve_all_fresh_iff_first_sighting(keys: Set<Seq<char>>, tokens: Seq<Option<Seq<char>>>)
    ensures
        ({
            let (ks, rs) = reserve_all(keys, tokens);
            &&& rs.len() == tokens.len()
            &&& forall|k: Seq<char>|
                #![trigger ks.contains(k)]
                ks.contains(k) <==> (keys.contains(k) || exists|j: int| 0 <= j < tokens.len() && tokens[j] == Some(k))
            &&& forall|i: int|
                0 <= i < tokens.len() ==> (#[trigger] rs[i] == Reservation::Fresh <==> first_sighting(keys, tokens, i))
        }),
    decreases tokens.len(),
{
    if tokens.len() > 0 {
        let pre = tokens.drop_last();
        lemma_reserve_all_fresh_iff_first_sighting(keys, pre);
        let (k, rs) = reserve_all(keys, pre);
        let (ks, rs2) = reserve_all(keys, tokens);
        let n = tokens.len() - 1;
        assert forall|k2: Seq<char>| #![trigger ks.contains(k2)]
            ks.contains(k2) <==> (keys.contains(k2) || exists|j: int| 0 <= j < tokens.len() && tokens[j] == Some(k2)) by {
            if exists|j: int| 0 <= j < tokens.len() && tokens[j] == Some(k2) {
                let j = choose|j: int| 0 <= j < tokens.len() && tokens[j] == Some(k2);
                if j < n {
                    assert(pre[j] == Some(k2));
                }
            }
            if exists|j: int| 0 <= j < pre.len() && pre[j] == Some(k2) {
                let j = choose|j: int| 0 <= j < pre.len() && pre[j] == Some(k2);
                assert(tokens[j] == Some(k2));
            }
        }
        assert forall|i: int| 0 <= i < tokens.len() implies (#[trigger] rs2[i] == Reservation::Fresh
            <==> first_sighting(keys, tokens, i)) by {
            if i < n {
                assert(rs2[i] == rs[i]);
                assert forall|j: int| 0 <= j < i implies pre[j] == tokens[j] by {}
                assert(pre[i] == tokens[i]);
            } else {
                match tokens[n] {
                    None => {},
                    Some(t) => {
                        if exists|j: int| 0 <= j < pre.len() && pre[j] == Some(t) {
                            let j = choose|j: int| 0 <= j < pre.len() && pre[j] == Some(t);
                            assert(tokens[j] == Some(t));
                        }
                        if exists|j: int| 0 <= j < n && tokens[j] == Some(t) {
                            let j = choose|j: int| 0 <= j < n && tokens[j] == Some(t);
                            assert(pre[j] == Some(t));
                            assert(k.contains(t));
                        }
                    },
                }
            }
        }
    }
}

/// Many requests sharing one token not yet reserved: whatever their number,
/// exactly one of them, the first to reach the registry, is fresh, and all
/// others are duplicates.
pub proof fn lemma_shared_token_single_fresh(keys: Set<Seq<char>>, token: Seq<char>, n: nat)
    requires
        !keys.contains(token),
        n >= 1,
    ensures
        ({
            let rs = reserve_all(keys, Seq::new(n, |i: int| Some(token))).1;
            &&& rs.len() == n
            &&& rs[0] == Reservation::Fresh
            &&& forall|i: int| 1 <= i < n ==> #[trigger] rs[i] == Reservation::Duplicate
        }),
{
    let tokens = Seq::new(n, |i: int| Some(token));
    lemma_reserve_all_fresh_iff_first_sighting(keys, tokens);
    let rs = reserve_all(keys, tokens).1;
    assert(first_sighting(keys, tokens, 0));
    assert forall|i: int| 1 <= i < n implies #[trigger] rs[i] == Reservation::Duplicate by {
        assert(tokens[0] == Some(token));
        assert(!first_sighting(keys, tokens, i));
        assert(rs[i] != Reservation::Fresh);
    }
}

/// Tokens reserved so far, for the life of the process. Tokens are never
/// released.
pub struct IdempotencyRegistry {
    keys: Vec<String>,
}

impl View for IdempotencyRegistry {
    type V = Set<Seq<char>>;

    closed spec fn view(&self) -> Set<Seq<char>> {
        Set::new(|k: Seq<char>| exists|j: int| 0 <= j < self.keys@.len() && self.keys@[j]@ == k)
    }
}

impl IdempotencyRegistry {
    /// A registry holding no token.
    pub fn new() -> (r: IdempotencyRegistry)
        ensures
            r@ == Set::<Seq<char>>::empty(),
    {
        let r = IdempotencyRegistry { keys: Vec::new() };
        assert(r@ =~= Set::<Seq<char>>::empty());
        r
    }

    /// Whether `token` has been reserved.
    pub fn contains(&self, token: &String) -> (r: bool)
        ensures
            r == self@.contains(token@),
    {
        let mut i: usize = 0;
        while i < self.keys.len()
            invariant
                0 <= i <= self.keys@.len(),
                forall|j: int| 0 <= j < i ==> self.keys@[j]@ != token@,
            decreases self.keys@.len() - i,
        {
            if self.keys[i] == *token {
                assert(self@.contains(token@));
                return true;
            }
            i = i + 1;
        }
        false
    }

    /// Atomic check-and-insert. With no token, or a token not yet held, the
    /// token is recorded and `Fresh` returned; a token already held gives
    /// `Duplicate` and leaves the registry as it was.
    pub fn reserve(&mut self, token: Option<String>) -> (r: Reservation)
        ensures
            (final(self)@, r) == reserve_spec(old(self)@, token_key(token)),
    {
        match token {
            None => Reservation::Fresh,
            Some(t) => {
                if self.contains(&t) {
                    Reservation::Duplicate
                } else {
                    let ghost before = self@;
                    let ghost tv = t@;
                    self.keys.push(t);
                    assert(self@ =~= before.insert(tv)) by {
                        assert(self.keys@[self.keys@.len() - 1]@ == tv);
                        assert forall|k: Seq<char>| self@.contains(k) implies before.insert(tv).contains(k) by {
                            let j = choose|j: int| 0 <= j < self.keys@.len() && self.keys@[j]@ == k;
                            if j < self.keys@.len() - 1 {
                                assert(before.contains(k));
                            }
                        }
                        assert forall|k: Seq<char>| before.insert(tv).contains(k) implies self@.contains(k) by {
                            if k != tv {
                                let j = choose|j: int| 0 <= j < old(self).keys@.len() && old(self).keys@[j]@ == k;
                                assert(self.keys@[j]@ == k);
                            }
                        }
                    }
                    Reservation::Fresh
                }
            },
        }
    }
}

} // verus!
