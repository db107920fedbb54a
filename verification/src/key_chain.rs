//! The keys of a provider, and which of them is in use.

use crate::text;
use std::collections::VecDeque;
use vstd::prelude::*;

verus! {

/// What a key chain is, as a mathematical value.
pub struct KeyChainModel {
    pub keys: Seq<Seq<char>>,
    /// The place of the key in use.
    pub current: int,
    /// The places of the keys that were refused, in the order of their refusal.
    pub bad: Seq<usize>,
}

impl KeyChainModel {
    /// A chain none of whose keys has been refused.
    pub open spec fn fresh(keys: Seq<Seq<char>>) -> KeyChainModel {
        KeyChainModel { keys, current: 0, bad: Seq::empty() }
    }

    /// The place `offset` steps after the current one, going round.
    pub open spec fn place(self, offset: int) -> int {
        (self.current + offset) % (self.keys.len() as int)
    }

    /// What holds of every chain at all times: the refused keys are those
    /// right before the current one, going round, and there are fewer of them
    /// than keys.
    pub open spec fn consistent(self) -> bool {
        &&& self.keys.len() <= usize::MAX
        &&& self.keys.len() == 0 ==> self.current == 0 && self.bad.len() == 0
        &&& self.keys.len() > 0 ==> {
            &&& 0 <= self.current < self.keys.len()
            &&& self.bad.len() < self.keys.len()
            &&& forall|i: int|
                0 <= i < self.bad.len() ==> #[trigger] self.bad[i] == self.place(
                    i - self.bad.len(),
                )
        }
    }

    /// The first place from the current one on, going round, whose key was not refused.
    pub open spec fn active_from(self, offset: int) -> Option<int>
        decreases self.keys.len() - offset,
    {
        if offset < 0 || offset >= self.keys.len() {
            None
        } else if !self.bad.contains(self.place(offset) as usize) {
            Some(self.place(offset))
        } else {
            self.active_from(offset + 1)
        }
    }

    /// The key in use: the first from the current one on that was not refused.
    pub open spec fn active(self) -> Option<Seq<char>> {
        match self.active_from(0) {
            Some(i) => Some(self.keys[i]),
            None => None,
        }
    }

    /// The chain after the current key was refused: the next key is current,
    /// and once every key has been refused, all get another chance. A chain
    /// without keys stays as it is.
    pub open spec fn refused(self) -> KeyChainModel {
        let bad = if self.bad.contains(self.current as usize) {
            self.bad
        } else {
            self.bad.push(self.current as usize)
        };
        if self.keys.len() == 0 {
            self
        } else {
            KeyChainModel {
                current: self.place(1),
                bad: if bad.len() >= self.keys.len() {
                    Seq::empty()
                } else {
                    bad
                },
                ..self
            }
        }
    }

    /// The chain after `n` refusals, with nothing in between.
    pub open spec fn refused_times(self, n: nat) -> KeyChainModel
        decreases n,
    {
        if n == 0 {
            self
        } else {
            self.refused_times((n - 1) as nat).refused()
        }
    }

    /// The chain after every key was given another chance.
    pub open spec fn pardoned(self) -> KeyChainModel {
        KeyChainModel { bad: Seq::empty(), ..self }
    }
}

/// The keys of one provider. A refused key is skipped until every key has been
/// refused or the chain is reset.
#[derive(Debug)]
pub struct KeyChain {
    keys: Vec<String>,
    current: usize,
    bad_keys: VecDeque<usize>,
}

impl View for KeyChain {
    type V = KeyChainModel;

    closed spec fn view(&self) -> KeyChainModel {
        KeyChainModel {
            keys: text::texts(self.keys@),
            current: self.current as int,
            bad: self.bad_keys@,
        }
    }
}

fn holds(places: &VecDeque<usize>, place: usize) -> (r: bool)
    ensures
        r == places@.contains(place),
{
    let mut i: usize = 0;
    while i < places.len()
        invariant
            i <= places.len(),
            forall|j: int| 0 <= j < i ==> places@[j] != place,
        decreases places.len() - i,
    {
        if places[i] == place {
            return true;
        }
        i = i + 1;
    }
    false
}

impl KeyChain {
    pub open spec fn wf(&self) -> bool {
        self@.consistent()
    }

    /// A chain that starts with the first key.
    pub fn new(keys: Vec<String>) -> (r: KeyChain)
        ensures
            r.wf(),
            r@ == KeyChainModel::fresh(text::texts(keys@)),
    {
        assert(keys@.len() == keys.len());
        KeyChain { keys, current: 0, bad_keys: VecDeque::new() }
    }

    /// Whether there are no keys at all.
    pub fn is_empty(&self) -> (r: bool)
        ensures
            r == (self@.keys.len() == 0),
    {
        self.keys.len() == 0
    }

    /// The number of keys.
    pub fn len(&self) -> (r: usize)
        ensures
            r == self@.keys.len(),
    {
        self.keys.len()
    }

    /// The key in use, if there are keys.
    pub fn current_key(&self) -> (r: Option<String>)
        requires
            self.wf(),
        ensures
            r is Some <==> self@.keys.len() > 0,
            r matches Some(key) ==> self@.active() == Some(key@) && key@
                == self@.keys[self@.current],
    {
        let n: usize = self.keys.len();
        let mut offset: usize = 0;
        while offset < n
            invariant
                self.wf(),
                n == self.keys@.len(),
                n == self@.keys.len(),
                offset <= n,
                offset > 0 ==> self@.bad.contains(self@.current as usize),
                self@.active_from(0) == self@.active_from(offset as int),
            decreases n - offset,
        {
            let idx: usize = if offset < n - self.current {
                self.current + offset
            } else {
                offset - (n - self.current)
            };
            proof {
                lemma_place(self@, offset as int);
            }
            if !holds(&self.bad_keys, idx) {
                proof {
                    current_key_is_good(self@);
                }
                return Some(self.keys[idx].clone());
            }
            offset = offset + 1;
        }
        proof {
            if n > 0 {
                current_key_is_good(self@);
            }
        }
        None
    }

    /// Notes that the current key was refused, and goes on to the next one.
    /// Once every key has been refused, all get another chance.
    pub fn mark_current_bad(&mut self)
        requires
            old(self).wf(),
        ensures
            final(self).wf(),
            final(self)@ == old(self)@.refused(),
    {
        let n: usize = self.keys.len();
        if n == 0 {
            return;
        }
        proof {
            lemma_place(self@, 1);
            refusal_keeps_consistent(self@);
        }
        if !holds(&self.bad_keys, self.current) {
            self.bad_keys.push_back(self.current);
        }
        self.current = if self.current + 1 < n {
            self.current + 1
        } else {
            0
        };
        if self.bad_keys.len() >= n {
            self.bad_keys.clear();
        }
    }

    /// Gives every key another chance. The current key stays the same.
    pub fn reset(&mut self)
        requires
            old(self).wf(),
        ensures
            final(self).wf(),
            final(self)@ == old(self)@.pardoned(),
    {
        self.bad_keys.clear();
    }
}

proof fn lemma_place(m: KeyChainModel, offset: int)
    requires
        m.keys.len() > 0,
        0 <= m.current < m.keys.len(),
        -m.keys.len() <= offset <= m.keys.len(),
    ensures
        0 <= m.current + offset < m.keys.len() ==> m.place(offset) == m.current + offset,
        m.current + offset >= m.keys.len() ==> m.place(offset) == m.current + offset
            - m.keys.len(),
        m.current + offset < 0 ==> m.place(offset) == m.current + offset + m.keys.len(),
{
    let n = m.keys.len() as int;
    let x = m.current + offset;
    if x >= n {
        vstd::arithmetic::div_mod::lemma_fundamental_div_mod_converse(x, n, 1, x - n);
    } else if x < 0 {
        vstd::arithmetic::div_mod::lemma_fundamental_div_mod_converse(x, n, -1, x + n);
    } else {
        vstd::arithmetic::div_mod::lemma_fundamental_div_mod_converse(x, n, 0, x);
    }
}

// ---------------------------------------------------------------------------
// Laws
// ---------------------------------------------------------------------------

/// The current key is never one that was refused, so it is the key in use.
pub proof fn current_key_is_good(m: KeyChainModel)
    requires
        m.consistent(),
        m.keys.len() > 0,
    ensures
        !m.bad.contains(m.current as usize),
        m.active() == Some(m.keys[m.current]),
{
    lemma_place(m, 0);
    assert forall|i: int| 0 <= i < m.bad.len() implies #[trigger] m.bad[i] != m.current as usize by {
        lemma_place(m, i - m.bad.len());
    }
}

/// A refusal leaves a consistent chain consistent, and so does a reset.
pub proof fn refusal_keeps_consistent(m: KeyChainModel)
    requires
        m.consistent(),
    ensures
        m.refused().consistent(),
        m.pardoned().consistent(),
{
    if m.keys.len() > 0 {
        let r = m.refused();
        current_key_is_good(m);
        lemma_place(m, 1);
        let pushed = m.bad.push(m.current as usize);
        assert forall|i: int| 0 <= i < r.bad.len() implies #[trigger] r.bad[i] == r.place(
            i - r.bad.len(),
        ) by {
            assert(r.bad == pushed);
            lemma_place(r, i - r.bad.len());
            if i < m.bad.len() {
                assert(m.bad[i] == m.place(i - m.bad.len()));
                lemma_place(m, i - m.bad.len());
            }
        }
    }
}

/// A chain with keys always has a key in use.
pub proof fn never_without_a_key(m: KeyChainModel)
    requires
        m.consistent(),
        m.keys.len() > 0,
    ensures
        m.active() is Some,
        m.refused().active() is Some,
        m.pardoned().active() is Some,
{
    current_key_is_good(m);
    refusal_keeps_consistent(m);
    current_key_is_good(m.refused());
    current_key_is_good(m.pardoned());
}

/// A refused key is out of use right away, unless it is the only one.
pub proof fn refusal_rotates(m: KeyChainModel)
    requires
        m.consistent(),
        m.keys.len() > 1,
    ensures
        m.refused().current == (m.current + 1) % (m.keys.len() as int),
        m.refused().current != m.current,
        m.refused().active() == Some(m.keys[m.refused().current]),
{
    refusal_keeps_consistent(m);
    current_key_is_good(m.refused());
    lemma_place(m, 1);
}

/// From a chain without refused keys, fewer refusals than there are keys put
/// exactly the keys passed over among the refused ones, in order.
pub proof fn refusals_walk_the_chain(m: KeyChainModel, n: nat)
    requires
        m.consistent(),
        m.bad.len() == 0,
        n < m.keys.len(),
    ensures
        m.refused_times(n).consistent(),
        m.refused_times(n).keys == m.keys,
        m.refused_times(n).current == m.place(n as int),
        m.refused_times(n).bad.len() == n,
        m.refused_times(n).active() == Some(m.keys[m.place(n as int)]),
    decreases n,
{
    if n > 0 {
        refusals_walk_the_chain(m, (n - 1) as nat);
        let p = m.refused_times((n - 1) as nat);
        refusal_keeps_consistent(p);
        current_key_is_good(p);
        lemma_place(p, 1);
        lemma_place(m, n - 1);
        lemma_place(m, n as int);
    } else {
        lemma_place(m, 0);
    }
    current_key_is_good(m.refused_times(n));
}

/// Once every key has been refused, the chain is back where it started, with
/// no key refused.
pub proof fn full_turn_starts_over(m: KeyChainModel)
    requires
        m.consistent(),
        m.bad.len() == 0,
        m.keys.len() > 0,
    ensures
        m.refused_times(m.keys.len()) == m,
{
    let n = m.keys.len();
    refusals_walk_the_chain(m, (n - 1) as nat);
    let p = m.refused_times((n - 1) as nat);
    current_key_is_good(p);
    lemma_place(p, 1);
    lemma_place(m, n - 1);
    assert(p.refused().bad =~= m.bad);
}

/// A reset clears every refusal and keeps the key in use.
pub proof fn reset_keeps_the_key(m: KeyChainModel)
    requires
        m.consistent(),
    ensures
        m.pardoned().bad.len() == 0,
        m.pardoned().active() == m.active(),
{
    if m.keys.len() > 0 {
        refusal_keeps_consistent(m);
        current_key_is_good(m);
        current_key_is_good(m.pardoned());
    }
}

/// A fresh chain holds the keys it was given and starts with the first.
pub proof fn fresh_chain_starts_with_the_first_key(keys: Seq<Seq<char>>)
    requires
        keys.len() <= usize::MAX,
    ensures
        KeyChainModel::fresh(keys).keys == keys,
        KeyChainModel::fresh(keys).current == 0,
        KeyChainModel::fresh(keys).bad.len() == 0,
        keys.len() > 0 ==> KeyChainModel::fresh(keys).active() == Some(keys[0]),
{
    if keys.len() > 0 {
        current_key_is_good(KeyChainModel::fresh(keys));
    }
}

/// A refusal goes on by one key, from the last to the first, and remembers the
/// key that was refused. It takes no key away. Once all have been refused,
/// none is remembered any more.
pub proof fn refusal_goes_on_by_one(m: KeyChainModel)
    requires
        m.consistent(),
        m.keys.len() > 0,
    ensures
        m.refused().keys == m.keys,
        m.current + 1 < m.keys.len() ==> m.refused().current == m.current + 1,
        m.current + 1 == m.keys.len() ==> m.refused().current == 0,
        m.bad.len() + 1 < m.keys.len() ==> m.refused().bad == m.bad.push(m.current as usize),
        m.bad.len() + 1 == m.keys.len() ==> m.refused().bad.len() == 0,
{
    current_key_is_good(m);
    lemma_place(m, 1);
}

/// However many refusals there were, the key in use is as many places further
/// on, going round.
pub proof fn refusals_go_round(m: KeyChainModel, n: nat)
    requires
        m.consistent(),
        m.keys.len() > 0,
    ensures
        m.refused_times(n).consistent(),
        m.refused_times(n).keys == m.keys,
        m.refused_times(n).current == (m.current + n) % (m.keys.len() as int),
        m.refused_times(n).active() == Some(m.keys[(m.current + n) % (m.keys.len() as int)]),
    decreases n,
{
    let len = m.keys.len() as int;
    if n == 0 {
        vstd::arithmetic::div_mod::lemma_small_mod(m.current as nat, len as nat);
    } else {
        refusals_go_round(m, (n - 1) as nat);
        let p = m.refused_times((n - 1) as nat);
        refusal_keeps_consistent(p);
        vstd::arithmetic::div_mod::lemma_add_mod_noop(m.current + n - 1, 1, len);
        vstd::arithmetic::div_mod::lemma_add_mod_noop(p.current, 1, len);
        vstd::arithmetic::div_mod::lemma_mod_twice(m.current + n - 1, len);
    }
    current_key_is_good(m.refused_times(n));
}

/// A chain without keys has none in use and stays as it is; a reset keeps all
/// keys and the place.
pub proof fn chains_keep_their_keys(m: KeyChainModel)
    ensures
        m.keys.len() == 0 ==> m.active() is None && m.refused() == m,
        m.pardoned().keys == m.keys,
        m.pardoned().current == m.current,
        m.pardoned().bad.len() == 0,
{
}

} // verus!
