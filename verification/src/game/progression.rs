//! The player's progression through levels with non-linear
//! prerequisites, and through the quests inside each level.
//!
//! Completion and unlock state are sets of level names; XP awards are
//! recorded per level and per quest so that a replay never earns twice.

use vstd::prelude::*;
use vstd::seq_lib::*;
use vstd::string::*;

use crate::strutil::{str_eq, strs};

verus! {

/// A set of strings: insertion-ordered, duplicate-free.
pub struct StringSet {
    items: Vec<String>,
}

impl StringSet {
    /// The members, in insertion order.
    pub closed spec fn elems(self) -> Seq<Seq<char>> {
        strs(self.items@)
    }

    /// No member occurs twice.
    pub open spec fn wf(self) -> bool {
        self.elems().no_duplicates()
    }

    /// Membership.
    pub open spec fn has(self, s: Seq<char>) -> bool {
        self.elems().contains(s)
    }

    /// How many members there are.
    pub open spec fn count(self) -> nat {
        self.elems().len()
    }

    /// The empty set.
    pub fn new() -> (r: Self)
        ensures
            r.wf(),
            r.count() == 0,
            forall|s: Seq<char>| !r.has(s),
    {
        let r = StringSet { items: Vec::new() };
        proof {
            assert(r.elems() =~= Seq::<Seq<char>>::empty());
        }
        r
    }

    /// Membership test.
    pub fn contains(&self, s: &str) -> (r: bool)
        ensures
            r == self.has(s@),
    {
        let mut i: usize = 0;
        while i < self.items.len()
            invariant
                i <= self.items@.len(),
                forall|j: int| 0 <= j < i ==> self.items@[j]@ != s@,
            decreases self.items@.len() - i,
        {
            if str_eq(self.items[i].as_str(), s) {
                assert(self.elems()[i as int] == s@);
                return true;
            }
            i = i + 1;
        }
        assert(forall|j: int| 0 <= j < self.elems().len() ==> self.elems()[j] != s@);
        false
    }

    /// Add a member; whether it was new.
    pub fn insert(&mut self, s: String) -> (r: bool)
        requires
            old(self).wf(),
        ensures
            final (self).wf(),
            r == !old(self).has(s@),
            final (self).elems() == if old(self).has(s@) {
                old(self).elems()
            } else {
                old(self).elems().push(s@)
            },
            forall|t: Seq<char>| final (self).has(t) == (old(self).has(t) || t == s@),
            final (self).count() == if old(self).has(s@) {
                old(self).count()
            } else {
                old(self).count() + 1
            },
    {
        if self.contains(s.as_str()) {
            return false;
        }
        let ghost before = self.elems();
        self.items.push(s);
        proof {
            assert(self.elems() =~= before.push(s@));
            assert(self.elems()[before.len() as int] == s@);
            assert forall|t: Seq<char>| self.has(t) == (old(self).has(t) || t == s@) by {
                assert(self.elems().contains(s@));
                if self.elems().contains(t) {
                    let i = choose|i: int| 0 <= i < self.elems().len() && self.elems()[i] == t;
                    if i < before.len() {
                        assert(before[i] == t);
                    }
                } else {
                    assert(!before.contains(t)) by {
                        if before.contains(t) {
                            let i = choose|i: int| 0 <= i < before.len() && before[i] == t;
                            assert(self.elems()[i] == t);
                        }
                    }
                }
            }
        }
        true
    }

    /// How many members there are.
    pub fn len(&self) -> (r: usize)
        ensures
            r == self.count(),
    {
        self.items.len()
    }

    /// The members as a list, in insertion order.
    pub fn to_vec(&self) -> (r: Vec<String>)
        ensures
            strs(r@) == self.elems(),
    {
        let mut out: Vec<String> = Vec::new();
        let mut i: usize = 0;
        while i < self.items.len()
            invariant
                i <= self.items@.len(),
                out@.len() == i,
                forall|j: int| 0 <= j < i ==> out@[j]@ == self.items@[j]@,
            decreases self.items@.len() - i,
        {
            out.push(self.items[i].clone());
            i = i + 1;
        }
        proof {
            assert(strs(out@) =~= self.elems());
        }
        out
    }
}

/// The value under the first row with the given key in an association
/// list.
pub open spec fn assoc_get(pairs: Seq<(Seq<char>, u32)>, k: Seq<char>) -> Option<u32>
    decreases pairs.len(),
{
    if pairs.len() == 0 {
        None
    } else if pairs[0].0 == k {
        Some(pairs[0].1)
    } else {
        assoc_get(pairs.drop_first(), k)
    }
}

/// A key that no row carries looks up to nothing.
proof fn lemma_absent_key_get(pairs: Seq<(Seq<char>, u32)>, k: Seq<char>)
    requires
        forall|j: int| 0 <= j < pairs.len() ==> (#[trigger] pairs[j]).0 != k,
    ensures
        assoc_get(pairs, k) is None,
    decreases pairs.len(),
{
    if pairs.len() > 0 {
        assert(pairs[0].0 != k);
        lemma_absent_key_get(pairs.drop_first(), k);
    }
}

/// A map from string keys to XP amounts: an association list with
/// duplicate-free keys.
pub struct XpMap {
    items: Vec<(String, u32)>,
}

impl XpMap {
    /// The entries, as view pairs.
    pub closed spec fn pairs(self) -> Seq<(Seq<char>, u32)> {
        self.items@.map_values(|p: (String, u32)| (p.0@, p.1))
    }

    /// The keys, in storage order.
    pub open spec fn keys(self) -> Seq<Seq<char>> {
        self.pairs().map_values(|p: (Seq<char>, u32)| p.0)
    }

    /// No key occurs twice.
    pub open spec fn wf(self) -> bool {
        self.keys().no_duplicates()
    }

    /// The value under a key.
    pub open spec fn spec_get(self, k: Seq<char>) -> Option<u32> {
        assoc_get(self.pairs(), k)
    }

    /// The empty map.
    pub fn new() -> (r: Self)
        ensures
            r.wf(),
            forall|k: Seq<char>| r.spec_get(k) is None,
    {
        let r = XpMap { items: Vec::new() };
        proof {
            assert(r.pairs() =~= Seq::<(Seq<char>, u32)>::empty());
            assert forall|k: Seq<char>| r.spec_get(k) is None by {
                lemma_absent_key_get(r.pairs(), k);
            }
        }
        r
    }

    /// Set the value under a key, replacing any old one.
    pub fn insert(&mut self, k: String, v: u32)
        requires
            old(self).wf(),
        ensures
            final (self).wf(),
            final (self).spec_get(k@) == Some(v),
            forall|k2: Seq<char>| k2 != k@ ==> final (self).spec_get(k2) == old(self).spec_get(k2),
    {
        let ghost oldpairs = self.pairs();
        let mut i: usize = 0;
        while i < self.items.len()
            invariant
                old(self).wf(),
                i <= self.items@.len(),
                self == old(self),
                oldpairs == self.pairs(),
                forall|j: int| 0 <= j < i ==> (#[trigger] oldpairs[j]).0 != k@,
            decreases self.items@.len() - i,
        {
            if str_eq(self.items[i].0.as_str(), k.as_str()) {
                proof {
                    assert(oldpairs[i as int].0 == k@);
                }
                self.items.remove(i);
                self.items.insert(i, (k, v));
                proof {
                    assert(self.pairs() =~= oldpairs.update(i as int, (k@, v)));
                    assert(self.keys() =~= old(self).keys());
                    lemma_unique_key_get(self.pairs(), i as int);
                    assert forall|k2: Seq<char>| k2 != k@ implies self.spec_get(k2) == old(
                        self,
                    ).spec_get(k2) by {
                        lemma_same_keys_same_get(oldpairs, self.pairs(), i as int, k2);
                    }
                }
                return ;
            }
            i = i + 1;
        }
        let ghost before = self.pairs();
        self.items.push((k, v));
        proof {
            assert(self.pairs() =~= before.push((k@, v)));
            assert(forall|j: int| 0 <= j < before.len() ==> (#[trigger] before[j]).0 != k@);
            assert forall|j1: int, j2: int|
                0 <= j1 < self.keys().len() && 0 <= j2 < self.keys().len() && j1
                    != j2 implies self.keys()[j1] != self.keys()[j2] by {
                assert(self.keys()[j1] == self.pairs()[j1].0);
                assert(self.keys()[j2] == self.pairs()[j2].0);
                if j1 < before.len() && j2 < before.len() {
                    assert(old(self).keys()[j1] == old(self).pairs()[j1].0);
                    assert(old(self).keys()[j2] == old(self).pairs()[j2].0);
                }
            }
            lemma_unique_key_get(self.pairs(), self.pairs().len() - 1);
            assert forall|k2: Seq<char>| k2 != k@ implies self.spec_get(k2) == old(
                self,
            ).spec_get(k2) by {
                lemma_push_preserves_get(before, (k@, v), k2);
            }
        }
    }

    /// Read the value under a key.
    pub fn get(&self, k: &str) -> (r: Option<u32>)
        requires
            self.wf(),
        ensures
            r == self.spec_get(k@),
    {
        let mut i: usize = 0;
        while i < self.items.len()
            invariant
                self.wf(),
                i <= self.items@.len(),
                forall|j: int| 0 <= j < i ==> (#[trigger] self.pairs()[j]).0 != k@,
            decreases self.items@.len() - i,
        {
            if str_eq(self.items[i].0.as_str(), k) {
                proof {
                    assert(self.pairs()[i as int].0 == k@);
                    lemma_unique_key_get(self.pairs(), i as int);
                }
                return Some(self.items[i].1);
            }
            i = i + 1;
        }
        proof {
            lemma_absent_key_get(self.pairs(), k@);
        }
        None
    }
}

/// Under duplicate-free keys, the value found under the key at row `i`
/// is that row's value.
proof fn lemma_unique_key_get(pairs: Seq<(Seq<char>, u32)>, i: int)
    requires
        pairs.map_values(|p: (Seq<char>, u32)| p.0).no_duplicates(),
        0 <= i < pairs.len(),
    ensures
        assoc_get(pairs, pairs[i].0) == Some(pairs[i].1),
    decreases i,
{
    let keys = pairs.map_values(|p: (Seq<char>, u32)| p.0);
    if i == 0 {
    } else {
        assert(keys[0] != keys[i]);
        assert(pairs[0].0 != pairs[i].0);
        let rest = pairs.drop_first();
        let rkeys = rest.map_values(|p: (Seq<char>, u32)| p.0);
        assert forall|j1: int, j2: int|
            #![trigger rkeys[j1], rkeys[j2]]
            0 <= j1 < rkeys.len() && 0 <= j2 < rkeys.len() && j1 != j2 implies rkeys[j1]
            != rkeys[j2] by {
            assert(keys[j1 + 1] != keys[j2 + 1]);
            assert(rest[j1] == pairs[j1 + 1]);
            assert(rest[j2] == pairs[j2 + 1]);
        }
        lemma_unique_key_get(rest, i - 1);
        assert(rest[i - 1] == pairs[i]);
    }
}

/// Replacing the value in one row changes no other key's lookup.
proof fn lemma_same_keys_same_get(
    oldpairs: Seq<(Seq<char>, u32)>,
    newpairs: Seq<(Seq<char>, u32)>,
    i: int,
    k2: Seq<char>,
)
    requires
        0 <= i < oldpairs.len(),
        newpairs == oldpairs.update(i, (oldpairs[i].0, newpairs[i].1)),
        k2 != oldpairs[i].0,
    ensures
        assoc_get(newpairs, k2) == assoc_get(oldpairs, k2),
    decreases oldpairs.len(),
{
    assert(newpairs.len() == oldpairs.len());
    if i == 0 {
        assert(newpairs[0].0 == oldpairs[0].0);
        assert(newpairs[0].0 != k2);
        assert(newpairs.drop_first() =~= oldpairs.drop_first());
    } else {
        assert(newpairs[0] == oldpairs[0]);
        if oldpairs[0].0 == k2 {
        } else {
            assert(newpairs.drop_first() =~= oldpairs.drop_first().update(
                i - 1,
                (oldpairs.drop_first()[i - 1].0, newpairs.drop_first()[i - 1].1),
            ));
            lemma_same_keys_same_get(oldpairs.drop_first(), newpairs.drop_first(), i - 1, k2);
        }
    }
}

/// A log of completed quests: duplicate-free (level, quest) pairs.
pub struct QuestLog {
    entries: Vec<(String, String)>,
}

/// The pairs with a given level name.
pub open spec fn level_pred(l: Seq<char>) -> spec_fn((Seq<char>, Seq<char>)) -> bool {
    |p: (Seq<char>, Seq<char>)| p.0 == l
}

proof fn lemma_filter_push<A>(s: Seq<A>, pred: spec_fn(A) -> bool, x: A)
    ensures
        s.push(x).filter(pred) == if pred(x) {
            s.filter(pred).push(x)
        } else {
            s.filter(pred)
        },
{
    reveal(Seq::filter);
    assert(s.push(x).drop_last() =~= s);
    assert(s.push(x).last() == x);
}

impl QuestLog {
    /// The recorded (level, quest) pairs, in insertion order.
    pub closed spec fn pview(self) -> Seq<(Seq<char>, Seq<char>)> {
        self.entries@.map_values(|p: (String, String)| (p.0@, p.1@))
    }

    /// No pair occurs twice.
    pub open spec fn wf(self) -> bool {
        self.pview().no_duplicates()
    }

    /// The quest is recorded as completed in the level.
    pub open spec fn done(self, l: Seq<char>, q: Seq<char>) -> bool {
        self.pview().contains((l, q))
    }

    /// How many quests are recorded for the level.
    pub open spec fn count(self, l: Seq<char>) -> nat {
        self.pview().filter(level_pred(l)).len()
    }

    /// The quests recorded for the level, in completion order.
    pub open spec fn quests_of(self, l: Seq<char>) -> Seq<Seq<char>> {
        self.pview().filter(level_pred(l)).map_values(|p: (Seq<char>, Seq<char>)| p.1)
    }

    /// The empty log.
    pub fn new() -> (r: Self)
        ensures
            r.wf(),
            forall|l: Seq<char>, q: Seq<char>| !r.done(l, q),
            forall|l: Seq<char>| r.count(l) == 0,
    {
        let r = QuestLog { entries: Vec::new() };
        proof {
            assert(r.pview() =~= Seq::<(Seq<char>, Seq<char>)>::empty());
            reveal(Seq::filter);
            assert forall|l: Seq<char>| r.count(l) == 0 by {
                assert(r.pview().filter(level_pred(l)) =~= Seq::<(Seq<char>, Seq<char>)>::empty());
            }
        }
        r
    }

    /// Whether the quest is recorded for the level.
    pub fn contains(&self, level: &str, quest: &str) -> (r: bool)
        ensures
            r == self.done(level@, quest@),
    {
        let mut i: usize = 0;
        while i < self.entries.len()
            invariant
                i <= self.entries@.len(),
                forall|j: int| 0 <= j < i ==> #[trigger] self.pview()[j] != (level@, quest@),
            decreases self.entries@.len() - i,
        {
            if str_eq(self.entries[i].0.as_str(), level) && str_eq(
                self.entries[i].1.as_str(),
                quest,
            ) {
                assert(self.pview()[i as int] == (level@, quest@));
                return true;
            }
            i = i + 1;
        }
        false
    }

    /// Record a quest as completed; whether it was new.
    pub fn complete(&mut self, level: &str, quest: &str) -> (r: bool)
        requires
            old(self).wf(),
        ensures
            final (self).wf(),
            r == !old(self).done(level@, quest@),
            final (self).pview() == if old(self).done(level@, quest@) {
                old(self).pview()
            } else {
                old(self).pview().push((level@, quest@))
            },
            forall|l2: Seq<char>, q2: Seq<char>|
                final (self).done(l2, q2) == (old(self).done(l2, q2) || (l2 == level@ && q2
                    == quest@)),
            final (self).count(level@) == if old(self).done(level@, quest@) {
                old(self).count(level@)
            } else {
                old(self).count(level@) + 1
            },
            forall|l2: Seq<char>| l2 != level@ ==> final (self).count(l2) == old(self).count(l2),
            final (self).quests_of(level@) == if old(self).done(level@, quest@) {
                old(self).quests_of(level@)
            } else {
                old(self).quests_of(level@).push(quest@)
            },
    {
        if self.contains(level, quest) {
            return false;
        }
        let ghost before = self.pview();
        self.entries.push((level.to_owned(), quest.to_owned()));
        proof {
            assert(self.pview() =~= before.push((level@, quest@)));
            assert(self.pview()[before.len() as int] == (level@, quest@));
            assert(self.pview().contains((level@, quest@)));
            assert forall|l2: Seq<char>, q2: Seq<char>|
                self.done(l2, q2) == (old(self).done(l2, q2) || (l2 == level@ && q2
                    == quest@)) by {
                if self.pview().contains((l2, q2)) {
                    let i = choose|i: int|
                        0 <= i < self.pview().len() && self.pview()[i] == (l2, q2);
                    if i < before.len() {
                        assert(before[i] == (l2, q2));
                    }
                } else {
                    if before.contains((l2, q2)) {
                        let i = choose|i: int| 0 <= i < before.len() && before[i] == (l2, q2);
                        assert(self.pview()[i] == (l2, q2));
                    }
                }
            }
            lemma_filter_push(before, level_pred(level@), (level@, quest@));
            assert forall|l2: Seq<char>| l2 != level@ implies self.count(l2) == old(self).count(
                l2,
            ) by {
                lemma_filter_push(before, level_pred(l2), (level@, quest@));
            }
            assert(self.quests_of(level@) =~= old(self).quests_of(level@).push(quest@));
        }
        true
    }

    /// How many quests are recorded for the level.
    pub fn count_for(&self, level: &str) -> (r: usize)
        ensures
            r == self.count(level@),
    {
        let mut acc: usize = 0;
        let mut i: usize = 0;
        proof {
            reveal(Seq::filter);
            assert(self.pview().take(0) =~= Seq::<(Seq<char>, Seq<char>)>::empty());
        }
        while i < self.entries.len()
            invariant
                i <= self.entries@.len(),
                acc <= i,
                acc == self.pview().take(i as int).filter(level_pred(level@)).len(),
            decreases self.entries@.len() - i,
        {
            proof {
                assert(self.pview().take(i + 1) =~= self.pview().take(i as int).push(
                    self.pview()[i as int],
                ));
                lemma_filter_push(
                    self.pview().take(i as int),
                    level_pred(level@),
                    self.pview()[i as int],
                );
            }
            if str_eq(self.entries[i].0.as_str(), level) {
                assert(self.pview()[i as int].0 == level@);
                acc = acc + 1;
            }
            i = i + 1;
        }
        proof {
            assert(self.pview().take(self.pview().len() as int) =~= self.pview());
        }
        acc
    }

    /// The quests recorded for the level, in completion order.
    pub fn quests_for(&self, level: &str) -> (r: Vec<String>)
        ensures
            strs(r@) == self.quests_of(level@),
    {
        let mut out: Vec<String> = Vec::new();
        let mut i: usize = 0;
        proof {
            reveal(Seq::filter);
            assert(self.pview().take(0) =~= Seq::<(Seq<char>, Seq<char>)>::empty());
            assert(strs(out@) =~= self.pview().take(0).filter(level_pred(level@)).map_values(
                |p: (Seq<char>, Seq<char>)| p.1,
            ));
        }
        while i < self.entries.len()
            invariant
                i <= self.entries@.len(),
                strs(out@) == self.pview().take(i as int).filter(level_pred(level@)).map_values(
                    |p: (Seq<char>, Seq<char>)| p.1,
                ),
            decreases self.entries@.len() - i,
        {
            proof {
                assert(self.pview().take(i + 1) =~= self.pview().take(i as int).push(
                    self.pview()[i as int],
                ));
                lemma_filter_push(
                    self.pview().take(i as int),
                    level_pred(level@),
                    self.pview()[i as int],
                );
            }
            let ghost old_out = out@;
            if str_eq(self.entries[i].0.as_str(), level) {
                assert(self.pview()[i as int].0 == level@);
                out.push(self.entries[i].1.clone());
                proof {
                    assert(strs(out@) =~= strs(old_out).push(self.pview()[i as int].1));
                    assert(strs(out@) =~= self.pview().take(i + 1).filter(
                        level_pred(level@),
                    ).map_values(|p: (Seq<char>, Seq<char>)| p.1));
                }
            }
            i = i + 1;
        }
        proof {
            assert(self.pview().take(self.pview().len() as int) =~= self.pview());
        }
        out
    }
}

/// What a level demands before it unlocks.
pub struct LevelPrerequisites {
    /// Level names that must all be completed.
    pub requires_all: Vec<String>,
    /// Level names of which any one must be completed; empty means no
    /// such demand.
    pub requires_any: Vec<String>,
    /// Minimum total XP.
    pub min_xp: u32,
}

/// The prerequisites are met by a set of completed levels and an XP
/// total.
pub open spec fn spec_satisfied(p: LevelPrerequisites, completed: StringSet, xp: u32) -> bool {
    &&& xp >= p.min_xp
    &&& forall|i: int|
        0 <= i < p.requires_all@.len() ==> completed.has(#[trigger] p.requires_all@[i]@)
    &&& (p.requires_any@.len() > 0 ==> exists|i: int|
        0 <= i < p.requires_any@.len() && completed.has(#[trigger] p.requires_any@[i]@))
}

impl LevelPrerequisites {
    /// No demands at all.
    pub fn none() -> (r: Self)
        ensures
            r.requires_all@.len() == 0,
            r.requires_any@.len() == 0,
            r.min_xp == 0,
    {
        LevelPrerequisites { requires_all: Vec::new(), requires_any: Vec::new(), min_xp: 0 }
    }

    /// Whether the prerequisites are met, given the completed levels
    /// and the XP total.
    pub fn is_satisfied(&self, completed: &StringSet, total_xp: u32) -> (r: bool)
        ensures
            r == spec_satisfied(*self, *completed, total_xp),
    {
        if total_xp < self.min_xp {
            return false;
        }
        let mut i: usize = 0;
        while i < self.requires_all.len()
            invariant
                total_xp >= self.min_xp,
                i <= self.requires_all@.len(),
                forall|j: int| 0 <= j < i ==> completed.has(#[trigger] self.requires_all@[j]@),
            decreases self.requires_all@.len() - i,
        {
            if !completed.contains(self.requires_all[i].as_str()) {
                return false;
            }
            i = i + 1;
        }
        if self.requires_any.len() == 0 {
            return true;
        }
        let mut i: usize = 0;
        while i < self.requires_any.len()
            invariant
                total_xp >= self.min_xp,
                self.requires_any@.len() > 0,
                forall|j: int|
                    0 <= j < self.requires_all@.len() ==> completed.has(
                        #[trigger] self.requires_all@[j]@,
                    ),
                i <= self.requires_any@.len(),
                forall|j: int| 0 <= j < i ==> !completed.has(#[trigger] self.requires_any@[j]@),
            decreases self.requires_any@.len() - i,
        {
            if completed.contains(self.requires_any[i].as_str()) {
                return true;
            }
            i = i + 1;
        }
        false
    }
}

impl Default for LevelPrerequisites {
    /// The same as `none`: no demands.
    fn default() -> (r: Self)
        ensures
            r.requires_all@.len() == 0,
            r.requires_any@.len() == 0,
            r.min_xp == 0,
    {
        LevelPrerequisites::none()
    }
}

/// The player's progression: completed and unlocked levels, total XP,
/// XP per level and quest, and the per-level quest log.
pub struct ProgressionState {
    /// Levels that have been completed.
    pub completed_levels: StringSet,
    /// Levels available to play.
    pub unlocked_levels: StringSet,
    /// Total XP earned.
    pub total_xp: u32,
    /// XP earned per level, for replay detection.
    pub level_xp: XpMap,
    /// Completed quests, per level.
    pub completed_quests: QuestLog,
    /// XP earned per quest, for replay detection.
    pub quest_xp: XpMap,
}

impl ProgressionState {
    /// Every part is duplicate-free.
    pub open spec fn wf(self) -> bool {
        &&& self.completed_levels.wf()
        &&& self.unlocked_levels.wf()
        &&& self.level_xp.wf()
        &&& self.completed_quests.wf()
        &&& self.quest_xp.wf()
    }

    /// A fresh progression: nothing completed, no XP, and exactly the
    /// first level unlocked.
    pub fn new() -> (r: Self)
        ensures
            r.wf(),
            forall|s: Seq<char>| !r.completed_levels.has(s),
            forall|s: Seq<char>| r.unlocked_levels.has(s) <==> s == "L01"@,
            r.total_xp == 0,
            forall|k: Seq<char>| r.level_xp.spec_get(k) is None,
            forall|l: Seq<char>, q: Seq<char>| !r.completed_quests.done(l, q),
            forall|l: Seq<char>| r.completed_quests.count(l) == 0,
            forall|k: Seq<char>| r.quest_xp.spec_get(k) is None,
    {
        let mut unlocked = StringSet::new();
        unlocked.insert("L01".to_owned());
        ProgressionState {
            completed_levels: StringSet::new(),
            unlocked_levels: unlocked,
            total_xp: 0,
            level_xp: XpMap::new(),
            completed_quests: QuestLog::new(),
            quest_xp: XpMap::new(),
        }
    }

    /// Mark a level completed and award its XP; a replay earns nothing
    /// and changes nothing.
    pub fn complete_level(&mut self, level_id: &str, xp_reward: u32) -> (r: u32)
        requires
            old(self).wf(),
            old(self).total_xp + xp_reward <= u32::MAX,
        ensures
            final (self).wf(),
            r == if old(self).completed_levels.has(level_id@) {
                0u32
            } else {
                xp_reward
            },
            forall|t: Seq<char>|
                final (self).completed_levels.has(t) == (old(self).completed_levels.has(t) || t
                    == level_id@),
            final (self).total_xp == if old(self).completed_levels.has(level_id@) {
                old(self).total_xp as int
            } else {
                old(self).total_xp + xp_reward
            },
            !old(self).completed_levels.has(level_id@) ==> final (self).level_xp.spec_get(level_id@)
                == Some(xp_reward),
            old(self).completed_levels.has(level_id@) ==> final (self).level_xp == old(
                self,
            ).level_xp,
            forall|k: Seq<char>|
                k != level_id@ ==> final (self).level_xp.spec_get(k) == old(self).level_xp.spec_get(
                    k,
                ),
            final (self).unlocked_levels == old(self).unlocked_levels,
            final (self).completed_quests == old(self).completed_quests,
            final (self).quest_xp == old(self).quest_xp,
    {
        let first_time = self.completed_levels.insert(level_id.to_owned());
        if first_time {
            self.total_xp = self.total_xp + xp_reward;
            self.level_xp.insert(level_id.to_owned(), xp_reward);
            xp_reward
        } else {
            0
        }
    }

    /// Whether a level is completed.
    pub fn is_completed(&self, level_id: &str) -> (r: bool)
        ensures
            r == self.completed_levels.has(level_id@),
    {
        self.completed_levels.contains(level_id)
    }

    /// Whether a level is unlocked.
    pub fn is_unlocked(&self, level_id: &str) -> (r: bool)
        ensures
            r == self.unlocked_levels.has(level_id@),
    {
        self.unlocked_levels.contains(level_id)
    }

    /// Unlock every level whose prerequisites the current completion
    /// set and XP total satisfy. Call after completing a level.
    pub fn update_unlocks(&mut self, prerequisites: &Vec<(String, LevelPrerequisites)>)
        requires
            old(self).wf(),
        ensures
            final (self).wf(),
            forall|l: Seq<char>|
                final (self).unlocked_levels.has(l) == (old(self).unlocked_levels.has(l) || exists|
                    i: int,
                |
                    0 <= i < prerequisites@.len() && (#[trigger] prerequisites@[i].0@) == l
                        && spec_satisfied(
                        prerequisites@[i].1,
                        old(self).completed_levels,
                        old(self).total_xp,
                    )),
            final (self).completed_levels == old(self).completed_levels,
            final (self).total_xp == old(self).total_xp,
            final (self).level_xp == old(self).level_xp,
            final (self).completed_quests == old(self).completed_quests,
            final (self).quest_xp == old(self).quest_xp,
    {
        let mut i: usize = 0;
        while i < prerequisites.len()
            invariant
                self.wf(),
                i <= prerequisites@.len(),
                self.completed_levels == old(self).completed_levels,
                self.total_xp == old(self).total_xp,
                self.level_xp == old(self).level_xp,
                self.completed_quests == old(self).completed_quests,
                self.quest_xp == old(self).quest_xp,
                forall|l: Seq<char>|
                    self.unlocked_levels.has(l) == (old(self).unlocked_levels.has(l) || exists|
                        j: int,
                    |
                        0 <= j < i && (#[trigger] prerequisites@[j].0@) == l && spec_satisfied(
                            prerequisites@[j].1,
                            old(self).completed_levels,
                            old(self).total_xp,
                        )),
            decreases prerequisites@.len() - i,
        {
            let level_id = &prerequisites[i].0;
            if !self.unlocked_levels.contains(level_id.as_str()) && prerequisites[i].1.is_satisfied(
                &self.completed_levels,
                self.total_xp,
            ) {
                self.unlocked_levels.insert(level_id.clone());
            }
            i = i + 1;
        }
    }

    /// The levels available to play right now.
    pub fn get_available_levels(&self) -> (r: Vec<String>)
        ensures
            strs(r@) == self.unlocked_levels.elems(),
    {
        self.unlocked_levels.to_vec()
    }

    /// The levels completed so far.
    pub fn get_completed_levels(&self) -> (r: Vec<String>)
        ensures
            strs(r@) == self.completed_levels.elems(),
    {
        self.completed_levels.to_vec()
    }

    /// Mark a quest completed and award its XP; a replay earns nothing.
    pub fn complete_quest(&mut self, level_id: &str, quest_id: &str, xp_reward: u32) -> (r: u32)
        requires
            old(self).wf(),
            old(self).total_xp + xp_reward <= u32::MAX,
        ensures
            final (self).wf(),
            r == if old(self).completed_quests.done(level_id@, quest_id@) {
                0u32
            } else {
                xp_reward
            },
            forall|l2: Seq<char>, q2: Seq<char>|
                final (self).completed_quests.done(l2, q2) == (old(self).completed_quests.done(
                    l2,
                    q2,
                ) || (l2 == level_id@ && q2 == quest_id@)),
            final (self).completed_quests.count(level_id@) == if old(self).completed_quests.done(
                level_id@,
                quest_id@,
            ) {
                old(self).completed_quests.count(level_id@)
            } else {
                old(self).completed_quests.count(level_id@) + 1
            },
            forall|l2: Seq<char>|
                l2 != level_id@ ==> final (self).completed_quests.count(l2) == old(
                    self,
                ).completed_quests.count(l2),
            final (self).total_xp == if old(self).completed_quests.done(level_id@, quest_id@) {
                old(self).total_xp as int
            } else {
                old(self).total_xp + xp_reward
            },
            !old(self).completed_quests.done(level_id@, quest_id@) ==> final (self).quest_xp.spec_get(
                quest_id@,
            ) == Some(xp_reward),
            forall|k: Seq<char>|
                k != quest_id@ ==> final (self).quest_xp.spec_get(k) == old(self).quest_xp.spec_get(
                    k,
                ),
            final (self).completed_levels == old(self).completed_levels,
            final (self).unlocked_levels == old(self).unlocked_levels,
            final (self).level_xp == old(self).level_xp,
    {
        let first_time = self.completed_quests.complete(level_id, quest_id);
        if first_time {
            self.total_xp = self.total_xp + xp_reward;
            self.quest_xp.insert(quest_id.to_owned(), xp_reward);
            xp_reward
        } else {
            0
        }
    }

    /// Whether a specific quest is completed.
    pub fn is_quest_completed(&self, level_id: &str, quest_id: &str) -> (r: bool)
        ensures
            r == self.completed_quests.done(level_id@, quest_id@),
    {
        self.completed_quests.contains(level_id, quest_id)
    }

    /// How many quests of a level are completed.
    pub fn get_completed_quest_count(&self, level_id: &str) -> (r: usize)
        ensures
            r == self.completed_quests.count(level_id@),
    {
        self.completed_quests.count_for(level_id)
    }

    /// Quest progress as (completed, total).
    pub fn get_quest_progress(&self, level_id: &str, total_quests: usize) -> (r: (usize, usize))
        ensures
            r.0 == self.completed_quests.count(level_id@),
            r.1 == total_quests,
    {
        (self.completed_quests.count_for(level_id), total_quests)
    }

    /// Whether every quest of a level is completed.
    pub fn is_level_fully_completed(&self, level_id: &str, total_quests: usize) -> (r: bool)
        ensures
            r == (self.completed_quests.count(level_id@) >= total_quests),
    {
        self.completed_quests.count_for(level_id) >= total_quests
    }

    /// The completed quests of a level, in completion order.
    pub fn get_completed_quests(&self, level_id: &str) -> (r: Vec<String>)
        ensures
            strs(r@) == self.completed_quests.quests_of(level_id@),
    {
        self.completed_quests.quests_for(level_id)
    }
}

/// Appending a row changes no other key's lookup.
proof fn lemma_push_preserves_get(
    before: Seq<(Seq<char>, u32)>,
    entry: (Seq<char>, u32),
    k2: Seq<char>,
)
    requires
        k2 != entry.0,
    ensures
        assoc_get(before.push(entry), k2) == assoc_get(before, k2),
    decreases before.len(),
{
    let after = before.push(entry);
    if before.len() == 0 {
        assert(after[0] == entry);
        assert(after.drop_first() =~= Seq::<(Seq<char>, u32)>::empty());
        assert(assoc_get(after.drop_first(), k2) is None);
        assert(assoc_get(after, k2) is None);
        assert(assoc_get(before, k2) is None);
    } else {
        assert(after[0] == before[0]);
        if before[0].0 == k2 {
        } else {
            assert(after.drop_first() =~= before.drop_first().push(entry));
            lemma_push_preserves_get(before.drop_first(), entry, k2);
        }
    }
}

} // verus!
