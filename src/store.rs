//! An in-memory token store keyed by the set of scopes.
use vstd::prelude::*;
use crate::token::Token;

verus! {

/// The set of scopes that a list names: order and repetition do not matter.
pub open spec fn scope_set(scopes: Seq<String>) -> Set<Seq<char>> {
    scopes.map_values(|s: String| s@).to_set()
}

/// The token stored last under the scope set `key` among `entries`.
pub open spec fn lookup(entries: Seq<(Vec<String>, Token)>, key: Set<Seq<char>>) -> Option<Token>
    decreases entries.len(),
{
    if entries.len() == 0 {
        None
    } else if scope_set(entries.last().0@) == key {
        Some(entries.last().1)
    } else {
        lookup(entries.drop_last(), key)
    }
}

/// Whether no two entries have the same scope set.
pub open spec fn distinct_keys(entries: Seq<(Vec<String>, Token)>) -> bool {
    forall|i: int, j: int|
        0 <= i < j < entries.len() ==> scope_set(#[trigger] entries[i].0@) != scope_set(#[trigger] entries[j].0@)
}

/// Replacing the entry at `i` by one with the same scope set changes what is
/// stored under that scope set alone.
proof fn lemma_lookup_update(
    entries: Seq<(Vec<String>, Token)>,
    i: int,
    entry: (Vec<String>, Token),
    k: Set<Seq<char>>,
)
    requires
        0 <= i < entries.len(),
        distinct_keys(entries),
        scope_set(entry.0@) == scope_set(entries[i].0@),
    ensures
        distinct_keys(entries.update(i, entry)),
        lookup(entries.update(i, entry), k) == (if k == scope_set(entry.0@) {
            Some(entry.1)
        } else {
            lookup(entries, k)
        }),
    decreases entries.len(),
{
    let u = entries.update(i, entry);
    assert(distinct_keys(u)) by {
        assert forall|a: int, b: int| 0 <= a < b < u.len() implies scope_set(#[trigger] u[a].0@) != scope_set(#[trigger] u[b].0@) by {
            assert(scope_set(u[a].0@) == scope_set(entries[a].0@));
            assert(scope_set(u[b].0@) == scope_set(entries[b].0@));
        }
    }
    if i == entries.len() - 1 {
        assert(u.drop_last() =~= entries.drop_last());
    } else {
        let last = entries.len() - 1;
        assert(u.last() == entries.last());
        assert(u.drop_last() =~= entries.drop_last().update(i, entry));
        assert(scope_set(entries[last].0@) != scope_set(entries[i].0@));
        lemma_lookup_update(entries.drop_last(), i, entry, k);
    }
}

/// Tokens by scope set; a later `set` for a scope set replaces the earlier one.
pub struct MemoryStorage {
    entries: Vec<(Vec<String>, Token)>,
}

/// Whether `s` is among `v`.
fn contains(v: &Vec<String>, s: &String) -> (r: bool)
    ensures
        r == v@.map_values(|x: String| x@).contains(s@),
{
    let mut i: usize = 0;
    while i < v.len()
        invariant
            i <= v.len(),
            forall|j: int| 0 <= j < i ==> v@[j]@ != s@,
        decreases v.len() - i,
    {
        if v[i] == *s {
            assert(v@.map_values(|x: String| x@)[i as int] == s@);
            return true;
        }
        i = i + 1;
    }
    proof {
        let w = v@.map_values(|x: String| x@);
        assert forall|j: int| 0 <= j < w.len() implies w[j] != s@ by {}
    }
    false
}

/// Whether every scope of `a` is among `b`.
fn all_within(a: &Vec<String>, b: &Vec<String>) -> (r: bool)
    ensures
        r == scope_set(a@).subset_of(scope_set(b@)),
{
    let ghost wa = a@.map_values(|x: String| x@);
    let ghost wb = b@.map_values(|x: String| x@);
    let mut i: usize = 0;
    while i < a.len()
        invariant
            i <= a.len(),
            wa == a@.map_values(|x: String| x@),
            wb == b@.map_values(|x: String| x@),
            forall|j: int| 0 <= j < i ==> wb.contains(#[trigger] wa[j]),
        decreases a.len() - i,
    {
        if !contains(b, &a[i]) {
            proof {
                assert(wa.to_set().contains(wa[i as int]));
                assert(!wb.to_set().contains(wa[i as int]));
            }
            return false;
        }
        i = i + 1;
    }
    proof {
        assert forall|x: Seq<char>| wa.to_set().contains(x) implies wb.to_set().contains(x) by {
            let j = choose|j: int| 0 <= j < wa.len() && wa[j] == x;
        }
    }
    true
}

/// Whether two scope lists name the same set of scopes.
pub fn same_scopes(a: &Vec<String>, b: &Vec<String>) -> (r: bool)
    ensures
        r == (scope_set(a@) == scope_set(b@)),
{
    let ab = all_within(a, b);
    let ba = all_within(b, a);
    proof {
        if ab && ba {
            assert(scope_set(a@) =~= scope_set(b@));
        }
    }
    ab && ba
}

impl View for MemoryStorage {
    type V = Map<Set<Seq<char>>, Token>;

    closed spec fn view(&self) -> Map<Set<Seq<char>>, Token> {
        Map::new(|k: Set<Seq<char>>| lookup(self.entries@, k) is Some, |k: Set<Seq<char>>| lookup(self.entries@, k).unwrap())
    }
}

/// What `get` answers for the scope set `key` of a store whose contents are `m`.
pub open spec fn stored_at(m: Map<Set<Seq<char>>, Token>, key: Set<Seq<char>>) -> Option<Token> {
    if m.contains_key(key) {
        Some(m[key])
    } else {
        None
    }
}

impl MemoryStorage {
    /// No scope set is stored twice.
    pub closed spec fn wf(&self) -> bool {
        distinct_keys(self.entries@)
    }

    /// An empty store.
    pub fn new() -> (r: MemoryStorage)
        ensures
            r.wf(),
            r@ == Map::<Set<Seq<char>>, Token>::empty(),
    {
        let r = MemoryStorage { entries: Vec::new() };
        assert(r@ =~= Map::<Set<Seq<char>>, Token>::empty());
        r
    }

    /// Stores `token` under the scope set of `scopes`, replacing what was there.
    pub fn set(&mut self, scopes: &Vec<String>, token: Token)
        requires
            old(self).wf(),
        ensures
            final(self).wf(),
            final(self)@ == old(self)@.insert(scope_set(scopes@), token),
    {
        let ghost before = self.entries@;
        let ghost key = scope_set(scopes@);
        let key_list = scopes.clone();
        assert(key_list@ == scopes@);
        let mut i: usize = 0;
        while i < self.entries.len()
            invariant
                self.entries@ == before,
                old(self).entries@ == before,
                distinct_keys(before),
                key == scope_set(scopes@),
                key_list@ == scopes@,
                i <= self.entries.len(),
                forall|j: int| 0 <= j < i ==> scope_set(#[trigger] before[j].0@) != key,
            decreases self.entries.len() - i,
        {
            if same_scopes(&self.entries[i].0, scopes) {
                self.entries.set(i, (key_list, token));
                proof {
                    assert forall|k: Set<Seq<char>>| lookup(self.entries@, k) == (if k == key {
                        Some(token)
                    } else {
                        lookup(before, k)
                    }) by {
                        lemma_lookup_update(before, i as int, (key_list, token), k);
                    }
                    lemma_lookup_update(before, i as int, (key_list, token), key);
                    assert(self@ =~= old(self)@.insert(key, token));
                }
                return;
            }
            assert(scope_set(before[i as int].0@) != key);
            i = i + 1;
        }
        self.entries.push((key_list, token));
        proof {
            assert(self.entries@.drop_last() =~= before);
            assert forall|a: int, b: int| 0 <= a < b < self.entries@.len() implies scope_set(
                #[trigger] self.entries@[a].0@,
            ) != scope_set(#[trigger] self.entries@[b].0@) by {
                if b == self.entries@.len() - 1 {
                    assert(self.entries@[b].0@ == scopes@);
                    assert(self.entries@[a] == before[a]);
                } else {
                    assert(self.entries@[a] == before[a] && self.entries@[b] == before[b]);
                }
            }
            assert forall|k: Set<Seq<char>>| lookup(self.entries@, k) == (if k == key {
                Some(token)
            } else {
                lookup(before, k)
            }) by {}
            assert(self@ =~= old(self)@.insert(key, token));
        }
    }

    /// The token stored under the scope set of `scopes`.
    pub fn get(&self, scopes: &Vec<String>) -> (r: Option<Token>)
        requires
            self.wf(),
        ensures
            r == stored_at(self@, scope_set(scopes@)),
    {
        let ghost key = scope_set(scopes@);
        let mut i: usize = self.entries.len();
        assert(self.entries@.take(i as int) =~= self.entries@);
        while i > 0
            invariant
                i <= self.entries.len(),
                key == scope_set(scopes@),
                lookup(self.entries@, key) == lookup(self.entries@.take(i as int), key),
            decreases i,
        {
            let ghost pre = self.entries@.take(i as int);
            assert(pre.drop_last() =~= self.entries@.take(i - 1));
            assert(pre.last() == self.entries@[i - 1]);
            assert(lookup(pre, key) == if scope_set(pre.last().0@) == key {
                Some(pre.last().1)
            } else {
                lookup(pre.drop_last(), key)
            });
            if same_scopes(&self.entries[i - 1].0, scopes) {
                return Some(self.entries[i - 1].1.duplicate());
            }
            i = i - 1;
        }
        assert(self.entries@.take(0) =~= Seq::<(Vec<String>, Token)>::empty());
        None
    }
}

/// Of two `set`s under one scope set the later wins, whatever the order of the
/// scopes in each list; a scope set never stored is absent.
pub proof fn lemma_last_write_wins(
    m: Map<Set<Seq<char>>, Token>,
    scopes: Seq<String>,
    same: Seq<String>,
    t1: Token,
    t2: Token,
    unset: Seq<String>,
)
    requires
        scope_set(same) == scope_set(scopes),
    ensures
        stored_at(m.insert(scope_set(scopes), t1).insert(scope_set(same), t2), scope_set(scopes)) == Some(t2),
        stored_at(Map::<Set<Seq<char>>, Token>::empty(), scope_set(unset)) is None,
{
}

} // verus!
