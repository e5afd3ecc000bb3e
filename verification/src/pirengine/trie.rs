//! Lookup tables keyed by text.

use crate::text::chars_of;
use std::collections::HashMap;
use vstd::prelude::*;

verus! {

broadcast use vstd::std_specs::hash::group_hash_axioms;

/// A table from keys to values.
pub trait TrieLookup<T> {
    /// What the table holds.
    spec fn contents(&self) -> Map<Seq<char>, T>;

    /// Whether the table is in order inside.
    spec fn wf(&self) -> bool;

    /// Puts `value` under `key`; what was there before is replaced.
    fn insert(&mut self, key: &str, value: T)
        requires
            old(self).wf(),
        ensures
            final(self).wf(),
            final(self).contents() == old(self).contents().insert(key@, value),
    ;

    /// The value under `key`.
    fn search(&self, key: &str) -> (r: Option<&T>)
        requires
            self.wf(),
        ensures
            match r {
                Some(v) => self.contents().contains_key(key@) && self.contents()[key@] == *v,
                None => !self.contents().contains_key(key@),
            },
    ;
}

/// The table that answers each key with what `find` has for it.
pub open spec fn table<T>(find: spec_fn(Seq<char>) -> Option<T>) -> Map<Seq<char>, T> {
    Map::new(|k: Seq<char>| find(k) is Some, |k: Seq<char>| find(k)->0)
}

/// A table whose answers change for one key only is the old table with
/// that key set.
pub proof fn lemma_table_insert<T>(
    before: spec_fn(Seq<char>) -> Option<T>,
    after: spec_fn(Seq<char>) -> Option<T>,
    key: Seq<char>,
    value: T,
)
    requires
        forall|k: Seq<char>|
            #[trigger] after(k) == if k == key {
                Some(value)
            } else {
                before(k)
            },
    ensures
        table(after) == table(before).insert(key, value),
{
    assert(table(after) =~= table(before).insert(key, value));
}

/// A trie node whose children are found by hashing.
struct HashedTrieNode<T> {
    children: HashMap<u32, HashedTrieNode<T>>,
    value: Option<T>,
}

/// The number that stands for a character among the children of a node.
pub open spec fn code(c: char) -> u32 {
    c as u32
}

spec fn hashed_find<T>(node: HashedTrieNode<T>, key: Seq<char>) -> Option<T>
    decreases key.len(),
{
    if key.len() == 0 {
        node.value
    } else if node.children@.contains_key(code(key[0])) {
        hashed_find(node.children@[code(key[0])], key.drop_first())
    } else {
        None
    }
}

impl<T> HashedTrieNode<T> {
    fn new() -> (r: HashedTrieNode<T>)
        ensures
            forall|k: Seq<char>| hashed_find(r, k) is None,
    {
        let r = HashedTrieNode { children: HashMap::new(), value: None };
        assert forall|k: Seq<char>| hashed_find(r, k) is None by {
            if k.len() > 0 {
                assert(!r.children@.contains_key(code(k[0])));
            }
        }
        r
    }

    fn insert(&mut self, key: &Vec<char>, pos: usize, value: T)
        requires
            pos <= key.len(),
        ensures
            forall|k: Seq<char>|
                #[trigger] hashed_find(*final(self), k) == if k == key@.subrange(
                    pos as int,
                    key@.len() as int,
                ) {
                    Some(value)
                } else {
                    hashed_find(*old(self), k)
                },
        decreases key.len() - pos,
    {
        let ghost rest = key@.subrange(pos as int, key@.len() as int);
        if pos == key.len() {
            self.value = Some(value);
            assert forall|k: Seq<char>|
                #[trigger] hashed_find(*self, k) == if k == rest {
                    Some(value)
                } else {
                    hashed_find(*old(self), k)
                } by {
                if k.len() == 0 {
                    assert(k =~= rest);
                }
            }
        } else {
            let c = key[pos] as u32;
            let mut child = match self.children.remove(&c) {
                Some(child) => child,
                None => HashedTrieNode::new(),
            };
            let ghost child_before = child;
            child.insert(key, pos + 1, value);
            self.children.insert(c, child);
            let ghost deeper = key@.subrange(pos + 1, key@.len() as int);
            assert(rest.drop_first() =~= deeper);
            assert(rest[0] == key@[pos as int]);
            assert forall|k: Seq<char>|
                #[trigger] hashed_find(*self, k) == if k == rest {
                    Some(value)
                } else {
                    hashed_find(*old(self), k)
                } by {
                if k.len() > 0 {
                    if code(k[0]) == c {
                        assert(hashed_find(*self, k) == hashed_find(child, k.drop_first()));
                        if k.drop_first() == deeper {
                            assert(k =~= rest) by {
                                assert(k[0] == rest[0]) by {
                                    lemma_code_injective(k[0], rest[0]);
                                }
                                assert(k =~= seq![k[0]] + k.drop_first());
                                assert(rest =~= seq![rest[0]] + rest.drop_first());
                            }
                        } else {
                            assert(k != rest);
                            if old(self).children@.contains_key(c) {
                                assert(child_before == old(self).children@[c]);
                            }
                        }
                    } else {
                        assert(k != rest);
                    }
                }
            }
        }
    }

    fn search<'a>(&'a self, key: &Vec<char>, pos: usize) -> (r: Option<&'a T>)
        requires
            pos <= key.len(),
        ensures
            match r {
                Some(v) => hashed_find(*self, key@.subrange(pos as int, key@.len() as int)) == Some(
                    *v,
                ),
                None => hashed_find(*self, key@.subrange(pos as int, key@.len() as int)) is None,
            },
        decreases key.len() - pos,
    {
        let ghost rest = key@.subrange(pos as int, key@.len() as int);
        if pos == key.len() {
            self.value.as_ref()
        } else {
            let c = key[pos] as u32;
            assert(rest.drop_first() =~= key@.subrange(pos + 1, key@.len() as int));
            assert(rest[0] == key@[pos as int]);
            match self.children.get(&c) {
                Some(child) => child.search(key, pos + 1),
                None => None,
            }
        }
    }
}

/// Two characters with the same number are the same character.
pub proof fn lemma_code_injective(a: char, b: char)
    requires
        code(a) == code(b),
    ensures
        a == b,
{
    assert(a as u32 as char == a);
    assert(b as u32 as char == b);
}

/// A trie whose nodes find their children by hashing.
pub struct HashedTrie<T> {
    root: HashedTrieNode<T>,
}

impl<T> HashedTrie<T> {
    pub fn new() -> (r: HashedTrie<T>)
        ensures
            r.wf(),
            r.contents() == Map::<Seq<char>, T>::empty(),
    {
        let r = HashedTrie { root: HashedTrieNode::new() };
        assert(r.contents() =~= Map::<Seq<char>, T>::empty());
        r
    }
}

impl<T> TrieLookup<T> for HashedTrie<T> {
    closed spec fn contents(&self) -> Map<Seq<char>, T> {
        table(|k: Seq<char>| hashed_find(self.root, k))
    }

    closed spec fn wf(&self) -> bool {
        true
    }

    fn insert(&mut self, key: &str, value: T) {
        let chars = chars_of(key);
        self.root.insert(&chars, 0, value);
        proof {
            assert(chars@.subrange(0, chars@.len() as int) =~= key@);
            lemma_table_insert(
                |k: Seq<char>| hashed_find(old(self).root, k),
                |k: Seq<char>| hashed_find(self.root, k),
                key@,
                value,
            );
        }
    }

    fn search(&self, key: &str) -> (r: Option<&T>) {
        let chars = chars_of(key);
        assert(chars@.subrange(0, chars@.len() as int) =~= key@);
        self.root.search(&chars, 0)
    }
}

/// The value of the first entry under `key`, from position `from` on.
pub open spec fn entry_find<T>(entries: Seq<(String, T)>, key: Seq<char>, from: int) -> Option<T>
    decreases entries.len() - from,
{
    if from < 0 || from >= entries.len() {
        None
    } else if entries[from].0@ == key {
        Some(entries[from].1)
    } else {
        entry_find(entries, key, from + 1)
    }
}

/// Replacing the first entry under `key` changes what is found under `key`
/// and nothing else.
proof fn lemma_entry_replaced<T>(
    before: Seq<(String, T)>,
    after: Seq<(String, T)>,
    at: int,
    key: Seq<char>,
    value: T,
    k: Seq<char>,
    from: int,
)
    requires
        0 <= from <= at < before.len(),
        before[at].0@ == key,
        forall|i: int| from <= i < at ==> before[i].0@ != key,
        after.len() == before.len(),
        after[at].0@ == key,
        after[at].1 == value,
        forall|i: int| 0 <= i < before.len() && i != at ==> after[i] == before[i],
    ensures
        entry_find(after, k, from) == if k == key {
            Some(value)
        } else {
            entry_find(before, k, from)
        },
    decreases at - from,
{
    if from < at {
        lemma_entry_replaced(before, after, at, key, value, k, from + 1);
    } else {
        lemma_entries_agree(before, after, k, at + 1);
    }
}

/// Two lists that agree from `from` on find the same from there on.
proof fn lemma_entries_agree<T>(a: Seq<(String, T)>, b: Seq<(String, T)>, k: Seq<char>, from: int)
    requires
        0 <= from,
        a.len() == b.len(),
        forall|i: int| from <= i < a.len() ==> a[i] == b[i],
    ensures
        entry_find(a, k, from) == entry_find(b, k, from),
    decreases a.len() - from,
{
    if from < a.len() {
        lemma_entries_agree(a, b, k, from + 1);
    }
}

/// An entry added at the end is found under its key if nothing was found
/// there before, and changes nothing else.
proof fn lemma_entry_added<T>(
    before: Seq<(String, T)>,
    entry: (String, T),
    k: Seq<char>,
    from: int,
)
    requires
        0 <= from <= before.len(),
    ensures
        entry_find(before.push(entry), k, from) == match entry_find(before, k, from) {
            Some(v) => Some(v),
            None => if k == entry.0@ {
                Some(entry.1)
            } else {
                None
            },
        },
    decreases before.len() - from,
{
    let after = before.push(entry);
    if from < before.len() {
        assert(after[from] == before[from]);
        lemma_entry_added(before, entry, k, from + 1);
    } else {
        assert(after[from] == entry);
        assert(entry_find(after, k, from + 1) is None);
    }
}

/// A table that keeps its entries in a list, in the order in which their
/// keys first came.
pub struct HashMapTrie<T>(Vec<(String, T)>);

impl<T> HashMapTrie<T> {
    pub fn new() -> (r: HashMapTrie<T>)
        ensures
            r.wf(),
            r.contents() == Map::<Seq<char>, T>::empty(),
    {
        let r = HashMapTrie(Vec::new());
        assert(r.contents() =~= Map::<Seq<char>, T>::empty());
        r
    }

    /// The position of the first entry under `key`; the number of entries
    /// where there is none.
    fn position(&self, key: &str) -> (r: usize)
        ensures
            r <= self.0@.len(),
            forall|i: int| 0 <= i < r ==> self.0@[i].0@ != key@,
            r < self.0@.len() ==> self.0@[r as int].0@ == key@,
            entry_find(self.0@, key@, 0) == entry_find(self.0@, key@, r as int),
    {
        let mut i: usize = 0;
        while i < self.0.len()
            invariant
                i <= self.0@.len(),
                forall|k: int| 0 <= k < i ==> self.0@[k].0@ != key@,
                entry_find(self.0@, key@, 0) == entry_find(self.0@, key@, i as int),
            decreases self.0.len() - i,
        {
            if self.0[i].0.as_str().eq(key) {
                return i;
            }
            i += 1;
        }
        i
    }
}

impl<T> TrieLookup<T> for HashMapTrie<T> {
    closed spec fn contents(&self) -> Map<Seq<char>, T> {
        table(|k: Seq<char>| entry_find(self.0@, k, 0))
    }

    closed spec fn wf(&self) -> bool {
        true
    }

    fn insert(&mut self, key: &str, value: T) {
        let at = self.position(key);
        let ghost before = self.0@;
        if at < self.0.len() {
            self.0.set(at, (key.to_owned(), value));
            assert forall|k: Seq<char>|
                #[trigger] entry_find(self.0@, k, 0) == if k == key@ {
                    Some(value)
                } else {
                    entry_find(before, k, 0)
                } by {
                lemma_entry_replaced(before, self.0@, at as int, key@, value, k, 0);
            }
        } else {
            self.0.push((key.to_owned(), value));
            assert forall|k: Seq<char>|
                #[trigger] entry_find(self.0@, k, 0) == if k == key@ {
                    Some(value)
                } else {
                    entry_find(before, k, 0)
                } by {
                lemma_entry_added(before, self.0@[at as int], k, 0);
                assert(self.0@ =~= before.push(self.0@[at as int]));
            }
        }
        proof {
            lemma_table_insert(
                |k: Seq<char>| entry_find(before, k, 0),
                |k: Seq<char>| entry_find(self.0@, k, 0),
                key@,
                value,
            );
        }
    }

    fn search(&self, key: &str) -> (r: Option<&T>) {
        let at = self.position(key);
        if at < self.0.len() {
            Some(&self.0[at].1)
        } else {
            None
        }
    }
}

/// A trie node that keeps its children in the order of their characters.
struct TrieNode<T> {
    children: Vec<(char, TrieNode<T>)>,
    value: Option<T>,
}

/// The child under the character `c`, looked for from position `from` on.
spec fn child_from<T>(children: Seq<(char, TrieNode<T>)>, c: char, from: int) -> Option<TrieNode<T>>
    decreases children.len() - from,
{
    if from < 0 || from >= children.len() {
        None
    } else if children[from].0 == c {
        Some(children[from].1)
    } else {
        child_from(children, c, from + 1)
    }
}

spec fn plain_find<T>(node: TrieNode<T>, key: Seq<char>) -> Option<T>
    decreases key.len(),
{
    if key.len() == 0 {
        node.value
    } else {
        match child_from(node.children@, key[0], 0) {
            Some(child) => plain_find(child, key.drop_first()),
            None => None,
        }
    }
}

/// The characters of the children grow from one child to the next.
spec fn ordered<T>(children: Seq<(char, TrieNode<T>)>) -> bool {
    forall|i: int, j: int| 0 <= i < j < children.len() ==> code(children[i].0) < code(children[j].0)
}

/// Every node keeps its children in order.
spec fn plain_wf<T>(node: TrieNode<T>) -> bool
    decreases node,
{
    &&& ordered(node.children@)
    &&& forall|i: int|
        0 <= i < node.children@.len() ==> plain_wf(#[trigger] node.children@[i].1)
}

/// Among ordered children, the child under `c` is the one at the place
/// where `c` stands, and there is none where `c` stands nowhere.
proof fn lemma_child_at<T>(children: Seq<(char, TrieNode<T>)>, c: char, at: int, from: int)
    requires
        ordered(children),
        0 <= from <= at <= children.len(),
        forall|i: int| 0 <= i < at ==> code(children[i].0) < code(c),
        at < children.len() ==> code(children[at].0) >= code(c),
    ensures
        child_from(children, c, from) == if at < children.len() && children[at].0 == c {
            Some(children[at].1)
        } else {
            None
        },
    decreases children.len() - from,
{
    if from < children.len() {
        if from < at {
            lemma_child_at(children, c, at, from + 1);
        } else if children[from].0 != c {
            lemma_no_child_behind(children, c, from + 1);
            assert(code(children[from].0) != code(c)) by {
                if code(children[from].0) == code(c) {
                    lemma_code_injective(children[from].0, c);
                }
            }
        }
    }
}

/// Behind a child whose character is larger than `c` there is no child
/// under `c`.
proof fn lemma_no_child_behind<T>(children: Seq<(char, TrieNode<T>)>, c: char, from: int)
    requires
        ordered(children),
        0 < from <= children.len(),
        code(children[from - 1].0) >= code(c),
    ensures
        child_from(children, c, from) is None,
    decreases children.len() - from,
{
    if from < children.len() {
        lemma_no_child_behind(children, c, from + 1);
    }
}

impl<T> TrieNode<T> {
    fn new(value: Option<T>) -> (r: Self)
        ensures
            plain_wf(r),
            r.value == value,
            r.children@.len() == 0,
    {
        Self { children: Vec::new(), value }
    }

    /// The place of `c` among the children: where it stands, or where it
    /// would have to stand.
    fn place(&self, c: char) -> (r: (bool, usize))
        requires
            plain_wf(*self),
        ensures
            r.1 <= self.children@.len(),
            forall|i: int| 0 <= i < r.1 ==> code(self.children@[i].0) < code(c),
            r.1 < self.children@.len() ==> code(self.children@[r.1 as int].0) >= code(c),
            r.0 == (r.1 < self.children@.len() && self.children@[r.1 as int].0 == c),
    {
        let mut low: usize = 0;
        let mut high: usize = self.children.len();
        while low < high
            invariant
                low <= high <= self.children@.len(),
                ordered(self.children@),
                forall|i: int| 0 <= i < low ==> code(self.children@[i].0) < code(c),
                forall|i: int|
                    high <= i < self.children@.len() ==> code(self.children@[i].0) >= code(c),
            decreases high - low,
        {
            let mid = low + (high - low) / 2;
            if (self.children[mid].0 as u32) < (c as u32) {
                low = mid + 1;
            } else {
                high = mid;
            }
        }
        let found = low < self.children.len() && self.children[low].0 == c;
        (found, low)
    }

    fn insert(&mut self, key: &Vec<char>, pos: usize, value: T)
        requires
            plain_wf(*old(self)),
            pos <= key.len(),
        ensures
            plain_wf(*final(self)),
            forall|k: Seq<char>|
                #[trigger] plain_find(*final(self), k) == if k == key@.subrange(
                    pos as int,
                    key@.len() as int,
                ) {
                    Some(value)
                } else {
                    plain_find(*old(self), k)
                },
        decreases key.len() - pos,
    {
        let ghost rest = key@.subrange(pos as int, key@.len() as int);
        if pos == key.len() {
            self.value = Some(value);
            assert forall|k: Seq<char>|
                #[trigger] plain_find(*self, k) == if k == rest {
                    Some(value)
                } else {
                    plain_find(*old(self), k)
                } by {
                if k.len() == 0 {
                    assert(k =~= rest);
                }
            }
        } else {
            let c = key[pos];
            let (found, at) = self.place(c);
            let ghost before = self.children@;
            proof {
                lemma_child_at(before, c, at as int, 0);
            }
            let mut child = if found {
                self.children.remove(at).1
            } else {
                TrieNode::new(None)
            };
            let ghost child_before = child;
            assert(forall|k: Seq<char>| !found ==> plain_find(child_before, k) is None) by {
                assert forall|k: Seq<char>| !found implies plain_find(child_before, k) is None by {
                    if k.len() > 0 {
                        assert(child_from(child_before.children@, k[0], 0) is None);
                    }
                }
            }
            child.insert(key, pos + 1, value);
            self.children.insert(at, (c, child));
            let ghost after = self.children@;
            let ghost deeper = key@.subrange(pos + 1, key@.len() as int);
            assert(rest.drop_first() =~= deeper);
            assert(rest[0] == c);
            assert(ordered(after)) by {
                assert forall|i: int, j: int| 0 <= i < j < after.len() implies code(after[i].0)
                    < code(after[j].0) by {
                    if found {
                        assert(after[i].0 == before[i].0);
                        assert(after[j].0 == before[j].0);
                    } else {
                        if j == at {
                        } else if i == at {
                            assert(after[j] == before[j - 1]);
                            assert(code(before[j - 1].0) >= code(before[at as int].0));
                            assert(before[at as int].0 != c);
                            if code(before[at as int].0) == code(c) {
                                lemma_code_injective(before[at as int].0, c);
                            }
                        } else {
                            let bi = if i < at { i } else { i - 1 };
                            let bj = if j < at { j } else { j - 1 };
                            assert(after[i] == before[bi]);
                            assert(after[j] == before[bj]);
                        }
                    }
                }
            }
            assert forall|i: int| 0 <= i < after.len() implies plain_wf(#[trigger] after[i].1) by {
                if i != at {
                    if found {
                        assert(after[i] == before[i]);
                    } else {
                        let bi = if i < at { i } else { i - 1 };
                        assert(after[i] == before[bi]);
                    }
                }
            }
            proof {
                lemma_child_at(after, c, at as int, 0);
            }
            assert forall|k: Seq<char>|
                #[trigger] plain_find(*self, k) == if k == rest {
                    Some(value)
                } else {
                    plain_find(*old(self), k)
                } by {
                if k.len() > 0 {
                    if k[0] == c {
                        assert(child_from(after, c, 0) == Some(child));
                        assert(plain_find(*self, k) == plain_find(child, k.drop_first()));
                        if found {
                            assert(child_before == before[at as int].1);
                            assert(plain_find(*old(self), k) == plain_find(
                                child_before,
                                k.drop_first(),
                            ));
                        } else {
                            assert(plain_find(*old(self), k) is None);
                            assert(plain_find(child_before, k.drop_first()) is None);
                        }
                        if k.drop_first() == deeper {
                            assert(k =~= rest) by {
                                assert(k =~= seq![k[0]] + k.drop_first());
                                assert(rest =~= seq![rest[0]] + rest.drop_first());
                            }
                        } else {
                            assert(k != rest);
                        }
                    } else {
                        assert(k != rest);
                        lemma_other_children_kept(before, after, at as int, found, k[0], c);
                        assert(child_from(after, k[0], 0) == child_from(before, k[0], 0));
                    }
                } else {
                    assert(rest.len() > 0);
                    assert(self.value == old(self).value);
                }
            }
        }
    }

    fn search<'a>(&'a self, key: &Vec<char>, pos: usize) -> (r: Option<&'a T>)
        requires
            plain_wf(*self),
            pos <= key.len(),
        ensures
            match r {
                Some(v) => plain_find(*self, key@.subrange(pos as int, key@.len() as int)) == Some(
                    *v,
                ),
                None => plain_find(*self, key@.subrange(pos as int, key@.len() as int)) is None,
            },
        decreases key.len() - pos,
    {
        let ghost rest = key@.subrange(pos as int, key@.len() as int);
        if pos == key.len() {
            self.value.as_ref()
        } else {
            let c = key[pos];
            assert(rest.drop_first() =~= key@.subrange(pos + 1, key@.len() as int));
            assert(rest[0] == c);
            let (found, at) = self.place(c);
            proof {
                lemma_child_at(self.children@, c, at as int, 0);
            }
            if found {
                self.children[at].1.search(key, pos + 1)
            } else {
                None
            }
        }
    }
}

/// Replacing or adding the child under `c` leaves the children under every
/// other character as they were.
proof fn lemma_other_children_kept<T>(
    before: Seq<(char, TrieNode<T>)>,
    after: Seq<(char, TrieNode<T>)>,
    at: int,
    found: bool,
    other: char,
    c: char,
)
    requires
        other != c,
        0 <= at < after.len(),
        after[at].0 == c,
        found ==> after.len() == before.len() && before[at].0 == c && forall|i: int|
            0 <= i < before.len() && i != at ==> after[i] == before[i],
        !found ==> after.len() == before.len() + 1 && (forall|i: int|
            0 <= i < at ==> after[i] == before[i]) && (forall|i: int|
            at < i < after.len() ==> after[i] == before[i - 1]),
    ensures
        child_from(after, other, 0) == child_from(before, other, 0),
{
    lemma_other_children_kept_from(before, after, at, found, other, c, 0);
}

proof fn lemma_other_children_kept_from<T>(
    before: Seq<(char, TrieNode<T>)>,
    after: Seq<(char, TrieNode<T>)>,
    at: int,
    found: bool,
    other: char,
    c: char,
    from: int,
)
    requires
        other != c,
        0 <= at < after.len(),
        0 <= from <= after.len(),
        after[at].0 == c,
        found ==> after.len() == before.len() && before[at].0 == c && forall|i: int|
            0 <= i < before.len() && i != at ==> after[i] == before[i],
        !found ==> after.len() == before.len() + 1 && (forall|i: int|
            0 <= i < at ==> after[i] == before[i]) && (forall|i: int|
            at < i < after.len() ==> after[i] == before[i - 1]),
    ensures
        child_from(after, other, from) == child_from(
            before,
            other,
            if found || from <= at {
                from
            } else {
                from - 1
            },
        ),
    decreases after.len() - from,
{
    if from < after.len() {
        lemma_other_children_kept_from(before, after, at, found, other, c, from + 1);
        if !found && from == at {
        }
    }
}

/// A trie whose nodes keep their children in order and find them by
/// halving.
pub struct Trie<T> {
    root: TrieNode<T>,
}

impl<T> Trie<T> {
    pub fn new() -> (r: Self)
        ensures
            r.wf(),
            r.contents() == Map::<Seq<char>, T>::empty(),
    {
        let r = Self { root: TrieNode::new(None) };
        assert forall|k: Seq<char>| plain_find(r.root, k) is None by {
            if k.len() > 0 {
                assert(child_from(r.root.children@, k[0], 0) is None);
            }
        }
        assert(r.contents() =~= Map::<Seq<char>, T>::empty());
        r
    }
}

impl<T> TrieLookup<T> for Trie<T> {
    closed spec fn contents(&self) -> Map<Seq<char>, T> {
        table(|k: Seq<char>| plain_find(self.root, k))
    }

    closed spec fn wf(&self) -> bool {
        plain_wf(self.root)
    }

    fn insert(&mut self, key: &str, value: T) {
        let chars = chars_of(key);
        self.root.insert(&chars, 0, value);
        proof {
            assert(chars@.subrange(0, chars@.len() as int) =~= key@);
            lemma_table_insert(
                |k: Seq<char>| plain_find(old(self).root, k),
                |k: Seq<char>| plain_find(self.root, k),
                key@,
                value,
            );
        }
    }

    fn search(&self, key: &str) -> (r: Option<&T>) {
        let chars = chars_of(key);
        assert(chars@.subrange(0, chars@.len() as int) =~= key@);
        self.root.search(&chars, 0)
    }
}

} // verus!
