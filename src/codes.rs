//! Code lists used as sets, and keyed tables searched in order.
use vstd::prelude::*;

verus! {

/// The set of codes held by a list; order and repetition do not matter.
pub open spec fn codes(s: Seq<String>) -> Set<Seq<char>> {
    Set::new(|c: Seq<char>| exists|i: int| 0 <= i < s.len() && s[i]@ == c)
}

/// The marker of a case that no category or group admits.
pub open spec fn unclassified() -> Seq<char> {
    "KBBZ"@
}

/// The codes of a list of strings, in order.
pub open spec fn names(s: Seq<String>) -> Seq<Seq<char>> {
    s.map_values(|x: String| x@)
}

/// A string whose view is that of the literal `s`.
pub fn lit(s: &str) -> (r: String)
    ensures
        r@ == s@,
{
    s.to_owned()
}

/// Whether `code` is one of the codes in `list`.
pub fn has_code(list: &Vec<String>, code: &String) -> (r: bool)
    ensures
        r == codes(list@).contains(code@),
{
    let mut i: usize = 0;
    while i < list.len()
        invariant
            0 <= i <= list@.len(),
            forall|k: int| 0 <= k < i ==> list@[k]@ != code@,
        decreases list@.len() - i,
    {
        if list[i] == *code {
            assert(list@[i as int]@ == code@);
            return true;
        }
        i += 1;
    }
    false
}

/// Whether the two lists share at least one code.
pub fn any_shared(a: &Vec<String>, b: &Vec<String>) -> (r: bool)
    ensures
        r == !codes(a@).disjoint(codes(b@)),
{
    let mut j: usize = 0;
    while j < b.len()
        invariant
            0 <= j <= b@.len(),
            forall|k: int| 0 <= k < j ==> !codes(a@).contains(#[trigger] b@[k]@),
        decreases b@.len() - j,
    {
        if has_code(a, &b[j]) {
            assert(codes(b@).contains(b@[j as int]@));
            return true;
        }
        j += 1;
    }
    assert forall|c: Seq<char>| !(codes(a@).contains(c) && codes(b@).contains(c)) by {
        if codes(b@).contains(c) {
            let k = choose|k: int| 0 <= k < b@.len() && b@[k]@ == c;
            assert(!codes(a@).contains(b@[k]@));
        }
    }
    false
}

/// A copy of a code list, element for element.
pub fn copy_codes(v: &Vec<String>) -> (r: Vec<String>)
    ensures
        r@ == v@,
{
    let mut r: Vec<String> = Vec::new();
    let mut i: usize = 0;
    while i < v.len()
        invariant
            0 <= i <= v@.len(),
            r@ == v@.subrange(0, i as int),
        decreases v@.len() - i,
    {
        r.push(v[i].clone());
        i += 1;
    }
    assert(r@ =~= v@);
    r
}

/// A lookup table: a list of entries, each a key code and a value. A key
/// is looked up by its first entry.
pub struct Table<V> {
    pub entries: Vec<(String, V)>,
}

impl<V> Table<V> {
    pub open spec fn key(&self, i: int) -> Seq<char> {
        self.entries@[i].0@
    }

    /// Entry `i` is the first one with key `k`.
    pub open spec fn is_first(&self, k: Seq<char>, i: int) -> bool {
        &&& 0 <= i < self.entries@.len()
        &&& self.key(i) == k
        &&& forall|j: int| 0 <= j < i ==> self.key(j) != k
    }

    /// The position of the entry that holds key `k`, if any.
    pub open spec fn position(&self, k: Seq<char>) -> Option<int> {
        if exists|i: int| self.is_first(k, i) {
            Some(choose|i: int| self.is_first(k, i))
        } else {
            None
        }
    }

    /// The value held under key `k`, if any.
    pub open spec fn lookup(&self, k: Seq<char>) -> Option<V> {
        match self.position(k) {
            Some(i) => Some(self.entries@[i].1),
            None => None,
        }
    }

    /// Finds the position of the entry for `k`.
    pub fn find(&self, k: &String) -> (r: Option<usize>)
        ensures
            match r {
                Some(i) => self.position(k@) == Some(i as int),
                None => self.position(k@) is None,
            },
    {
        let mut i: usize = 0;
        while i < self.entries.len()
            invariant
                0 <= i <= self.entries@.len(),
                forall|j: int| 0 <= j < i ==> self.key(j) != k@,
            decreases self.entries@.len() - i,
        {
            if self.entries[i].0 == *k {
                assert(self.is_first(k@, i as int));
                let ghost c = choose|c: int| self.is_first(k@, c);
                assert(c == i) by {
                    if c < i {
                        assert(self.key(c) != k@);
                    }
                    if c > i {
                        assert(self.key(i as int) != k@);
                    }
                }
                return Some(i);
            }
            i += 1;
        }
        assert forall|c: int| !self.is_first(k@, c) by {
            if 0 <= c < self.entries@.len() {
                assert(self.key(c) != k@);
            }
        }
        None
    }
}

} // verus!
