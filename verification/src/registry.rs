//! The method registry: a mutable mapping from method name to a callable
//! handler capability, together with the handler interface itself.

use vstd::prelude::*;
use vstd::map::*;
use crate::error::{ErrorKind, RpcError};

verus! {

/// What a handler is expected to return for a given input, stated abstractly:
/// either output bytes or a failure kind with its context string.
pub open spec fn result_matches(
    expected: Result<Seq<u8>, (ErrorKind, Seq<char>)>,
    actual: Result<Vec<u8>, RpcError>,
) -> bool {
    match (expected, actual) {
        (Ok(bytes), Ok(v)) => v@ == bytes,
        (Err((kind, context)), Err(e)) => e.kind() == kind && e.context() == context,
        _ => false,
    }
}

/// A handler capability: a pure function from an input byte sequence to
/// either an output byte sequence or a typed error.
///
/// `spec_result` is the handler's mathematical behaviour; `run` must produce
/// exactly that result. A registered handler is immutable, so the same input
/// always yields the same result.
pub trait Handler: Sized {
    /// The result this handler computes for the given input.
    spec fn spec_result(&self, input: Seq<u8>) -> Result<Seq<u8>, (ErrorKind, Seq<char>)>;

    /// Execute the handler on the given input.
    fn run(&self, input: &[u8]) -> (r: Result<Vec<u8>, RpcError>)
        ensures
            result_matches(self.spec_result(input@), r),
    ;
}

/// The mapping a sequence of named entries denotes: entries are folded front
/// to back, so a later entry for a name overrides an earlier one.
spec fn entries_map<H>(s: Seq<(String, H)>) -> Map<Seq<char>, H>
    decreases s.len(),
{
    if s.len() == 0 {
        Map::empty()
    } else {
        entries_map(s.drop_last()).insert(s.last().0@, s.last().1)
    }
}

/// No two entries share a name.
spec fn unique_names<H>(s: Seq<(String, H)>) -> bool {
    forall|i: int, j: int| 0 <= i < j < s.len() ==> s[i].0@ != s[j].0@
}

/// A name is in the denoted mapping exactly when some entry carries it.
proof fn lemma_entries_map_contains<H>(s: Seq<(String, H)>, name: Seq<char>)
    ensures
        entries_map(s).contains_key(name) <==> exists|i: int|
            0 <= i < s.len() && s[i].0@ == name,
    decreases s.len(),
{
    if s.len() > 0 {
        let prefix = s.drop_last();
        lemma_entries_map_contains(prefix, name);
        if s.last().0@ == name {
            assert(s[s.len() - 1].0@ == name);
        } else if entries_map(s).contains_key(name) {
            let i = choose|i: int| 0 <= i < prefix.len() && prefix[i].0@ == name;
            assert(s[i].0@ == name);
        } else if exists|i: int| 0 <= i < s.len() && s[i].0@ == name {
            let i = choose|i: int| 0 <= i < s.len() && s[i].0@ == name;
            assert(i < s.len() - 1);
            assert(prefix[i].0@ == name);
        }
    }
}

/// Under unique names, the mapping sends each entry's name to its handler.
proof fn lemma_entries_map_index<H>(s: Seq<(String, H)>, i: int)
    requires
        unique_names(s),
        0 <= i < s.len(),
    ensures
        entries_map(s).contains_key(s[i].0@),
        entries_map(s)[s[i].0@] == s[i].1,
    decreases s.len(),
{
    if i == s.len() - 1 {
    } else {
        let prefix = s.drop_last();
        assert(prefix[i] == s[i]);
        lemma_entries_map_index(prefix, i);
        assert(s.last().0@ != s[i].0@);
    }
}

/// Appending an entry inserts its name into the denoted mapping.
proof fn lemma_entries_map_push<H>(s: Seq<(String, H)>, name: String, handler: H)
    ensures
        entries_map(s.push((name, handler))) == entries_map(s).insert(name@, handler),
{
    assert(s.push((name, handler)).drop_last() =~= s);
    assert(s.push((name, handler)).last() == (name, handler));
}

/// Overwriting the entry that carries a name replaces that name's handler in
/// the denoted mapping and changes nothing else.
proof fn lemma_entries_map_update<H>(s: Seq<(String, H)>, i: int, name: String, handler: H)
    requires
        unique_names(s),
        0 <= i < s.len(),
        s[i].0@ == name@,
    ensures
        unique_names(s.update(i, (name, handler))),
        entries_map(s.update(i, (name, handler))) == entries_map(s).insert(name@, handler),
{
    let t = s.update(i, (name, handler));
    assert(unique_names(t)) by {
        assert(forall|k: int| 0 <= k < t.len() ==> t[k].0@ == s[k].0@);
    }
    assert_maps_equal!(entries_map(t), entries_map(s).insert(name@, handler), key => {
        lemma_entries_map_contains(s, key);
        lemma_entries_map_contains(t, key);
        if key == name@ {
            lemma_entries_map_index(t, i);
        } else {
            if entries_map(s).contains_key(key) {
                let j = choose|j: int| 0 <= j < s.len() && s[j].0@ == key;
                assert(t[j].0@ == key);
                lemma_entries_map_index(s, j);
                lemma_entries_map_index(t, j);
            } else if entries_map(t).contains_key(key) {
                let j = choose|j: int| 0 <= j < t.len() && t[j].0@ == key;
                assert(s[j].0@ == key);
            }
        }
    });
}

/// The registry of method handlers: an insertion-mutable mapping from method
/// name to handler, with at most one handler per name.
pub struct Registry<H: Handler> {
    entries: Vec<(String, H)>,
}

impl<H: Handler> View for Registry<H> {
    type V = Map<Seq<char>, H>;

    closed spec fn view(&self) -> Map<Seq<char>, H> {
        entries_map(self.entries@)
    }
}

impl<H: Handler> Registry<H> {
    /// Well-formedness: no method name is held by two entries. Constructors
    /// establish it and every method preserves it.
    pub closed spec fn wf(&self) -> bool {
        unique_names(self.entries@)
    }

    /// Create a new empty registry.
    pub fn new() -> (r: Self)
        ensures
            r.wf(),
            r@ == Map::<Seq<char>, H>::empty(),
    {
        Registry { entries: Vec::new() }
    }

    /// Register a handler for a method name, inserting it or atomically
    /// replacing the previous handler for the same name.
    pub fn register(&mut self, name: String, handler: H)
        requires
            old(self).wf(),
        ensures
            final(self).wf(),
            final(self)@ == old(self)@.insert(name@, handler),
    {
        let n = self.entries.len();
        let mut i: usize = 0;
        while i < n
            invariant
                self == old(self),
                self.wf(),
                n == self.entries@.len(),
                i <= n,
                forall|j: int| 0 <= j < i ==> self.entries@[j].0@ != name@,
            decreases n - i,
        {
            if self.entries[i].0 == name {
                proof {
                    lemma_entries_map_update(self.entries@, i as int, name, handler);
                }
                self.entries[i] = (name, handler);
                return;
            }
            i += 1;
        }
        proof {
            lemma_entries_map_push(self.entries@, name, handler);
        }
        self.entries.push((name, handler));
    }

    /// Call a registered method: look up the name and invoke its handler,
    /// relaying the handler's result or error unchanged. An unregistered
    /// name fails with `UnknownMethod` carrying the name.
    pub fn call(&self, method: &str, input: &[u8]) -> (r: Result<Vec<u8>, RpcError>)
        requires
            self.wf(),
        ensures
            self@.contains_key(method@) ==> result_matches(
                self@[method@].spec_result(input@),
                r,
            ),
            !self@.contains_key(method@) ==> (r matches Err(e) && e.kind()
                == ErrorKind::UnknownMethod && e.context() == method@),
    {
        let owned = method.to_owned();
        let n = self.entries.len();
        let mut i: usize = 0;
        while i < n
            invariant
                self.wf(),
                n == self.entries@.len(),
                i <= n,
                owned@ == method@,
                forall|j: int| 0 <= j < i ==> self.entries@[j].0@ != method@,
            decreases n - i,
        {
            if self.entries[i].0 == owned {
                proof {
                    lemma_entries_map_index(self.entries@, i as int);
                }
                return self.entries[i].1.run(input);
            }
            i += 1;
        }
        proof {
            lemma_entries_map_contains(self.entries@, method@);
        }
        Err(RpcError::UnknownMethod(owned))
    }

    /// Whether a handler is registered for the given method name.
    pub fn has_method(&self, method: &str) -> (r: bool)
        requires
            self.wf(),
        ensures
            r == self@.contains_key(method@),
    {
        let owned = method.to_owned();
        let n = self.entries.len();
        let mut i: usize = 0;
        while i < n
            invariant
                n == self.entries@.len(),
                i <= n,
                owned@ == method@,
                forall|j: int| 0 <= j < i ==> self.entries@[j].0@ != method@,
            decreases n - i,
        {
            if self.entries[i].0 == owned {
                proof {
                    lemma_entries_map_contains(self.entries@, method@);
                }
                return true;
            }
            i += 1;
        }
        proof {
            lemma_entries_map_contains(self.entries@, method@);
        }
        false
    }

    /// The registered method names, one occurrence each, in no promised
    /// order.
    pub fn methods(&self) -> (r: Vec<String>)
        requires
            self.wf(),
        ensures
            forall|i: int, j: int| 0 <= i < j < r@.len() ==> r@[i]@ != r@[j]@,
            forall|i: int| 0 <= i < r@.len() ==> self@.contains_key(#[trigger] r@[i]@),
            forall|name: Seq<char>| self@.contains_key(name) ==> exists|i: int|
                0 <= i < r@.len() && r@[i]@ == name,
    {
        let n = self.entries.len();
        let mut r: Vec<String> = Vec::new();
        let mut i: usize = 0;
        while i < n
            invariant
                self.wf(),
                n == self.entries@.len(),
                i <= n,
                r@.len() == i,
                forall|j: int| 0 <= j < i ==> r@[j]@ == self.entries@[j].0@,
            decreases n - i,
        {
            r.push(self.entries[i].0.clone());
            i += 1;
        }
        proof {
            assert forall|name: Seq<char>| self@.contains_key(name) implies exists|i: int|
                0 <= i < r@.len() && r@[i]@ == name by {
                lemma_entries_map_contains(self.entries@, name);
                let j = choose|j: int|
                    0 <= j < self.entries@.len() && self.entries@[j].0@ == name;
                assert(r@[j]@ == name);
            }
            assert forall|i: int| 0 <= i < r@.len() implies self@.contains_key(
                #[trigger] r@[i]@,
            ) by {
                lemma_entries_map_contains(self.entries@, r@[i]@);
            }
        }
        r
    }
}

impl<H: Handler> Default for Registry<H> {
    /// An empty registry.
    fn default() -> (r: Self)
        ensures
            r.wf(),
            r@ == Map::<Seq<char>, H>::empty(),
    {
        Registry::new()
    }
}

} // verus!
