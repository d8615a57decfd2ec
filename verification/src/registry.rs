use vstd::prelude::*;

verus! {

/// Where in a sequence of registered names a given name first occurs, starting
/// the search at position `i`.
pub open spec fn lookup_from(names: Seq<Seq<char>>, name: Seq<char>, i: int) -> Option<int>
    decreases names.len() - i,
{
    if i < 0 || i >= names.len() {
        None
    } else if names[i] == name {
        Some(i)
    } else {
        lookup_from(names, name, i + 1)
    }
}

/// The handle a name resolves to: the position of its first occurrence among
/// the registered names, or `None` when the name was never registered.
pub open spec fn lookup_spec(names: Seq<Seq<char>>, name: Seq<char>) -> Option<int> {
    lookup_from(names, name, 0)
}

/// The registry of built-in operations: a read-only mapping from operation
/// name to an opaque handle, populated once before any build. A handle is the
/// position at which the name was registered; the caller keeps the callables
/// themselves in a table indexed the same way.
pub struct Registry {
    names: Vec<String>,
}

impl View for Registry {
    type V = Seq<Seq<char>>;

    closed spec fn view(&self) -> Seq<Seq<char>> {
        self.names@.map(|i: int, s: String| s@)
    }
}

impl Registry {
    /// An empty registry.
    pub fn new() -> (r: Registry)
        ensures
            r@ == Seq::<Seq<char>>::empty(),
    {
        let r = Registry { names: Vec::new() };
        proof {
            assert(r@ =~= Seq::<Seq<char>>::empty());
        }
        r
    }

    /// Registers one more operation name; its handle is the position it was
    /// registered at. Duplicate names keep resolving to the first handle.
    pub fn register(&mut self, name: String)
        ensures
            final(self)@ == old(self)@.push(name@),
    {
        let ghost before = self@;
        self.names.push(name);
        proof {
            assert(self@ =~= before.push(self.names@[self.names@.len() - 1]@));
        }
    }

    /// How many names are registered.
    pub fn len(&self) -> (n: usize)
        ensures
            n == self@.len(),
    {
        self.names.len()
    }

    /// Resolves an operation name to its handle: the position of the first
    /// registered name equal to it, or `None` when the name is absent.
    pub fn lookup(&self, name: &String) -> (r: Option<usize>)
        ensures
            match (r, lookup_spec(self@, name@)) {
                (Some(h), Some(s)) => h == s,
                (None, None) => true,
                _ => false,
            },
    {
        let n: usize = self.names.len();
        for i in 0..n
            invariant
                n == self@.len(),
                lookup_spec(self@, name@) == lookup_from(self@, name@, i as int),
        {
            if self.names[i] == *name {
                return Some(i);
            }
        }
        None
    }
}

} // verus!
