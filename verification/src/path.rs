//! Paths below the launcher's storage root.

use vstd::prelude::*;
use vstd::string::*;

verus! {

/// A path relative to the launcher's storage root, held as its components
/// from the root downwards.
///
/// The library never resolves such a path: where the storage root lies is
/// for the embedding program to know. The view is the sequence of
/// components, each as its characters.
#[derive(Debug, Clone, PartialEq, Eq)]
pub struct StoragePath {
    pub components: Vec<String>,
}

impl View for StoragePath {
    type V = Seq<Seq<char>>;

    open spec fn view(&self) -> Seq<Seq<char>> {
        Seq::new(self.components@.len(), |i: int| self.components@[i]@)
    }
}

impl StoragePath {
    /// The storage root itself.
    pub fn root() -> (path: StoragePath)
        ensures
            path@ == Seq::<Seq<char>>::empty(),
    {
        StoragePath { components: Vec::new() }
    }

    /// This path with one more component below it.
    pub fn join(&self, name: &str) -> (path: StoragePath)
        ensures
            path@ == self@.push(name@),
    {
        let mut components: Vec<String> = Vec::new();
        let mut i: usize = 0;
        while i < self.components.len()
            invariant
                i <= self.components.len(),
                components@.len() == i,
                forall|j: int| 0 <= j < i ==> components@[j]@ == self.components@[j]@,
            decreases self.components.len() - i,
        {
            components.push(self.components[i].clone());
            i += 1;
        }
        components.push(String::from_str(name));
        let path = StoragePath { components };
        assert(path@ =~= self@.push(name@));
        path
    }
}

} // verus!
