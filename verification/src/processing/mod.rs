//! Scopes and the resolution of variable paths.

pub mod context;
pub mod journal;
pub mod processor;
pub mod var_store;

use crate::text::{join, join_texts, split, split_text, texts};
use vstd::prelude::*;

verus! {

/// A variable path: the names between the dots, in order.
#[derive(Debug, PartialEq, Eq)]
pub struct ValuePath(pub Vec<String>);

impl View for ValuePath {
    type V = Seq<Seq<char>>;

    open spec fn view(&self) -> Seq<Seq<char>> {
        texts(self.0@)
    }
}

impl Clone for ValuePath {
    fn clone(&self) -> (copy: Self)
        ensures
            copy@ == self@,
    {
        let mut names: Vec<String> = Vec::new();
        let mut i: usize = 0;
        while i < self.0.len()
            invariant
                i <= self.0.len(),
                texts(names@) == texts(self.0@).take(i as int),
            decreases self.0.len() - i,
        {
            let name = self.0[i].clone();
            let ghost before = texts(names@);
            names.push(name);
            assert(texts(names@) == before.push(name@));
            assert(before.push(name@) == texts(self.0@).take(i + 1));
            i += 1;
        }
        assert(texts(self.0@).take(self.0.len() as int) == texts(self.0@));
        ValuePath(names)
    }
}

impl ValuePath {
    /// The path that `path` spells: its pieces between the dots.
    pub fn from(path: &String) -> (parsed: Self)
        ensures
            parsed@ == split(path@, '.'),
    {
        ValuePath(split_text(path.as_str(), '.'))
    }

    /// Moves the names of `other` to the end of this path.
    pub fn append(&mut self, other: &mut ValuePath)
        ensures
            final(self)@ == old(self)@ + old(other)@,
            final(other)@ == Seq::<Seq<char>>::empty(),
    {
        self.0.append(&mut other.0);
        assert(texts(self.0@) == texts(old(self).0@) + texts(old(other).0@));
        assert(texts(other.0@) == Seq::<Seq<char>>::empty());
    }

    /// Whether the path has no name.
    pub fn is_empty(&self) -> (empty: bool)
        ensures
            empty == (self@.len() == 0),
    {
        self.0.len() == 0
    }

    /// Removes the first name.
    pub fn drop_first(&mut self)
        requires
            old(self)@.len() > 0,
        ensures
            final(self)@ == old(self)@.drop_first(),
    {
        self.0.remove(0);
        assert(texts(self.0@) == texts(old(self).0@).drop_first());
    }

    /// The path as text: its names with a dot between each two.
    pub fn render(&self) -> (text: String)
        ensures
            text@ == join(self@, seq!['.']),
    {
        proof {
            reveal_strlit(".");
            assert("."@ =~= seq!['.']);
        }
        join_texts(&self.0, ".")
    }

    /// The name at `index`.
    pub fn index(&self, index: usize) -> (name: &String)
        requires
            index < self@.len(),
        ensures
            name@ == self@[index as int],
    {
        &self.0[index]
    }
}

} // verus!
