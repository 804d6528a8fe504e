//! Filesystem locations modeled as lists of name components relative to the
//! filesystem root. The surrounding application converts between this form
//! and real platform paths; the pipeline's path arithmetic is all done here.

use vstd::prelude::*;

verus! {

/// A directory or file location: the names along the way from the
/// filesystem root, outermost first. An empty list is the root itself.
#[derive(Debug)]
pub struct DirPath {
    pub components: Vec<String>,
}

impl View for DirPath {
    type V = Seq<Seq<char>>;

    open spec fn view(&self) -> Seq<Seq<char>> {
        self.components@.map_values(|s: String| s@)
    }
}

impl DirPath {
    /// The filesystem root.
    pub fn root() -> (r: DirPath)
        ensures
            r@ =~= Seq::<Seq<char>>::empty(),
    {
        DirPath { components: Vec::new() }
    }

    /// How many components deep this location is.
    pub fn depth(&self) -> (r: usize)
        ensures
            r == self@.len(),
    {
        self.components.len()
    }

    /// Descends into the named entry.
    pub fn push(&mut self, name: String)
        ensures
            final(self)@ =~= old(self)@.push(name@),
    {
        self.components.push(name);
    }

    /// Ascends to the parent. At the root there is no parent and the
    /// location is left unchanged.
    pub fn pop(&mut self) -> (r: bool)
        ensures
            old(self)@.len() > 0 ==> r && final(self)@ =~= old(self)@.drop_last(),
            old(self)@.len() == 0 ==> !r && final(self)@ =~= old(self)@,
    {
        if self.components.len() > 0 {
            let _ = self.components.pop();
            true
        } else {
            false
        }
    }

    /// An independent copy of this location.
    pub fn duplicate(&self) -> (r: DirPath)
        ensures
            r@ =~= self@,
    {
        let mut components: Vec<String> = Vec::new();
        let mut i: usize = 0;
        while i < self.components.len()
            invariant
                i <= self.components@.len(),
                components@.len() == i,
                forall|j: int| 0 <= j < i ==> components@[j]@ == self.components@[j]@,
            decreases self.components@.len() - i,
        {
            components.push(self.components[i].clone());
            i = i + 1;
        }
        let r = DirPath { components };
        proof {
            assert(r@ =~= self@);
        }
        r
    }
}

} // verus!
