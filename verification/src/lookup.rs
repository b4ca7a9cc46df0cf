//! The answer of a lookup.

use crate::rr::RData;
use std::sync::Arc;
use vstd::prelude::*;

verus! {

/// `Arc::clone` on the records of an answer: a second handle to the same
/// records. Claimed: the new handle holds what the given one holds.
#[verifier::external_body]
fn share(rdatas: &Arc<Vec<RData>>) -> (shared: Arc<Vec<RData>>)
    ensures
        shared == *rdatas,
{
    Arc::clone(rdatas)
}

/// The answer of a lookup: the data of the records found, in the order in
/// which the response gave them. It carries no time to live, and its clones
/// share the records.
#[derive(Debug, PartialEq, Eq)]
pub struct Lookup {
    rdatas: Arc<Vec<RData>>,
}

impl View for Lookup {
    type V = Seq<RData>;

    closed spec fn view(&self) -> Seq<RData> {
        self.rdatas@
    }
}

impl Clone for Lookup {
    fn clone(&self) -> (copy: Self)
        ensures
            copy == *self,
    {
        Lookup { rdatas: share(&self.rdatas) }
    }
}

impl Lookup {
    pub fn new(rdatas: Arc<Vec<RData>>) -> (lookup: Self)
        ensures
            lookup@ == rdatas@,
    {
        Lookup { rdatas }
    }

    /// How many records the answer holds.
    pub fn len(&self) -> (n: usize)
        ensures
            n == self@.len(),
    {
        self.rdatas.len()
    }

    pub fn is_empty(&self) -> (empty: bool)
        ensures
            empty == (self@.len() == 0),
    {
        self.rdatas.len() == 0
    }

    /// The data of the record at `index`, if the answer has that many.
    pub fn get(&self, index: usize) -> (rdata: Option<&RData>)
        ensures
            rdata == (if index < self@.len() {
                Some(&self@[index as int])
            } else {
                None::<&RData>
            }),
    {
        if index < self.rdatas.len() {
            Some(&self.rdatas[index])
        } else {
            None
        }
    }

    /// The records of the answer, in order.
    pub fn iter(&self) -> (iter: std::slice::Iter<'_, RData>)
        ensures
            vstd::std_specs::slice::into_iter_elts(iter) == self@,
    {
        broadcast use vstd::std_specs::slice::axiom_spec_slice_iter;

        self.rdatas.iter()
    }
}

} // verus!
