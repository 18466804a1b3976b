use vstd::prelude::*;

verus! {

/// A relationship-kind or tag filter for resolving links: either match
/// exactly one name or match any. The loader hands filters through to the
/// link index unmodified; `allows` is the meaning the index applies.
#[derive(Clone, Debug)]
pub enum LinkMatch {
    Exactly(Vec<u8>),
    Any,
}

/// Which names a filter admits.
pub open spec fn filter_allows(f: &LinkMatch, name: Seq<u8>) -> bool {
    match f {
        LinkMatch::Exactly(want) => want@ == name,
        LinkMatch::Any => true,
    }
}

/// Compare two byte strings for equality.
fn bytes_eq(a: &Vec<u8>, b: &Vec<u8>) -> (r: bool)
    ensures
        r == (a@ == b@),
{
    if a.len() != b.len() {
        return false;
    }
    let mut i: usize = 0;
    while i < a.len()
        invariant
            i <= a.len(),
            a@.len() == b@.len(),
            forall|j: int| 0 <= j < i ==> a@[j] == b@[j],
        decreases a.len() - i,
    {
        if a[i] != b[i] {
            return false;
        }
        i = i + 1;
    }
    proof {
        assert(a@ =~= b@);
    }
    true
}

impl LinkMatch {
    /// Does this filter admit the given name?
    pub fn allows(&self, name: &Vec<u8>) -> (r: bool)
        ensures
            r == filter_allows(self, name@),
    {
        match self {
            LinkMatch::Exactly(want) => bytes_eq(want, name),
            LinkMatch::Any => true,
        }
    }
}

} // verus!
