//! Resource paths: a normalized segment list plus the trailing-separator
//! flag that distinguishes a collection from a non-collection resource.

use vstd::prelude::*;

verus! {

/// The mathematical value of a [`ResourcePath`]: the segment names and
/// the collection (trailing-separator) flag.
pub struct PathModel {
    pub segments: Seq<Seq<char>>,
    pub collection: bool,
}

/// An absolute, normalized path identifying a resource or collection.
/// `collection` is the trailing-separator flag; it is resolved from
/// actual metadata before any delete decision is made.
pub struct ResourcePath {
    pub segments: Vec<String>,
    pub collection: bool,
}

impl View for ResourcePath {
    type V = PathModel;

    open spec fn view(&self) -> PathModel {
        PathModel {
            segments: self.segments@.map_values(|s: String| s@),
            collection: self.collection,
        }
    }
}

/// `p` lies at or below `anc`: `anc`'s segments are a prefix of `p`'s.
pub open spec fn at_or_below(p: Seq<Seq<char>>, anc: Seq<Seq<char>>) -> bool {
    anc.len() <= p.len() && forall|i: int| 0 <= i < anc.len() ==> p[i] == anc[i]
}

/// `p` is a strict descendant of `anc`.
pub open spec fn strictly_below(p: Seq<Seq<char>>, anc: Seq<Seq<char>>) -> bool {
    at_or_below(p, anc) && anc.len() < p.len()
}

impl ResourcePath {
    /// The root of the request, before its collection flag is resolved.
    pub fn new(segments: Vec<String>) -> (p: ResourcePath)
        ensures
            p@.segments == segments@.map_values(|s: String| s@),
            p@.collection == false,
    {
        ResourcePath { segments, collection: false }
    }

    /// Appends one segment; the new path has no trailing separator until
    /// its metadata is resolved.
    pub fn push_segment(&mut self, name: &String)
        ensures
            final(self)@.segments == old(self)@.segments.push(name@),
            final(self)@.collection == false,
    {
        self.segments.push(name.clone());
        self.collection = false;
        proof {
            assert(self@.segments =~= old(self)@.segments.push(name@));
        }
    }

    /// Sets the trailing-separator flag when the resource is a collection.
    pub fn add_slash_if(&mut self, is_collection: bool)
        ensures
            final(self)@.segments == old(self)@.segments,
            final(self)@.collection == (old(self)@.collection || is_collection),
    {
        if is_collection {
            self.collection = true;
        }
    }

    /// The path of a directory entry: this path extended by `name`, marked
    /// as a collection iff the entry is one.
    pub fn child(&self, name: &String, is_collection: bool) -> (c: ResourcePath)
        ensures
            c@.segments == self@.segments.push(name@),
            c@.collection == is_collection,
    {
        let mut c = self.clone();
        c.push_segment(name);
        c.add_slash_if(is_collection);
        c
    }

    /// Structural equality of paths, segments and collection flag alike.
    pub fn path_eq(&self, other: &ResourcePath) -> (r: bool)
        ensures
            r == (self@ == other@),
    {
        if self.collection != other.collection {
            proof {
                assert(self@ != other@);
            }
            return false;
        }
        if self.segments.len() != other.segments.len() {
            proof {
                assert(self@.segments.len() != other@.segments.len());
            }
            return false;
        }
        let n = self.segments.len();
        let mut i: usize = 0;
        while i < n
            invariant
                n == self.segments.len(),
                n == other.segments.len(),
                0 <= i <= n,
                self.collection == other.collection,
                forall|j: int| 0 <= j < i ==> self@.segments[j] == other@.segments[j],
            decreases n - i,
        {
            if !(self.segments[i] == other.segments[i]) {
                proof {
                    assert(self@.segments[i as int] != other@.segments[i as int]);
                }
                return false;
            }
            i += 1;
        }
        proof {
            assert(self@.segments =~= other@.segments);
        }
        true
    }
}

impl Clone for ResourcePath {
    /// A clone has the same mathematical value.
    fn clone(&self) -> (c: Self)
        ensures
            c@ == self@,
    {
        let mut segs: Vec<String> = Vec::new();
        let mut i: usize = 0;
        while i < self.segments.len()
            invariant
                0 <= i <= self.segments.len(),
                segs@.len() == i,
                forall|j: int| 0 <= j < i ==> segs@[j]@ == self.segments@[j]@,
            decreases self.segments.len() - i,
        {
            segs.push(self.segments[i].clone());
            i += 1;
        }
        let c = ResourcePath { segments: segs, collection: self.collection };
        proof {
            assert(c@.segments =~~= self@.segments);
        }
        c
    }
}

} // verus!
