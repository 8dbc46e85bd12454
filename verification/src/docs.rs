//! Endpoint descriptors: the documentation entry collected for every route
//! during composition. Ordering of the collected entries is significant and
//! fixed at build time.

use vstd::prelude::*;

verus! {

/// HTTP method of an exposed endpoint.
#[derive(Clone, Copy, PartialEq, Eq, Structural, Debug)]
pub enum HttpMethod {
    Get,
    Post,
}

/// Mathematical value of a [`RouteDoc`]: method, path and description with
/// the strings taken as character sequences.
pub struct DocEntry {
    pub method: HttpMethod,
    pub path: Seq<char>,
    pub description: Seq<char>,
}

/// Descriptor of one exposed endpoint: method, path and a human-readable
/// description. Read-only after composition.
#[derive(PartialEq, Eq, Debug)]
pub struct RouteDoc {
    pub method: HttpMethod,
    pub path: String,
    pub description: String,
}

impl Clone for RouteDoc {
    /// An equal descriptor.
    fn clone(&self) -> (r: RouteDoc)
        ensures
            r@ == self@,
    {
        RouteDoc {
            method: self.method,
            path: self.path.clone(),
            description: self.description.clone(),
        }
    }
}

impl View for RouteDoc {
    type V = DocEntry;

    open spec fn view(&self) -> DocEntry {
        DocEntry { method: self.method, path: self.path@, description: self.description@ }
    }
}

impl RouteDoc {
    /// Builds a descriptor from its three parts.
    pub fn new(method: HttpMethod, path: String, description: String) -> (r: RouteDoc)
        ensures
            r@ == (DocEntry { method, path: path@, description: description@ }),
    {
        RouteDoc { method, path, description }
    }
}

/// Duplicates a documentation list, entry for entry.
pub fn clone_docs(docs: &Vec<RouteDoc>) -> (r: Vec<RouteDoc>)
    ensures
        r@.map_values(|d: RouteDoc| d@) == docs@.map_values(|d: RouteDoc| d@),
{
    let mut out: Vec<RouteDoc> = Vec::new();
    let mut i: usize = 0;
    while i < docs.len()
        invariant
            i <= docs@.len(),
            out@.len() == i,
            forall|j: int| 0 <= j < i ==> #[trigger] out@[j]@ == docs@[j]@,
        decreases docs@.len() - i,
    {
        out.push(docs[i].clone());
        i = i + 1;
    }
    proof {
        assert(out@.map_values(|d: RouteDoc| d@) =~= docs@.map_values(|d: RouteDoc| d@));
    }
    out
}

} // verus!
