//! The set of target endpoints, one of which each request picks at random.
use vstd::prelude::*;
use rand::seq::SliceRandom;

verus! {

/// Relies on rand's SliceRandom::choose with the thread-local generator: it
/// returns nothing exactly for an empty slice, and otherwise one of its elements.
#[verifier::external_body]
fn choose_url(urls: &Vec<String>) -> (r: Option<String>)
    ensures
        r is None <==> urls@.len() == 0,
        r is Some ==> urls@.contains(r->Some_0),
{
    urls.choose(&mut rand::thread_rng()).cloned()
}

/// One or more target URLs.
pub struct EndpointSet {
    urls: Vec<String>,
}

impl EndpointSet {
    pub closed spec fn urls_spec(&self) -> Seq<String> {
        self.urls@
    }

    pub open spec fn wf(&self) -> bool {
        self.urls_spec().len() > 0
    }

    /// The set of `urls`; none when the list is empty.
    pub fn new(urls: Vec<String>) -> (r: Option<EndpointSet>)
        ensures
            r is Some <==> urls@.len() > 0,
            r is Some ==> r->Some_0.wf() && r->Some_0.urls_spec() == urls@,
    {
        if urls.len() == 0 {
            None
        } else {
            Some(EndpointSet { urls })
        }
    }

    /// The number of URLs.
    pub fn len(&self) -> (r: usize)
        ensures
            r == self.urls_spec().len(),
    {
        self.urls.len()
    }

    /// A URL of the set, drawn uniformly at random for each call.
    pub fn pick(&self) -> (r: String)
        requires
            self.wf(),
        ensures
            self.urls_spec().contains(r),
    {
        match choose_url(&self.urls) {
            Some(u) => u,
            None => {
                assert(self.urls@.contains(self.urls@[0]));
                self.urls[0].clone()
            },
        }
    }
}

} // verus!
