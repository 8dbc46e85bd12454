//! The optional request template carried by the configuration for the
//! chat-completions group. Its contents — default request fields — belong
//! to the request schema, which is out of scope at this layer; the template
//! is stored and handed through unread.

use vstd::prelude::*;

verus! {

/// Template of default request fields for the chat-completions group.
#[derive(Clone, Copy, PartialEq, Eq, Structural, Debug)]
pub struct RequestTemplate {}

impl RequestTemplate {
    /// A request template.
    pub fn new() -> (t: RequestTemplate)
        ensures
            t == (RequestTemplate {  }),
    {
        RequestTemplate {  }
    }
}

} // verus!
