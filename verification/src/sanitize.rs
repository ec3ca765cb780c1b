//! Content sanitization: user-supplied text is stripped of unsafe HTML
//! before it is stored or rendered.

use vstd::prelude::*;

verus! {

/// What the HTML sanitizer returns for a given input text.
pub uninterp spec fn clean_of(s: Seq<char>) -> Seq<char>;

/// Relies on `ammonia::clean`: strips disallowed tags, attributes, scripts
/// and comments with ammonia's conservative defaults; the result depends on
/// the input text alone.
#[verifier::external_body]
pub fn clean(content: &str) -> (r: String)
    ensures
        r@ == clean_of(content@),
{
    ammonia::clean(content)
}

} // verus!
