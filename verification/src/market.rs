//! The market identifier: an immutable symbol naming one tradable
//! instrument pair, derived deterministically from the pair's asset names.

use vstd::prelude::*;
use vstd::string::StringExecFns;

verus! {

/// A venue market symbol.
#[derive(Clone, Debug, PartialEq, Eq, Hash)]
pub struct MexcMarket(pub String);

/// The Unicode uppercase mapping of a character sequence, as
/// `str::to_uppercase` computes it.
pub uninterp spec fn upper_of(s: Seq<char>) -> Seq<char>;

/// Relies on `str::to_uppercase`: the Unicode-uppercase equivalent of the
/// input, a locale-independent function of the characters alone.
#[verifier::external_body]
fn to_uppercase(s: &str) -> (r: String)
    ensures
        r@ == upper_of(s@),
{
    s.to_uppercase()
}

impl MexcMarket {
    /// The market symbol as a string slice.
    pub fn as_ref(&self) -> (s: &str)
        ensures
            s@ == self.0@,
    {
        self.0.as_str()
    }
}

/// Derives the venue market symbol for an instrument pair:
/// `uppercase(base ++ quote)` with no separator. The symbol is a pure,
/// case-normalizing function of the two asset names alone.
pub fn mexc_market(base: &str, quote: &str) -> (m: MexcMarket)
    ensures
        m.0@ == upper_of(base@ + quote@),
{
    let mut joined = String::from_str(base);
    joined.append(quote);
    MexcMarket(to_uppercase(joined.as_str()))
}

} // verus!
