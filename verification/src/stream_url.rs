//! Stream addresses, as the URL parser normalises them.
use vstd::prelude::*;

verus! {

/// What `url::Url::parse` makes of a text: the serialization of the parsed
/// URL, or `None` where the parser refuses the text.
pub uninterp spec fn parsed_url(text: Seq<char>) -> Option<Seq<char>>;

/// A text that the URL parser reads back as itself: the serialization of a
/// parsed URL.
pub open spec fn reads_back(text: Seq<char>) -> bool {
    parsed_url(text) == Some(text)
}

/// Calls `url::Url::parse` and keeps the serialization of the result.
/// Claims that the outcome depends on the text alone, and that the
/// serialization of a parsed URL parses to the same serialization, which
/// `Url::check_invariants` in the url crate's source asserts of every `Url`
/// ("Failed to parse myself?"). What the parser accepts and how it
/// normalises is left to the `url` crate.
#[verifier::external_body]
fn parse_url(text: &str) -> (r: Option<String>)
    ensures
        r.deep_view() == parsed_url(text@),
        r matches Some(t) ==> reads_back(t@),
{
    match url::Url::parse(text) {
        Ok(u) => Some(String::from(u)),
        Err(_) => None,
    }
}

/// A stream address that the URL parser accepted, held as its serialization.
#[derive(Debug, PartialEq, Eq)]
pub struct StreamUrl {
    text: String,
}

impl View for StreamUrl {
    type V = Seq<char>;

    closed spec fn view(&self) -> Seq<char> {
        self.text@
    }
}

impl StreamUrl {
    #[verifier::type_invariant]
    spec fn is_serialization(self) -> bool {
        reads_back(self.text@)
    }

    /// Parses `text` as a URL; `None` exactly where the URL parser refuses it.
    pub fn parse(text: &str) -> (r: Option<StreamUrl>)
        ensures
            r is Some <==> parsed_url(text@) is Some,
            r matches Some(u) ==> Some(u@) == parsed_url(text@) && reads_back(u@),
    {
        match parse_url(text) {
            Some(t) => Some(StreamUrl { text: t }),
            None => None,
        }
    }

    /// The address as text.
    pub fn as_str(&self) -> (r: &str)
        ensures
            r@ == self@,
            reads_back(self@),
    {
        proof {
            use_type_invariant(self);
        }
        self.text.as_str()
    }

    /// A second value holding the same address.
    pub fn duplicate(&self) -> (r: StreamUrl)
        ensures
            r == *self,
    {
        proof {
            use_type_invariant(self);
        }
        StreamUrl { text: self.text.clone() }
    }
}

} // verus!
