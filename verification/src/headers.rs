//! The headers that the library writes.
use crate::request::{X_INERTIA, X_INERTIA_LOCATION, X_INERTIA_PARTIAL_DATA, X_INERTIA_VERSION};
use crate::text::{chars_of, join_with};
use vstd::prelude::*;

verus! {

/// A header of the protocol, with what it carries.
pub enum InertiaHeader<'a> {
    /// Marks a response, or a request, as one of the protocol.
    Inertia,
    /// Tells the client to load the given url afresh.
    InertiaLocation(&'a str),
    /// Lists the properties that a partial reload asks for.
    InertiaPartialData(Vec<&'a str>),
    /// The version of the assets.
    Version(&'a str),
}

/// The texts of a list of string slices.
pub open spec fn slice_views(parts: Seq<&str>) -> Seq<Seq<char>> {
    parts.map_values(|s: &str| s@)
}

/// Whether a character may stand in the value of a header: it is a tab,
/// or it is no control character.
pub open spec fn is_value_char(c: char) -> bool {
    (c as u32 >= 32 && c as u32 != 127) || c as u32 == 9
}

/// Whether a text may stand as the value of a header.
pub open spec fn is_header_value(text: Seq<char>) -> bool {
    forall|i: int| 0 <= i < text.len() ==> is_value_char(#[trigger] text[i])
}

/// Whether a text may stand as the value of a header.
pub fn is_valid_header_value(text: &str) -> (valid: bool)
    ensures
        valid == is_header_value(text@),
{
    let chars = chars_of(text);
    let mut i: usize = 0;
    while i < chars.len()
        invariant
            i <= chars.len(),
            chars@ == text@,
            forall|j: int| 0 <= j < i ==> is_value_char(#[trigger] chars@[j]),
        decreases chars.len() - i,
    {
        let c = chars[i] as u32;
        if !((c >= 32 && c != 127) || c == 9) {
            return false;
        }
        i += 1;
    }
    true
}

impl<'a> InertiaHeader<'a> {
    /// The name of the header, in lower case.
    pub open spec fn name(&self) -> Seq<char> {
        match self {
            InertiaHeader::Inertia => X_INERTIA@,
            InertiaHeader::Version(_) => X_INERTIA_VERSION@,
            InertiaHeader::InertiaLocation(_) => X_INERTIA_LOCATION@,
            InertiaHeader::InertiaPartialData(_) => X_INERTIA_PARTIAL_DATA@,
        }
    }

    /// The value of the header.
    pub open spec fn value(&self) -> Seq<char> {
        match self {
            InertiaHeader::Inertia => "true"@,
            InertiaHeader::Version(version) => version@,
            InertiaHeader::InertiaLocation(path) => path@,
            InertiaHeader::InertiaPartialData(partials) => join_with(slice_views(partials@), ","@),
        }
    }

    /// The header as a pair of name and value. The names of a partial
    /// reload are joined by commas.
    pub fn convert(&self) -> (header: (&'static str, String))
        ensures
            header.0@ == self.name(),
            header.1@ == self.value(),
    {
        match self {
            Self::Inertia => (X_INERTIA, String::from_str("true")),
            Self::Version(version) => (X_INERTIA_VERSION, String::from_str(version)),
            Self::InertiaLocation(path) => (X_INERTIA_LOCATION, String::from_str(path)),
            Self::InertiaPartialData(partials) => {
                let mut str_partials = String::new();
                let mut i: usize = 0;
                while i < partials.len()
                    invariant
                        i <= partials.len(),
                        str_partials@ == join_with(slice_views(partials@).take(i as int), ","@),
                    decreases partials.len() - i,
                {
                    if i > 0 {
                        str_partials.append(",");
                    }
                    str_partials.append(partials[i]);
                    proof {
                        let all = slice_views(partials@);
                        assert(all.take(i + 1).drop_last() == all.take(i as int));
                        assert(all.take(i + 1).last() == partials@[i as int]@);
                        if i == 0 {
                            assert(str_partials@ == partials@[0]@);
                        }
                    }
                    i += 1;
                }
                assert(slice_views(partials@).take(partials.len() as int) == slice_views(
                    partials@,
                ));
                (X_INERTIA_PARTIAL_DATA, str_partials)
            },
        }
    }
}

} // verus!
