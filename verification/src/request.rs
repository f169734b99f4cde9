//! What the protocol reads from a request: the Inertia headers, taken as
//! the raw bytes of their values, and the classification of the request
//! that follows from them.
use crate::error::InertiaError;
use crate::req_type::{Component, InertiaRequestType, PartialComponent};
use crate::text::{chars_of, join_with, push_char, string_of_bytes, text_of_bytes, views_of};
use vstd::prelude::*;

verus! {

pub const X_INERTIA: &'static str = "x-inertia";

pub const X_INERTIA_LOCATION: &'static str = "x-inertia-location";

pub const X_INERTIA_VERSION: &'static str = "x-inertia-version";

pub const X_INERTIA_PARTIAL_COMPONENT: &'static str = "x-inertia-partial-component";

pub const X_INERTIA_PARTIAL_DATA: &'static str = "x-inertia-partial-data";

pub const X_INERTIA_PARTIAL_EXCEPT: &'static str = "x-inertia-partial-except";

/// The Inertia headers of a request. Each field holds the bytes of the
/// header's value, or `None` where the request does not carry the header.
#[derive(Debug, Clone, Default, PartialEq, Eq)]
pub struct RequestHeaders {
    /// `x-inertia`
    pub inertia: Option<Vec<u8>>,
    /// `x-inertia-version`
    pub version: Option<Vec<u8>>,
    /// `x-inertia-partial-component`
    pub partial_component: Option<Vec<u8>>,
    /// `x-inertia-partial-data`
    pub partial_data: Option<Vec<u8>>,
    /// `x-inertia-partial-except`
    pub partial_except: Option<Vec<u8>>,
}

/// Whether a byte is a printable ASCII character, a space or a tab.
pub open spec fn is_visible_ascii(b: u8) -> bool {
    (32 <= b && b < 127) || b == 9
}

/// Whether a header value can be read as text: all of its bytes are
/// visible ASCII.
pub open spec fn is_header_text(bytes: Seq<u8>) -> bool {
    forall|i: int| 0 <= i < bytes.len() ==> is_visible_ascii(#[trigger] bytes[i])
}

/// The text of a header value, if the value can be read as text.
pub fn header_text(bytes: &Vec<u8>) -> (text: Option<String>)
    ensures
        match text {
            Some(s) => is_header_text(bytes@) && s@ == text_of_bytes(bytes@),
            None => !is_header_text(bytes@),
        },
{
    let mut i: usize = 0;
    while i < bytes.len()
        invariant
            i <= bytes.len(),
            forall|j: int| 0 <= j < i ==> is_visible_ascii(#[trigger] bytes@[j]),
        decreases bytes.len() - i,
    {
        let b = bytes[i];
        if !((32 <= b && b < 127) || b == 9) {
            return None;
        }
        i += 1;
    }
    Some(string_of_bytes(bytes.as_slice()))
}

/// The pieces of `text` between the occurrences of `sep`. A text without
/// `sep` is one piece; a text with n occurrences has n + 1 pieces, some
/// of which may be empty.
pub open spec fn split_on(text: Seq<char>, sep: char) -> Seq<Seq<char>>
    decreases text.len(),
{
    if text.len() == 0 {
        seq![Seq::empty()]
    } else if text.last() == sep {
        split_on(text.drop_last(), sep).push(Seq::empty())
    } else {
        let init = split_on(text.drop_last(), sep);
        init.drop_last().push(init.last().push(text.last()))
    }
}

/// Whether a character is a space or a tab, the only blanks that a header
/// value can hold.
pub open spec fn is_blank(c: char) -> bool {
    c == ' ' || c == '\t'
}

/// `text` without its leading blanks.
pub open spec fn trim_start(text: Seq<char>) -> Seq<char>
    decreases text.len(),
{
    if text.len() > 0 && is_blank(text[0]) {
        trim_start(text.skip(1))
    } else {
        text
    }
}

/// `text` without its trailing blanks.
pub open spec fn trim_end(text: Seq<char>) -> Seq<char>
    decreases text.len(),
{
    if text.len() > 0 && is_blank(text.last()) {
        trim_end(text.drop_last())
    } else {
        text
    }
}

/// `text` without leading and trailing blanks.
pub open spec fn trim(text: Seq<char>) -> Seq<char> {
    trim_end(trim_start(text))
}

/// The names that a comma-separated list holds: its pieces, each trimmed,
/// without the pieces that are empty after trimming.
pub open spec fn names_in(text: Seq<char>) -> Seq<Seq<char>> {
    split_on(text, ',').map_values(|piece: Seq<char>| trim(piece)).filter(
        |name: Seq<char>| name.len() > 0,
    )
}

/// Splitting loses nothing and cuts at every separator: there is at
/// least one piece, the pieces joined by the separator give the text back,
/// and no piece holds the separator.
pub proof fn lemma_split_on(text: Seq<char>, sep: char)
    ensures
        split_on(text, sep).len() >= 1,
        join_with(split_on(text, sep), seq![sep]) == text,
        forall|i: int|
            0 <= i < split_on(text, sep).len() ==> !(#[trigger] split_on(text, sep)[i]).contains(
                sep,
            ),
    decreases text.len(),
{
    let pieces = split_on(text, sep);
    if text.len() == 0 {
        assert(join_with(pieces, seq![sep]) == text);
    } else {
        let init = split_on(text.drop_last(), sep);
        lemma_split_on(text.drop_last(), sep);
        assert(text == text.drop_last().push(text.last()));
        if text.last() == sep {
            assert(pieces.drop_last() == init);
            assert(join_with(pieces, seq![sep]) == join_with(init, seq![sep]) + seq![sep]
                + Seq::<char>::empty());
            assert(join_with(pieces, seq![sep]) == text);
        } else {
            let grown = init.last().push(text.last());
            assert(pieces.last() == grown);
            assert(pieces.drop_last() == init.drop_last());
            if init.len() == 1 {
                assert(join_with(pieces, seq![sep]) == grown);
                assert(join_with(init, seq![sep]) == init.last());
            } else {
                assert(join_with(pieces, seq![sep]) == join_with(init.drop_last(), seq![sep])
                    + seq![sep] + grown);
                assert(join_with(init.drop_last(), seq![sep]) + seq![sep] + grown == (join_with(
                    init.drop_last(),
                    seq![sep],
                ) + seq![sep] + init.last()).push(text.last()));
            }
            assert(join_with(pieces, seq![sep]) == text);
            assert forall|i: int| 0 <= i < pieces.len() implies !(#[trigger] pieces[i]).contains(
                sep,
            ) by {
                if i < pieces.len() - 1 {
                    assert(pieces[i] == init[i]);
                } else {
                    if grown.contains(sep) {
                        let k = choose|k: int| 0 <= k < grown.len() && grown[k] == sep;
                        assert(init.last()[k] == sep);
                        assert(init[init.len() - 1].contains(sep));
                    }
                }
            }
        }
    }
}

/// What is left of a text after its leading blanks are taken is a tail
/// of the text that does not begin with a blank.
proof fn lemma_trim_start(text: Seq<char>)
    ensures
        exists|from: int| 0 <= from <= text.len() && #[trigger] text.skip(from) == trim_start(text),
        trim_start(text).len() > 0 ==> !is_blank(trim_start(text)[0]),
    decreases text.len(),
{
    if text.len() > 0 && is_blank(text[0]) {
        lemma_trim_start(text.skip(1));
        let from = choose|from: int|
            0 <= from <= text.skip(1).len() && #[trigger] text.skip(1).skip(from) == trim_start(
                text.skip(1),
            );
        assert(text.skip(1).skip(from) == text.skip(from + 1));
    } else {
        assert(text.skip(0) == text);
    }
}

/// What is left of a text after its trailing blanks are taken is a head
/// of the text that does not end with a blank.
proof fn lemma_trim_end(text: Seq<char>)
    ensures
        exists|to: int| 0 <= to <= text.len() && #[trigger] text.take(to) == trim_end(text),
        trim_end(text).len() > 0 ==> !is_blank(trim_end(text).last()),
        text.len() > 0 && !is_blank(text[0]) ==> trim_end(text).len() > 0,
    decreases text.len(),
{
    if text.len() > 0 && is_blank(text.last()) {
        lemma_trim_end(text.drop_last());
        let to = choose|to: int|
            0 <= to <= text.drop_last().len() && #[trigger] text.drop_last().take(to) == trim_end(
                text.drop_last(),
            );
        assert(text.drop_last().take(to) == text.take(to));
        if !is_blank(text[0]) {
            assert(text.drop_last()[0] == text[0]);
        }
    } else {
        assert(text.take(text.len() as int) == text);
    }
}

/// A trimmed text is a stretch of the text it was trimmed from, and it
/// neither begins nor ends with a blank.
pub proof fn lemma_trim(text: Seq<char>)
    ensures
        exists|from: int, to: int|
            0 <= from <= to <= text.len() && #[trigger] text.subrange(from, to) == trim(text),
        trim(text).len() > 0 ==> !is_blank(trim(text)[0]) && !is_blank(trim(text).last()),
{
    lemma_trim_start(text);
    lemma_trim_end(trim_start(text));
    let from = choose|from: int|
        0 <= from <= text.len() && #[trigger] text.skip(from) == trim_start(text);
    let rest = trim_start(text);
    let to = choose|to: int| 0 <= to <= rest.len() && #[trigger] rest.take(to) == trim_end(rest);
    assert(text.subrange(from, from + to) == rest.take(to));
    if trim(text).len() > 0 {
        assert(trim(text)[0] == rest[0]);
    }
}

/// Every name of a list is what trimming makes of one of the pieces of
/// the list, and is not empty.
pub proof fn lemma_names_in(text: Seq<char>, i: int)
    requires
        0 <= i < names_in(text).len(),
    ensures
        names_in(text)[i].len() > 0,
        exists|j: int|
            0 <= j < split_on(text, ',').len() && names_in(text)[i] == trim(
                #[trigger] split_on(text, ',')[j],
            ),
{
    let trimmed = split_on(text, ',').map_values(|piece: Seq<char>| trim(piece));
    let named = |name: Seq<char>| name.len() > 0;
    trimmed.lemma_filter_pred(named, i);
    assert(trimmed.filter(named).contains(names_in(text)[i]));
    trimmed.lemma_filter_contains_rev(named, names_in(text)[i]);
    let j = choose|j: int| 0 <= j < trimmed.len() && trimmed[j] == names_in(text)[i];
    assert(trimmed[j] == trim(split_on(text, ',')[j]));
}

/// The names that the pieces hold.
spec fn names_of(pieces: Seq<Seq<char>>) -> Seq<Seq<char>> {
    pieces.map_values(|piece: Seq<char>| trim(piece)).filter(|name: Seq<char>| name.len() > 0)
}

/// Adding a piece adds its name, if it has one.
proof fn lemma_names_of_push(pieces: Seq<Seq<char>>, piece: Seq<char>)
    ensures
        names_of(pieces.push(piece)) == (if trim(piece).len() > 0 {
            names_of(pieces).push(trim(piece))
        } else {
            names_of(pieces)
        }),
{
    reveal(Seq::filter);
    let mapped = pieces.push(piece).map_values(|piece: Seq<char>| trim(piece));
    assert(mapped.drop_last() == pieces.map_values(|piece: Seq<char>| trim(piece)));
    assert(mapped.last() == trim(piece));
}

/// `piece` without leading and trailing blanks, as a string.
fn trimmed(piece: &Vec<char>) -> (name: String)
    ensures
        name@ == trim(piece@),
{
    let mut start: usize = 0;
    assert(piece@.skip(0) == piece@);
    while start < piece.len() && (piece[start] == ' ' || piece[start] == '\t')
        invariant
            start <= piece.len(),
            trim_start(piece@) == trim_start(piece@.skip(start as int)),
        decreases piece.len() - start,
    {
        assert(piece@.skip(start as int).skip(1) == piece@.skip(start + 1));
        start += 1;
    }
    let ghost rest = piece@.skip(start as int);
    assert(trim_start(piece@) == rest);
    let mut end: usize = piece.len();
    assert(rest.take(rest.len() as int) == rest);
    while end > start && (piece[end - 1] == ' ' || piece[end - 1] == '\t')
        invariant
            start <= end <= piece.len(),
            rest == piece@.skip(start as int),
            trim_end(rest) == trim_end(rest.take(end - start)),
        decreases end,
    {
        assert(rest.take(end - start).drop_last() == rest.take(end - start - 1));
        end -= 1;
    }
    assert(trim_end(rest) == rest.take(end - start)) by {
        if end > start {
            assert(rest.take(end - start).last() == piece@[end - 1]);
        }
    }
    let mut name = String::new();
    let mut i: usize = start;
    while i < end
        invariant
            start <= i <= end <= piece.len(),
            rest == piece@.skip(start as int),
            name@ == rest.take(i - start),
        decreases end - i,
    {
        push_char(&mut name, piece[i]);
        assert(rest.take(i + 1 - start) == rest.take(i - start).push(piece@[i as int]));
        i += 1;
    }
    name
}

/// The names of a comma-separated list.
pub fn parse_names(list: &str) -> (names: Vec<String>)
    ensures
        views_of(names@) == names_in(list@),
{
    let text = chars_of(list);
    let mut names: Vec<String> = Vec::new();
    let mut piece: Vec<char> = Vec::new();
    let ghost mut done: Seq<Seq<char>> = Seq::empty();
    let mut i: usize = 0;
    assert(text@.take(0) == Seq::<char>::empty());
    assert(seq![Seq::<char>::empty()] == done.push(piece@));
    assert(views_of(names@) == names_of(done)) by {
        reveal(Seq::filter);
    }
    while i < text.len()
        invariant
            i <= text.len(),
            split_on(text@.take(i as int), ',') == done.push(piece@),
            views_of(names@) == names_of(done),
        decreases text.len() - i,
    {
        let c = text[i];
        proof {
            let prefix = text@.take(i + 1);
            assert(prefix.drop_last() == text@.take(i as int));
            assert(prefix.last() == c);
            assert(done.push(piece@).drop_last() == done);
        }
        if c == ',' {
            let name = trimmed(&piece);
            proof {
                lemma_names_of_push(done, piece@);
                done = done.push(piece@);
            }
            if name.as_str().unicode_len() > 0 {
                let ghost before = names@;
                names.push(name);
                assert(views_of(names@) == views_of(before).push(name@));
            }
            piece = Vec::new();
        } else {
            piece.push(c);
        }
        i += 1;
    }
    assert(text@.take(text.len() as int) == text@);
    let name = trimmed(&piece);
    proof {
        lemma_names_of_push(done, piece@);
    }
    if name.as_str().unicode_len() > 0 {
        let ghost before = names@;
        names.push(name);
        assert(views_of(names@) == views_of(before).push(name@));
    }
    names
}

/// The message that reports a header whose value is not text.
pub open spec fn malformed_header_message(header_name: Seq<char>) -> Seq<char> {
    "Header "@ + header_name + "'s value must contain only printable ASCII characters."@
}

/// The failure that reports a header whose value is not text.
fn malformed_header(header_name: &str) -> (err: InertiaError)
    ensures
        err matches InertiaError::HeaderError(message) && message@ == malformed_header_message(
            header_name@,
        ),
{
    let mut message = String::from_str("Header ");
    message.append(header_name);
    message.append("'s value must contain only printable ASCII characters.");
    InertiaError::HeaderError(message)
}

/// Whether a header is absent or holds text.
pub open spec fn is_absent_or_text(value: Option<Vec<u8>>) -> bool {
    value matches Some(bytes) ==> is_header_text(bytes@)
}

/// The names that a list header holds; none where the header is absent.
pub open spec fn listed_names(value: Option<Vec<u8>>) -> Seq<Seq<char>> {
    match value {
        Some(bytes) => names_in(text_of_bytes(bytes@)),
        None => Seq::empty(),
    }
}

/// Reads the names of a list header, `header_name`, from its value. An
/// absent header lists nothing; a value that is not text is an error.
pub fn extract_partials_headers_content(value: &Option<Vec<u8>>, header_name: &str) -> (names:
    Result<Vec<String>, InertiaError>)
    ensures
        match names {
            Ok(list) => is_absent_or_text(*value) && views_of(list@) == listed_names(*value),
            Err(err) => {
                &&& !is_absent_or_text(*value)
                &&& err matches InertiaError::HeaderError(message)
                &&& message@ == malformed_header_message(header_name@)
            },
        },
{
    match value {
        None => {
            let list: Vec<String> = Vec::new();
            assert(views_of(list@) == Seq::<Seq<char>>::empty());
            Ok(list)
        },
        Some(bytes) => match header_text(bytes) {
            Some(text) => Ok(parse_names(text.as_str())),
            None => Err(malformed_header(header_name)),
        },
    }
}

impl RequestHeaders {
    /// Whether the request comes from a client that is already hydrated:
    /// it carries `x-inertia` with a value that is not empty.
    pub open spec fn hydrated(&self) -> bool {
        self.inertia matches Some(value) && value@.len() > 0
    }

    /// Whether the assets of the client are those of the server: the
    /// request reports no version, or it reports `current` as text.
    pub open spec fn version_is(&self, current: Seq<char>) -> bool {
        match self.version {
            None => true,
            Some(bytes) => is_header_text(bytes@) && text_of_bytes(bytes@) == current,
        }
    }

    /// The header that makes classification fail: the first of the
    /// partial-reload headers, in the order component, data, except,
    /// whose value is not text. A request without the component header is
    /// never malformed.
    pub open spec fn malformed_header(&self) -> Option<Seq<char>> {
        if self.partial_component is None {
            None
        } else if !is_absent_or_text(self.partial_component) {
            Some(X_INERTIA_PARTIAL_COMPONENT@)
        } else if !is_absent_or_text(self.partial_data) {
            Some(X_INERTIA_PARTIAL_DATA@)
        } else if !is_absent_or_text(self.partial_except) {
            Some(X_INERTIA_PARTIAL_EXCEPT@)
        } else {
            None
        }
    }

    /// Whether `req_type` is the kind of the request.
    pub open spec fn classified_as(&self, req_type: InertiaRequestType) -> bool {
        match self.partial_component {
            None => req_type is Standard,
            Some(component) => {
                &&& req_type matches InertiaRequestType::Partial(partial)
                &&& partial.component.0@ == text_of_bytes(component@)
                &&& views_of(partial.only@) == listed_names(self.partial_data)
                &&& views_of(partial.except@) == listed_names(self.partial_except)
            },
        }
    }

    pub fn is_inertia_request(&self) -> (hydrated: bool)
        ensures
            hydrated == self.hydrated(),
    {
        match &self.inertia {
            None => false,
            Some(v) => v.len() > 0,
        }
    }

    /// Classifies the request: a standard visit where the component header
    /// is absent, else a partial reload with the names that the data and
    /// except headers list. Fails where one of these headers is not text.
    pub fn get_request_type(&self) -> (req_type: Result<InertiaRequestType, InertiaError>)
        ensures
            match req_type {
                Ok(kind) => self.malformed_header() is None && self.classified_as(kind),
                Err(err) => {
                    &&& self.malformed_header() matches Some(name)
                    &&& err matches InertiaError::HeaderError(message)
                    &&& message@ == malformed_header_message(name)
                },
            },
    {
        let component = match &self.partial_component {
            None => {
                return Ok(InertiaRequestType::Standard);
            },
            Some(bytes) => match header_text(bytes) {
                None => {
                    return Err(malformed_header(X_INERTIA_PARTIAL_COMPONENT));
                },
                Some(text) => Component(text),
            },
        };
        let only = match extract_partials_headers_content(
            &self.partial_data,
            X_INERTIA_PARTIAL_DATA,
        ) {
            Ok(names) => names,
            Err(err) => {
                return Err(err);
            },
        };
        let except = match extract_partials_headers_content(
            &self.partial_except,
            X_INERTIA_PARTIAL_EXCEPT,
        ) {
            Ok(names) => names,
            Err(err) => {
                return Err(err);
            },
        };
        Ok(InertiaRequestType::Partial(PartialComponent { component, only, except }))
    }

    /// Checks whether the version of the client's assets is the server's.
    /// A request that reports no version passes; one whose version is not
    /// text does not.
    pub fn check_inertia_version(&self, current_version: &str) -> (fresh: bool)
        ensures
            fresh == self.version_is(current_version@),
    {
        match &self.version {
            None => true,
            Some(bytes) => match header_text(bytes) {
                Some(version) => version == String::from_str(current_version),
                None => false,
            },
        }
    }
}

} // verus!
