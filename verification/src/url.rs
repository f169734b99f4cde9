//! The address of the renderer, parsed by the `url` crate that `reqwest`
//! hands on. The library keeps a parsed address as plain values: its
//! normal form and its port.
use vstd::prelude::*;
use vstd::utf8::encode_utf8;

verus! {

/// What `Url::parse` makes of a text: the normal form of the address, or
/// the message of the parse error.
pub uninterp spec fn parsed_url(input: Seq<char>) -> Result<Seq<char>, Seq<char>>;

/// The port that `Url::port` gives for the address that `Url::parse`
/// makes of a text.
pub uninterp spec fn parsed_url_port(input: Seq<char>) -> Option<u16>;

/// What `Url::set_path` makes of the address parsed from `href`: the
/// normal form of the address with its path replaced by `path`, or `None`
/// where `href` is no address.
pub uninterp spec fn url_with_path(href: Seq<char>, path: Seq<char>) -> Option<Seq<char>>;

/// The longest address, in bytes, whose path this library replaces.
pub const MAX_HREF_BYTES: usize = 0x0fff_ffff;

/// An address as the `url` crate parsed it.
#[derive(Debug, Clone, PartialEq, Eq)]
pub struct ServerUrl {
    href: String,
    port: Option<u16>,
}

/// `reqwest::Url::parse`, with the parsed address taken apart by
/// `Url::as_str` and `Url::port`, and a parse error rendered as its message.
#[verifier::external_body]
fn parse_url(input: &str) -> (parsed: Result<ServerUrl, String>)
    ensures
        match parsed {
            Ok(url) => parsed_url(input@) == Ok::<Seq<char>, Seq<char>>(url.href@) && url.port
                == parsed_url_port(input@),
            Err(message) => parsed_url(input@) == Err::<Seq<char>, Seq<char>>(message@),
        },
{
    match reqwest::Url::parse(input) {
        Ok(url) => Ok(ServerUrl { href: url.as_str().to_string(), port: url.port() }),
        Err(err) => Err(err.to_string()),
    }
}

/// `reqwest::Url::set_path` on the address parsed from `href`. The `url`
/// crate keeps positions in 32 bits and gives up on an address that does
/// not fit, so the lengths are bounded.
#[verifier::external_body]
fn replace_path(href: &str, path: &str) -> (replaced: Option<String>)
    requires
        href.len() <= MAX_HREF_BYTES,
        path.len() <= MAX_HREF_BYTES,
    ensures
        match replaced {
            Some(text) => url_with_path(href@, path@) == Some(text@),
            None => url_with_path(href@, path@) is None,
        },
{
    match reqwest::Url::parse(href) {
        Ok(mut url) => {
            url.set_path(path);
            Some(url.as_str().to_string())
        },
        Err(_) => None,
    }
}

impl ServerUrl {
    /// The normal form of the address.
    pub closed spec fn href(&self) -> Seq<char> {
        self.href@
    }

    /// The port that the address names, if it names one that is not the
    /// default of its scheme.
    pub closed spec fn port(&self) -> Option<u16> {
        self.port
    }

    /// The length of the normal form, in bytes.
    pub closed spec fn byte_len(&self) -> usize {
        encode_utf8(self.href@).len() as usize
    }

    /// Parses an address. The error is the parser's message.
    pub fn parse(input: &str) -> (parsed: Result<ServerUrl, String>)
        ensures
            match parsed {
                Ok(url) => parsed_url(input@) == Ok::<Seq<char>, Seq<char>>(url.href())
                    && url.port() == parsed_url_port(input@),
                Err(message) => parsed_url(input@) == Err::<Seq<char>, Seq<char>>(message@),
            },
    {
        parse_url(input)
    }

    pub fn as_str(&self) -> (href: &str)
        ensures
            href@ == self.href(),
    {
        self.href.as_str()
    }

    pub fn get_port(&self) -> (port: Option<u16>)
        ensures
            port == self.port(),
    {
        self.port
    }

    /// What `with_path` gives: the normal form of the address with its
    /// path replaced by `path`; nothing where the address or the path is
    /// longer than `MAX_HREF_BYTES` bytes, or where the parser does not
    /// take the address back.
    pub open spec fn path_replaced(&self, path: &str) -> Option<Seq<char>> {
        if self.byte_len() > MAX_HREF_BYTES || path.len() > MAX_HREF_BYTES {
            None
        } else {
            url_with_path(self.href(), path@)
        }
    }

    /// The address with its path replaced by `path`.
    pub fn with_path(&self, path: &str) -> (replaced: Option<String>)
        ensures
            match replaced {
                Some(text) => self.path_replaced(path) == Some(text@),
                None => self.path_replaced(path) is None,
            },
    {
        if self.href.as_str().len() > MAX_HREF_BYTES || path.len() > MAX_HREF_BYTES {
            return None;
        }
        replace_path(self.href.as_str(), path)
    }
}

} // verus!
