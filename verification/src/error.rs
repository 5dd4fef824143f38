use vstd::prelude::*;

verus! {

/// The failure classes of the document pipeline. Every failure aborts the
/// whole generation run: there is no per-document recovery.
#[derive(Debug)]
pub enum Error {
    /// The metadata block is not valid structured data; carries the parser's message.
    Toml(String),
    /// A reference link had no matching definition; the run is failed outright.
    BrokenLink,
    /// A metadata timestamp does not denote a valid calendar date and time.
    BadTimestamp,
    /// The filesystem creation time was needed as a fallback but was unavailable.
    FsTime,
    /// The tokenizer reported a byte range that does not lie on the source text.
    Span,
}

/// The failure class alone, for contracts that do not care about messages.
#[derive(Clone, Copy, PartialEq, Eq, Structural, Debug)]
pub enum ErrorKind {
    Toml,
    BrokenLink,
    BadTimestamp,
    FsTime,
    Span,
}

impl Error {
    /// The class this error belongs to.
    pub open spec fn kind(&self) -> ErrorKind {
        match self {
            Error::Toml(_) => ErrorKind::Toml,
            Error::BrokenLink => ErrorKind::BrokenLink,
            Error::BadTimestamp => ErrorKind::BadTimestamp,
            Error::FsTime => ErrorKind::FsTime,
            Error::Span => ErrorKind::Span,
        }
    }

    /// A human-readable description of the failure.
    pub fn message(&self) -> String {
        match self {
            Error::Toml(m) => String::from_str("malformed metadata block: ").concat(m.as_str()),
            Error::BrokenLink => String::from_str("unresolvable reference link"),
            Error::BadTimestamp => String::from_str("invalid calendar date or time in metadata"),
            Error::FsTime => String::from_str("file creation time unavailable"),
            Error::Span => String::from_str("metadata block span outside the source text"),
        }
    }
}

} // verus!
