//! The command line: settings, output formats and the choices the
//! commands make before they fetch and send data.
use vstd::prelude::*;
use crate::text::eq_ascii_lowercase;

pub mod lists;
pub mod lookup;
pub mod settings;

verus! {

/// How rows are written out.
#[derive(Clone, Copy, Debug, PartialEq, Eq, Structural)]
pub enum Format {
    Json,
    Csv,
}

impl Default for Format {
    fn default() -> (r: Format)
        ensures
            r == Format::Json,
    {
        Format::Json
    }
}

/// A format name that could not be read.
pub struct InvalidFormat {
    pub name: String,
}

/// The format an ASCII-lowercased name gives.
pub open spec fn format_named(s: Seq<char>) -> Option<Format> {
    if s == "csv"@ {
        Some(Format::Csv)
    } else if s == "json"@ {
        Some(Format::Json)
    } else {
        None
    }
}

/// The name of a format.
pub open spec fn format_name(f: Format) -> Seq<char> {
    match f {
        Format::Csv => "csv"@,
        Format::Json => "json"@,
    }
}

impl Format {
    /// Reads a format name, ignoring ASCII case.
    pub fn from_str(s: &str) -> (r: Result<Format, InvalidFormat>)
        ensures
            r is Ok <==> format_named(crate::text::ascii_lowercase(s@)) is Some,
            r matches Ok(f) ==> format_named(crate::text::ascii_lowercase(s@)) == Some(f),
            r matches Err(e) ==> e.name@ == s@,
    {
        if eq_ascii_lowercase(s, "csv") {
            Ok(Format::Csv)
        } else if eq_ascii_lowercase(s, "json") {
            Ok(Format::Json)
        } else {
            Err(InvalidFormat { name: s.to_owned() })
        }
    }

    /// The format's name, as it is displayed.
    pub fn as_str(&self) -> (r: &'static str)
        ensures
            r@ == format_name(*self),
    {
        match self {
            Format::Csv => "csv",
            Format::Json => "json",
        }
    }
}

/// A displayed format name reads back as the format.
pub proof fn lemma_format_round_trip(f: Format)
    ensures
        format_named(format_name(f)) == Some(f),
{
    reveal_strlit("csv");
    reveal_strlit("json");
    assert("json"@ != "csv"@) by {
        assert("json"@.len() != "csv"@.len());
    }
}

} // verus!
