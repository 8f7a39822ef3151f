//! The closed enumeration of downloadable file types and its filter data.

use vstd::prelude::*;

verus! {

/// Which kind of file a discovered link must point at to qualify for
/// download. `All` matches any href that holds a `.` anywhere; every other
/// variant matches by its literal suffix.
#[derive(Debug, Clone, Copy, PartialEq, Eq, Structural)]
pub enum FileType {
    Pdf,
    Doc,
    Docx,
    Xlsx,
    Csv,
    Ppt,
    Pptx,
    All,
}

/// The literal suffix a named variant matches by; `All` maps to the
/// empty string and is matched by a different predicate altogether.
pub open spec fn suffix_spec(ft: FileType) -> Seq<char> {
    match ft {
        FileType::Pdf => ".pdf"@,
        FileType::Doc => ".doc"@,
        FileType::Docx => ".docx"@,
        FileType::Xlsx => ".xlsx"@,
        FileType::Csv => ".csv"@,
        FileType::Ppt => ".ppt"@,
        FileType::Pptx => ".pptx"@,
        FileType::All => Seq::empty(),
    }
}

/// The file type a raw filter token denotes; every unrecognized token
/// falls back to `All`.
pub open spec fn token_spec(s: Seq<char>) -> FileType {
    if s == "pdf"@ {
        FileType::Pdf
    } else if s == "doc"@ {
        FileType::Doc
    } else if s == "docx"@ {
        FileType::Docx
    } else if s == "xlsx"@ {
        FileType::Xlsx
    } else if s == "ppt"@ {
        FileType::Ppt
    } else if s == "pptx"@ {
        FileType::Pptx
    } else if s == "csv"@ {
        FileType::Csv
    } else {
        FileType::All
    }
}

impl FileType {
    /// The suffix string this variant matches by.
    pub fn suffix(&self) -> (r: &'static str)
        ensures
            r@ == suffix_spec(*self),
    {
        proof {
            reveal_strlit("");
            assert(""@ =~= Seq::<char>::empty());
        }
        match self {
            FileType::Pdf => ".pdf",
            FileType::Doc => ".doc",
            FileType::Docx => ".docx",
            FileType::Xlsx => ".xlsx",
            FileType::Csv => ".csv",
            FileType::Ppt => ".ppt",
            FileType::Pptx => ".pptx",
            FileType::All => "",
        }
    }
}

impl From<&str> for FileType {
    /// Reads a raw filter token; an unrecognized token silently selects `All`.
    fn from(input: &str) -> (r: Self) {
        if crate::strings::str_eq(input, "pdf") {
            FileType::Pdf
        } else if crate::strings::str_eq(input, "doc") {
            FileType::Doc
        } else if crate::strings::str_eq(input, "docx") {
            FileType::Docx
        } else if crate::strings::str_eq(input, "xlsx") {
            FileType::Xlsx
        } else if crate::strings::str_eq(input, "ppt") {
            FileType::Ppt
        } else if crate::strings::str_eq(input, "pptx") {
            FileType::Pptx
        } else if crate::strings::str_eq(input, "csv") {
            FileType::Csv
        } else {
            FileType::All
        }
    }
}

impl vstd::std_specs::convert::FromSpecImpl<&str> for FileType {
    open spec fn obeys_from_spec() -> bool {
        true
    }

    open spec fn from_spec(t: &str) -> Self {
        token_spec(t@)
    }
}

impl Default for FileType {
    /// With no token given, every href holding a dot qualifies.
    fn default() -> (r: Self)
        ensures
            r == FileType::All,
    {
        FileType::All
    }
}

} // verus!
