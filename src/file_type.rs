use crate::error::ParseError;
use crate::text::str_eq;
use vstd::prelude::*;

verus! {

/// The record types the pipeline knows; each has its own parser.
#[derive(Debug, Clone, Copy, PartialEq, Eq, Structural)]
pub enum FileType {
    Metadata,
    MetadataContent,
    ActiveMatchesJsonLines,
}

/// The extension a key of type `t` carries.
pub open spec fn extension_of(t: FileType) -> Seq<char> {
    match t {
        FileType::Metadata => seq!['m', 'e', 't', 'a'],
        FileType::MetadataContent => seq!['m', 'e', 't', 'a', 'c'],
        FileType::ActiveMatchesJsonLines => seq!['a', 'm', 'j', 's', 'o', 'n', 'l'],
    }
}

/// The directory under which objects of type `t` are kept.
pub open spec fn dir_name_of(t: FileType) -> Seq<char> {
    match t {
        FileType::Metadata => seq!['m', 'e', 't', 'a'],
        FileType::MetadataContent => seq!['m', 'e', 't', 'a', 'c'],
        FileType::ActiveMatchesJsonLines => seq![
            'a', 'c', 't', 'i', 'v', 'e', '-', 'm', 'a', 't', 'c', 'h', 'e', 's'
        ],
    }
}

/// The record type an extension names, if any.
pub open spec fn file_type_from_extension(s: Seq<char>) -> Option<FileType> {
    if s == extension_of(FileType::Metadata) {
        Some(FileType::Metadata)
    } else if s == extension_of(FileType::MetadataContent) {
        Some(FileType::MetadataContent)
    } else if s == extension_of(FileType::ActiveMatchesJsonLines) {
        Some(FileType::ActiveMatchesJsonLines)
    } else {
        None
    }
}

impl FileType {
    /// The key extension: `"meta"`, `"metac"` or `"amjsonl"`.
    pub fn extension(&self) -> (r: &'static str)
        ensures
            r@ == extension_of(*self),
    {
        proof {
            reveal_strlit("meta");
            reveal_strlit("metac");
            reveal_strlit("amjsonl");
            assert("meta"@ =~= extension_of(FileType::Metadata));
            assert("metac"@ =~= extension_of(FileType::MetadataContent));
            assert("amjsonl"@ =~= extension_of(FileType::ActiveMatchesJsonLines));
        }
        match self {
            FileType::Metadata => "meta",
            FileType::MetadataContent => "metac",
            FileType::ActiveMatchesJsonLines => "amjsonl",
        }
    }

    /// The storage directory name: `"meta"`, `"metac"` or `"active-matches"`.
    pub fn dir_name(&self) -> (r: &'static str)
        ensures
            r@ == dir_name_of(*self),
    {
        proof {
            reveal_strlit("meta");
            reveal_strlit("metac");
            reveal_strlit("active-matches");
            assert("meta"@ =~= dir_name_of(FileType::Metadata));
            assert("metac"@ =~= dir_name_of(FileType::MetadataContent));
            assert("active-matches"@ =~= dir_name_of(FileType::ActiveMatchesJsonLines));
        }
        match self {
            FileType::Metadata => "meta",
            FileType::MetadataContent => "metac",
            FileType::ActiveMatchesJsonLines => "active-matches",
        }
    }

    /// The record type a key extension names; an unknown one is an error.
    pub fn from_extension(s: &str) -> (r: Result<FileType, ParseError>)
        ensures
            r matches Ok(t) ==> file_type_from_extension(s@) == Some(t),
            r is Err ==> file_type_from_extension(s@) is None && r == Err::<FileType, _>(
                ParseError::UnknownVariant,
            ),
    {
        proof {
            reveal_strlit("meta");
            reveal_strlit("metac");
            reveal_strlit("amjsonl");
            assert("meta"@ =~= extension_of(FileType::Metadata));
            assert("metac"@ =~= extension_of(FileType::MetadataContent));
            assert("amjsonl"@ =~= extension_of(FileType::ActiveMatchesJsonLines));
        }
        if str_eq(s, "meta") {
            Ok(FileType::Metadata)
        } else if str_eq(s, "metac") {
            Ok(FileType::MetadataContent)
        } else if str_eq(s, "amjsonl") {
            Ok(FileType::ActiveMatchesJsonLines)
        } else {
            Err(ParseError::UnknownVariant)
        }
    }
}

/// The identifiers a key's name may carry, each as a one-letter code.
#[derive(Debug, Clone, Copy, PartialEq, Eq, Hash, Structural)]
pub enum FileKeyword {
    Type,
    MatchID,
    ClusterID,
    Salt,
}

/// The keyword a token's leading character stands for, in either case.
pub open spec fn keyword_of(c: char) -> Option<FileKeyword> {
    if c == 't' || c == 'T' {
        Some(FileKeyword::Type)
    } else if c == 'm' || c == 'M' {
        Some(FileKeyword::MatchID)
    } else if c == 'c' || c == 'C' {
        Some(FileKeyword::ClusterID)
    } else if c == 's' || c == 'S' {
        Some(FileKeyword::Salt)
    } else {
        None
    }
}

impl FileKeyword {
    /// The keyword a code character stands for; codes are case-insensitive.
    pub fn from_code(c: char) -> (r: Option<FileKeyword>)
        ensures
            r == keyword_of(c),
    {
        if c == 't' || c == 'T' {
            Some(FileKeyword::Type)
        } else if c == 'm' || c == 'M' {
            Some(FileKeyword::MatchID)
        } else if c == 'c' || c == 'C' {
            Some(FileKeyword::ClusterID)
        } else if c == 's' || c == 'S' {
            Some(FileKeyword::Salt)
        } else {
            None
        }
    }
}

/// Short name for `FileKeyword`.
pub type Keyword = FileKeyword;

} // verus!
