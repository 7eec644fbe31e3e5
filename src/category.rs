//! Storage categories of columns and the storage width that each one takes.

use vstd::prelude::*;

verus! {

#[verifier::external_type_specification]
pub struct ExCategory(msi::Category);

#[verifier::external_type_specification]
#[verifier::external_body]
pub struct ExIoError(std::io::Error);

/// The category that `name` denotes, if any: the names of the categories,
/// with two accepted spellings for `Guid` and for `FormattedSddlText`.
pub open spec fn category_named(name: Seq<char>) -> Option<msi::Category> {
    if name == "AnyPath"@ { Some(msi::Category::AnyPath) }
    else if name == "Binary"@ { Some(msi::Category::Binary) }
    else if name == "Cabinet"@ { Some(msi::Category::Cabinet) }
    else if name == "Condition"@ { Some(msi::Category::Condition) }
    else if name == "CustomSource"@ { Some(msi::Category::CustomSource) }
    else if name == "DefaultDir"@ { Some(msi::Category::DefaultDir) }
    else if name == "DoubleInteger"@ { Some(msi::Category::DoubleInteger) }
    else if name == "Filename"@ { Some(msi::Category::Filename) }
    else if name == "Formatted"@ { Some(msi::Category::Formatted) }
    else if name == "FormattedSDDLText"@ { Some(msi::Category::FormattedSddlText) }
    else if name == "FormattedSddlText"@ { Some(msi::Category::FormattedSddlText) }
    else if name == "GUID"@ { Some(msi::Category::Guid) }
    else if name == "Guid"@ { Some(msi::Category::Guid) }
    else if name == "Identifier"@ { Some(msi::Category::Identifier) }
    else if name == "Integer"@ { Some(msi::Category::Integer) }
    else if name == "Language"@ { Some(msi::Category::Language) }
    else if name == "LowerCase"@ { Some(msi::Category::LowerCase) }
    else if name == "Path"@ { Some(msi::Category::Path) }
    else if name == "Paths"@ { Some(msi::Category::Paths) }
    else if name == "Property"@ { Some(msi::Category::Property) }
    else if name == "RegPath"@ { Some(msi::Category::RegPath) }
    else if name == "Shortcut"@ { Some(msi::Category::Shortcut) }
    else if name == "Template"@ { Some(msi::Category::Template) }
    else if name == "Text"@ { Some(msi::Category::Text) }
    else if name == "TimeDate"@ { Some(msi::Category::TimeDate) }
    else if name == "UpperCase"@ { Some(msi::Category::UpperCase) }
    else if name == "Version"@ { Some(msi::Category::Version) }
    else if name == "WildCardFilename"@ { Some(msi::Category::WildCardFilename) }
    else { None }
}

/// Relies on msi's `FromStr` for `Category`: it looks the name up in a fixed
/// table and fails on any name outside it.
pub assume_specification[ <msi::Category as core::str::FromStr>::from_str ](s: &str) -> (r: Result<msi::Category, std::io::Error>)
    ensures
        r is Ok <==> category_named(s@) is Some,
        r matches Ok(c) ==> category_named(s@) == Some(c),
;

/// How a column stores its values.
#[derive(Clone, Copy, Debug, PartialEq, Eq, Structural)]
pub enum ColumnWidth {
    /// A 16-bit integer.
    Int16,
    /// A 32-bit integer.
    Int32,
    /// A string of at most the given number of characters.
    Text(usize),
}

/// The width that a column of category `c` takes, given the length that its
/// field declares: the two integer categories have a fixed width, and every
/// other category needs a length.
pub open spec fn width_for(c: msi::Category, length: Option<usize>) -> Option<ColumnWidth> {
    match c {
        msi::Category::Integer => Some(ColumnWidth::Int16),
        msi::Category::DoubleInteger => Some(ColumnWidth::Int32),
        _ => match length {
            Some(n) => Some(ColumnWidth::Text(n)),
            None => None,
        },
    }
}

/// Looks a category up by its name.
pub fn resolve_category(name: &str) -> (r: Option<msi::Category>)
    ensures
        r == category_named(name@),
{
    match <msi::Category as core::str::FromStr>::from_str(name) {
        Ok(c) => Some(c),
        Err(_) => None,
    }
}

/// The width of a column of category `c` whose field declares `length`.
pub fn storage_width(c: msi::Category, length: Option<usize>) -> (r: Option<ColumnWidth>)
    ensures
        r == width_for(c, length),
{
    match c {
        msi::Category::Integer => Some(ColumnWidth::Int16),
        msi::Category::DoubleInteger => Some(ColumnWidth::Int32),
        _ => match length {
            Some(n) => Some(ColumnWidth::Text(n)),
            None => None,
        },
    }
}

} // verus!
