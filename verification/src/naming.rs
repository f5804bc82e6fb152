//! Names of the files that land in the output directory.
//!
//! Every name is made of the input file's stem, a dot and an extension; no
//! directory is part of it.

use vstd::prelude::*;
use vstd::string::StringExecFns;

verus! {

/// Extension of an encoded artifact.
pub open spec fn artifact_extension() -> Seq<char> {
    "jxl"@
}

/// Extension of a decoded raster.
pub open spec fn raster_extension() -> Seq<char> {
    "png"@
}

/// Extension given to a copy of an input file that has none.
pub open spec fn missing_extension() -> Seq<char> {
    "img"@
}

/// `stem`, a dot, and `extension`.
pub open spec fn file_name(stem: Seq<char>, extension: Seq<char>) -> Seq<char> {
    stem + "."@ + extension
}

/// The extension under which an input file is copied: its own, or the
/// stand-in where it has none.
pub open spec fn copy_extension(extension: Option<Seq<char>>) -> Seq<char> {
    match extension {
        Some(e) => e,
        None => missing_extension(),
    }
}

/// Joins a stem and an extension with a dot.
pub fn join_name(stem: &str, extension: &str) -> (name: String)
    ensures
        name@ == file_name(stem@, extension@),
{
    let name: String = String::from_str(stem);
    let name: String = name.concat(".");
    name.concat(extension)
}

/// Name of the encoded artifact of an input file.
pub fn artifact_name(stem: &str) -> (name: String)
    ensures
        name@ == file_name(stem@, artifact_extension()),
{
    join_name(stem, "jxl")
}

/// Name of the raster decoded from an input file.
pub fn raster_name(stem: &str) -> (name: String)
    ensures
        name@ == file_name(stem@, raster_extension()),
{
    join_name(stem, "png")
}

/// Name under which an input file is copied unchanged.
pub fn copy_name(stem: &str, extension: Option<&str>) -> (name: String)
    ensures
        name@ == file_name(
            stem@,
            copy_extension(
                match extension {
                    Some(e) => Some(e@),
                    None => None,
                },
            ),
        ),
{
    match extension {
        Some(e) => join_name(stem, e),
        None => join_name(stem, "img"),
    }
}

} // verus!
