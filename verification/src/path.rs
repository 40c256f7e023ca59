//! Native path handling: the standard path type, and the NUL-terminated
//! encodings handed to BASS.

use std::path::PathBuf;
use vstd::prelude::*;

verus! {

/// The standard owned path type, carried through the library unchanged.
#[verifier::external_type_specification]
#[verifier::external_body]
pub struct ExPathBuf(PathBuf);

/// `Clone` of the standard path type. A path is opaque here, so nothing is
/// stated of the copy.
pub assume_specification[ <PathBuf as Clone>::clone ](path: &PathBuf) -> PathBuf;

} // verus!

verus! {

/// Whether `path` names an existing regular file, by
/// `std::path::Path::is_file`. The answer depends on the file system at the
/// time of the call, so nothing is stated of it.
#[verifier::external_body]
pub fn path_is_file(path: &str) -> (is_file: bool) {
    std::path::Path::new(path).is_file()
}

/// Whether `path` names an existing directory, by
/// `std::path::Path::is_dir`. The answer depends on the file system at the
/// time of the call, so nothing is stated of it.
#[verifier::external_body]
pub fn path_is_dir(path: &str) -> (is_dir: bool) {
    std::path::Path::new(path).is_dir()
}

/// The displayed form of `path`, by `std::path::Path::display`: the path's
/// text, with non-Unicode parts replaced. How a path is held and shown
/// depends on the platform, so nothing is stated of the text.
#[verifier::external_body]
pub fn path_text(path: &PathBuf) -> (text: String) {
    path.display().to_string()
}

/// Whether `text` ends with `suffix`.
pub open spec fn ends_with(text: Seq<char>, suffix: Seq<char>) -> bool {
    suffix.len() <= text.len() && text.subrange(text.len() - suffix.len(), text.len() as int)
        == suffix
}

/// Whether `name` is a plain file name: longer than `..`, with no path
/// separator and no drive marker, so that it is neither absolute, nor
/// prefixed, nor a `.` or `..` component on any platform.
pub open spec fn is_plain_file_name(name: Seq<char>) -> bool {
    &&& name.len() > 2
    &&& !name.contains('/')
    &&& !name.contains('\\')
    &&& !name.contains(':')
}

/// Whether `directory` begins with the Windows verbatim prefix `\\?\`,
/// under which `Path::join` normalizes the joined path.
pub open spec fn has_verbatim_prefix(directory: Seq<char>) -> bool {
    directory.len() >= 4 && directory.subrange(0, 4) == seq!['\\', '\\', '?', '\\']
}

/// The texts that adjoining a plain file name to `directory` can give: the
/// directory followed by the name, directly or after one separator (`/`,
/// or `\` on Windows).
pub open spec fn is_joined_path(joined: Seq<char>, directory: Seq<char>, file: Seq<char>) -> bool {
    ||| joined == directory + file
    ||| joined == directory + seq!['/'] + file
    ||| joined == directory + seq!['\\'] + file
}

/// `file` adjoined to `directory` by `std::path::Path::join`, in lossy
/// UTF-8 form. `join` extends the directory with `file`: a plain file name
/// is neither absolute nor prefixed, so it is appended, after a separator
/// unless the directory is empty, ends in one, or is a bare drive. Under a
/// Windows verbatim prefix `join` also normalizes the path, so only the
/// final name is stated there. Both inputs are valid UTF-8, so the lossy
/// form changes nothing. Which separator is placed depends on the platform
/// the library runs on and is left open.
#[verifier::external_body]
pub fn path_join(directory: &str, file: &str) -> (joined: String)
    requires
        is_plain_file_name(file@),
    ensures
        ends_with(joined@, file@),
        !has_verbatim_prefix(directory@) ==> is_joined_path(joined@, directory@, file@),
{
    std::path::Path::new(directory).join(file).to_string_lossy().into_owned()
}

} // verus!

verus! {

/// A path in the form BASS reads it: UTF-16 units with the Unicode flag on
/// Windows, bytes elsewhere, each ending in a single NUL.
#[derive(Debug, Clone)]
pub enum NativePath {
    Wide(Vec<u16>),
    Narrow(Vec<u8>),
}

/// Whether `units` holds a NUL unit.
fn has_nul_unit(units: &Vec<u16>) -> (found: bool)
    ensures
        found == units@.contains(0u16),
{
    let mut i: usize = 0;
    while i < units.len()
        invariant
            i <= units.len(),
            forall|j: int| 0 <= j < i ==> units@[j] != 0u16,
        decreases units.len() - i,
    {
        if units[i] == 0u16 {
            return true;
        }
        i = i + 1;
    }
    false
}

/// Whether `bytes` holds a NUL byte.
fn has_nul_byte(bytes: &Vec<u8>) -> (found: bool)
    ensures
        found == bytes@.contains(0u8),
{
    let mut i: usize = 0;
    while i < bytes.len()
        invariant
            i <= bytes.len(),
            forall|j: int| 0 <= j < i ==> bytes@[j] != 0u8,
        decreases bytes.len() - i,
    {
        if bytes[i] == 0u8 {
            return true;
        }
        i = i + 1;
    }
    false
}

/// The error for a path that holds a NUL before its end.
pub open spec fn is_embedded_nul_error<T>(result: crate::Result<T>, kind: &'static str) -> bool {
    result matches Err(crate::BassError::InvalidInput { kind: k, message }) && k@ == kind@
        && message@ == "path contains an embedded NUL"@
}

impl NativePath {
    /// A Windows path from its UTF-16 units: refused when a unit is NUL,
    /// otherwise the units with a terminating NUL.
    pub fn from_wide(units: Vec<u16>, kind: &'static str) -> (result: crate::Result<Self>)
        ensures
            units@.contains(0u16) ==> is_embedded_nul_error(result, kind),
            !units@.contains(0u16) ==> (result matches Ok(NativePath::Wide(w)) && w@ == units@.push(
                0u16,
            )),
    {
        if has_nul_unit(&units) {
            return Err(
                crate::BassError::InvalidInput {
                    kind,
                    message: String::from_str("path contains an embedded NUL"),
                },
            );
        }
        let mut wide = units;
        wide.push(0u16);
        Ok(NativePath::Wide(wide))
    }

    /// A path from its bytes: refused when a byte is NUL, otherwise the
    /// bytes with a terminating NUL.
    pub fn from_narrow(bytes: Vec<u8>, kind: &'static str) -> (result: crate::Result<Self>)
        ensures
            bytes@.contains(0u8) ==> is_embedded_nul_error(result, kind),
            !bytes@.contains(0u8) ==> (result matches Ok(NativePath::Narrow(n)) && n@ == bytes@.push(
                0u8,
            )),
    {
        if has_nul_byte(&bytes) {
            return Err(
                crate::BassError::InvalidInput {
                    kind,
                    message: String::from_str("path contains an embedded NUL"),
                },
            );
        }
        let mut narrow = bytes;
        narrow.push(0u8);
        Ok(NativePath::Narrow(narrow))
    }

    /// The flags for a BASS call that takes this path: a UTF-16 path adds
    /// the Unicode flag.
    pub fn flags(&self, flags: u32) -> (result: u32)
        ensures
            self is Wide ==> result == flags | crate::raw::BASS_UNICODE,
            self is Narrow ==> result == flags,
    {
        match self {
            NativePath::Wide(_) => flags | crate::raw::BASS_UNICODE,
            NativePath::Narrow(_) => flags,
        }
    }
}

/// A path accepted for BASS ends in its only NUL.
pub proof fn lemma_native_path_single_terminator(units: Seq<u16>)
    requires
        !units.contains(0u16),
    ensures
        units.push(0u16).last() == 0u16,
        forall|i: int| 0 <= i < units.len() ==> units.push(0u16)[i] != 0u16,
{
    assert forall|i: int| 0 <= i < units.len() implies units.push(0u16)[i] != 0u16 by {
        assert(units.push(0u16)[i] == units[i]);
        if units[i] == 0u16 {
            assert(units.contains(0u16));
        }
    }
}

} // verus!
