//! The BASSMIDI add-on boundary. The official `bassmidi.h` is not part of
//! this library, so the add-on is located but never driven: every
//! operation reports that it is unavailable or unsupported.

use crate::engine::{library_file_name, not_a_directory, platform_library_name, Platform};
use crate::error::{BassError, Result};
use crate::path::{
    ends_with, has_verbatim_prefix, is_joined_path, is_plain_file_name, path_is_dir, path_is_file,
    path_join,
};
use std::path::PathBuf;
use vstd::prelude::*;
use vstd::string::*;

verus! {

/// Options of a MIDI stream.
#[derive(Debug, Clone, Default)]
pub struct MidiOptions {
    pub max_polyphony: Option<u32>,
}

/// A located BASSMIDI add-on.
#[derive(Debug, Clone)]
pub struct MidiAddon {
    pub path: PathBuf,
}

/// The operation that the missing BASSMIDI header leaves unsupported.
pub open spec fn midi_abi_operation() -> Seq<char> {
    "BASSMIDI ABI (official bassmidi.h is not present)"@
}

/// Whether `result` is the error of a missing add-on file.
pub open spec fn is_addon_unavailable(result: Result<MidiAddon>) -> bool {
    result matches Err(BassError::AddonUnavailable { name }) && name@ == "BASSMIDI"@
}

/// Whether `result` is the error of the unsupported BASSMIDI ABI.
pub open spec fn is_abi_unsupported<T>(result: Result<T>) -> bool {
    result matches Err(BassError::Unsupported { operation }) && operation@ == midi_abi_operation()
}

/// What loading from a path gives, given whether the path is a file.
pub open spec fn load_outcome(is_file: bool, result: Result<MidiAddon>) -> bool {
    if is_file {
        is_abi_unsupported(result)
    } else {
        is_addon_unavailable(result)
    }
}

/// What loading from a directory gives, given whether the directory is one
/// and whether the add-on file in it is a file.
pub open spec fn directory_outcome(
    directory: Seq<char>,
    is_directory: bool,
    is_file: bool,
    result: Result<MidiAddon>,
) -> bool {
    if is_directory {
        load_outcome(is_file, result)
    } else {
        result matches Err(BassError::InvalidInput { kind, message }) && kind@ == "DLL directory"@
            && message@ == directory + " is not a directory"@
    }
}

/// The add-on's library file name is a plain file name on every platform.
proof fn lemma_midi_library_name_is_plain(platform: Platform)
    ensures
        is_plain_file_name(library_file_name(platform, "bassmidi"@)),
{
    reveal_strlit("bassmidi");
    reveal_strlit("lib");
    reveal_strlit(".dll");
    reveal_strlit(".dylib");
    reveal_strlit(".so");
    let name = library_file_name(platform, "bassmidi"@);
    assert forall|i: int| 0 <= i < name.len() implies name[i] != '/' && name[i] != '\\' && name[i]
        != ':' by {
        match platform {
            Platform::Windows | Platform::Other => {
                assert(name =~= seq!['b', 'a', 's', 's', 'm', 'i', 'd', 'i', '.', 'd', 'l', 'l']);
            },
            Platform::MacOs => {
                assert(name =~= seq![
                    'l', 'i', 'b', 'b', 'a', 's', 's', 'm', 'i', 'd', 'i', '.', 'd', 'y', 'l', 'i', 'b',
                ]);
            },
            Platform::Unix => {
                assert(name =~= seq!['l', 'i', 'b', 'b', 'a', 's', 's', 'm', 'i', 'd', 'i', '.', 's', 'o']);
            },
        }
    }
}

impl MidiAddon {
    /// The path of the add-on library in `directory`: the directory joined
    /// with the platform's file name of `bassmidi`, so it ends with that name
    /// and, outside a Windows verbatim prefix, is the directory followed by
    /// the name, directly or after one separator.
    pub fn library_path(directory: &str, platform: Platform) -> (path: String)
        ensures
            ends_with(path@, library_file_name(platform, "bassmidi"@)),
            !has_verbatim_prefix(directory@) ==> is_joined_path(
                path@,
                directory@,
                library_file_name(platform, "bassmidi"@),
            ),
    {
        let name = platform_library_name(platform, "bassmidi");
        proof {
            lemma_midi_library_name_is_plain(platform);
        }
        path_join(directory, name.as_str())
    }

    /// The outcome of loading the add-on once it is known whether its path
    /// names a file: unavailable when it does not, unsupported when it does.
    pub fn load_found(is_file: bool) -> (result: Result<Self>)
        ensures
            load_outcome(is_file, result),
    {
        if !is_file {
            return Err(BassError::AddonUnavailable { name: "BASSMIDI" });
        }
        Err(BassError::Unsupported { operation: "BASSMIDI ABI (official bassmidi.h is not present)" })
    }

    /// Loads the add-on from `path`. The file is looked up on disk; either
    /// way no add-on is returned.
    pub fn load(path: &str) -> (result: Result<Self>)
        ensures
            exists|is_file: bool| load_outcome(is_file, result),
    {
        let is_file = path_is_file(path);
        Self::load_found(is_file)
    }

    /// The outcome of loading from a directory once it is known whether the
    /// directory is one and whether the add-on in it is a file.
    pub fn load_from_directory_found(directory: &str, is_directory: bool, is_file: bool) -> (result: Result<Self>)
        ensures
            directory_outcome(directory@, is_directory, is_file, result),
    {
        if !is_directory {
            return Err(not_a_directory(directory));
        }
        Self::load_found(is_file)
    }

    /// Locates the add-on library (`bassmidi.dll` or the platform's
    /// equivalent) in a caller-supplied directory and loads it.
    pub fn load_from_directory(directory: &str, platform: Platform) -> (result: Result<Self>)
        ensures
            exists|is_directory: bool, is_file: bool|
                directory_outcome(directory@, is_directory, is_file, result),
    {
        let is_directory = path_is_dir(directory);
        if !is_directory {
            return Self::load_from_directory_found(directory, false, false);
        }
        let path = Self::library_path(directory, platform);
        let is_file = path_is_file(path.as_str());
        Self::load_from_directory_found(directory, true, is_file)
    }

    /// Sets the polyphony limit, which the missing BASSMIDI header leaves
    /// unsupported.
    pub fn set_max_polyphony(&self, options: MidiOptions) -> (result: Result<()>)
        ensures
            is_abi_unsupported(result),
    {
        Err(BassError::Unsupported { operation: "BASSMIDI ABI (official bassmidi.h is not present)" })
    }
}

} // verus!
