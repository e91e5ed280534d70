//! Plain models of the game's resource-service records, with pointers
//! carried as addresses and reference counts as plain integers.

use vstd::prelude::*;

verus! {

/// Load state of a tracked file or directory.
#[derive(Copy, Clone, Debug, PartialEq, Eq, Structural)]
pub enum LoadState {
    Unused,
    Unloaded,
    Unknown,
    Loaded,
}

/// A tracked file path: the slot of its data and whether it is loaded.
#[derive(Copy, Clone, Debug, PartialEq, Eq, Structural)]
pub struct LoadedFilepath {
    pub loaded_data_index: u32,
    pub is_loaded: u32,
}

/// A tracked data slot.
#[derive(Clone, Debug)]
pub struct LoadedData {
    /// Address of the loaded bytes; `0` when nothing is loaded.
    pub data: u64,
    pub ref_count: u32,
    pub is_used: bool,
    pub state: LoadState,
    pub file_flags2: u8,
    pub flags: u8,
    pub version: u32,
    pub unk: u8,
}

impl LoadedData {
    /// A fresh, unloaded slot: no data, no references, all flags clear.
    pub fn new() -> (r: LoadedData)
        ensures
            r.data == 0,
            r.ref_count == 0,
            !r.is_used,
            r.state == LoadState::Unloaded,
            r.file_flags2 == 0,
            r.flags == 0,
            r.version == 0,
            r.unk == 0,
    {
        LoadedData {
            data: 0,
            ref_count: 0,
            is_used: false,
            state: LoadState::Unloaded,
            file_flags2: 0,
            flags: 0,
            version: 0,
            unk: 0,
        }
    }
}

impl Default for LoadedData {
    /// The default slot is the fresh, unloaded one.
    fn default() -> (r: LoadedData)
        ensures
            r.data == 0,
            r.ref_count == 0,
            !r.is_used,
            r.state == LoadState::Unloaded,
            r.file_flags2 == 0,
            r.flags == 0,
            r.version == 0,
            r.unk == 0,
    {
        LoadedData::new()
    }
}

/// A tracked directory.
pub struct LoadedDirectory {
    pub file_group_index: u32,
    pub ref_count: u32,
    pub flags: u8,
    pub state: LoadState,
    pub incoming_request_count: u32,
    pub child_path_indices: Vec<u32>,
    /// Addresses of the child directories.
    pub child_folders: Vec<u64>,
    /// Address of the directory this one redirects to; `0` when none.
    pub redirection_directory: u64,
}

/// How the resource service loads an entry.
#[derive(Copy, Clone, Debug, PartialEq, Eq, Structural)]
pub enum LoadingType {
    Directory,
    Unk1,
    Unk2,
    Unk3,
    File,
}

} // verus!
