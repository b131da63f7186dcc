//! The filesystem metadata a renderer sees: one entry, already resolved
//! by the metadata collaborator. The library performs no filesystem
//! calls; every field below arrives as a plain value.

use vstd::prelude::*;

verus! {

/// One directory entry to display. The kind predicates mirror what the
/// metadata provider reports; the renderer only reads them, and treats
/// any combination deterministically (an entry matching none of the
/// specific kinds and not a regular file falls to the catch-all style).
pub struct Entry {
    /// The displayable name; empty for root paths such as `/`.
    pub name: String,
    /// The full path, used only to derive a parent-path prefix.
    pub path: String,
    /// Whether the entry was discovered inside a directory being listed.
    /// Entries named directly as arguments have no parent directory, and
    /// only those get a parent-path prefix.
    pub has_parent_dir: bool,
    /// Whether this is a directory.
    pub is_directory: bool,
    /// Whether this is a symbolic link.
    pub is_link: bool,
    /// Whether this is a regular file with an executable bit set.
    pub is_executable_file: bool,
    /// Whether this is a named pipe.
    pub is_pipe: bool,
    /// Whether this is a socket.
    pub is_socket: bool,
    /// Whether this is a block device.
    pub is_block_device: bool,
    /// Whether this is a character device.
    pub is_char_device: bool,
    /// Whether this is a regular file.
    pub is_file: bool,
}

/// The mathematical view of an [`Entry`]: the strings as character
/// sequences, the predicates as they are.
pub ghost struct EntryModel {
    pub name: Seq<char>,
    pub path: Seq<char>,
    pub has_parent_dir: bool,
    pub is_directory: bool,
    pub is_link: bool,
    pub is_executable_file: bool,
    pub is_pipe: bool,
    pub is_socket: bool,
    pub is_block_device: bool,
    pub is_char_device: bool,
    pub is_file: bool,
}

impl View for Entry {
    type V = EntryModel;

    open spec fn view(&self) -> EntryModel {
        EntryModel {
            name: self.name@,
            path: self.path@,
            has_parent_dir: self.has_parent_dir,
            is_directory: self.is_directory,
            is_link: self.is_link,
            is_executable_file: self.is_executable_file,
            is_pipe: self.is_pipe,
            is_socket: self.is_socket,
            is_block_device: self.is_block_device,
            is_char_device: self.is_char_device,
            is_file: self.is_file,
        }
    }
}

/// The outcome of resolving a symbolic link, computed once by the
/// metadata collaborator and passed in.
pub enum LinkTarget {
    /// The link resolved to an entry.
    Resolved(Entry),
    /// The target path exists syntactically but does not resolve.
    Broken(String),
    /// Resolution failed (permissions, I/O); the renderer shows nothing
    /// for it and the error is reported elsewhere.
    Failed,
}

/// The mathematical view of a [`LinkTarget`].
pub ghost enum LinkTargetModel {
    Resolved(EntryModel),
    Broken(Seq<char>),
    Failed,
}

impl View for LinkTarget {
    type V = LinkTargetModel;

    open spec fn view(&self) -> LinkTargetModel {
        match self {
            LinkTarget::Resolved(e) => LinkTargetModel::Resolved(e@),
            LinkTarget::Broken(p) => LinkTargetModel::Broken(p@),
            LinkTarget::Failed => LinkTargetModel::Failed,
        }
    }
}

/// The view of an optional link target.
pub open spec fn target_model(t: Option<LinkTarget>) -> Option<LinkTargetModel> {
    match t {
        Some(t) => Some(t@),
        None => None,
    }
}

} // verus!
