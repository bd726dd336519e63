use vstd::prelude::*;

verus! {

/// Why a run stopped.
#[derive(PartialEq, Eq, Debug)]
pub enum MainError {
    /// A local filesystem operation failed; holds its message.
    Io(String),
    /// The store's API failed; holds its message.
    IpfsApi(String),
    /// Any other fatal condition, described in words.
    Message(String),
    /// Unpinned source entries were found and the rule forbids copying them; holds their count.
    Unpinned(usize),
    /// The store-to-store target folder does not start with `/`; holds the folder.
    FolderNotAbsolute(String),
    /// The local target folder does not exist; holds the folder.
    TargetMissing(String),
    /// The local target folder is not a directory; holds the folder.
    TargetNotDirectory(String),
}

} // verus!
