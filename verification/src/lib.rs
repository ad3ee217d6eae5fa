//! The decisions of the Julia extension for the Zed editor: how the JETLS
//! language server is launched, installed into extension-private storage,
//! verified, published and cleaned up, and how its completions and symbols
//! are labelled. Talking to Zed, the file system and processes is left to the
//! caller, which performs the actions that `start::ServerStart` asks for.

use vstd::prelude::*;

pub mod text;
pub mod env;
pub mod settings;
pub mod paths;
pub mod launch;
pub mod version;
pub mod storage;
pub mod labels;
pub mod start;

verus! {

/// The Julia extension for the Zed editor: its launch, installation and
/// labelling decisions are associated functions of this type.
pub struct JuliaExtension;

/// The operating system the extension runs on.
#[derive(Clone, Copy, Debug, PartialEq, Eq, Structural)]
pub enum Os {
    Mac,
    Linux,
    Windows,
}

} // verus!
