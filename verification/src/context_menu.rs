//! Context-menu removal.
//!
//! The tool can register itself under a per-user registry key so that files
//! offer it in their context menu. Removing that registration is one
//! registry edit; this module computes the edit's exact argument list, and
//! the caller hands it to the shell that performs registry edits. Everything
//! here is a pure function of constants: no I/O, no process.

use vstd::prelude::*;

verus! {

/// The full path of the registry key that holds the tool's context-menu
/// entries: the per-user classes root for all file types, then the tool's
/// own key.
pub open spec fn context_menu_key() -> Seq<char> {
    "HKCU:SOFTWARE\\Classes\\*\\shell\\CryptoTool"@
}

/// The argument list of the registry edit that removes the tool from the
/// context menu: remove the tool's key and everything under it.
pub fn remove_from_context_menu() -> (r: Vec<String>)
    ensures
        r@.len() == 4,
        r@[0]@ == "Remove-Item"@,
        r@[1]@ == "-LiteralPath"@,
        r@[2]@ == context_menu_key(),
        r@[3]@ == "-Recurse"@,
{
    let mut v: Vec<String> = Vec::new();
    v.push("Remove-Item".to_owned());
    v.push("-LiteralPath".to_owned());
    v.push("HKCU:SOFTWARE\\Classes\\*\\shell\\CryptoTool".to_owned());
    v.push("-Recurse".to_owned());
    v
}

} // verus!
