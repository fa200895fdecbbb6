use vstd::prelude::*;

verus! {

/// The command-line surface of the editor: at most one positional argument,
/// the path of the file to open. The outer shell parses the real command
/// line and hands the path over as a plain string.
pub struct CustomArgs {
    pub file: Option<String>,
}

} // verus!
