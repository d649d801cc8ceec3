//! How the documentation is opened in a browser.

use crate::job::{texts, Command};
use vstd::prelude::*;
use vstd::string::*;

verus! {

/// How to show an address to the user.
#[derive(Debug)]
pub enum Launch {
    /// Run the configured browser with these arguments.
    Program(Command),
    /// Hand the address to the system's opener.
    SystemDefault(String),
}

/// Decides how `addr` is opened: by the configured browser, run with its
/// own arguments followed by the address, or, with none configured, by the
/// system's opener.
pub fn browser_launch(addr: &str, browser: Option<&Command>) -> (launch: Launch)
    ensures
        browser matches Some(b) ==> {
            &&& launch matches Launch::Program(cmd)
            &&& cmd.program@ == b.program@
            &&& cmd.arg_texts() == b.arg_texts().push(addr@)
        },
        browser is None ==> (launch matches Launch::SystemDefault(target) && target@ == addr@),
{
    match browser {
        Some(b) => {
            let mut cmd = b.duplicate();
            let ghost before = cmd.args@;
            cmd.args.push(String::from_str(addr));
            assert(texts(cmd.args@) =~= texts(before).push(addr@));
            Launch::Program(cmd)
        },
        None => Launch::SystemDefault(String::from_str(addr)),
    }
}

} // verus!
