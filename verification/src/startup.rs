//! What is settled before serving begins: the package whose documentation
//! is shown, the port, and the address.

use crate::text::{decimal, decimal_text, replace_char, replaced, str_eq};
use vstd::prelude::*;
use vstd::string::*;

verus! {

/// The options of `cargo doc` that matter here.
#[derive(Debug, Clone)]
pub struct CargoDocOptions {
    /// The workspace package named with `-p` or `--package`.
    pub package: Option<String>,
}

/// Why startup was given up.
#[derive(Debug, Clone, Copy, PartialEq, Eq, Structural)]
pub enum StartupError {
    /// The preferred port is taken and no other could be found.
    NoUnusedPort,
    /// Neither the command line nor the project names a package.
    NoRootPackage,
}

impl StartupError {
    /// The text shown to the operator.
    pub open spec fn message_text(&self) -> Seq<char> {
        match self {
            StartupError::NoUnusedPort => "there should be an unused port left"@,
            StartupError::NoRootPackage =>
                "project must have either a root package or workspace members"@,
        }
    }

    /// The text shown to the operator.
    pub fn message(&self) -> (text: String)
        ensures
            text@ == self.message_text(),
    {
        match self {
            StartupError::NoUnusedPort => String::from_str("there should be an unused port left"),
            StartupError::NoRootPackage => String::from_str(
                "project must have either a root package or workspace members",
            ),
        }
    }
}

/// The port that is tried first.
pub const PREFERRED_PORT: u16 = 4153;

/// The port to serve on: the preferred one where it is free, else the one
/// that was found unused, else none.
pub open spec fn chosen_port(preferred_free: bool, unused: Option<u16>) -> Result<
    u16,
    StartupError,
> {
    if preferred_free {
        Ok(PREFERRED_PORT)
    } else {
        match unused {
            Some(port) => Ok(port),
            None => Err(StartupError::NoUnusedPort),
        }
    }
}

/// Picks the port to serve on. `preferred_free` says whether
/// [`PREFERRED_PORT`] can be bound; `unused` is a port found unused, if the
/// search found one. It is not looked at while the preferred port is free.
pub fn choose_port(preferred_free: bool, unused: Option<u16>) -> (port: Result<u16, StartupError>)
    ensures
        port == chosen_port(preferred_free, unused),
{
    if preferred_free {
        Ok(PREFERRED_PORT)
    } else {
        match unused {
            Some(port) => Ok(port),
            None => Err(StartupError::NoUnusedPort),
        }
    }
}

/// The name as documentation paths write it: `_` for every `-`.
pub open spec fn doc_name(package: Seq<char>) -> Seq<char> {
    replaced(package, '-', '_')
}

/// The package to show, before its name is rewritten: the one asked for
/// with the open option unless that is the word `crate`, else the project's
/// root package, else the first member of the workspace.
pub open spec fn preferred_package(
    open: Option<Seq<char>>,
    root: Option<Seq<char>>,
    first_member: Option<Seq<char>>,
) -> Option<Seq<char>> {
    if open is Some && open->0 != "crate"@ {
        open
    } else if root is Some {
        root
    } else {
        first_member
    }
}

/// The view of an optional piece of text.
pub open spec fn opt_text(s: Option<&str>) -> Option<Seq<char>> {
    match s {
        Some(t) => Some(t@),
        None => None,
    }
}

/// The view of an optional string.
pub open spec fn opt_string(s: Option<String>) -> Option<Seq<char>> {
    match s {
        Some(t) => Some(t@),
        None => None,
    }
}

/// The name under which the documentation of the shown package is served.
///
/// `open` is the value of the open option, `root` the name of the project's
/// root package and `first_member` that of the workspace's first member, as
/// far as each exists. `None` comes back exactly when none of the three
/// names a package.
pub fn root_package(open: Option<&str>, root: Option<&str>, first_member: Option<&str>) -> (name:
    Option<String>)
    ensures
        opt_string(name) == match preferred_package(
            opt_text(open),
            opt_text(root),
            opt_text(first_member),
        ) {
            Some(package) => Some(doc_name(package)),
            None => None,
        },
{
    let asked: Option<&str> = match open {
        Some(o) => if str_eq(o, "crate") {
            None
        } else {
            Some(o)
        },
        None => None,
    };
    let package: Option<&str> = match asked {
        Some(o) => Some(o),
        None => match root {
            Some(r) => Some(r),
            None => first_member,
        },
    };
    match package {
        Some(p) => Some(replace_char(p, '-', '_')),
        None => None,
    }
}

/// The package whose documentation is shown: the one named on the command
/// line, taken as it is, else what [`root_package`] finds, else an error.
pub fn resolve_package(
    options: CargoDocOptions,
    open: Option<&str>,
    root: Option<&str>,
    first_member: Option<&str>,
) -> (name: Result<String, StartupError>)
    ensures
        options.package matches Some(p) ==> (name matches Ok(n) && n@ == p@),
        options.package is None ==> match preferred_package(
            opt_text(open),
            opt_text(root),
            opt_text(first_member),
        ) {
            Some(package) => (name matches Ok(n) && n@ == doc_name(package)),
            None => name == Err::<String, StartupError>(StartupError::NoRootPackage),
        },
{
    match options.package {
        Some(p) => Ok(p),
        None => match root_package(open, root, first_member) {
            Some(n) => Ok(n),
            None => Err(StartupError::NoRootPackage),
        },
    }
}

/// The address of the documentation of `package` on the local host.
pub open spec fn docs_url_text(port: u16, package: Seq<char>) -> Seq<char> {
    "http://127.0.0.1:"@ + decimal(port as nat) + "/"@ + package
}

/// Writes the address under which the documentation of `package` is served
/// on `port` of the local host.
pub fn docs_url(port: u16, package: &str) -> (url: String)
    ensures
        url@ == docs_url_text(port, package@),
{
    let mut url = String::from_str("http://127.0.0.1:");
    let digits = decimal_text(port);
    url.append(digits.as_str());
    url.append("/");
    url.append(package);
    url
}

} // verus!
