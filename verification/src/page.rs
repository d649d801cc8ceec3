//! What is sent to the browser besides the documentation itself: the page
//! shown while the documentation is not built yet, and the theme script.

use crate::text::starts_with;
use vstd::prelude::*;
use vstd::string::*;

verus! {

/// What `unindent::unindent` makes of a text: the text without the
/// indentation that its lines share.
pub uninterp spec fn unindented(text: Seq<char>) -> Seq<char>;

/// Removes the shared indentation of a text.
///
/// Trusted: calls `unindent::unindent`, which computes its result from the
/// bytes of its argument alone and does not fail on any text; the contract
/// only gives that result its name.
#[verifier::external_body]
fn unindent_text(text: &str) -> (out: String)
    ensures
        out@ == unindented(text@),
{
    unindent::unindent(text)
}

/// The fallback page as it is written down, indentation included.
pub open spec fn fallback_source(root_addr: Seq<char>) -> Seq<char> {
    "\n                        <head>\n                            <meta http-equiv='refresh' content='0; URL="@
        + root_addr + "'>\n                        </head>\n                    "@
}

/// The page sent for a path that does not exist (yet): it sends the browser
/// on to `root_addr` at once.
pub fn fallback_document(root_addr: &str) -> (page: String)
    ensures
        page@ == unindented(fallback_source(root_addr@)),
{
    let mut source = String::from_str(
        "\n                        <head>\n                            <meta http-equiv='refresh' content='0; URL=",
    );
    source.append(root_addr);
    source.append("'>\n                        </head>\n                    ");
    unindent_text(source.as_str())
}

/// The colour theme forced on the served pages.
#[derive(Debug, Clone, Copy, PartialEq, Eq, Structural)]
pub enum Theme {
    Light,
    Dark,
    Ayu,
    AutoAyu,
    AutoDark,
}

impl Theme {
    /// The dark theme that the pages prefer under this theme.
    pub open spec fn preferred_dark(&self) -> Seq<char> {
        match self {
            Theme::Ayu | Theme::AutoAyu => "ayu"@,
            _ => "dark"@,
        }
    }

    /// The theme that the pages use.
    pub open spec fn name(&self) -> Seq<char> {
        match self {
            Theme::Light => "light"@,
            Theme::Dark | Theme::AutoDark => "dark"@,
            Theme::Ayu | Theme::AutoAyu => "ayu"@,
        }
    }

    /// Whether the pages follow the system's theme: `true` or `false`.
    pub open spec fn follows_system(&self) -> Seq<char> {
        match self {
            Theme::AutoAyu | Theme::AutoDark => "true"@,
            _ => "false"@,
        }
    }

    /// The script that sets this theme.
    pub open spec fn script_text(&self) -> Seq<char> {
        "<script/> updateLocalStorage(\"preferred-dark-theme\", \""@ + self.preferred_dark()
            + "\"); updateLocalStorage(\"theme\", \""@ + self.name()
            + "\"); updateLocalStorage(\"use-system-theme\", \""@ + self.follows_system()
            + "\"); updateTheme() </script>"@
    }

    /// Writes the script that sets this theme in the page it is appended to.
    pub fn script(&self) -> (text: String)
        ensures
            text@ == self.script_text(),
    {
        let dark = match self {
            Theme::Ayu | Theme::AutoAyu => "ayu",
            _ => "dark",
        };
        let name = match self {
            Theme::Light => "light",
            Theme::Dark | Theme::AutoDark => "dark",
            Theme::Ayu | Theme::AutoAyu => "ayu",
        };
        let auto = match self {
            Theme::AutoAyu | Theme::AutoDark => "true",
            _ => "false",
        };
        let mut text = String::from_str("<script/> updateLocalStorage(\"preferred-dark-theme\", \"");
        text.append(dark);
        text.append("\"); updateLocalStorage(\"theme\", \"");
        text.append(name);
        text.append("\"); updateLocalStorage(\"use-system-theme\", \"");
        text.append(auto);
        text.append("\"); updateTheme() </script>");
        text
    }
}

/// Whether a response of this content type is a page: the type is known
/// and begins with `text/html`.
pub open spec fn is_page(content_type: Option<&str>) -> bool {
    content_type matches Some(t) && "text/html"@.is_prefix_of(t@)
}

/// What is appended to a response under `theme`: the theme's script for a
/// page, nothing for anything else. A response that gets the script is not
/// to be stored by the browser.
pub fn theme_injection(theme: Theme, content_type: Option<&str>) -> (script: Option<String>)
    ensures
        is_page(content_type) ==> (script matches Some(s) && s@ == theme.script_text()),
        !is_page(content_type) ==> script is None,
{
    match content_type {
        Some(t) => {
            if starts_with(t, "text/html") {
                Some(theme.script())
            } else {
                None
            }
        },
        None => None,
    }
}

} // verus!
