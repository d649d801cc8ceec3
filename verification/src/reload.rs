//! Telling the served pages to reload.

use crate::coordinator::Action;
use tower_livereload::Reloader;
use vstd::prelude::*;

verus! {

/// Declares `tower_livereload::Reloader`, the sending end of the reload
/// channel, to the verifier. Nothing inside it is visible to proofs.
#[verifier::external_type_specification]
#[verifier::external_body]
pub struct ExReloader(Reloader);

/// Sends one reload request.
///
/// Trusted: calls `Reloader::reload`, which wakes the pages that wait at
/// this moment and returns at once. It has no result and cannot fail; with
/// nobody waiting it does nothing. Nothing is claimed of it.
#[verifier::external_body]
fn send_reload(reloader: &Reloader) {
    reloader.reload()
}

/// The reload broadcaster: it reaches every page that is connected when a
/// notification is sent. Pages subscribe and leave through the server.
pub struct ReloadBroadcaster {
    reloader: Reloader,
}

impl ReloadBroadcaster {
    /// The channel through which notifications are sent.
    pub closed spec fn channel(&self) -> Reloader {
        self.reloader
    }

    /// A broadcaster that sends through `reloader`.
    pub fn new(reloader: Reloader) -> (broadcaster: ReloadBroadcaster)
        ensures
            broadcaster.channel() == reloader,
    {
        ReloadBroadcaster { reloader }
    }

    /// Tells every connected page to reload. With no page connected this
    /// does nothing; it never waits and never fails.
    pub fn notify_all(&self) {
        send_reload(&self.reloader)
    }

    /// Carries out the part of `action` that concerns the pages: a reload
    /// is broadcast, anything else is left alone. Returns whether a
    /// notification was sent.
    pub fn deliver(&self, action: Action) -> (sent: bool)
        ensures
            sent == (action is Reload),
    {
        match action {
            Action::Reload => {
                self.notify_all();
                true
            },
            _ => false,
        }
    }
}

} // verus!
