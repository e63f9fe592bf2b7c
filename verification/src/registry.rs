use vstd::prelude::*;

use crate::mobile::Ext;

verus! {

/// Application-wide managed state for the plugin: a single-writer,
/// single-slot registry, keyed by the fixed plugin name, that owns the
/// extension handle once the setup hook has stored it.
pub struct AppState {
    slot: Option<Ext>,
}

impl AppState {
    /// The handle the registry holds, if one was stored.
    pub closed spec fn registered(self) -> Option<Ext> {
        self.slot
    }

    /// Fresh application state: nothing registered yet.
    pub fn new() -> (r: AppState)
        ensures
            r.registered() == None::<Ext>,
    {
        AppState { slot: None }
    }

    /// Store the handle in managed state. A handle already stored is
    /// overwritten: re-initialization within one application lifecycle
    /// replaces the previous handle.
    pub fn manage(&mut self, ext: Ext)
        ensures
            final(self).registered() == Some(ext),
    {
        self.slot = Some(ext);
    }

    /// Retrieve the stored handle from managed state.
    pub fn retrieve(&self) -> (r: Option<Ext>)
        ensures
            r == self.registered(),
    {
        self.slot
    }
}

} // verus!
