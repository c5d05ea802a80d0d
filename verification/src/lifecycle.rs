//! The lifecycle of a document as the registry sees it: the states, the steps
//! that the registry answers with, and the mathematical model of each
//! transition.

use vstd::prelude::*;
use crate::error::DocumentError;
use crate::handle::{DocumentHandle, DocumentId};

verus! {

/// Seconds that a closed handle stays restorable.
pub const GRACE_PERIOD_SECS: i64 = 120;

/// Where a document stands in its lifecycle.
#[derive(Clone, Copy, Debug, PartialEq, Eq, Structural)]
pub enum DocumentState {
    /// No handle exists and none is being built for the registry: the
    /// document was never opened, or its handle was reclaimed or deleted.
    Unloaded,
    /// A handle is being built and will be registered when it is ready.
    Loading,
    /// The registry holds the live handle.
    Active { sync: bool },
    /// The handle was closed and waits for its grace period to run out.
    PendingEviction,
}

/// What the caller of `open_document` has to do next.
#[derive(Clone, Copy, Debug, PartialEq, Eq, Structural)]
pub enum OpenStep {
    /// The handle came back from staging; its sync session must be resumed.
    Restored(DocumentHandle),
    /// The document is active already; nothing is left to do.
    AlreadyOpen,
    /// Another caller is building the handle; wait for it, then open again.
    InFlight,
    /// The caller must build the handle and report how that went.
    Construct,
}

/// A handle in staging, as the timer that will reclaim it knows it.
#[derive(Clone, Copy, Debug, PartialEq, Eq, Structural)]
pub struct EvictionEntry {
    pub doc_id: DocumentId,
    pub handle: DocumentHandle,
    /// The time, in seconds, at which the handle was closed.
    pub armed_at: i64,
}

impl EvictionEntry {
    /// The time at which the grace period ends. It stops at the largest
    /// time that can be told.
    pub open spec fn spec_deadline(&self) -> int {
        if self.armed_at + GRACE_PERIOD_SECS > i64::MAX {
            i64::MAX as int
        } else {
            self.armed_at + GRACE_PERIOD_SECS
        }
    }

    /// The time at which the timer is to fire.
    pub fn deadline(&self) -> (deadline: i64)
        ensures
            deadline == self.spec_deadline(),
    {
        if self.armed_at > i64::MAX - GRACE_PERIOD_SECS {
            i64::MAX
        } else {
            self.armed_at + GRACE_PERIOD_SECS
        }
    }
}

/// Which bytes a new content object is built from.
#[derive(Clone, Copy, Debug, PartialEq, Eq, Structural)]
pub enum ByteSource {
    /// The local persistent store holds the document.
    Local,
    /// The document state must be fetched from the remote backend.
    Remote,
}

/// How an attempt to build a handle ended.
#[derive(Debug)]
pub enum LoadEvent {
    /// The content model built the object known by this instance number.
    Built(u64),
    /// The content model could not build an object from the bytes.
    BuildFailed(DocumentError),
    /// No bytes could be had: the attempt ended before the content model ran.
    SourceFailed(DocumentError),
}

/// What the registry made of a `LoadEvent`.
#[derive(Debug)]
pub struct LoadOutcome {
    /// The handle for the caller, or the failure to surface, whatever
    /// becomes of the purge.
    pub result: Result<DocumentHandle, DocumentError>,
    /// Whether the persisted bytes must be purged before the failure is
    /// surfaced.
    pub purge: bool,
}

/// The handle, or the failure, that a load event stands for.
pub open spec fn load_result(enable_sync: bool, event: LoadEvent) -> Result<
    DocumentHandle,
    DocumentError,
> {
    match event {
        LoadEvent::Built(instance) => Ok(DocumentHandle { instance, sync_enabled: enable_sync }),
        LoadEvent::BuildFailed(err) => Err(err),
        LoadEvent::SourceFailed(err) => Err(err),
    }
}

/// A load ended on corrupt bytes exactly when the content model rejected them
/// as invalid data.
pub open spec fn load_needs_purge(event: LoadEvent) -> bool {
    match event {
        LoadEvent::BuildFailed(err) => err.is_invalid_data(),
        _ => false,
    }
}

/// The registry as mathematics: both tiers and the ids under construction.
#[verifier::ext_equal]
pub struct RegistryView {
    pub active: Map<u128, DocumentHandle>,
    pub staging: Map<u128, DocumentHandle>,
    pub loading: Set<u128>,
}

impl RegistryView {
    /// The registry that holds nothing.
    pub open spec fn empty() -> RegistryView {
        RegistryView { active: Map::empty(), staging: Map::empty(), loading: Set::empty() }
    }

    /// The active tier holds a handle for `id`.
    pub open spec fn is_active(self, id: u128) -> bool {
        self.active.contains_key(id)
    }

    /// A closed handle of `id` waits in staging.
    pub open spec fn is_staged(self, id: u128) -> bool {
        self.staging.contains_key(id)
    }

    /// A handle for `id` is under construction.
    pub open spec fn is_loading(self, id: u128) -> bool {
        self.loading.contains(id)
    }

    /// No id lives in both tiers, no id under construction lives in either,
    /// and every registered handle was built with sync enabled.
    pub open spec fn wf(self) -> bool {
        &&& forall|id: u128| #[trigger]
            self.active.contains_key(id) ==> {
                &&& !self.staging.contains_key(id)
                &&& !self.loading.contains(id)
                &&& self.active[id].sync_enabled
            }
        &&& forall|id: u128| #[trigger]
            self.staging.contains_key(id) ==> {
                &&& !self.loading.contains(id)
                &&& self.staging[id].sync_enabled
            }
    }

    /// Where `id` stands in its lifecycle.
    pub open spec fn state_of(self, id: u128) -> DocumentState {
        if self.is_active(id) {
            DocumentState::Active { sync: self.active[id].sync_enabled }
        } else if self.is_staged(id) {
            DocumentState::PendingEviction
        } else if self.is_loading(id) {
            DocumentState::Loading
        } else {
            DocumentState::Unloaded
        }
    }

    /// The handle that a caller gets for `id` without building one.
    pub open spec fn obtainable(self, id: u128) -> Option<DocumentHandle> {
        if self.is_active(id) {
            Some(self.active[id])
        } else if self.is_staged(id) {
            Some(self.staging[id])
        } else {
            None
        }
    }

    /// A staged handle moves back into the active tier.
    pub open spec fn restore(self, id: u128) -> RegistryView {
        if self.is_staged(id) {
            RegistryView {
                active: self.active.insert(id, self.staging[id]),
                staging: self.staging.remove(id),
                loading: self.loading,
            }
        } else {
            self
        }
    }

    /// The registry after a caller asked for the handle of `id`.
    pub open spec fn lookup(self, id: u128) -> RegistryView {
        if self.is_active(id) {
            self
        } else {
            self.restore(id)
        }
    }

    /// What a caller who opens `id` is told to do.
    pub open spec fn open_step(self, id: u128) -> OpenStep {
        if self.is_staged(id) {
            OpenStep::Restored(self.staging[id])
        } else if self.is_active(id) {
            OpenStep::AlreadyOpen
        } else if self.is_loading(id) {
            OpenStep::InFlight
        } else {
            OpenStep::Construct
        }
    }

    /// The registry after `id` was opened: a staged handle is restored, and
    /// an id that nobody holds or builds is marked as under construction.
    pub open spec fn open(self, id: u128) -> RegistryView {
        if self.is_staged(id) {
            self.restore(id)
        } else if self.is_active(id) || self.is_loading(id) {
            self
        } else {
            RegistryView {
                active: self.active,
                staging: self.staging,
                loading: self.loading.insert(id),
            }
        }
    }

    /// An active handle moves into staging; anything else stays as it is.
    pub open spec fn close(self, id: u128) -> RegistryView {
        if self.is_active(id) {
            RegistryView {
                active: self.active.remove(id),
                staging: self.staging.insert(id, self.active[id]),
                loading: self.loading,
            }
        } else {
            self
        }
    }

    /// The grace period of `id` ran out: its staged handle is dropped.
    pub open spec fn reclaim(self, id: u128) -> RegistryView {
        RegistryView {
            active: self.active,
            staging: self.staging.remove(id),
            loading: self.loading,
        }
    }

    /// The bytes of `id` were erased: its active handle is dropped.
    pub open spec fn delete(self, id: u128) -> RegistryView {
        RegistryView {
            active: self.active.remove(id),
            staging: self.staging,
            loading: self.loading,
        }
    }

    /// Both tiers are emptied; constructions under way stay under way.
    pub open spec fn reset(self) -> RegistryView {
        RegistryView { active: Map::empty(), staging: Map::empty(), loading: self.loading }
    }

    /// An attempt to build a handle for `id` ended with `event`.
    ///
    /// Only a handle built with sync enabled is registered. It replaces
    /// whatever either tier held for the id.
    pub open spec fn finish_load(self, id: u128, enable_sync: bool, event: LoadEvent) -> RegistryView {
        if !enable_sync {
            self
        } else {
            match event {
                LoadEvent::Built(instance) => RegistryView {
                    active: self.active.insert(
                        id,
                        DocumentHandle { instance, sync_enabled: true },
                    ),
                    staging: self.staging.remove(id),
                    loading: self.loading.remove(id),
                },
                _ => RegistryView {
                    active: self.active,
                    staging: self.staging,
                    loading: self.loading.remove(id),
                },
            }
        }
    }
}

} // verus!
