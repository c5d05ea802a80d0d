//! What holds of the registry in every reachable state and across sequences
//! of calls, proved over the model of the transitions.

use vstd::prelude::*;
use crate::handle::DocumentHandle;
use crate::error::DocumentError;
use crate::lifecycle::{
    load_needs_purge, load_result, DocumentState, LoadEvent, OpenStep, RegistryView,
};

verus! {

/// A well-formed registry never holds an id in both tiers, and an id under
/// construction lives in neither.
pub proof fn lemma_single_residency(view: RegistryView, id: u128)
    requires
        view.wf(),
    ensures
        !(view.is_active(id) && view.is_staged(id)),
        view.is_loading(id) ==> !view.is_active(id) && !view.is_staged(id),
{
}

/// In a well-formed registry every handle that a caller can obtain without
/// building one was built with sync enabled: a handle built for reading
/// alone is never found there.
pub proof fn lemma_registered_handles_sync(view: RegistryView, id: u128)
    requires
        view.wf(),
    ensures
        view.obtainable(id) is Some ==> view.obtainable(id)->Some_0.sync_enabled,
        view.is_active(id) ==> view.state_of(id) == (DocumentState::Active { sync: true }),
{
}

/// The empty registry is well formed.
pub proof fn lemma_empty_wf()
    ensures
        RegistryView::empty().wf(),
{
}

/// Restoring, looking up and opening keep a well-formed registry well
/// formed.
pub proof fn lemma_open_preserves_wf(view: RegistryView, id: u128)
    requires
        view.wf(),
    ensures
        view.restore(id).wf(),
        view.lookup(id).wf(),
        view.open(id).wf(),
{
}

/// Closing, reclaiming and deleting keep a well-formed registry well formed.
pub proof fn lemma_close_preserves_wf(view: RegistryView, id: u128)
    requires
        view.wf(),
    ensures
        view.close(id).wf(),
        view.reclaim(id).wf(),
        view.delete(id).wf(),
{
}

/// Emptying both tiers keeps a well-formed registry well formed.
pub proof fn lemma_reset_preserves_wf(view: RegistryView)
    requires
        view.wf(),
    ensures
        view.reset().wf(),
{
}

/// Taking in the end of a construction keeps a well-formed registry well
/// formed, whatever the event and whether or not the id was under
/// construction.
pub proof fn lemma_finish_load_preserves_wf(
    view: RegistryView,
    id: u128,
    enable_sync: bool,
    event: LoadEvent,
)
    requires
        view.wf(),
    ensures
        view.finish_load(id, enable_sync, event).wf(),
{
}

/// Of two callers that open the same document one after the other, at most
/// one is told to build the handle, whatever state the document is in. When
/// the handle has been built and registered, the one who built it and
/// everyone who opens or looks up the document afterwards hold that same
/// handle, and nobody is told to build another.
pub proof fn lemma_one_construction(view: RegistryView, id: u128, instance: u64)
    ensures
        view.open(id).open_step(id) != OpenStep::Construct,
        view.open(id).open(id) == view.open(id),
        ({
            let handle = DocumentHandle { instance, sync_enabled: true };
            let event = LoadEvent::Built(instance);
            let registered = view.open(id).finish_load(id, true, event);
            &&& load_result(true, event) == Ok::<DocumentHandle, DocumentError>(handle)
            &&& registered.obtainable(id) == Some(handle)
            &&& registered.open_step(id) == OpenStep::AlreadyOpen
            &&& registered.open(id) == registered
            &&& registered.lookup(id) == registered
        }),
{
    let opened = view.open(id);
    assert(opened.open(id) =~= opened);
    let registered = opened.finish_load(id, true, LoadEvent::Built(instance));
    assert(registered.open(id) =~= registered);
    assert(registered.lookup(id) =~= registered);
}

/// Closing an active document and opening it again restores the handle that
/// was closed and puts the registry back as it was; nothing is built.
pub proof fn lemma_close_then_open_restores(view: RegistryView, id: u128)
    requires
        view.wf(),
        view.is_active(id),
    ensures
        view.close(id).state_of(id) == DocumentState::PendingEviction,
        view.close(id).open_step(id) == OpenStep::Restored(view.active[id]),
        view.close(id).open(id) == view,
        view.close(id).lookup(id) == view,
{
    let closed = view.close(id);
    assert(closed.open(id).active =~= view.active);
    assert(closed.open(id).staging =~= view.staging);
    assert(closed.open(id) =~= view);
    assert(closed.lookup(id) =~= view);
}

/// A construction that ends on invalid data is surfaced as that failure and
/// asks for the stored bytes to be purged. Once they are erased, the
/// document is unloaded, and the next caller who opens it starts a new
/// construction.
pub proof fn lemma_corrupt_data_is_purged(view: RegistryView, id: u128, err: DocumentError)
    requires
        view.wf(),
        view.is_loading(id),
        err.is_invalid_data(),
    ensures
        ({
            let event = LoadEvent::BuildFailed(err);
            let purged = view.finish_load(id, true, event).delete(id);
            &&& load_needs_purge(event)
            &&& load_result(true, event) == Err::<DocumentHandle, DocumentError>(err)
            &&& purged.state_of(id) == DocumentState::Unloaded
            &&& purged.open_step(id) == OpenStep::Construct
        }),
{
}

/// A failure other than invalid data, or one met before the content model
/// ran, never asks for a purge.
pub proof fn lemma_only_corrupt_data_is_purged(event: LoadEvent)
    ensures
        load_needs_purge(event) <==> (event matches LoadEvent::BuildFailed(err)
            && err.is_invalid_data()),
{
}

/// No transition on one document changes the state of another, and a
/// construction that ends changes nothing but the document it was for.
pub proof fn lemma_other_documents_untouched(
    view: RegistryView,
    id: u128,
    other: u128,
    enable_sync: bool,
    event: LoadEvent,
)
    requires
        other != id,
    ensures
        view.restore(id).state_of(other) == view.state_of(other),
        view.lookup(id).state_of(other) == view.state_of(other),
        view.open(id).state_of(other) == view.state_of(other),
        view.close(id).state_of(other) == view.state_of(other),
        view.reclaim(id).state_of(other) == view.state_of(other),
        view.delete(id).state_of(other) == view.state_of(other),
        view.finish_load(id, enable_sync, event).state_of(other) == view.state_of(other),
        view.restore(id).obtainable(other) == view.obtainable(other),
        view.lookup(id).obtainable(other) == view.obtainable(other),
        view.open(id).obtainable(other) == view.obtainable(other),
        view.close(id).obtainable(other) == view.obtainable(other),
        view.reclaim(id).obtainable(other) == view.obtainable(other),
        view.delete(id).obtainable(other) == view.obtainable(other),
        view.finish_load(id, enable_sync, event).obtainable(other) == view.obtainable(other),
{
}

/// A document becomes active in two ways only: a staged handle is restored,
/// or a construction with sync ends with a handle.
pub proof fn lemma_ways_into_active(
    view: RegistryView,
    id: u128,
    subject: u128,
    enable_sync: bool,
    event: LoadEvent,
)
    requires
        view.wf(),
        !view.is_active(subject),
    ensures
        view.restore(id).is_active(subject) ==> subject == id && view.is_staged(id),
        view.lookup(id).is_active(subject) ==> subject == id && view.is_staged(id),
        view.open(id).is_active(subject) ==> subject == id && view.is_staged(id),
        !view.close(id).is_active(subject),
        !view.reclaim(id).is_active(subject),
        !view.delete(id).is_active(subject),
        !view.reset().is_active(subject),
        view.finish_load(id, enable_sync, event).is_active(subject) ==> subject == id
            && enable_sync && event is Built,
{
}

} // verus!
