//! Pinning the extracted maps to durable filesystem paths.
//!
//! Pinning exposes a kernel-resident map at a path so its state survives a
//! controller restart.  `PinStore` models what the controller relies on of
//! the pin directory: whether it exists and which map is pinned under each
//! leaf.  The caller that performs the real directory creation and pin
//! syscalls reports their outcomes here and keeps the model in step.

use vstd::prelude::*;
use vstd::string::*;

use crate::errors::AgentError;
use crate::image::MapRole;
use crate::image::MapToken;

verus! {

/// The leaf name under which the map of this role is pinned.
pub fn pin_leaf(role: MapRole) -> (r: &'static str)
    ensures
        role is NetworkEvents ==> r@ == "events_map"@,
        role is VethEvents ==> r@ == "veth_map"@,
{
    match role {
        MapRole::NetworkEvents => "events_map",
        MapRole::VethEvents => "veth_map",
    }
}

/// The full path `base/<leaf>` under which the map of this role is pinned.
pub fn pin_path(base: &str, role: MapRole) -> (r: String)
    ensures
        role is NetworkEvents ==> r@ == base@ + "/events_map"@,
        role is VethEvents ==> r@ == base@ + "/veth_map"@,
{
    let b = String::from_str(base);
    match role {
        MapRole::NetworkEvents => b.concat("/events_map"),
        MapRole::VethEvents => b.concat("/veth_map"),
    }
}

/// Model of the pin directory: whether it exists, and which map token is
/// pinned under each of the two leaf paths.
#[derive(Clone, Copy, Debug)]
pub struct PinStore {
    pub dir_exists: bool,
    pub events_entry: Option<MapToken>,
    pub veth_entry: Option<MapToken>,
}

/// Non-fatal findings of a pin pass, handed back for logging.
#[derive(Clone, Copy, Debug)]
pub struct PinReport {
    /// `Some(DirectoryCreationError)` when the pin directory was missing
    /// and creating it failed; the failure is reported, never propagated.
    pub dir_warning: Option<AgentError>,
}

impl PinStore {
    /// The entry pinned under the leaf of this role.
    pub open spec fn entry(self, role: MapRole) -> Option<MapToken> {
        match role {
            MapRole::NetworkEvents => self.events_entry,
            MapRole::VethEvents => self.veth_entry,
        }
    }

    /// A pin directory with nothing pinned yet.
    pub fn new(dir_exists: bool) -> (r: PinStore)
        ensures
            r == (PinStore { dir_exists, events_entry: None, veth_entry: None }),
    {
        PinStore { dir_exists, events_entry: None, veth_entry: None }
    }
}

/// Whether a pin pass over this store succeeds: the directory exists (or
/// its creation succeeds) and neither leaf is already pinned.
pub open spec fn spec_pin_ok(store: PinStore, create_ok: bool) -> bool {
    &&& store.dir_exists || create_ok
    &&& store.events_entry is None
    &&& store.veth_entry is None
}

/// The store after a pin pass.  The network-events map is pinned first, so
/// a failure on the veth leaf leaves the events leaf pinned.
pub open spec fn spec_after_pin(
    store: PinStore,
    events: MapToken,
    veth: MapToken,
    create_ok: bool,
) -> PinStore {
    let dir = store.dir_exists || create_ok;
    let events_ok = dir && store.events_entry is None;
    let veth_ok = dir && store.veth_entry is None;
    PinStore {
        dir_exists: dir,
        events_entry: if events_ok {
            Some(events)
        } else {
            store.events_entry
        },
        veth_entry: if events_ok && veth_ok {
            Some(veth)
        } else {
            store.veth_entry
        },
    }
}

/// Pin the two extracted maps under the pin directory.
///
/// If the directory is missing it is created first; a creation failure is
/// only reported (`dir_warning`), after which pinning fails against the
/// missing directory.  Each pin succeeds exactly when the directory exists
/// and nothing is pinned under that leaf yet; the first pin failure aborts
/// the pass with `PinError`, leaving any earlier pin in place.
pub fn map_pinner(store: &mut PinStore, events: &MapToken, veth: &MapToken, create_ok: bool) -> (r:
    (PinReport, Result<(), AgentError>))
    requires
        events.role is NetworkEvents,
        veth.role is VethEvents,
    ensures
        *final(store) == spec_after_pin(*old(store), *events, *veth, create_ok),
        r.1 is Ok <==> spec_pin_ok(*old(store), create_ok),
        r.1 is Err ==> r.1->Err_0 == AgentError::PinError,
        r.0.dir_warning == (if !old(store).dir_exists && !create_ok {
            Some(AgentError::DirectoryCreationError)
        } else {
            None::<AgentError>
        }),
{
    let mut report = PinReport { dir_warning: None };
    if !store.dir_exists {
        if create_ok {
            store.dir_exists = true;
        } else {
            report.dir_warning = Some(AgentError::DirectoryCreationError);
        }
    }
    if !(store.dir_exists && store.events_entry.is_none()) {
        return (report, Err(AgentError::PinError));
    }
    store.events_entry = Some(*events);
    if !(store.dir_exists && store.veth_entry.is_none()) {
        return (report, Err(AgentError::PinError));
    }
    store.veth_entry = Some(*veth);
    (report, Ok(()))
}

/// Open the map pinned under the leaf of this role, as a fresh process
/// loading by path would: it observes exactly the entry that was pinned.
pub fn load_pinned(store: &PinStore, role: MapRole) -> (r: Option<MapToken>)
    ensures
        r == store.entry(role),
{
    match role {
        MapRole::NetworkEvents => store.events_entry,
        MapRole::VethEvents => store.veth_entry,
    }
}

/// Pin round-trip: after a successful pin pass, both leaf paths hold an
/// entry, and a fresh load by either path observes the very token that was
/// pinned — in particular the same kernel-side map identity.
pub proof fn lemma_pin_round_trip(
    store: PinStore,
    events: MapToken,
    veth: MapToken,
    create_ok: bool,
)
    requires
        spec_pin_ok(store, create_ok),
    ensures
        spec_after_pin(store, events, veth, create_ok).entry(MapRole::NetworkEvents) == Some(
            events,
        ),
        spec_after_pin(store, events, veth, create_ok).entry(MapRole::VethEvents) == Some(veth),
{
}

} // verus!
