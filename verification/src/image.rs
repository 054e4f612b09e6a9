//! Model of the loaded kernel program image and the map registry.
//!
//! The image is an opaque blob to the controller; all its decisions depend
//! only on which named resources the image carries and which of them have
//! already been consumed.  `ImageState` records exactly that, so every
//! lifecycle decision over it can be verified.  The caller that actually
//! loads the blob keeps this model in step with the real image: a resource
//! is present in the model exactly when lookup by its fixed name succeeds.

use vstd::prelude::*;

use crate::errors::AgentError;

verus! {

/// The two kernel-maintained event maps, by logical role.
#[derive(Clone, Copy, Debug, PartialEq, Eq, Structural)]
pub enum MapRole {
    /// TCP/UDP/ICMP traffic events.
    NetworkEvents,
    /// Virtual-interface creation/deletion events.
    VethEvents,
}

/// The three programs carried by the image, by logical role.
#[derive(Clone, Copy, Debug, PartialEq, Eq, Structural)]
pub enum ProgramRole {
    /// The traffic-control classifier attached per interface.
    Classifier,
    /// The kernel probe firing on device registration.
    VethCreationProbe,
    /// The kernel probe firing on device unregistration.
    VethDeletionProbe,
}

/// The fixed name under which a map is looked up inside the image.
pub fn map_name(role: MapRole) -> (r: &'static str)
    ensures
        role is NetworkEvents ==> r@ == "EventsMap"@,
        role is VethEvents ==> r@ == "veth_identity_map"@,
{
    match role {
        MapRole::NetworkEvents => "EventsMap",
        MapRole::VethEvents => "veth_identity_map",
    }
}

/// The fixed name under which a program is looked up inside the image.
pub fn program_name(role: ProgramRole) -> (r: &'static str)
    ensures
        role is Classifier ==> r@ == "identity_classifier"@,
        role is VethCreationProbe ==> r@ == "veth_creation_trace"@,
        role is VethDeletionProbe ==> r@ == "veth_deletion_trace"@,
{
    match role {
        ProgramRole::Classifier => "identity_classifier",
        ProgramRole::VethCreationProbe => "veth_creation_trace",
        ProgramRole::VethDeletionProbe => "veth_deletion_trace",
    }
}

/// The fixed kernel symbol a lifecycle probe attaches to; the classifier
/// attaches to interfaces, not to a symbol.
pub fn probe_symbol(role: ProgramRole) -> (r: Option<&'static str>)
    ensures
        role is Classifier ==> r is None,
        role is VethCreationProbe ==> r is Some && r->0@ == "register_netdevice"@,
        role is VethDeletionProbe ==> r is Some && r->0@ == "unregister_netdevice_queue"@,
{
    match role {
        ProgramRole::Classifier => None,
        ProgramRole::VethCreationProbe => Some("register_netdevice"),
        ProgramRole::VethDeletionProbe => Some("unregister_netdevice_queue"),
    }
}

/// Witness that a named map was taken from the image.  `kernel_id` stands
/// for the identity of the kernel-resident object backing the map, so that
/// a pinned map can later be recognised as the same kernel-side state.
#[derive(Clone, Copy, Debug, PartialEq, Eq, Structural)]
pub struct MapToken {
    pub role: MapRole,
    pub kernel_id: u64,
}

/// What the controller knows of the loaded image: which named resources it
/// carries, which maps have been taken, which programs have been loaded.
#[derive(Clone, Copy, Debug, PartialEq, Eq, Structural)]
pub struct ImageState {
    pub has_events_map: bool,
    pub has_veth_map: bool,
    pub events_map_taken: bool,
    pub veth_map_taken: bool,
    pub events_map_id: u64,
    pub veth_map_id: u64,
    pub has_classifier: bool,
    pub has_creation_probe: bool,
    pub has_deletion_probe: bool,
    pub classifier_loaded: bool,
    pub creation_probe_loaded: bool,
    pub deletion_probe_loaded: bool,
}

impl ImageState {
    /// A freshly loaded image: carries the given resources, nothing taken,
    /// nothing loaded.
    pub fn fresh(
        has_events_map: bool,
        has_veth_map: bool,
        events_map_id: u64,
        veth_map_id: u64,
        has_classifier: bool,
        has_creation_probe: bool,
        has_deletion_probe: bool,
    ) -> (r: ImageState)
        ensures
            r == (ImageState {
                has_events_map,
                has_veth_map,
                events_map_taken: false,
                veth_map_taken: false,
                events_map_id,
                veth_map_id,
                has_classifier,
                has_creation_probe,
                has_deletion_probe,
                classifier_loaded: false,
                creation_probe_loaded: false,
                deletion_probe_loaded: false,
            }),
    {
        ImageState {
            has_events_map,
            has_veth_map,
            events_map_taken: false,
            veth_map_taken: false,
            events_map_id,
            veth_map_id,
            has_classifier,
            has_creation_probe,
            has_deletion_probe,
            classifier_loaded: false,
            creation_probe_loaded: false,
            deletion_probe_loaded: false,
        }
    }

    /// Whether the image carries the map of this role.
    pub open spec fn map_present(self, role: MapRole) -> bool {
        match role {
            MapRole::NetworkEvents => self.has_events_map,
            MapRole::VethEvents => self.has_veth_map,
        }
    }

    /// Whether the map of this role has already been taken.
    pub open spec fn map_taken(self, role: MapRole) -> bool {
        match role {
            MapRole::NetworkEvents => self.events_map_taken,
            MapRole::VethEvents => self.veth_map_taken,
        }
    }

    /// The kernel identity of the map of this role.
    pub open spec fn map_id(self, role: MapRole) -> u64 {
        match role {
            MapRole::NetworkEvents => self.events_map_id,
            MapRole::VethEvents => self.veth_map_id,
        }
    }

    /// Whether the image carries the program of this role.
    pub open spec fn program_present(self, role: ProgramRole) -> bool {
        match role {
            ProgramRole::Classifier => self.has_classifier,
            ProgramRole::VethCreationProbe => self.has_creation_probe,
            ProgramRole::VethDeletionProbe => self.has_deletion_probe,
        }
    }

    /// Whether the program of this role has been loaded into the kernel.
    pub open spec fn program_loaded(self, role: ProgramRole) -> bool {
        match role {
            ProgramRole::Classifier => self.classifier_loaded,
            ProgramRole::VethCreationProbe => self.creation_probe_loaded,
            ProgramRole::VethDeletionProbe => self.deletion_probe_loaded,
        }
    }

    /// Taking a map succeeds exactly when it is present and not yet taken.
    pub open spec fn spec_take_ok(self, role: MapRole) -> bool {
        self.map_present(role) && !self.map_taken(role)
    }

    /// The image after an attempt to take the map of this role.
    pub open spec fn spec_after_take(self, role: MapRole) -> ImageState {
        if self.spec_take_ok(role) {
            match role {
                MapRole::NetworkEvents => ImageState { events_map_taken: true, ..self },
                MapRole::VethEvents => ImageState { veth_map_taken: true, ..self },
            }
        } else {
            self
        }
    }

    /// The image after the program of this role was loaded.
    pub open spec fn spec_after_load(self, role: ProgramRole) -> ImageState {
        match role {
            ProgramRole::Classifier => ImageState { classifier_loaded: true, ..self },
            ProgramRole::VethCreationProbe => ImageState { creation_probe_loaded: true, ..self },
            ProgramRole::VethDeletionProbe => ImageState { deletion_probe_loaded: true, ..self },
        }
    }

    /// Take the named map out of the image.  A map can be taken at most
    /// once: the first take yields it, every later take yields nothing.
    pub fn take_map(&mut self, role: MapRole) -> (r: Option<MapToken>)
        ensures
            *final(self) == old(self).spec_after_take(role),
            r is Some <==> old(self).spec_take_ok(role),
            r is Some ==> r->0 == (MapToken { role, kernel_id: old(self).map_id(role) }),
    {
        match role {
            MapRole::NetworkEvents => {
                if self.has_events_map && !self.events_map_taken {
                    self.events_map_taken = true;
                    Some(MapToken { role: MapRole::NetworkEvents, kernel_id: self.events_map_id })
                } else {
                    None
                }
            }
            MapRole::VethEvents => {
                if self.has_veth_map && !self.veth_map_taken {
                    self.veth_map_taken = true;
                    Some(MapToken { role: MapRole::VethEvents, kernel_id: self.veth_map_id })
                } else {
                    None
                }
            }
        }
    }
}

/// Whether extraction succeeds on this image: both named maps present and
/// not yet taken.
pub open spec fn spec_extract_ok(image: ImageState) -> bool {
    image.spec_take_ok(MapRole::NetworkEvents) && image.spec_take_ok(MapRole::VethEvents)
}

/// The image after an extraction attempt: nothing changes when the
/// network-events take fails; otherwise both takes are attempted in order.
pub open spec fn spec_after_extract(image: ImageState) -> ImageState {
    if image.spec_take_ok(MapRole::NetworkEvents) {
        image.spec_after_take(MapRole::NetworkEvents).spec_after_take(MapRole::VethEvents)
    } else {
        image
    }
}

/// The extraction witness for the map of this role, carrying its kernel
/// identity.
pub open spec fn spec_token(image: ImageState, role: MapRole) -> MapToken {
    MapToken { role, kernel_id: image.map_id(role) }
}

/// Extract the two event maps from the image, network events first.  Fails
/// with `MapNotFound` if either named map is absent (or already taken); on
/// that failure the network-events map, if it was taken, stays taken.
pub fn extract_maps(image: &mut ImageState) -> (r: Result<(MapToken, MapToken), AgentError>)
    ensures
        r is Ok <==> spec_extract_ok(*old(image)),
        r is Err ==> r->Err_0 == AgentError::MapNotFound,
        r is Ok ==> r->Ok_0.0 == spec_token(*old(image), MapRole::NetworkEvents),
        r is Ok ==> r->Ok_0.1 == spec_token(*old(image), MapRole::VethEvents),
        *final(image) == spec_after_extract(*old(image)),
{
    let events = match image.take_map(MapRole::NetworkEvents) {
        Some(t) => t,
        None => {
            return Err(AgentError::MapNotFound);
        }
    };
    let veth = match image.take_map(MapRole::VethEvents) {
        Some(t) => t,
        None => {
            return Err(AgentError::MapNotFound);
        }
    };
    Ok((events, veth))
}

/// Single extraction: once the map of a role has been taken from an image,
/// no later take of the same role can succeed — extraction yields each map
/// at most once, and a second attempt fails with not-found.
pub proof fn lemma_single_extraction(image: ImageState, role: MapRole)
    ensures
        !image.spec_after_take(role).spec_take_ok(role),
{
}

/// On any image, after one extraction a second extraction cannot succeed:
/// with the maps already taken, `extract_maps` can only fail with
/// not-found.
pub proof fn lemma_extract_once(image: ImageState)
    ensures
        !spec_extract_ok(spec_after_extract(image)),
{
}

} // verus!
