//! The composition root: the startup sequence of the controller.
//!
//! The controller sequences: check configuration → load the image →
//! extract the two event maps → pin them → attach the lifecycle probes →
//! attach the classifier to every discovered interface → set up the two
//! drain loops and the shutdown flags.  Each phase runs only when every
//! earlier phase succeeded, and each fatal error aborts the sequence
//! exactly where the taxonomy says it does.  The caller performs the real
//! reads and syscalls, hands their outcomes in, and receives back either
//! the fatal error to exit with or the running engine to drive.

use vstd::prelude::*;

use crate::attach::AttachOutcome;
use crate::attach::ProbeOutcomes;
use crate::attach::ProbeReport;
use crate::attach::attach_classifier;
use crate::attach::attach_lifecycle_probes;
use crate::attach::spec_probes_image;
use crate::attach::spec_probes_result;
use crate::attach::successes;
use crate::drain::DrainState;
use crate::drain::VETH_SCRATCH_POOL;
use crate::drain::new_drain;
use crate::errors::AgentError;
use crate::image::ImageState;
use crate::image::MapRole;
use crate::image::MapToken;
use crate::image::ProgramRole;
use crate::image::extract_maps;
use crate::image::spec_after_extract;
use crate::image::spec_extract_ok;
use crate::image::spec_token;
use crate::links::LinkTable;
use crate::pinner::PinReport;
use crate::pinner::PinStore;
use crate::pinner::map_pinner;
use crate::pinner::spec_after_pin;
use crate::pinner::spec_pin_ok;
use crate::shutdown::ShutdownFlags;

verus! {

/// The controller's configuration: the path of the compiled image and the
/// directory the maps are pinned under.  Both are required.
#[derive(Debug)]
pub struct Config {
    pub bpf_path: String,
    pub pin_path: String,
}

/// Check the configuration the caller read from the environment.  Both
/// settings are required; either missing is a `ConfigError`, raised
/// before any kernel resource is touched.
pub fn read_config(bpf_path: Option<String>, pin_path: Option<String>) -> (r: Result<
    Config,
    AgentError,
>)
    ensures
        r is Ok <==> (bpf_path is Some && pin_path is Some),
        r is Err ==> r->Err_0 == AgentError::ConfigError,
        r is Ok ==> r->Ok_0.bpf_path == bpf_path->0 && r->Ok_0.pin_path == pin_path->0,
{
    match (bpf_path, pin_path) {
        (Some(b), Some(p)) => Ok(Config { bpf_path: b, pin_path: p }),
        _ => Err(AgentError::ConfigError),
    }
}

/// The outcomes of the reads and syscalls the startup sequence depends
/// on, reported by the caller that performs them.
#[derive(Clone, Copy, Debug)]
pub struct StartupOutcomes {
    /// The image file could be read.
    pub image_read_ok: bool,
    /// The image blob parsed as a program image.
    pub image_parse_ok: bool,
    /// Creating the pin directory succeeded (consulted only if missing).
    pub dir_create_ok: bool,
    /// Load and attach outcomes of the two lifecycle probes.
    pub probes: ProbeOutcomes,
    /// The classifier program loaded into the kernel.
    pub classifier_load_ok: bool,
}

/// What a successful startup hands over: both drain loops set up over the
/// online CPUs, both shutdown flags clear, and the extraction witnesses
/// of the two maps the drains feed from.
#[derive(Debug)]
pub struct EngineState {
    pub net_drain: DrainState,
    pub veth_drain: DrainState,
    pub flags: ShutdownFlags,
    pub net_map: MapToken,
    pub veth_map: MapToken,
}

/// The non-fatal findings of a successful startup, handed back for
/// logging: the pin pass report, the probe attach report, and how many
/// interfaces the classifier attached to.
#[derive(Debug)]
pub struct StartupReport {
    pub pin: PinReport,
    pub probes: ProbeReport,
    pub attached: usize,
}

/// The configuration phase passes: both settings present and the image
/// file readable.
pub open spec fn spec_config_ok(
    bpf_path: Option<String>,
    pin_path: Option<String>,
    out: StartupOutcomes,
) -> bool {
    bpf_path is Some && pin_path is Some && out.image_read_ok
}

/// The interface list is fit for the classifier pass: one outcome per
/// interface, names pairwise distinct and none already recorded.
pub open spec fn spec_interfaces_ok(
    interfaces: Seq<String>,
    attach_outcomes: Seq<AttachOutcome>,
    table: LinkTable,
) -> bool {
    &&& interfaces.len() == attach_outcomes.len()
    &&& (forall|i: int, j: int|
        0 <= i < j < interfaces.len() ==> #[trigger] interfaces[i]@ != #[trigger] interfaces[j]@)
    &&& (forall|i: int|
        0 <= i < interfaces.len() ==> !table.spec_contains_key(#[trigger] interfaces[i]@))
}

/// Run the startup sequence of the controller over the reported
/// outcomes.  Every clause of the contract pins down one way the
/// sequence can end: which error is returned, which phases had run by
/// then, and — on success — exactly what the engine and the link table
/// hold.
pub fn run_startup(
    bpf_path: Option<String>,
    pin_path: Option<String>,
    image: &mut ImageState,
    store: &mut PinStore,
    table: &mut LinkTable,
    interfaces: &Vec<String>,
    attach_outcomes: &Vec<AttachOutcome>,
    out: StartupOutcomes,
    n_cpus: usize,
) -> (r: Result<(EngineState, StartupReport), AgentError>)
    requires
        old(table).wf(),
        spec_interfaces_ok(interfaces@, attach_outcomes@, *old(table)),
    ensures
        final(table).wf(),
        // A missing setting or unreadable image aborts before any kernel
        // resource is touched.
        !spec_config_ok(bpf_path, pin_path, out) ==> {
            &&& r == Err::<(EngineState, StartupReport), AgentError>(AgentError::ConfigError)
            &&& *final(image) == *old(image)
            &&& *final(store) == *old(store)
            &&& final(table)@ == old(table)@
        },
        // An image that does not parse is fatal, before any map is taken.
        spec_config_ok(bpf_path, pin_path, out) && !out.image_parse_ok ==> {
            &&& r == Err::<(EngineState, StartupReport), AgentError>(AgentError::LoadError)
            &&& *final(image) == *old(image)
            &&& *final(store) == *old(store)
            &&& final(table)@ == old(table)@
        },
        // A missing named map is fatal; nothing is pinned or attached.
        spec_config_ok(bpf_path, pin_path, out) && out.image_parse_ok && !spec_extract_ok(
            *old(image),
        ) ==> {
            &&& r == Err::<(EngineState, StartupReport), AgentError>(AgentError::MapNotFound)
            &&& *final(image) == spec_after_extract(*old(image))
            &&& *final(store) == *old(store)
            &&& final(table)@ == old(table)@
        },
        // Once extraction succeeds the pin pass runs, exactly once.
        spec_config_ok(bpf_path, pin_path, out) && out.image_parse_ok && spec_extract_ok(
            *old(image),
        ) ==> *final(store) == spec_after_pin(
            *old(store),
            spec_token(*old(image), MapRole::NetworkEvents),
            spec_token(*old(image), MapRole::VethEvents),
            out.dir_create_ok,
        ),
        // A failed pin is fatal for the whole startup: probes, classifier
        // and drains never run.
        spec_config_ok(bpf_path, pin_path, out) && out.image_parse_ok && spec_extract_ok(
            *old(image),
        ) && !spec_pin_ok(*old(store), out.dir_create_ok) ==> {
            &&& r == Err::<(EngineState, StartupReport), AgentError>(AgentError::PinError)
            &&& *final(image) == spec_after_extract(*old(image))
            &&& final(table)@ == old(table)@
        },
        // A missing or unloadable probe is fatal where it occurs.
        spec_config_ok(bpf_path, pin_path, out) && out.image_parse_ok && spec_extract_ok(
            *old(image),
        ) && spec_pin_ok(*old(store), out.dir_create_ok) && spec_probes_result(
            spec_after_extract(*old(image)),
            out.probes,
        ) is Err ==> {
            &&& r is Err
            &&& r->Err_0 == spec_probes_result(
                spec_after_extract(*old(image)),
                out.probes,
            )->Err_0
            &&& *final(image) == spec_probes_image(spec_after_extract(*old(image)), out.probes)
            &&& final(table)@ == old(table)@
        },
        // A missing or unloadable classifier is fatal, before any
        // interface attachment is attempted.
        spec_config_ok(bpf_path, pin_path, out) && out.image_parse_ok && spec_extract_ok(
            *old(image),
        ) && spec_pin_ok(*old(store), out.dir_create_ok) && spec_probes_result(
            spec_after_extract(*old(image)),
            out.probes,
        ) is Ok && !old(image).has_classifier ==> {
            &&& r == Err::<(EngineState, StartupReport), AgentError>(AgentError::ProgramNotFound)
            &&& *final(image) == spec_probes_image(spec_after_extract(*old(image)), out.probes)
            &&& final(table)@ == old(table)@
        },
        spec_config_ok(bpf_path, pin_path, out) && out.image_parse_ok && spec_extract_ok(
            *old(image),
        ) && spec_pin_ok(*old(store), out.dir_create_ok) && spec_probes_result(
            spec_after_extract(*old(image)),
            out.probes,
        ) is Ok && old(image).has_classifier && !out.classifier_load_ok ==> {
            &&& r == Err::<(EngineState, StartupReport), AgentError>(AgentError::LoadError)
            &&& *final(image) == spec_probes_image(spec_after_extract(*old(image)), out.probes)
            &&& final(table)@ == old(table)@
        },
        // Full success: the link table has grown by exactly the accepted
        // attachments, both drains are set up, both flags are clear.
        spec_config_ok(bpf_path, pin_path, out) && out.image_parse_ok && spec_extract_ok(
            *old(image),
        ) && spec_pin_ok(*old(store), out.dir_create_ok) && spec_probes_result(
            spec_after_extract(*old(image)),
            out.probes,
        ) is Ok && old(image).has_classifier && out.classifier_load_ok ==> {
            &&& r is Ok
            &&& *final(image) == spec_probes_image(
                spec_after_extract(*old(image)),
                out.probes,
            ).spec_after_load(ProgramRole::Classifier)
            &&& final(table)@ == old(table)@ + successes(
                interfaces@.map_values(|s: String| s@),
                attach_outcomes@,
            )
            &&& r->Ok_0.1.attached as nat == successes(
                interfaces@.map_values(|s: String| s@),
                attach_outcomes@,
            ).len()
            &&& r->Ok_0.1.probes == spec_probes_result(
                spec_after_extract(*old(image)),
                out.probes,
            )->Ok_0
            &&& r->Ok_0.1.pin.dir_warning is None
            &&& r->Ok_0.0.net_drain.n_buffers == n_cpus
            &&& r->Ok_0.0.net_drain.scratch@.len() == n_cpus
            &&& r->Ok_0.0.veth_drain.n_buffers == n_cpus
            &&& r->Ok_0.0.veth_drain.scratch@.len() == VETH_SCRATCH_POOL
            &&& r->Ok_0.0.flags == (ShutdownFlags { net_stop: false, veth_stop: false })
            &&& r->Ok_0.0.net_map == spec_token(*old(image), MapRole::NetworkEvents)
            &&& r->Ok_0.0.veth_map == spec_token(*old(image), MapRole::VethEvents)
        },
{
    match read_config(bpf_path, pin_path) {
        Ok(_) => {}
        Err(e) => {
            return Err(e);
        }
    }
    if !out.image_read_ok {
        return Err(AgentError::ConfigError);
    }
    if !out.image_parse_ok {
        return Err(AgentError::LoadError);
    }
    let (net_map, veth_map) = match extract_maps(image) {
        Ok(t) => t,
        Err(e) => {
            return Err(e);
        }
    };
    let (pin_report, pin_result) = map_pinner(store, &net_map, &veth_map, out.dir_create_ok);
    match pin_result {
        Ok(_) => {}
        Err(e) => {
            return Err(e);
        }
    }
    let probe_report = match attach_lifecycle_probes(image, out.probes) {
        Ok(rep) => rep,
        Err(e) => {
            return Err(e);
        }
    };
    let attached = match attach_classifier(
        image,
        out.classifier_load_ok,
        interfaces,
        attach_outcomes,
        table,
    ) {
        Ok(n) => n,
        Err(e) => {
            return Err(e);
        }
    };
    let engine = EngineState {
        net_drain: new_drain(MapRole::NetworkEvents, n_cpus),
        veth_drain: new_drain(MapRole::VethEvents, n_cpus),
        flags: ShutdownFlags::new(),
        net_map,
        veth_map,
    };
    Ok((engine, StartupReport { pin: pin_report, probes: probe_report, attached }))
}

} // verus!
