use identity_agent::attach::attach_classifier;
use identity_agent::attach::attach_lifecycle_probes;
use identity_agent::attach::AttachOutcome;
use identity_agent::attach::ProbeOutcomes;
use identity_agent::controller::read_config;
use identity_agent::controller::run_startup;
use identity_agent::controller::StartupOutcomes;
use identity_agent::errors::AgentError;
use identity_agent::image::extract_maps;
use identity_agent::image::map_name;
use identity_agent::image::probe_symbol;
use identity_agent::image::program_name;
use identity_agent::image::ImageState;
use identity_agent::image::MapRole;
use identity_agent::image::ProgramRole;
use identity_agent::links::LinkTable;
use identity_agent::pinner::load_pinned;
use identity_agent::pinner::map_pinner;
use identity_agent::pinner::pin_leaf;
use identity_agent::pinner::pin_path;
use identity_agent::pinner::PinStore;

fn full_image() -> ImageState {
    ImageState::fresh(true, true, 11, 22, true, true, true)
}

fn good_probes() -> ProbeOutcomes {
    ProbeOutcomes {
        creation_load_ok: true,
        creation_attach_ok: true,
        deletion_load_ok: true,
        deletion_attach_ok: true,
    }
}

fn good_outcomes() -> StartupOutcomes {
    StartupOutcomes {
        image_read_ok: true,
        image_parse_ok: true,
        dir_create_ok: true,
        probes: good_probes(),
        classifier_load_ok: true,
    }
}

#[test]
fn fixed_names() {
    assert_eq!(map_name(MapRole::NetworkEvents), "EventsMap");
    assert_eq!(map_name(MapRole::VethEvents), "veth_identity_map");
    assert_eq!(program_name(ProgramRole::Classifier), "identity_classifier");
    assert_eq!(program_name(ProgramRole::VethCreationProbe), "veth_creation_trace");
    assert_eq!(program_name(ProgramRole::VethDeletionProbe), "veth_deletion_trace");
    assert_eq!(probe_symbol(ProgramRole::Classifier), None);
    assert_eq!(probe_symbol(ProgramRole::VethCreationProbe), Some("register_netdevice"));
    assert_eq!(probe_symbol(ProgramRole::VethDeletionProbe), Some("unregister_netdevice_queue"));
}

#[test]
fn fatality_per_variant() {
    assert!(AgentError::ConfigError.is_fatal());
    assert!(AgentError::LoadError.is_fatal());
    assert!(AgentError::MapNotFound.is_fatal());
    assert!(AgentError::ProgramNotFound.is_fatal());
    assert!(AgentError::PinError.is_fatal());
    assert!(!AgentError::AttachError.is_fatal());
    assert!(!AgentError::DirectoryCreationError.is_fatal());
}

#[test]
fn single_extraction() {
    let mut image = full_image();
    let first = image.take_map(MapRole::NetworkEvents);
    assert!(first.is_some());
    assert_eq!(first.unwrap().kernel_id, 11);
    let second = image.take_map(MapRole::NetworkEvents);
    assert!(second.is_none());
}

#[test]
fn second_extraction_fails_not_found() {
    let mut image = full_image();
    let first = extract_maps(&mut image);
    assert!(first.is_ok());
    let (net, veth) = first.unwrap();
    assert_eq!(net.kernel_id, 11);
    assert_eq!(veth.kernel_id, 22);
    let second = extract_maps(&mut image);
    assert_eq!(second.unwrap_err(), AgentError::MapNotFound);
}

#[test]
fn extraction_missing_map() {
    let mut image = ImageState::fresh(true, false, 11, 0, true, true, true);
    assert_eq!(extract_maps(&mut image).unwrap_err(), AgentError::MapNotFound);
}

#[test]
fn pin_round_trip() {
    assert_eq!(pin_leaf(MapRole::NetworkEvents), "events_map");
    assert_eq!(pin_leaf(MapRole::VethEvents), "veth_map");
    assert_eq!(pin_path("/sys/fs/bpf/agent", MapRole::NetworkEvents), "/sys/fs/bpf/agent/events_map");
    assert_eq!(pin_path("/sys/fs/bpf/agent", MapRole::VethEvents), "/sys/fs/bpf/agent/veth_map");

    let mut image = full_image();
    let (net, veth) = extract_maps(&mut image).unwrap();
    let mut store = PinStore::new(false);
    let (report, result) = map_pinner(&mut store, &net, &veth, true);
    assert!(result.is_ok());
    assert_eq!(report.dir_warning, None);
    // A fresh process loading by either pin path observes the same
    // kernel-side state.
    let net_again = load_pinned(&store, MapRole::NetworkEvents).unwrap();
    let veth_again = load_pinned(&store, MapRole::VethEvents).unwrap();
    assert_eq!(net_again.kernel_id, 11);
    assert_eq!(veth_again.kernel_id, 22);
}

#[test]
fn pin_against_missing_directory() {
    let mut image = full_image();
    let (net, veth) = extract_maps(&mut image).unwrap();
    let mut store = PinStore::new(false);
    // Directory missing and creation fails: the creation failure is only
    // reported, then pinning fails against the missing directory.
    let (report, result) = map_pinner(&mut store, &net, &veth, false);
    assert_eq!(report.dir_warning, Some(AgentError::DirectoryCreationError));
    assert_eq!(result.unwrap_err(), AgentError::PinError);
    assert_eq!(load_pinned(&store, MapRole::NetworkEvents), None);
}

#[test]
fn pin_already_pinned_fails() {
    let mut image = full_image();
    let (net, veth) = extract_maps(&mut image).unwrap();
    let mut store = PinStore::new(true);
    assert!(map_pinner(&mut store, &net, &veth, true).1.is_ok());
    let mut image2 = full_image();
    let (net2, veth2) = extract_maps(&mut image2).unwrap();
    let (_, again) = map_pinner(&mut store, &net2, &veth2, true);
    assert_eq!(again.unwrap_err(), AgentError::PinError);
}

#[test]
fn probes_happy_path() {
    let mut image = full_image();
    let report = attach_lifecycle_probes(&mut image, good_probes()).unwrap();
    assert_eq!(report.creation_attach_error, None);
    assert_eq!(report.deletion_attach_error, None);
}

#[test]
fn probes_missing_program_is_fatal() {
    let mut image = ImageState::fresh(true, true, 11, 22, true, false, true);
    let r = attach_lifecycle_probes(&mut image, good_probes());
    assert_eq!(r.unwrap_err(), AgentError::ProgramNotFound);
}

#[test]
fn probes_load_failure_is_fatal() {
    let mut image = full_image();
    let outcomes = ProbeOutcomes { deletion_load_ok: false, ..good_probes() };
    let r = attach_lifecycle_probes(&mut image, outcomes);
    assert_eq!(r.unwrap_err(), AgentError::LoadError);
}

#[test]
fn probes_attach_failure_is_not_fatal() {
    let mut image = full_image();
    let outcomes = ProbeOutcomes { creation_attach_ok: false, ..good_probes() };
    // The creation probe fails to attach; the deletion probe still
    // attempts attachment independently, and the phase succeeds.
    let report = attach_lifecycle_probes(&mut image, outcomes).unwrap();
    assert_eq!(report.creation_attach_error, Some(AgentError::AttachError));
    assert_eq!(report.deletion_attach_error, None);
}

#[test]
fn partial_attach_independence() {
    let mut image = full_image();
    let interfaces = vec![
        String::from("veth0"),
        String::from("veth1"),
        String::from("veth2"),
    ];
    let outcomes = vec![
        AttachOutcome::Attached(7),
        AttachOutcome::Failed,
        AttachOutcome::Attached(9),
    ];
    let mut table = LinkTable::new();
    // A failing interface is skipped; the pass never aborts early, and
    // the table holds exactly the successes.
    let attached = attach_classifier(&mut image, true, &interfaces, &outcomes, &mut table).unwrap();
    assert_eq!(attached, 2);
    assert_eq!(table.len(), 2);
    assert_eq!(table.get(&String::from("veth0")), Some(7));
    assert_eq!(table.get(&String::from("veth1")), None);
    assert_eq!(table.get(&String::from("veth2")), Some(9));
}

#[test]
fn missing_classifier_is_fatal_before_any_attach() {
    let mut image = ImageState::fresh(true, true, 11, 22, false, true, true);
    let interfaces = vec![String::from("veth0")];
    let outcomes = vec![AttachOutcome::Attached(7)];
    let mut table = LinkTable::new();
    let r = attach_classifier(&mut image, true, &interfaces, &outcomes, &mut table);
    assert_eq!(r.unwrap_err(), AgentError::ProgramNotFound);
    // No interface attachment was attempted: the table is untouched.
    assert_eq!(table.len(), 0);
}

#[test]
fn classifier_load_failure_is_fatal() {
    let mut image = full_image();
    let interfaces = vec![String::from("veth0")];
    let outcomes = vec![AttachOutcome::Attached(7)];
    let mut table = LinkTable::new();
    let r = attach_classifier(&mut image, false, &interfaces, &outcomes, &mut table);
    assert_eq!(r.unwrap_err(), AgentError::LoadError);
    assert_eq!(table.len(), 0);
}

#[test]
fn config_requires_both_settings() {
    let cfg = read_config(Some(String::from("/o/image.o")), Some(String::from("/sys/fs/bpf")));
    let cfg = cfg.unwrap();
    assert_eq!(cfg.bpf_path, "/o/image.o");
    assert_eq!(cfg.pin_path, "/sys/fs/bpf");
    assert_eq!(
        read_config(None, Some(String::from("/sys/fs/bpf"))).unwrap_err(),
        AgentError::ConfigError
    );
    assert_eq!(
        read_config(Some(String::from("/o/image.o")), None).unwrap_err(),
        AgentError::ConfigError
    );
}

#[test]
fn startup_both_interfaces_attach() {
    let mut image = full_image();
    let mut store = PinStore::new(true);
    let mut table = LinkTable::new();
    let interfaces = vec![String::from("veth0"), String::from("veth1")];
    let outcomes = vec![AttachOutcome::Attached(100), AttachOutcome::Attached(101)];
    let r = run_startup(
        Some(String::from("/o/image.o")),
        Some(String::from("/sys/fs/bpf")),
        &mut image,
        &mut store,
        &mut table,
        &interfaces,
        &outcomes,
        good_outcomes(),
        4,
    );
    let (engine, report) = r.unwrap();
    assert_eq!(table.len(), 2);
    assert_eq!(table.get(&String::from("veth0")), Some(100));
    assert_eq!(table.get(&String::from("veth1")), Some(101));
    assert_eq!(report.attached, 2);
    // Both drains are set up and running: flags clear, one buffer per CPU.
    assert!(!engine.flags.net_stop);
    assert!(!engine.flags.veth_stop);
    assert_eq!(engine.net_drain.n_buffers, 4);
    assert_eq!(engine.net_drain.scratch.len(), 4);
    assert_eq!(engine.veth_drain.scratch.len(), 10);
    assert_eq!(engine.net_map.kernel_id, 11);
    assert_eq!(engine.veth_map.kernel_id, 22);
}

#[test]
fn startup_continues_past_failed_interface() {
    let mut image = full_image();
    let mut store = PinStore::new(true);
    let mut table = LinkTable::new();
    let interfaces = vec![String::from("veth0"), String::from("veth1")];
    let outcomes = vec![AttachOutcome::Attached(100), AttachOutcome::Failed];
    let r = run_startup(
        Some(String::from("/o/image.o")),
        Some(String::from("/sys/fs/bpf")),
        &mut image,
        &mut store,
        &mut table,
        &interfaces,
        &outcomes,
        good_outcomes(),
        4,
    );
    let (_, report) = r.unwrap();
    assert_eq!(table.len(), 1);
    assert_eq!(table.get(&String::from("veth0")), Some(100));
    assert_eq!(table.get(&String::from("veth1")), None);
    assert_eq!(report.attached, 1);
}

#[test]
fn startup_unset_path_touches_nothing() {
    let mut image = full_image();
    let before = image;
    let mut store = PinStore::new(false);
    let mut table = LinkTable::new();
    let interfaces: Vec<String> = Vec::new();
    let outcomes: Vec<AttachOutcome> = Vec::new();
    let r = run_startup(
        None,
        Some(String::from("/sys/fs/bpf")),
        &mut image,
        &mut store,
        &mut table,
        &interfaces,
        &outcomes,
        good_outcomes(),
        4,
    );
    assert_eq!(r.unwrap_err(), AgentError::ConfigError);
    // No kernel resource was touched.
    assert_eq!(image, before);
    assert_eq!(table.len(), 0);
    assert_eq!(load_pinned(&store, MapRole::NetworkEvents), None);
}

#[test]
fn startup_pin_failure_stops_everything() {
    let mut image = full_image();
    let mut store = PinStore::new(false);
    let mut table = LinkTable::new();
    let interfaces = vec![String::from("veth0")];
    let outcomes = vec![AttachOutcome::Attached(100)];
    let out = StartupOutcomes { dir_create_ok: false, ..good_outcomes() };
    let r = run_startup(
        Some(String::from("/o/image.o")),
        Some(String::from("/sys/fs/bpf")),
        &mut image,
        &mut store,
        &mut table,
        &interfaces,
        &outcomes,
        out,
        4,
    );
    assert_eq!(r.unwrap_err(), AgentError::PinError);
    // Attach phases never ran.
    assert_eq!(table.len(), 0);
    assert!(!image.classifier_loaded);
    assert!(!image.creation_probe_loaded);
}

#[test]
fn startup_unparsable_image_is_load_error() {
    let mut image = full_image();
    let mut store = PinStore::new(true);
    let mut table = LinkTable::new();
    let interfaces: Vec<String> = Vec::new();
    let outcomes: Vec<AttachOutcome> = Vec::new();
    let out = StartupOutcomes { image_parse_ok: false, ..good_outcomes() };
    let r = run_startup(
        Some(String::from("/o/image.o")),
        Some(String::from("/sys/fs/bpf")),
        &mut image,
        &mut store,
        &mut table,
        &interfaces,
        &outcomes,
        out,
        4,
    );
    assert_eq!(r.unwrap_err(), AgentError::LoadError);
    assert!(!image.events_map_taken);
}
