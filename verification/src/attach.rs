//! Attaching the programs carried by the image to their hook points.
//!
//! The lifecycle probes attach to fixed kernel symbols; the classifier
//! attaches to every discovered interface in discovery order.  The kernel
//! decides each load and attach attempt; its outcomes are inputs here, and
//! these functions are verified to draw the right conclusion from every
//! combination: a missing or unloadable program is fatal for its phase, a
//! failed attachment is skipped while its siblings proceed, and the link
//! table records exactly the attachments the kernel accepted.

use vstd::prelude::*;

use crate::errors::AgentError;
use crate::image::ImageState;
use crate::image::ProgramRole;
use crate::links::LinkTable;

verus! {

/// Kernel-reported outcome of one classifier attachment attempt.
#[derive(Clone, Copy, Debug, PartialEq, Eq, Structural)]
pub enum AttachOutcome {
    /// The kernel accepted the attachment and returned this link handle.
    Attached(u64),
    /// The kernel refused the attachment.
    Failed,
}

/// Kernel-reported outcomes of the probe phase: load and attach results
/// for the creation and deletion probes.
#[derive(Clone, Copy, Debug)]
pub struct ProbeOutcomes {
    pub creation_load_ok: bool,
    pub creation_attach_ok: bool,
    pub deletion_load_ok: bool,
    pub deletion_attach_ok: bool,
}

/// What the probe phase achieved: per probe, `None` when it attached, or
/// the non-fatal attach error to log.
#[derive(Clone, Copy, Debug)]
pub struct ProbeReport {
    pub creation_attach_error: Option<AgentError>,
    pub deletion_attach_error: Option<AgentError>,
}

/// The result of the probe phase.  Lookup and load failures are fatal and
/// stop the phase where they occur; attach failures are not.
pub open spec fn spec_probes_result(image: ImageState, out: ProbeOutcomes) -> Result<
    ProbeReport,
    AgentError,
> {
    if !image.program_present(ProgramRole::VethCreationProbe) {
        Err(AgentError::ProgramNotFound)
    } else if !out.creation_load_ok {
        Err(AgentError::LoadError)
    } else if !image.program_present(ProgramRole::VethDeletionProbe) {
        Err(AgentError::ProgramNotFound)
    } else if !out.deletion_load_ok {
        Err(AgentError::LoadError)
    } else {
        Ok(
            ProbeReport {
                creation_attach_error: if out.creation_attach_ok {
                    None
                } else {
                    Some(AgentError::AttachError)
                },
                deletion_attach_error: if out.deletion_attach_ok {
                    None
                } else {
                    Some(AgentError::AttachError)
                },
            },
        )
    }
}

/// The image after the probe phase: each probe is marked loaded exactly
/// when the phase reached it and its load succeeded.
pub open spec fn spec_probes_image(image: ImageState, out: ProbeOutcomes) -> ImageState {
    if !image.program_present(ProgramRole::VethCreationProbe) || !out.creation_load_ok {
        image
    } else {
        let loaded = image.spec_after_load(ProgramRole::VethCreationProbe);
        if !image.program_present(ProgramRole::VethDeletionProbe) || !out.deletion_load_ok {
            loaded
        } else {
            loaded.spec_after_load(ProgramRole::VethDeletionProbe)
        }
    }
}

/// Attach the two lifecycle probes: the creation probe to the device
/// registration symbol, then the deletion probe to the unregistration
/// symbol.  A missing program (`ProgramNotFound`) or failed load
/// (`LoadError`) is fatal where it occurs; a failed attachment is only
/// reported, and the sibling probe still attempts attachment.
pub fn attach_lifecycle_probes(image: &mut ImageState, out: ProbeOutcomes) -> (r: Result<
    ProbeReport,
    AgentError,
>)
    ensures
        r == spec_probes_result(*old(image), out),
        *final(image) == spec_probes_image(*old(image), out),
{
    if !image.has_creation_probe {
        return Err(AgentError::ProgramNotFound);
    }
    if !out.creation_load_ok {
        return Err(AgentError::LoadError);
    }
    image.creation_probe_loaded = true;
    let creation_attach_error = if out.creation_attach_ok {
        None
    } else {
        Some(AgentError::AttachError)
    };
    if !image.has_deletion_probe {
        return Err(AgentError::ProgramNotFound);
    }
    if !out.deletion_load_ok {
        return Err(AgentError::LoadError);
    }
    image.deletion_probe_loaded = true;
    let deletion_attach_error = if out.deletion_attach_ok {
        None
    } else {
        Some(AgentError::AttachError)
    };
    Ok(ProbeReport { creation_attach_error, deletion_attach_error })
}

/// The `(interface, handle)` pairs of the attachments the kernel accepted,
/// in discovery order.
pub open spec fn successes(ifaces: Seq<Seq<char>>, outs: Seq<AttachOutcome>) -> Seq<
    (Seq<char>, u64),
>
    recommends
        ifaces.len() == outs.len(),
    decreases ifaces.len(),
{
    if ifaces.len() == 0 {
        Seq::empty()
    } else {
        let rest = successes(ifaces.drop_last(), outs.drop_last());
        match outs[ifaces.len() - 1] {
            AttachOutcome::Attached(h) => rest.push((ifaces.last(), h)),
            AttachOutcome::Failed => rest,
        }
    }
}

/// Every key among the successes is one of the interfaces.
pub proof fn lemma_successes_keys(ifaces: Seq<Seq<char>>, outs: Seq<AttachOutcome>)
    requires
        ifaces.len() == outs.len(),
    ensures
        forall|j: int|
            0 <= j < successes(ifaces, outs).len() ==> exists|k: int|
                0 <= k < ifaces.len() && ifaces[k] == #[trigger] successes(ifaces, outs)[j].0,
    decreases ifaces.len(),
{
    if ifaces.len() > 0 {
        let dl_i = ifaces.drop_last();
        let dl_o = outs.drop_last();
        lemma_successes_keys(dl_i, dl_o);
        assert forall|j: int| 0 <= j < successes(ifaces, outs).len() implies exists|k: int|
            0 <= k < ifaces.len() && ifaces[k] == #[trigger] successes(ifaces, outs)[j].0 by {
            let rest = successes(dl_i, dl_o);
            if j < rest.len() {
                assert(successes(ifaces, outs)[j] == rest[j]);
                assert(successes(dl_i, dl_o)[j].0 == rest[j].0);
                assert(exists|k: int|
                    0 <= k < dl_i.len() && dl_i[k] == successes(dl_i, dl_o)[j].0);
                let k = choose|k: int| 0 <= k < dl_i.len() && dl_i[k] == successes(dl_i, dl_o)[j].0;
                assert(ifaces[k] == dl_i[k]);
                assert(0 <= k < ifaces.len() && ifaces[k] == successes(ifaces, outs)[j].0);
            } else {
                assert(ifaces[ifaces.len() - 1] == ifaces.last());
                assert(successes(ifaces, outs)[j].0 == ifaces.last());
            }
        }
    }
}

/// Attach the classifier to every discovered interface.
///
/// The classifier program must be present and loadable — either failure is
/// fatal and happens before any interface attachment is attempted.  Then
/// every interface is tried in discovery order; an accepted attachment is
/// recorded in the link table, a refused one is skipped, and the pass never
/// aborts early.  On success the table has grown by exactly the accepted
/// attachments, and the returned count is their number.
pub fn attach_classifier(
    image: &mut ImageState,
    load_ok: bool,
    interfaces: &Vec<String>,
    outcomes: &Vec<AttachOutcome>,
    table: &mut LinkTable,
) -> (r: Result<usize, AgentError>)
    requires
        old(table).wf(),
        interfaces@.len() == outcomes@.len(),
        forall|i: int, j: int|
            0 <= i < j < interfaces@.len() ==> #[trigger] interfaces@[i]@ != #[trigger] interfaces@[j]@,
        forall|i: int|
            0 <= i < interfaces@.len() ==> !old(table).spec_contains_key(
                #[trigger] interfaces@[i]@,
            ),
    ensures
        final(table).wf(),
        !old(image).program_present(ProgramRole::Classifier) ==> r == Err::<usize, AgentError>(
            AgentError::ProgramNotFound,
        ) && *final(image) == *old(image) && final(table)@ == old(table)@,
        old(image).program_present(ProgramRole::Classifier) && !load_ok ==> r == Err::<
            usize,
            AgentError,
        >(AgentError::LoadError) && *final(image) == *old(image) && final(table)@ == old(table)@,
        old(image).program_present(ProgramRole::Classifier) && load_ok ==> {
            &&& r is Ok
            &&& *final(image) == old(image).spec_after_load(ProgramRole::Classifier)
            &&& final(table)@ == old(table)@ + successes(
                interfaces@.map_values(|s: String| s@),
                outcomes@,
            )
            &&& r->Ok_0 as nat == successes(interfaces@.map_values(|s: String| s@), outcomes@).len()
        },
{
    if !image.has_classifier {
        return Err(AgentError::ProgramNotFound);
    }
    if !load_ok {
        return Err(AgentError::LoadError);
    }
    image.classifier_loaded = true;
    let ghost keys = interfaces@.map_values(|s: String| s@);
    proof {
        assert(keys.take(0) =~= Seq::<Seq<char>>::empty());
        assert(outcomes@.take(0) =~= Seq::<AttachOutcome>::empty());
        assert(table@ =~= old(table)@ + successes(keys.take(0), outcomes@.take(0)));
    }
    let n = interfaces.len();
    let mut count: usize = 0;
    let mut i: usize = 0;
    while i < n
        invariant
            n == interfaces@.len(),
            interfaces@.len() == outcomes@.len(),
            0 <= i <= n,
            count <= i,
            keys == interfaces@.map_values(|s: String| s@),
            keys.len() == n,
            forall|a: int, b: int| 0 <= a < b < n ==> #[trigger] keys[a] != #[trigger] keys[b],
            forall|a: int| 0 <= a < n ==> !old(table).spec_contains_key(#[trigger] keys[a]),
            old(table).wf(),
            table.wf(),
            table@ == old(table)@ + successes(keys.take(i as int), outcomes@.take(i as int)),
            count as nat == successes(keys.take(i as int), outcomes@.take(i as int)).len(),
        decreases n - i,
    {
        let ghost prefix = successes(keys.take(i as int), outcomes@.take(i as int));
        proof {
            assert(keys[i as int] == interfaces@[i as int]@);
            assert(keys.take(i as int + 1).drop_last() =~= keys.take(i as int));
            assert(outcomes@.take(i as int + 1).drop_last() =~= outcomes@.take(i as int));
            assert(keys.take(i as int + 1).last() == keys[i as int]);
            assert(outcomes@.take(i as int + 1)[keys.take(i as int + 1).len() - 1] == outcomes@[i as int]);
        }
        match outcomes[i] {
            AttachOutcome::Attached(h) => {
                proof {
                    lemma_successes_keys(keys.take(i as int), outcomes@.take(i as int));
                    assert forall|idx: int| 0 <= idx < table@.len() implies #[trigger] table@[idx].0
                        != keys[i as int] by {
                        if idx < old(table)@.len() {
                            assert(!old(table).spec_contains_key(keys[i as int]));
                        } else {
                            let j = idx - old(table)@.len();
                            assert(table@[idx] == prefix[j]);
                            let k = choose|k: int|
                                0 <= k < keys.take(i as int).len() && keys.take(i as int)[k]
                                    == prefix[j].0;
                            assert(keys.take(i as int)[k] == keys[k]);
                            assert(keys[k] != keys[i as int]);
                        }
                    }
                    assert(!table.spec_contains_key(keys[i as int]));
                }
                let name = interfaces[i].clone();
                table.insert(name, h);
                count = count + 1;
                proof {
                    assert(successes(keys.take(i as int + 1), outcomes@.take(i as int + 1))
                        == prefix.push((keys[i as int], h)));
                    assert(table@ =~= old(table)@ + prefix.push((keys[i as int], h)));
                }
            }
            AttachOutcome::Failed => {
                proof {
                    assert(successes(keys.take(i as int + 1), outcomes@.take(i as int + 1))
                        == prefix);
                }
            }
        }
        i = i + 1;
    }
    proof {
        assert(keys.take(n as int) =~= keys);
        assert(outcomes@.take(n as int) =~= outcomes@);
    }
    Ok(count)
}

} // verus!
