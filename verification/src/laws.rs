//! The laws the reports obey, stated and proved over the spec-level
//! reports that the executable checks are proved to return.

use vstd::prelude::*;

use crate::checks::{diag_lines, run_report, sampler_report, texture_report};
use crate::diag::{Diagnostic, DiagnosticKind, Line};
use crate::resources::{bind_group_report, destroy_report, has_foreign, BindGroupEntry};

verus! {

/// Law: a bind group built on one device over an entry list with a foreign
/// resource is reported to the building device's own callback, never to
/// any other device, whichever entry is foreign.
pub proof fn lemma_bind_group_attribution(device: u64, entries: Seq<BindGroupEntry>, other: u64)
    requires
        has_foreign(device, entries),
        other != device,
    ensures
        bind_group_report(device, entries) is Some,
        bind_group_report(device, entries)->0.device == device,
        bind_group_report(device, entries)->0.device != other,
{
}

/// Law: for two distinct devices, each check's diagnostics exist and every
/// one of them is attributed to the first device, the one the bind group
/// was built on, and none to the second, the owner of the foreign
/// resource.
pub proof fn lemma_check_attribution(device1: u64, device2: u64)
    requires
        device1 != device2,
    ensures
        sampler_report(device1, device2).len() > 0,
        texture_report(device1, device2).len() > 0,
        forall|i: int|
            0 <= i < sampler_report(device1, device2).len() ==> sampler_report(device1, device2)[i].device
                == device1,
        forall|i: int|
            0 <= i < texture_report(device1, device2).len() ==> texture_report(device1, device2)[i].device
                == device1,
{
}

/// Law: every diagnostic of either check stands in the output of the full
/// run, so each report reaches the output before the run ends.
pub proof fn lemma_reports_reach_output(device1: u64, device2: u64)
    ensures
        forall|i: int|
            0 <= i < sampler_report(device1, device2).len() ==> run_report(
                device1,
                device2,
            ).contains(Line::Diag(sampler_report(device1, device2)[i])),
        forall|i: int|
            0 <= i < texture_report(device1, device2).len() ==> run_report(
                device1,
                device2,
            ).contains(Line::Diag(texture_report(device1, device2)[i])),
{
    let sr = sampler_report(device1, device2);
    let tr = texture_report(device1, device2);
    let rr = run_report(device1, device2);
    assert forall|i: int| 0 <= i < sr.len() implies rr.contains(Line::Diag(sr[i])) by {
        assert(rr[i] == Line::Diag(sr[i]));
    }
    assert forall|i: int| 0 <= i < tr.len() implies rr.contains(Line::Diag(tr[i])) by {
        let j = sr.len() + 1 + i;
        assert(rr[j] == Line::Diag(tr[i]));
    }
}

/// Law: the full run's output is exactly the sampler check's lines, then
/// the separator, then the texture check's lines, each check's part a
/// function of the two devices alone: the checks share no state, and
/// either check run in isolation reports the same diagnostics as it does
/// within the full run.
pub proof fn lemma_checks_independent(device1: u64, device2: u64)
    ensures
        run_report(device1, device2) == diag_lines(sampler_report(device1, device2)) + seq![
            Line::Separator,
        ] + diag_lines(texture_report(device1, device2)),
{
}

/// Law: destroying a texture that another device's bind group still
/// references yields a further foreign-allocator diagnostic to that
/// device's callback; destroying it under its own device yields none.
pub proof fn lemma_destroy_reporting(owner: u64, referencing_device: u64)
    ensures
        owner != referencing_device ==> destroy_report(owner, referencing_device) == Some(
            (Diagnostic { device: referencing_device, kind: DiagnosticKind::ForeignAllocator }),
        ),
        owner == referencing_device ==> destroy_report(owner, referencing_device) is None,
{
}

} // verus!
