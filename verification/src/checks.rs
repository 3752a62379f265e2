//! The two mismatch checks and the full run.
//!
//! Each check builds its resources, one on each of two devices, and a bind
//! group on the first device referencing both; its result is the sequence
//! of diagnostics the validation layer reports for it. The full run is the
//! sampler check, the separator line, then the texture check.

use vstd::prelude::*;

use crate::descriptors::{sampler_layout_entries, texture_descriptor, texture_layout_entries};
use crate::diag::{Diagnostic, DiagnosticKind, Line};
use crate::resources::{
    create_bind_group, create_bind_group_layout, create_sampler, create_texture, create_view,
    destroy_texture, BindGroupEntry,
};

verus! {

/// The diagnostics the sampler check reports: one cross-device report to
/// the first device's callback when the devices are distinct, none when
/// both samplers come from the one device.
pub open spec fn sampler_report(device1: u64, device2: u64) -> Seq<Diagnostic> {
    if device1 == device2 {
        Seq::<Diagnostic>::empty()
    } else {
        seq![Diagnostic { device: device1, kind: DiagnosticKind::CrossDeviceResource }]
    }
}

/// The diagnostics the texture check reports: a cross-device report for the
/// bind group and a foreign-allocator report for the destruction, both to
/// the first device's callback, when the devices are distinct; none when
/// both textures come from the one device.
pub open spec fn texture_report(device1: u64, device2: u64) -> Seq<Diagnostic> {
    if device1 == device2 {
        Seq::<Diagnostic>::empty()
    } else {
        seq![
            Diagnostic { device: device1, kind: DiagnosticKind::CrossDeviceResource },
            Diagnostic { device: device1, kind: DiagnosticKind::ForeignAllocator },
        ]
    }
}

/// The sampler check: a default sampler on each device, a two-sampler
/// layout on the first device, and a bind group on the first device whose
/// entries resolve to the first and the second device's sampler.
pub fn sampler_mismatch(device1: u64, device2: u64) -> (diags: Vec<Diagnostic>)
    ensures
        diags@ == sampler_report(device1, device2),
{
    let sampler1 = create_sampler(device1);
    let sampler2 = create_sampler(device2);
    let bgl = create_bind_group_layout(device1, sampler_layout_entries());
    let mut entries: Vec<BindGroupEntry> = Vec::new();
    entries.push(BindGroupEntry { binding: 0, resource_owner: sampler1.owner });
    entries.push(BindGroupEntry { binding: 1, resource_owner: sampler2.owner });
    let (_bg, report) = create_bind_group(device1, &bgl, &entries);
    proof {
        lemma_pair_foreign(device1, device2, entries@);
    }
    let mut diags: Vec<Diagnostic> = Vec::new();
    if let Some(d) = report {
        diags.push(d);
    }
    proof {
        assert(diags@ =~= sampler_report(device1, device2));
    }
    diags
}

/// The texture check: a small texture with a default view on each device, a
/// two-texture layout on the first device, a bind group on the first device
/// combining the two views, then destruction of the second device's
/// texture while the group still references it.
pub fn tex_mismatch(device1: u64, device2: u64) -> (diags: Vec<Diagnostic>)
    ensures
        diags@ == texture_report(device1, device2),
{
    let desc = texture_descriptor();
    let tex1 = create_texture(device1, &desc);
    let mut tex2 = create_texture(device2, &desc);
    let tex1_view = create_view(&tex1);
    let tex2_view = create_view(&tex2);
    let bgl = create_bind_group_layout(device1, texture_layout_entries());
    let mut entries: Vec<BindGroupEntry> = Vec::new();
    entries.push(BindGroupEntry { binding: 0, resource_owner: tex1_view.owner });
    entries.push(BindGroupEntry { binding: 1, resource_owner: tex2_view.owner });
    let (bg, group_report) = create_bind_group(device1, &bgl, &entries);
    proof {
        lemma_pair_foreign(device1, device2, entries@);
    }
    let destroy_report = destroy_texture(&mut tex2, &bg);
    let mut diags: Vec<Diagnostic> = Vec::new();
    if let Some(d) = group_report {
        diags.push(d);
    }
    if let Some(d) = destroy_report {
        diags.push(d);
    }
    proof {
        assert(diags@ =~= texture_report(device1, device2));
    }
    diags
}

/// For a two-entry bind group built on the first device whose entries
/// resolve to a first-device resource and a second-device resource, an
/// entry is foreign exactly when the devices are distinct.
proof fn lemma_pair_foreign(device1: u64, device2: u64, entries: Seq<BindGroupEntry>)
    requires
        entries.len() == 2,
        entries[0].resource_owner == device1,
        entries[1].resource_owner == device2,
    ensures
        crate::resources::has_foreign(device1, entries) == (device1 != device2),
{
    if device1 != device2 {
        assert(entries[1].resource_owner != device1);
    }
}

/// The sequence of device-tagged lines that prints a sequence of
/// diagnostics.
pub open spec fn diag_lines(diags: Seq<Diagnostic>) -> Seq<Line> {
    diags.map_values(|d: Diagnostic| Line::Diag(d))
}

/// The whole output of a run on two devices: the sampler check's report,
/// the separator line, then the texture check's report.
pub open spec fn run_report(device1: u64, device2: u64) -> Seq<Line> {
    diag_lines(sampler_report(device1, device2)) + seq![Line::Separator] + diag_lines(
        texture_report(device1, device2),
    )
}

/// Appends one output line per diagnostic.
fn append_diags(lines: &mut Vec<Line>, diags: &Vec<Diagnostic>)
    ensures
        final(lines)@ == old(lines)@ + diag_lines(diags@),
{
    let mut i: usize = 0;
    while i < diags.len()
        invariant
            i <= diags.len(),
            lines@ == old(lines)@ + diag_lines(diags@.take(i as int)),
        decreases diags.len() - i,
    {
        lines.push(Line::Diag(diags[i]));
        proof {
            let prefix = diags@.take(i as int);
            let longer = diags@.take(i as int + 1);
            assert(longer =~= prefix.push(diags@[i as int]));
            assert(diag_lines(longer) =~= diag_lines(prefix).push(Line::Diag(diags@[i as int])));
        }
        i = i + 1;
    }
    proof {
        assert(diags@.take(diags@.len() as int) =~= diags@);
    }
}

/// Runs the sampler check, then the texture check, on the two devices, and
/// returns the output lines of the whole run in order.
pub fn run_checks(device1: u64, device2: u64) -> (lines: Vec<Line>)
    ensures
        lines@ == run_report(device1, device2),
{
    let mut lines: Vec<Line> = Vec::new();
    let sampler_diags = sampler_mismatch(device1, device2);
    append_diags(&mut lines, &sampler_diags);
    lines.push(Line::Separator);
    let texture_diags = tex_mismatch(device1, device2);
    append_diags(&mut lines, &texture_diags);
    proof {
        assert(lines@ =~= run_report(device1, device2));
    }
    lines
}

} // verus!
