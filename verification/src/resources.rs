//! Device-owned resources and the validation rule on bind groups.
//!
//! A device is modelled by its numeric identity; a resource by the identity
//! of the device that created it. Building a bind group checks each entry's
//! owner against the device the group is built on; destroying a texture
//! that a foreign device's bind group references checks the texture's owner
//! against that device's allocator. Either mismatch yields a [`Diagnostic`]
//! attributed to the device doing the building or the referencing.

use vstd::prelude::*;

use crate::descriptors::{LayoutEntry, TextureDesc};
use crate::diag::{Diagnostic, DiagnosticKind};

verus! {

/// A sampler, owned by the device that created it.
#[derive(Clone, Copy, Debug, PartialEq, Eq, Structural)]
pub struct Sampler {
    /// The identity of the owning device.
    pub owner: u64,
}

/// A texture, owned by the device that created it.
#[derive(Clone, Copy, Debug, PartialEq, Eq, Structural)]
pub struct Texture {
    /// The identity of the owning device.
    pub owner: u64,
    /// Whether the texture has been destroyed.
    pub destroyed: bool,
}

/// A view of a texture, owned by the texture's device.
#[derive(Clone, Copy, Debug, PartialEq, Eq, Structural)]
pub struct TextureView {
    /// The identity of the owning device.
    pub owner: u64,
}

/// A bind-group layout, owned by the device that created it.
#[derive(Debug)]
pub struct BindGroupLayout {
    /// The identity of the owning device.
    pub owner: u64,
    /// The declared entries.
    pub entries: Vec<LayoutEntry>,
}

/// One entry of a bind group: the binding index and the owner of the
/// resource the entry resolves to.
#[derive(Clone, Copy, Debug, PartialEq, Eq, Structural)]
pub struct BindGroupEntry {
    /// The binding index.
    pub binding: u32,
    /// The identity of the device that owns the bound resource.
    pub resource_owner: u64,
}

/// A bind group, owned by the device it was built on.
#[derive(Clone, Copy, Debug, PartialEq, Eq, Structural)]
pub struct BindGroup {
    /// The identity of the owning device.
    pub owner: u64,
}

/// Creates a sampler on the given device.
pub fn create_sampler(device: u64) -> (s: Sampler)
    ensures
        s.owner == device,
{
    Sampler { owner: device }
}

/// Creates a texture on the given device from the given descriptor.
pub fn create_texture(device: u64, _desc: &TextureDesc) -> (t: Texture)
    ensures
        t.owner == device,
        !t.destroyed,
{
    Texture { owner: device, destroyed: false }
}

/// Creates a default view of a texture that still exists.
pub fn create_view(t: &Texture) -> (v: TextureView)
    requires
        !t.destroyed,
    ensures
        v.owner == t.owner,
{
    TextureView { owner: t.owner }
}

/// Creates a bind-group layout on the given device with the given entries.
pub fn create_bind_group_layout(device: u64, entries: Vec<LayoutEntry>) -> (l: BindGroupLayout)
    ensures
        l.owner == device,
        l.entries@ == entries@,
{
    BindGroupLayout { owner: device, entries }
}

/// Whether some entry's resource is owned by a device other than the one
/// the bind group is built on.
pub open spec fn has_foreign(device: u64, entries: Seq<BindGroupEntry>) -> bool {
    exists|i: int| 0 <= i < entries.len() && entries[i].resource_owner != device
}

/// The diagnostic that building a bind group on `device` over `entries`
/// provokes: a cross-device report to `device`'s own callback exactly when
/// an entry's resource is foreign, and silence otherwise.
pub open spec fn bind_group_report(device: u64, entries: Seq<BindGroupEntry>) -> Option<
    Diagnostic,
> {
    if has_foreign(device, entries) {
        Some(Diagnostic { device, kind: DiagnosticKind::CrossDeviceResource })
    } else {
        None
    }
}

/// Builds a bind group on the given device against a layout of that same
/// device, and returns the group together with the diagnostic the
/// validation layer reports for it, if any.
pub fn create_bind_group(
    device: u64,
    layout: &BindGroupLayout,
    entries: &Vec<BindGroupEntry>,
) -> (r: (BindGroup, Option<Diagnostic>))
    requires
        layout.owner == device,
    ensures
        r.0.owner == device,
        r.1 == bind_group_report(device, entries@),
{
    let mut diag: Option<Diagnostic> = None;
    let mut i: usize = 0;
    while i < entries.len()
        invariant
            i <= entries.len(),
            diag == bind_group_report(device, entries@.take(i as int)),
        decreases entries.len() - i,
    {
        let mismatch: bool = entries[i].resource_owner != device;
        if mismatch {
            diag = Some(Diagnostic { device, kind: DiagnosticKind::CrossDeviceResource });
        }
        proof {
            let prefix = entries@.take(i as int);
            let longer = entries@.take(i as int + 1);
            assert(longer =~= prefix.push(entries@[i as int]));
            if mismatch {
                assert(longer[i as int].resource_owner != device);
                assert(has_foreign(device, longer));
            } else {
                if has_foreign(device, longer) {
                    let w = choose|w: int|
                        0 <= w < longer.len() && longer[w].resource_owner != device;
                    if w < i as int {
                        assert(longer[w] == prefix[w]);
                        assert(has_foreign(device, prefix));
                    } else {
                        assert(longer[w] == entries@[i as int]);
                        assert(false);
                    }
                }
                if has_foreign(device, prefix) {
                    let w = choose|w: int|
                        0 <= w < prefix.len() && prefix[w].resource_owner != device;
                    assert(longer[w] == prefix[w]);
                    assert(has_foreign(device, longer));
                }
            }
        }
        i = i + 1;
    }
    proof {
        assert(entries@.take(entries@.len() as int) =~= entries@);
    }
    (BindGroup { owner: device }, diag)
}

/// The diagnostic that destroying a texture still referenced by a bind
/// group provokes: a foreign-allocator report to the referencing device
/// exactly when that device is not the texture's owner, and silence when
/// the texture is destroyed on its own device.
pub open spec fn destroy_report(owner: u64, referencing_device: u64) -> Option<Diagnostic> {
    if owner != referencing_device {
        Some(Diagnostic { device: referencing_device, kind: DiagnosticKind::ForeignAllocator })
    } else {
        None
    }
}

/// Destroys a texture that a bind group still references, and returns the
/// diagnostic the destruction provokes, if any. The texture is marked
/// destroyed whether or not the allocator complains; destruction never
/// aborts.
pub fn destroy_texture(t: &mut Texture, bound_in: &BindGroup) -> (d: Option<Diagnostic>)
    ensures
        final(t).owner == old(t).owner,
        final(t).destroyed,
        d == destroy_report(old(t).owner, bound_in.owner),
{
    t.destroyed = true;
    if t.owner != bound_in.owner {
        Some(Diagnostic { device: bound_in.owner, kind: DiagnosticKind::ForeignAllocator })
    } else {
        None
    }
}

} // verus!
