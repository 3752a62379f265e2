use crossbind::descriptors::{
    sampler_layout_entries, texture_descriptor, texture_layout_entries, BindingKind, ShaderStage,
    TextureDimension, TextureFormat, TextureUsage,
};
use crossbind::diag::{Diagnostic, DiagnosticKind};
use crossbind::resources::{
    create_bind_group, create_bind_group_layout, create_sampler, create_texture, create_view,
    destroy_texture, BindGroupEntry,
};

#[test]
fn texture_descriptor_is_the_small_test_texture() {
    let d = texture_descriptor();
    assert_eq!(d.width, 4);
    assert_eq!(d.height, 4);
    assert_eq!(d.depth_or_array_layers, 1);
    assert_eq!(d.mip_level_count, 1);
    assert_eq!(d.sample_count, 1);
    assert_eq!(d.format, TextureFormat::Rgba8UnormSrgb);
    assert_eq!(d.dimension, TextureDimension::D2);
    assert_eq!(d.usage, TextureUsage::Binding);
}

#[test]
fn sampler_layout_declares_two_filtering_samplers() {
    let entries = sampler_layout_entries();
    assert_eq!(entries.len(), 2);
    assert_eq!(entries[0].binding, 0);
    assert_eq!(entries[1].binding, 1);
    for e in &entries {
        assert_eq!(e.visibility, ShaderStage::Fragment);
        assert_eq!(e.kind, BindingKind::FilteringSampler);
    }
}

#[test]
fn texture_layout_declares_two_float_textures() {
    let entries = texture_layout_entries();
    assert_eq!(entries.len(), 2);
    assert_eq!(entries[0].binding, 0);
    assert_eq!(entries[1].binding, 1);
    for e in &entries {
        assert_eq!(e.visibility, ShaderStage::Fragment);
        assert_eq!(e.kind, BindingKind::FloatTexture2d);
    }
}

#[test]
fn resources_carry_their_owner() {
    let s = create_sampler(11);
    assert_eq!(s.owner, 11);
    let t = create_texture(12, &texture_descriptor());
    assert_eq!(t.owner, 12);
    assert!(!t.destroyed);
    let v = create_view(&t);
    assert_eq!(v.owner, 12);
}

#[test]
fn bind_group_of_local_resources_is_silent() {
    let layout = create_bind_group_layout(1, sampler_layout_entries());
    let entries = vec![
        BindGroupEntry { binding: 0, resource_owner: 1 },
        BindGroupEntry { binding: 1, resource_owner: 1 },
    ];
    let (group, report) = create_bind_group(1, &layout, &entries);
    assert_eq!(group.owner, 1);
    assert_eq!(report, None);
}

#[test]
fn bind_group_with_foreign_entry_blames_the_builder() {
    let layout = create_bind_group_layout(1, sampler_layout_entries());
    let entries = vec![
        BindGroupEntry { binding: 0, resource_owner: 1 },
        BindGroupEntry { binding: 1, resource_owner: 2 },
    ];
    let (_, report) = create_bind_group(1, &layout, &entries);
    assert_eq!(
        report,
        Some(Diagnostic { device: 1, kind: DiagnosticKind::CrossDeviceResource })
    );
}

#[test]
fn destroying_a_foreign_texture_reports_but_does_not_abort() {
    let layout = create_bind_group_layout(1, texture_layout_entries());
    let mut tex = create_texture(2, &texture_descriptor());
    let entries = vec![
        BindGroupEntry { binding: 0, resource_owner: 1 },
        BindGroupEntry { binding: 1, resource_owner: tex.owner },
    ];
    let (group, _) = create_bind_group(1, &layout, &entries);
    let report = destroy_texture(&mut tex, &group);
    assert!(tex.destroyed);
    assert_eq!(
        report,
        Some(Diagnostic { device: 1, kind: DiagnosticKind::ForeignAllocator })
    );
}

#[test]
fn destroying_a_local_texture_is_silent() {
    let layout = create_bind_group_layout(1, texture_layout_entries());
    let mut tex = create_texture(1, &texture_descriptor());
    let entries = vec![
        BindGroupEntry { binding: 0, resource_owner: 1 },
        BindGroupEntry { binding: 1, resource_owner: tex.owner },
    ];
    let (group, report) = create_bind_group(1, &layout, &entries);
    assert_eq!(report, None);
    assert_eq!(destroy_texture(&mut tex, &group), None);
    assert!(tex.destroyed);
}
