use crossbind::checks::{run_checks, sampler_mismatch, tex_mismatch};
use crossbind::diag::{Diagnostic, DiagnosticKind, Line};

#[test]
fn sampler_check_reports_to_first_device() {
    let diags = sampler_mismatch(1, 2);
    assert_eq!(diags.len(), 1);
    assert_eq!(
        diags[0],
        Diagnostic { device: 1, kind: DiagnosticKind::CrossDeviceResource }
    );
}

#[test]
fn sampler_check_never_blames_second_device() {
    let diags = sampler_mismatch(7, 9);
    for d in &diags {
        assert_eq!(d.device, 7);
        assert_ne!(d.device, 9);
    }
    assert!(!diags.is_empty());
}

#[test]
fn sampler_check_silent_on_one_device() {
    let diags = sampler_mismatch(5, 5);
    assert!(diags.is_empty());
}

#[test]
fn texture_check_reports_group_then_destroy() {
    let diags = tex_mismatch(1, 2);
    assert_eq!(diags.len(), 2);
    assert_eq!(
        diags[0],
        Diagnostic { device: 1, kind: DiagnosticKind::CrossDeviceResource }
    );
    assert_eq!(
        diags[1],
        Diagnostic { device: 1, kind: DiagnosticKind::ForeignAllocator }
    );
}

#[test]
fn texture_check_silent_on_one_device() {
    let diags = tex_mismatch(3, 3);
    assert!(diags.is_empty());
}

#[test]
fn checks_have_no_hidden_coupling() {
    let sampler_alone = sampler_mismatch(1, 2);
    let texture_alone = tex_mismatch(1, 2);
    let full = run_checks(1, 2);
    let mut expected: Vec<Line> = Vec::new();
    for d in &sampler_alone {
        expected.push(Line::Diag(*d));
    }
    expected.push(Line::Separator);
    for d in &texture_alone {
        expected.push(Line::Diag(*d));
    }
    assert_eq!(full, expected);
}

#[test]
fn end_to_end_two_devices() {
    let lines = run_checks(1, 2);
    assert_eq!(lines.len(), 4);
    assert_eq!(
        lines[0],
        Line::Diag(Diagnostic { device: 1, kind: DiagnosticKind::CrossDeviceResource })
    );
    assert_eq!(lines[1], Line::Separator);
    match lines[2] {
        Line::Diag(d) => assert_eq!(d.device, 1),
        Line::Separator => panic!("expected a first-device diagnostic after the separator"),
    }
    match lines[3] {
        Line::Diag(d) => assert_eq!(d.device, 1),
        Line::Separator => panic!("expected a first-device diagnostic after the separator"),
    }
}

#[test]
fn full_run_on_one_device_prints_only_the_separator() {
    let lines = run_checks(4, 4);
    assert_eq!(lines, vec![Line::Separator]);
}
