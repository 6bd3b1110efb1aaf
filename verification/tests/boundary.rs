use glootie_zed::{get_extension_status, init_extension, GlootieExtension};

#[test]
fn status_is_zero_before_any_activation() {
    let ext = GlootieExtension::new();
    assert_eq!(get_extension_status(&ext), 0u8);
}

#[test]
fn status_is_one_after_init() {
    let mut ext = GlootieExtension::new();
    init_extension(&mut ext);
    assert_eq!(get_extension_status(&ext), 1u8);
    assert!(ext.is_active());
}

#[test]
fn init_twice_still_reports_one() {
    let mut ext = GlootieExtension::new();
    init_extension(&mut ext);
    init_extension(&mut ext);
    assert_eq!(get_extension_status(&ext), 1u8);
}

#[test]
fn init_leaves_assistant_alone() {
    let mut ext = GlootieExtension::new();
    init_extension(&mut ext);
    assert!(!ext.is_assistant_enabled());

    let mut with_assistant = GlootieExtension::new();
    with_assistant.toggle_assistant();
    init_extension(&mut with_assistant);
    assert!(with_assistant.is_assistant_enabled());
    assert_eq!(get_extension_status(&with_assistant), 1u8);
}

#[test]
fn status_follows_deactivation() {
    let mut ext = GlootieExtension::new();
    init_extension(&mut ext);
    ext.deactivate();
    assert_eq!(get_extension_status(&ext), 0u8);
    ext.activate();
    assert_eq!(get_extension_status(&ext), 1u8);
}

#[test]
fn status_ignores_assistant() {
    let mut ext = GlootieExtension::new();
    ext.toggle_assistant();
    assert_eq!(get_extension_status(&ext), 0u8);
    ext.activate();
    ext.toggle_assistant();
    assert_eq!(get_extension_status(&ext), 1u8);
}

#[test]
fn status_read_does_not_change_the_state() {
    let mut ext = GlootieExtension::new();
    ext.toggle_assistant();
    assert_eq!(get_extension_status(&ext), 0u8);
    assert_eq!(get_extension_status(&ext), 0u8);
    assert!(!ext.is_active());
    assert!(ext.is_assistant_enabled());
}
