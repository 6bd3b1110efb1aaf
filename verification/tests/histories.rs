use glootie_zed::{get_extension_status, init_extension, GlootieExtension};
use std::sync::{Arc, Mutex};

#[test]
fn last_write_to_activation_wins() {
    let mut ext = GlootieExtension::new();
    ext.activate();
    ext.toggle_assistant();
    ext.deactivate();
    ext.toggle_assistant();
    ext.toggle_assistant();
    assert!(!ext.is_active());
    assert_eq!(get_extension_status(&ext), 0u8);

    ext.deactivate();
    ext.activate();
    ext.toggle_assistant();
    assert!(ext.is_active());
    assert_eq!(get_extension_status(&ext), 1u8);
}

#[test]
fn activation_kept_where_nothing_writes_it() {
    let mut ext = GlootieExtension::new();
    ext.activate();
    let mut n: u32 = 0;
    while n < 5 {
        ext.toggle_assistant();
        assert!(ext.is_active());
        n += 1;
    }
    assert!(ext.is_active());
}

#[test]
fn assistant_follows_parity_of_toggles() {
    let mut ext = GlootieExtension::new();
    let mut n: u32 = 0;
    while n < 7 {
        ext.toggle_assistant();
        n += 1;
        assert_eq!(ext.is_assistant_enabled(), n % 2 == 1);
        if n % 3 == 0 {
            ext.activate();
        } else {
            ext.deactivate();
        }
    }
    assert!(ext.is_assistant_enabled());
    assert!(!ext.is_active());
}

#[test]
fn shared_extension_behind_a_lock() {
    let shared = Arc::new(Mutex::new(GlootieExtension::new()));
    assert_eq!(get_extension_status(&shared.lock().unwrap()), 0u8);

    let mut n: u32 = 0;
    while n < 8 {
        let handle = Arc::clone(&shared);
        let mut ext = handle.lock().unwrap();
        if n % 2 == 0 {
            ext.activate();
            assert_eq!(get_extension_status(&ext), 1u8);
        } else {
            ext.deactivate();
            assert_eq!(get_extension_status(&ext), 0u8);
        }
        n += 1;
    }

    init_extension(&mut shared.lock().unwrap());
    let ext = shared.lock().unwrap();
    assert!(ext.is_active());
    assert!(!ext.is_assistant_enabled());
    assert_eq!(get_extension_status(&ext), 1u8);
}
