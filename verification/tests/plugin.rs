use skse_plugin::interface::KInterface;
use skse_plugin::query::{evaluate_query, plugin_descriptor, QueryVerdict};
use skse_plugin::version::make_exe_version;

#[test]
fn packs_supported_runtime_version() {
    assert_eq!(make_exe_version(1, 5, 97, 0), 0x0105_0610);
}

#[test]
fn packs_fields_as_weighted_sum() {
    assert_eq!(make_exe_version(2, 0, 10, 3), 0x0200_00A3);
    assert_eq!(make_exe_version(0, 0, 0, 0), 0);
    assert_eq!(make_exe_version(0xFF, 0xFF, 0xFFF, 0xF), 0xFFFF_FFFF);
}

#[test]
fn packing_masks_out_of_range_fields() {
    assert_eq!(make_exe_version(0x1FF, 0, 0, 0), 0xFF00_0000);
    assert_eq!(make_exe_version(0, 0x100, 0, 0), 0);
    assert_eq!(make_exe_version(0, 0, 0x1000, 0x10), 0);
}

#[test]
fn interface_codes_match_host_numbering() {
    assert_eq!(KInterface::Invalid.code(), 0);
    assert_eq!(KInterface::Scaleform.code(), 1);
    assert_eq!(KInterface::Papyrus.code(), 2);
    assert_eq!(KInterface::Serialization.code(), 3);
    assert_eq!(KInterface::Task.code(), 4);
    assert_eq!(KInterface::Messaging.code(), 5);
    assert_eq!(KInterface::Object.code(), 6);
    assert_eq!(KInterface::Max.code(), 7);
}

#[test]
fn editor_is_refused_before_runtime_check() {
    assert_eq!(evaluate_query(1, make_exe_version(1, 5, 97, 0)), QueryVerdict::Editor);
    assert_eq!(evaluate_query(7, 0), QueryVerdict::Editor);
    assert!(!evaluate_query(1, make_exe_version(1, 5, 97, 0)).accepted());
}

#[test]
fn wrong_runtime_is_refused() {
    assert_eq!(evaluate_query(0, 0), QueryVerdict::UnsupportedRuntime);
    assert_eq!(
        evaluate_query(0, make_exe_version(1, 5, 98, 0)),
        QueryVerdict::UnsupportedRuntime
    );
    assert!(!evaluate_query(0, 0).accepted());
}

#[test]
fn supported_runtime_is_accepted() {
    let verdict = evaluate_query(0, make_exe_version(1, 5, 97, 0));
    assert_eq!(verdict, QueryVerdict::Compatible);
    assert!(verdict.accepted());
}

#[test]
fn descriptor_declares_plugin_metadata() {
    let d = plugin_descriptor();
    assert_eq!(d.info_version, 1);
    assert_eq!(d.version, 1);
    assert_eq!(d.name, "My Rust SKSE Plugin");
}
