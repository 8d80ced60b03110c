use mrv_drwa::mrv_common::resolve_storage_version_upgrade;

#[test]
fn storage_version_upgrade_bootstraps_uninitialized_slot() {
    assert_eq!(resolve_storage_version_upgrade(0, 2, 2), Ok(2));
}

#[test]
fn storage_version_upgrade_accepts_current_version() {
    assert_eq!(resolve_storage_version_upgrade(1, 1, 1), Ok(1));
}

#[test]
fn storage_version_upgrade_rejects_unsupported_legacy_version() {
    assert_eq!(
        resolve_storage_version_upgrade(1, 2, 2),
        Err("unsupported legacy storage version; explicit migration required")
    );
}

#[test]
fn storage_version_upgrade_rejects_future_version() {
    assert_eq!(
        resolve_storage_version_upgrade(3, 2, 2),
        Err("unsupported future storage version")
    );
}
