use habitat_sup::manager::{state_path_from, FsCfg, ManagerConfig, STATE_PATH_PREFIX};

#[test]
fn manager_state_path_default() {
    let cfg = ManagerConfig::new();
    let path = state_path_from(&cfg);

    assert_eq!(format!("{}/default", STATE_PATH_PREFIX), path);
}

#[test]
fn manager_state_path_with_name() {
    let mut cfg = ManagerConfig::new();
    cfg.name = Some(String::from("peanuts"));
    let path = state_path_from(&cfg);

    assert_eq!(format!("{}/peanuts", STATE_PATH_PREFIX), path);
}

#[test]
fn manager_state_path_custom() {
    let mut cfg = ManagerConfig::new();
    cfg.custom_state_path = Some(String::from("/tmp/peanuts-and-cake"));
    let path = state_path_from(&cfg);

    assert_eq!("/tmp/peanuts-and-cake", path);
}

#[test]
fn manager_state_path_custom_beats_name() {
    let mut cfg = ManagerConfig::new();
    cfg.custom_state_path = Some(String::from("/tmp/partay"));
    cfg.name = Some(String::from("nope"));
    let path = state_path_from(&cfg);

    assert_eq!("/tmp/partay", path);
}

#[test]
fn fs_cfg_paths() {
    let fs = FsCfg::new("/hab/sup/default");
    assert_eq!(fs.data_path, "/hab/sup/default/data");
    assert_eq!(fs.composites_path, "/hab/sup/default/composites");
    assert_eq!(fs.member_id_file, "/hab/sup/default/MEMBER_ID");
    assert_eq!(fs.proc_lock_file, "/hab/sup/default/LOCK");
}
