use openstar::paths::{PathConfig, PathOwner};

#[test]
fn test_unix_path_das() {
    let full_path = r"C:\Program Files (x86)\Mercedes-Benz\DAS\thesaur\000\thesaual.dbz";
    let mut cfg = PathConfig::new();
    cfg.set_das_path("/home/user/Mercedes-Benz/DAS");
    assert_eq!(
        "/home/user/Mercedes-Benz/DAS/thesaur/000/thesaual.dbz",
        cfg.create_local_path(PathOwner::DAS, full_path).unwrap()
    )
}

#[test]
fn xentry_paths_and_missing_marker() {
    let mut cfg = PathConfig::new();
    cfg.set_xentry_path("/opt/xentry/");
    assert_eq!(
        cfg.create_local_path(PathOwner::Xentry, r"C:\Program Files (x86)\Mercedes-Benz\Xentry\bin\x.exe").unwrap(),
        "/opt/xentry/bin/x.exe"
    );
    assert!(cfg.create_local_path(PathOwner::DAS, r"C:\Program Files\Other\file.txt").is_none());
    assert_eq!(cfg.create_local_path(PathOwner::Xentry, r"a\Xentry\b\Xentry\c").unwrap(), "/opt/xentry/b/");
}
