use openstar::hardware::HardwareAPI;
use openstar::launcher::{FolderChoice, LauncherAction, LauncherMsg, Launcher, TextTone};

#[test]
fn folder_then_device_makes_launch_ready() {
    let mut s = Launcher::new();
    assert_eq!(s.title(), "OpenStar Launcher");
    assert_eq!(s.update(LauncherMsg::SelectFolderPress), LauncherAction::PickFolder);
    let a = s.folder_picked(FolderChoice::Picked { shown: "\"/mb\"".into(), das_found: true, xentry_found: true });
    assert_eq!(a, LauncherAction::StoreBothPaths);
    assert!(s.path_valid && !s.launch_ready);
    assert_eq!(s.update(LauncherMsg::SelectAPI(HardwareAPI::Sim)), LauncherAction::ScanDevices(HardwareAPI::Sim));
    s.devices_scanned(None);
    assert_eq!(s.device_list, vec!["OpenStar-Simulation".to_string()]);
    assert_eq!(s.update(LauncherMsg::SelectAPI(HardwareAPI::Sim)), LauncherAction::Nothing);
    s.update(LauncherMsg::HardwareSelected("OpenStar-Simulation".into()));
    assert!(s.launch_ready);
    assert_eq!(s.update(LauncherMsg::LaunchPress), LauncherAction::Launch);
    assert!(s.should_exit());
}

#[test]
fn missing_installations_are_reported() {
    let mut s = Launcher::new();
    let a = s.folder_picked(FolderChoice::Picked { shown: "\"/x\"".into(), das_found: false, xentry_found: true });
    assert_eq!(a, LauncherAction::Nothing);
    assert_eq!(s.error.as_deref(), Some("\"/x\" does not contain a DAS installation"));
    let a = s.folder_picked(FolderChoice::Picked { shown: "\"/x\"".into(), das_found: true, xentry_found: false });
    assert_eq!(a, LauncherAction::StoreDasPath);
    assert_eq!(s.error.as_deref(), Some("\"/x\" does not contain a Xentry installation"));
    s.folder_picked(FolderChoice::Cancelled);
    assert_eq!(s.error.as_deref(), Some("No path was selected"));
    assert!(!s.path_valid);
    assert_eq!(s.update(LauncherMsg::LaunchPress), LauncherAction::Nothing);
    assert!(!s.should_exit());
}

#[test]
fn status_lines() {
    let mut s = Launcher::new();
    assert_eq!(s.path_status(), ("No path selected".to_string(), TextTone::Plain));
    assert_eq!(s.launch_status(), "Not ready to launch");
    assert_eq!(s.device_status(), ("No NULL devices located".to_string(), TextTone::Bad));
    s.folder_picked(FolderChoice::Cancelled);
    assert_eq!(s.path_status(), ("No path was selected".to_string(), TextTone::Bad));
    s.folder_picked(FolderChoice::Picked { shown: "\"/mb\"".into(), das_found: true, xentry_found: true });
    assert_eq!(s.path_status(), ("\"/mb\" is valid".to_string(), TextTone::Good));
    s.update(LauncherMsg::SelectAPI(HardwareAPI::Sim));
    s.devices_scanned(None);
    assert_eq!(s.device_status(), ("'OpenStar-Simulation' located".to_string(), TextTone::Plain));
    assert!(!s.needs_device_choice());
    s.update(LauncherMsg::SelectAPI(HardwareAPI::Passthru));
    s.devices_scanned(Some(vec!["A".into(), "B".into()]));
    assert_eq!(s.device_status(), ("Multiple Passthru devices located. Please choose".to_string(), TextTone::Plain));
    assert!(s.needs_device_choice());
    s.update(LauncherMsg::HardwareSelected("B".into()));
    assert_eq!(s.launch_status(), "Ready to launch!");
}

#[test]
fn new_interface_clears_readiness() {
    let mut s = Launcher::new();
    s.folder_picked(FolderChoice::Picked { shown: "\"/mb\"".into(), das_found: true, xentry_found: true });
    s.update(LauncherMsg::SelectAPI(HardwareAPI::Sim));
    s.devices_scanned(None);
    s.update(LauncherMsg::HardwareSelected("OpenStar-Simulation".into()));
    assert!(s.launch_ready);
    s.update(LauncherMsg::SelectAPI(HardwareAPI::Passthru));
    assert!(s.selected_hw.is_none());
    assert!(!s.launch_ready);
    assert_eq!(s.update(LauncherMsg::LaunchPress), LauncherAction::Nothing);
    assert!(!s.should_exit());
}
