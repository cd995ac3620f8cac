use vstd::prelude::*;
use crate::hardware::{HardwareAPI, api_name, get_device_list, is_device_list, open_device};

verus! {

broadcast use vstd::string::group_string_axioms;

/// What the user did in the launcher window.
#[derive(Debug, Clone)]
pub enum LauncherMsg {
    SelectFolderPress,
    LaunchPress,
    SelectAPI(HardwareAPI),
    HardwareSelected(String),
}

/// What came of the folder dialog: the folder as shown to the user, and
/// whether it holds each installation.
#[derive(Debug, Clone)]
pub enum FolderChoice {
    Cancelled,
    Picked { shown: String, das_found: bool, xentry_found: bool },
}

/// Work that the window must do for the launcher.
#[derive(Debug, Clone, PartialEq, Eq, Structural)]
pub enum LauncherAction {
    Nothing,
    /// Ask the user for the installation folder, then report it through
    /// `folder_picked`.
    PickFolder,
    /// Record the folder's DAS directory only.
    StoreDasPath,
    /// Record the folder's DAS and Xentry directories.
    StoreBothPaths,
    /// Look for devices of this interface, then report them through
    /// `devices_scanned`.
    ScanDevices(HardwareAPI),
    /// The chosen device was opened: close the launcher and go on.
    Launch,
}

/// State of the launcher window.
pub struct Launcher {
    pub path_valid: bool,
    pub root_path: String,
    pub launch_ready: bool,
    pub exit: bool,
    pub api: HardwareAPI,
    pub selected_hw: Option<String>,
    pub device_list: Vec<String>,
    pub error: Option<String>,
}

pub open spec fn no_das_message(shown: Seq<char>) -> Seq<char> {
    shown + " does not contain a DAS installation"@
}

pub open spec fn no_xentry_message(shown: Seq<char>) -> Seq<char> {
    shown + " does not contain a Xentry installation"@
}

pub open spec fn no_path_message() -> Seq<char> {
    "No path was selected"@
}

/// How a status line is shown.
#[derive(Debug, Copy, Clone, PartialEq, Eq, Structural)]
pub enum TextTone {
    Plain,
    /// Shown in green.
    Good,
    /// Shown in red.
    Bad,
}

/// The status line of the folder choice.
pub open spec fn path_status_text(s: Launcher) -> (Seq<char>, TextTone) {
    if s.path_valid {
        (s.root_path@ + " is valid"@, TextTone::Good)
    } else if s.error is Some {
        (s.error->0@, TextTone::Bad)
    } else {
        ("No path selected"@, TextTone::Plain)
    }
}

/// The status line of the launch button.
pub open spec fn launch_status_text(s: Launcher) -> Seq<char> {
    if s.launch_ready {
        "Ready to launch!"@
    } else {
        "Not ready to launch"@
    }
}

/// The status line of the device search.
pub open spec fn device_status_text(s: Launcher) -> (Seq<char>, TextTone) {
    if s.device_list@.len() == 0 {
        ("No "@ + api_name(s.api) + " devices located"@, TextTone::Bad)
    } else if s.device_list@.len() == 1 {
        ("'"@ + s.device_list@[0]@ + "' located"@, TextTone::Plain)
    } else {
        ("Multiple "@ + api_name(s.api) + " devices located. Please choose"@, TextTone::Plain)
    }
}

/// The launcher is ready only with a valid folder and a chosen device.
pub open spec fn consistent(s: Launcher) -> bool {
    s.launch_ready ==> s.path_valid && s.selected_hw is Some
}

/// The window title.
pub open spec fn launcher_title() -> Seq<char> {
    "OpenStar Launcher"@
}

impl Launcher {
    /// A launcher with no folder, no interface and no device chosen.
    pub fn new() -> (r: Self)
        ensures
            !r.path_valid,
            r.root_path@.len() == 0,
            !r.launch_ready,
            !r.exit,
            r.api == HardwareAPI::Null,
            r.selected_hw is None,
            r.device_list@.len() == 0,
            r.error is None,
            consistent(r),
    {
        Launcher {
            path_valid: false,
            root_path: String::new(),
            launch_ready: false,
            exit: false,
            api: HardwareAPI::Null,
            selected_hw: None,
            device_list: Vec::new(),
            error: None,
        }
    }

    pub fn title(&self) -> (r: String)
        ensures
            r@ == launcher_title(),
    {
        "OpenStar Launcher".to_string()
    }

    pub fn should_exit(&self) -> (r: bool)
        ensures
            r == self.exit,
    {
        self.exit
    }

    /// Handles one message and says what the window must do next.
    pub fn update(&mut self, message: LauncherMsg) -> (r: LauncherAction)
        ensures
            consistent(*old(self)) ==> consistent(*final(self)),
            match message {
                LauncherMsg::SelectFolderPress => {
                    &&& r == LauncherAction::PickFolder
                    &&& !final(self).path_valid
                    &&& !final(self).launch_ready
                    &&& final(self).root_path@.len() == 0
                    &&& final(self).exit == old(self).exit
                    &&& final(self).api == old(self).api
                    &&& final(self).selected_hw == old(self).selected_hw
                    &&& final(self).device_list == old(self).device_list
                    &&& final(self).error == old(self).error
                },
                LauncherMsg::LaunchPress => {
                    &&& final(self).path_valid == old(self).path_valid
                    &&& final(self).root_path == old(self).root_path
                    &&& final(self).launch_ready == old(self).launch_ready
                    &&& final(self).api == old(self).api
                    &&& final(self).selected_hw == old(self).selected_hw
                    &&& final(self).device_list == old(self).device_list
                    &&& final(self).error == old(self).error
                    &&& if old(self).launch_ready && old(self).selected_hw is Some {
                        r == LauncherAction::Launch && final(self).exit
                    } else {
                        r == LauncherAction::Nothing && final(self).exit == old(self).exit
                    }
                },
                LauncherMsg::SelectAPI(api) => {
                    &&& final(self).path_valid == old(self).path_valid
                    &&& final(self).root_path == old(self).root_path
                    &&& final(self).launch_ready == (api == old(self).api && old(self).launch_ready)
                    &&& final(self).exit == old(self).exit
                    &&& final(self).device_list == old(self).device_list
                    &&& final(self).error == old(self).error
                    &&& final(self).api == api
                    &&& if api == old(self).api {
                        r == LauncherAction::Nothing && final(self).selected_hw == old(self).selected_hw
                    } else {
                        r == LauncherAction::ScanDevices(api) && final(self).selected_hw is None
                    }
                },
                LauncherMsg::HardwareSelected(dev) => {
                    &&& r == LauncherAction::Nothing
                    &&& final(self).selected_hw == Some(dev)
                    &&& final(self).launch_ready == (old(self).launch_ready || old(self).path_valid)
                    &&& final(self).path_valid == old(self).path_valid
                    &&& final(self).root_path == old(self).root_path
                    &&& final(self).exit == old(self).exit
                    &&& final(self).api == old(self).api
                    &&& final(self).device_list == old(self).device_list
                    &&& final(self).error == old(self).error
                },
            },
    {
        match message {
            LauncherMsg::SelectFolderPress => {
                self.path_valid = false;
                self.launch_ready = false;
                self.root_path = String::new();
                LauncherAction::PickFolder
            },
            LauncherMsg::LaunchPress => {
                if self.launch_ready {
                    match &self.selected_hw {
                        Some(name) => {
                            if open_device(name.as_str(), self.api) {
                                self.exit = true;
                                return LauncherAction::Launch;
                            }
                            LauncherAction::Nothing
                        },
                        None => LauncherAction::Nothing,
                    }
                } else {
                    LauncherAction::Nothing
                }
            },
            LauncherMsg::SelectAPI(api) => {
                if api == self.api {
                    return LauncherAction::Nothing;
                }
                self.selected_hw = None;
                self.launch_ready = false;
                self.api = api;
                LauncherAction::ScanDevices(api)
            },
            LauncherMsg::HardwareSelected(dev) => {
                self.selected_hw = Some(dev);
                if self.path_valid {
                    self.launch_ready = true;
                }
                LauncherAction::Nothing
            },
        }
    }

    /// Takes in what the folder dialog gave.
    pub fn folder_picked(&mut self, choice: FolderChoice) -> (r: LauncherAction)
        ensures
            consistent(*old(self)) ==> consistent(*final(self)),
            final(self).exit == old(self).exit,
            final(self).api == old(self).api,
            final(self).selected_hw == old(self).selected_hw,
            final(self).device_list == old(self).device_list,
            match choice {
                FolderChoice::Cancelled => {
                    &&& r == LauncherAction::Nothing
                    &&& final(self).error matches Some(e) && e@ == no_path_message()
                    &&& final(self).path_valid == old(self).path_valid
                    &&& final(self).launch_ready == old(self).launch_ready
                    &&& final(self).root_path == old(self).root_path
                },
                FolderChoice::Picked { shown, das_found, xentry_found } => {
                    if !das_found {
                        &&& r == LauncherAction::Nothing
                        &&& final(self).error matches Some(e) && e@ == no_das_message(shown@)
                        &&& final(self).path_valid == old(self).path_valid
                        &&& final(self).launch_ready == old(self).launch_ready
                        &&& final(self).root_path == old(self).root_path
                    } else if !xentry_found {
                        &&& r == LauncherAction::StoreDasPath
                        &&& final(self).error matches Some(e) && e@ == no_xentry_message(shown@)
                        &&& final(self).path_valid == old(self).path_valid
                        &&& final(self).launch_ready == old(self).launch_ready
                        &&& final(self).root_path == old(self).root_path
                    } else {
                        &&& r == LauncherAction::StoreBothPaths
                        &&& final(self).error is None
                        &&& final(self).path_valid
                        &&& final(self).root_path@ == shown@
                        &&& final(self).launch_ready == (old(self).launch_ready || old(self).selected_hw is Some)
                    }
                },
            },
    {
        match choice {
            FolderChoice::Cancelled => {
                self.error = Some("No path was selected".to_string());
                LauncherAction::Nothing
            },
            FolderChoice::Picked { shown, das_found, xentry_found } => {
                if !das_found {
                    let mut e = shown;
                    e.append(" does not contain a DAS installation");
                    self.error = Some(e);
                    LauncherAction::Nothing
                } else if !xentry_found {
                    let mut e = shown;
                    e.append(" does not contain a Xentry installation");
                    self.error = Some(e);
                    LauncherAction::StoreDasPath
                } else {
                    self.error = None;
                    self.path_valid = true;
                    self.root_path = shown;
                    if self.selected_hw.is_some() {
                        self.launch_ready = true;
                    }
                    LauncherAction::StoreBothPaths
                }
            },
        }
    }

    /// Takes in the result of a device scan for the current interface
    /// (`None` when a Passthru scan failed).
    pub fn devices_scanned(&mut self, passthru_found: Option<Vec<String>>)
        ensures
            is_device_list(old(self).api, passthru_found, final(self).device_list@),
            final(self).path_valid == old(self).path_valid,
            final(self).root_path == old(self).root_path,
            final(self).launch_ready == old(self).launch_ready,
            final(self).exit == old(self).exit,
            final(self).api == old(self).api,
            final(self).selected_hw == old(self).selected_hw,
            final(self).error == old(self).error,
    {
        self.device_list = get_device_list(self.api, passthru_found);
    }
}

impl Launcher {
    /// Status line of the folder choice, and how to show it.
    pub fn path_status(&self) -> (r: (String, TextTone))
        ensures
            (r.0@, r.1) == path_status_text(*self),
    {
        if self.path_valid {
            let mut t = self.root_path.clone();
            t.append(" is valid");
            (t, TextTone::Good)
        } else {
            match &self.error {
                Some(e) => (e.clone(), TextTone::Bad),
                None => ("No path selected".to_string(), TextTone::Plain),
            }
        }
    }

    /// Status line of the launch button.
    pub fn launch_status(&self) -> (r: String)
        ensures
            r@ == launch_status_text(*self),
    {
        if self.launch_ready {
            "Ready to launch!".to_string()
        } else {
            "Not ready to launch".to_string()
        }
    }

    /// Status line of the device search, and how to show it.
    pub fn device_status(&self) -> (r: (String, TextTone))
        ensures
            (r.0@, r.1) == device_status_text(*self),
    {
        let n = self.device_list.len();
        if n == 0 {
            let mut t = "No ".to_string();
            t.append(self.api.to_string().as_str());
            t.append(" devices located");
            (t, TextTone::Bad)
        } else if n == 1 {
            let mut t = "'".to_string();
            t.append(self.device_list[0].as_str());
            t.append("' located");
            (t, TextTone::Plain)
        } else {
            let mut t = "Multiple ".to_string();
            t.append(self.api.to_string().as_str());
            t.append(" devices located. Please choose");
            (t, TextTone::Plain)
        }
    }

    /// Whether the user must pick among several devices.
    pub fn needs_device_choice(&self) -> (r: bool)
        ensures
            r == (self.device_list@.len() > 1),
    {
        self.device_list.len() > 1
    }
}

} // verus!
