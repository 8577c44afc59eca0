use vstd::prelude::*;
use vstd::string::*;
use crate::paths::{BundlePath, BundlePathView};

verus! {

/// What an `AppConfig` holds, as mathematical values.
pub struct AppConfigView {
    pub workspace_dir: Option<Seq<char>>,
    pub data_dir: Option<Seq<char>>,
    pub port: u16,
    pub autostart: bool,
    pub minimize_to_tray: bool,
    pub update_channel: Seq<char>,
    pub check_updates_on_start: bool,
}

/// Application-level settings, stored as `app-config.json` in the system
/// configuration directory. Missing fields take their default values.
pub struct AppConfig {
    /// Working directory the service runs in.
    pub workspace_dir: Option<String>,
    /// Data directory handed to the service as `DSH_HOME`; `None` keeps `~/.dsh`.
    pub data_dir: Option<String>,
    /// Preferred port; 0 lets the operating system choose.
    pub port: u16,
    /// Start at login.
    pub autostart: bool,
    /// Closing the main window hides it to the tray (true) or quits (false).
    pub minimize_to_tray: bool,
    /// Update channel.
    pub update_channel: String,
    /// Check for updates at start-up.
    pub check_updates_on_start: bool,
}

pub open spec fn opt_view(o: Option<String>) -> Option<Seq<char>> {
    match o {
        Some(s) => Some(s@),
        None => None,
    }
}

impl View for AppConfig {
    type V = AppConfigView;

    open spec fn view(&self) -> AppConfigView {
        AppConfigView {
            workspace_dir: opt_view(self.workspace_dir),
            data_dir: opt_view(self.data_dir),
            port: self.port,
            autostart: self.autostart,
            minimize_to_tray: self.minimize_to_tray,
            update_channel: self.update_channel@,
            check_updates_on_start: self.check_updates_on_start,
        }
    }
}

/// The port preferred when nothing else is configured.
pub const DEFAULT_PORT: u16 = 3080;

/// The settings a fresh installation starts with.
pub open spec fn default_config() -> AppConfigView {
    AppConfigView {
        workspace_dir: None,
        data_dir: None,
        port: 3080,
        autostart: false,
        minimize_to_tray: true,
        update_channel: "stable"@,
        check_updates_on_start: true,
    }
}

fn clone_opt_string(o: &Option<String>) -> (r: Option<String>)
    ensures
        opt_view(r) == opt_view(*o),
{
    match o {
        Some(s) => Some(s.clone()),
        None => None,
    }
}

impl Clone for AppConfig {
    fn clone(&self) -> (r: Self)
        ensures
            r@ == self@,
    {
        AppConfig {
            workspace_dir: clone_opt_string(&self.workspace_dir),
            data_dir: clone_opt_string(&self.data_dir),
            port: self.port,
            autostart: self.autostart,
            minimize_to_tray: self.minimize_to_tray,
            update_channel: self.update_channel.clone(),
            check_updates_on_start: self.check_updates_on_start,
        }
    }
}

impl Default for AppConfig {
    fn default() -> (r: Self)
        ensures
            r@ == default_config(),
    {
        AppConfig {
            workspace_dir: None,
            data_dir: None,
            port: DEFAULT_PORT,
            autostart: false,
            minimize_to_tray: true,
            update_channel: String::from_str("stable"),
            check_updates_on_start: true,
        }
    }
}

/// The settings file inside the configuration directory `base`, or inside the
/// current directory when there is none.
pub open spec fn config_file_in(base: Option<BundlePathView>) -> BundlePathView {
    let dir = match base {
        Some(b) => b,
        None => BundlePathView { anchor: seq![], parts: seq!["."@] },
    };
    dir.join("dsh-desktop"@).join("app-config.json"@)
}

pub open spec fn opt_path_view(o: Option<BundlePath>) -> Option<BundlePathView> {
    match o {
        Some(p) => Some(p@),
        None => None,
    }
}

/// Calls `dirs::config_dir`. What it returns depends on the platform and the
/// environment (`$XDG_CONFIG_HOME`, or `$HOME/.config`, on Linux), so nothing is
/// stated of it; each component of the returned path is taken as text, lossily
/// where it is not Unicode (the platform's own string type lies in `std::ffi`,
/// which the library does not use).
#[verifier::external_body]
fn system_config_dir() -> Option<BundlePath> {
    dirs::config_dir().map(|p| {
        let (mut anchor, mut parts) = (Vec::new(), Vec::new());
        for c in p.components() {
            let text = c.as_os_str().to_string_lossy().into_owned();
            match c {
                std::path::Component::Prefix(_) | std::path::Component::RootDir => anchor.push(text),
                _ => parts.push(text),
            }
        }
        BundlePath { anchor, parts }
    })
}

impl AppConfig {
    /// The settings file for a given configuration directory:
    /// `<base>/dsh-desktop/app-config.json`, with `.` for a missing base.
    pub fn config_path_in(base: Option<BundlePath>) -> (r: BundlePath)
        ensures
            r@ == config_file_in(opt_path_view(base)),
    {
        let ghost bv = opt_path_view(base);
        let dir = match base {
            Some(b) => b,
            None => {
                let mut parts: Vec<String> = Vec::new();
                parts.push(String::from_str("."));
                BundlePath { anchor: Vec::new(), parts }
            },
        };
        let r = dir.join("dsh-desktop").join("app-config.json");
        proof {
            if bv is None {
                assert(dir@.anchor =~= seq![]);
                assert(dir@.parts =~= seq!["."@]);
            }
        }
        r
    }

    /// The temporary file a save writes before renaming it over the settings
    /// file `path`: the same name with `.tmp` after it.
    pub fn config_temp_path(path: &BundlePath) -> (r: BundlePath)
        requires
            path@.has_parent(),
        ensures
            r@ == path@.with_name_suffix(".tmp"@),
    {
        path.with_name_suffix(".tmp")
    }

    /// The settings file in the system configuration directory, or in the
    /// current directory when the system has none.
    pub fn config_path() -> (r: BundlePath)
        ensures
            exists|base: Option<BundlePathView>| #[trigger] config_file_in(base) == r@,
    {
        let base = system_config_dir();
        let ghost b = opt_path_view(base);
        let r = Self::config_path_in(base);
        assert(config_file_in(b) == r@);
        r
    }

    /// The settings that a load ends with: what was read and parsed from the
    /// settings file, or the defaults when the file was missing or unreadable.
    pub fn load_or_default(parsed: Option<AppConfig>) -> (r: AppConfig)
        ensures
            parsed is Some ==> r@ == parsed->0@,
            parsed is None ==> r@ == default_config(),
    {
        match parsed {
            Some(c) => c,
            None => AppConfig::default(),
        }
    }
}

/// Law of the defaults: no working or data directory, port 3080, no launch at
/// login, closing to the tray, the stable update channel, and an update check
/// at start-up.
pub proof fn lemma_defaults()
    ensures
        default_config().workspace_dir is None,
        default_config().data_dir is None,
        default_config().port == 3080,
        !default_config().autostart,
        default_config().minimize_to_tray,
        default_config().update_channel == "stable"@,
        default_config().check_updates_on_start,
{
}

/// Law of the settings file: it is `dsh-desktop/app-config.json` inside the
/// configuration directory, keeping that directory's anchor and names, or
/// inside `.` when there is none.
pub proof fn lemma_config_file(base: Option<BundlePathView>)
    ensures
        base matches Some(b) ==> config_file_in(base).anchor == b.anchor
            && config_file_in(base).parts == b.parts + seq!["dsh-desktop"@, "app-config.json"@],
        base is None ==> config_file_in(base).anchor.len() == 0
            && config_file_in(base).parts == seq!["."@, "dsh-desktop"@, "app-config.json"@],
{
    match base {
        Some(b) => {
            assert(config_file_in(base).parts =~= b.parts + seq!["dsh-desktop"@, "app-config.json"@]);
        },
        None => {
            assert(config_file_in(base).parts =~= seq!["."@, "dsh-desktop"@, "app-config.json"@]);
        },
    }
}

} // verus!
