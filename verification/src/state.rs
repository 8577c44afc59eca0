use vstd::prelude::*;
use vstd::string::*;
use crate::config::{AppConfig, AppConfigView};

verus! {

/// A port the settings may hold: 0 (let the system choose) or 1024..=65535.
pub open spec fn port_allowed(port: u16) -> bool {
    port == 0 || 1024 <= port
}

/// A directory setting that names a directory: set and not empty.
pub open spec fn names_dir(d: Option<Seq<char>>) -> bool {
    d matches Some(p) && p.len() > 0
}

/// The message a request with a port outside the allowed range is refused with.
pub open spec fn port_range_message() -> Seq<char> {
    "端口必须在 1024-65535 之间（0 表示自动分配）"@
}

/// Why a settings request is refused, if it is: a port that is neither 0 nor in
/// 1024..=65535, then a working directory or a data directory that was reported
/// not to exist, in this order.
pub open spec fn request_problem(
    requested: AppConfigView,
    workspace_exists: bool,
    data_dir_exists: bool,
) -> Option<Seq<char>> {
    if !port_allowed(requested.port) {
        Some(port_range_message())
    } else if names_dir(requested.workspace_dir) && !workspace_exists {
        Some("工作目录不存在: "@ + requested.workspace_dir->0)
    } else if names_dir(requested.data_dir) && !data_dir_exists {
        Some("数据目录不存在: "@ + requested.data_dir->0)
    } else {
        None
    }
}

/// The settings after a request to replace `current` by `requested`: a
/// refused request changes nothing.
pub open spec fn config_after_set(
    current: AppConfigView,
    requested: AppConfigView,
    workspace_exists: bool,
    data_dir_exists: bool,
) -> AppConfigView {
    if request_problem(requested, workspace_exists, data_dir_exists) is None {
        requested
    } else {
        current
    }
}

/// The shell's state as the verified code sees it: the current settings.
pub struct AppState {
    pub config: AppConfig,
}

impl AppState {
    pub fn new(config: AppConfig) -> (r: AppState)
        ensures
            r.config@ == config@,
    {
        AppState { config }
    }

    /// A copy of the current settings.
    pub fn get_config(&self) -> (r: AppConfig)
        ensures
            r@ == self.config@,
    {
        self.config.clone()
    }

    /// Replaces the settings by `cfg`, unless its port is neither 0 nor in
    /// 1024..=65535, or a directory it names was reported missing
    /// (`workspace_exists` for its working directory, `data_dir_exists` for its
    /// data directory; each is looked at only when that directory is set and
    /// not empty): then the settings stay as they were and the request is
    /// refused with a message. Looking at the file system and writing the
    /// settings file are the caller's part.
    pub fn set_config(&mut self, cfg: AppConfig, workspace_exists: bool, data_dir_exists: bool) -> (r: Result<(), String>)
        ensures
            r is Ok <==> request_problem(cfg@, workspace_exists, data_dir_exists) is None,
            r matches Err(e) ==> request_problem(cfg@, workspace_exists, data_dir_exists) == Some(e@),
            final(self).config@ == config_after_set(old(self).config@, cfg@, workspace_exists, data_dir_exists),
    {
        if cfg.port != 0 && cfg.port < 1024 {
            return Err(String::from_str("端口必须在 1024-65535 之间（0 表示自动分配）"));
        }
        if let Some(w) = &cfg.workspace_dir {
            if !w.as_str().is_empty() && !workspace_exists {
                let mut msg = String::from_str("工作目录不存在: ");
                msg.append(w.as_str());
                return Err(msg);
            }
        }
        if let Some(d) = &cfg.data_dir {
            if !d.as_str().is_empty() && !data_dir_exists {
                let mut msg = String::from_str("数据目录不存在: ");
                msg.append(d.as_str());
                return Err(msg);
            }
        }
        self.config = cfg;
        Ok(())
    }

    /// Records the working directory the service was started in.
    pub fn remember_workspace(&mut self, workspace: String)
        ensures
            final(self).config@ == (AppConfigView { workspace_dir: Some(workspace@), ..old(self).config@ }),
    {
        self.config.workspace_dir = Some(workspace);
    }
}

/// Law: a settings request that is accepted is what a later read returns.
pub proof fn lemma_read_after_set(
    current: AppConfigView,
    requested: AppConfigView,
    workspace_exists: bool,
    data_dir_exists: bool,
)
    requires
        request_problem(requested, workspace_exists, data_dir_exists) is None,
    ensures
        config_after_set(current, requested, workspace_exists, data_dir_exists) == requested,
{
}

/// Law: a refused settings request leaves the settings unchanged; a request is
/// refused whenever its port is not allowed or a directory it names was
/// reported missing.
pub proof fn lemma_refused_set_keeps(
    current: AppConfigView,
    requested: AppConfigView,
    workspace_exists: bool,
    data_dir_exists: bool,
)
    requires
        !port_allowed(requested.port)
            || (names_dir(requested.workspace_dir) && !workspace_exists)
            || (names_dir(requested.data_dir) && !data_dir_exists),
    ensures
        request_problem(requested, workspace_exists, data_dir_exists) is Some,
        config_after_set(current, requested, workspace_exists, data_dir_exists) == current,
{
}

/// Law: settings with an allowed port keep an allowed port, whatever is requested.
pub proof fn lemma_set_keeps_port_allowed(
    current: AppConfigView,
    requested: AppConfigView,
    workspace_exists: bool,
    data_dir_exists: bool,
)
    requires
        port_allowed(current.port),
    ensures
        port_allowed(config_after_set(current, requested, workspace_exists, data_dir_exists).port),
{
}

/// Law: repeating a settings request, with the same reports on its
/// directories, changes nothing more.
pub proof fn lemma_set_idempotent(
    current: AppConfigView,
    requested: AppConfigView,
    workspace_exists: bool,
    data_dir_exists: bool,
)
    ensures
        config_after_set(
            config_after_set(current, requested, workspace_exists, data_dir_exists),
            requested,
            workspace_exists,
            data_dir_exists,
        ) == config_after_set(current, requested, workspace_exists, data_dir_exists),
{
}

/// Law: a request whose port is 0 or in 1024..=65535, and each of whose named
/// directories (set and not empty) was reported to exist, is accepted and
/// becomes the settings.
pub proof fn lemma_valid_request_accepted(
    current: AppConfigView,
    requested: AppConfigView,
    workspace_exists: bool,
    data_dir_exists: bool,
)
    requires
        requested.port == 0 || requested.port >= 1024,
        requested.workspace_dir is None || requested.workspace_dir->0.len() == 0 || workspace_exists,
        requested.data_dir is None || requested.data_dir->0.len() == 0 || data_dir_exists,
    ensures
        request_problem(requested, workspace_exists, data_dir_exists) is None,
        config_after_set(current, requested, workspace_exists, data_dir_exists) == requested,
{
}

/// Law: a request is refused exactly when its port is neither 0 nor in
/// 1024..=65535, or it names a directory (set and not empty) that was reported
/// missing; a refused request leaves the settings as they were.
pub proof fn lemma_refusal_exact(
    current: AppConfigView,
    requested: AppConfigView,
    workspace_exists: bool,
    data_dir_exists: bool,
)
    ensures
        request_problem(requested, workspace_exists, data_dir_exists) is Some <==> {
            ||| (requested.port != 0 && requested.port < 1024)
            ||| (requested.workspace_dir is Some && requested.workspace_dir->0.len() > 0 && !workspace_exists)
            ||| (requested.data_dir is Some && requested.data_dir->0.len() > 0 && !data_dir_exists)
        },
        request_problem(requested, workspace_exists, data_dir_exists) is Some
            ==> config_after_set(current, requested, workspace_exists, data_dir_exists) == current,
{
}

} // verus!
