use vstd::prelude::*;
use vstd::string::*;
use crate::config::{opt_view, AppConfig};

verus! {

/// Whether two texts are the same.
pub fn same_text(a: &str, b: &str) -> (r: bool)
    ensures
        r == (a@ == b@),
{
    let x: String = a.to_owned();
    let y: String = b.to_owned();
    x == y
}

/// The working directory the service starts in at launch: the configured one
/// when it is set and not empty, else the user's home directory, else the
/// empty text.
pub open spec fn startup_workspace_of(configured: Option<Seq<char>>, home: Option<Seq<char>>) -> Seq<char> {
    match configured {
        Some(w) if w.len() > 0 => w,
        _ => match home {
            Some(h) => h,
            None => Seq::empty(),
        },
    }
}

/// Chooses the working directory for launch, given the configured one and the
/// user's home directory.
pub fn startup_workspace(configured: &Option<String>, home: Option<String>) -> (r: String)
    ensures
        r@ == startup_workspace_of(opt_view(*configured), opt_view(home)),
        configured.is_some() && configured.unwrap()@.len() > 0 ==> r@ == configured.unwrap()@,
{
    match configured {
        Some(w) if !w.as_str().is_empty() => w.clone(),
        _ => match home {
            Some(h) => h,
            None => String::new(),
        },
    }
}

/// Calls `dirs::home_dir`. What it returns depends on the platform and the
/// environment (`$HOME`, or the user database, on Linux and macOS), so nothing is
/// stated of it; the path is taken as text, lossily where it is not Unicode.
#[verifier::external_body]
fn user_home_dir() -> Option<String> {
    dirs::home_dir().map(|p| p.to_string_lossy().into_owned())
}

/// The working directory for launch: the configured one when it is set and not
/// empty, else the user's home directory as the system reports it.
pub fn launch_workspace(cfg: &AppConfig) -> (r: String)
    ensures
        exists|home: Option<Seq<char>>| #[trigger] startup_workspace_of(cfg@.workspace_dir, home) == r@,
{
    let home = user_home_dir();
    let ghost h = opt_view(home);
    let r = startup_workspace(&cfg.workspace_dir, home);
    assert(startup_workspace_of(cfg@.workspace_dir, h) == r@);
    r
}

/// The working directory a restarted service runs in: the configured one, or
/// the empty text when none is configured.
pub fn restart_workspace(cfg: &AppConfig) -> (r: String)
    ensures
        r@ == (match cfg@.workspace_dir {
            Some(w) => w,
            None => Seq::empty(),
        }),
{
    match &cfg.workspace_dir {
        Some(w) => w.clone(),
        None => String::new(),
    }
}

/// Why the service must not start, if it must not: a configured data
/// directory that was reported not writable. The message sends the user to the
/// settings page.
pub open spec fn startup_problem_of(data_dir: Option<Seq<char>>, data_dir_writable: bool) -> Option<Seq<char>> {
    if crate::state::names_dir(data_dir) && !data_dir_writable {
        Some("数据目录不可写: "@ + data_dir->0 + "，请在设置页修改"@)
    } else {
        None
    }
}

/// The check before start-up: `data_dir_writable` reports whether the
/// configured data directory can be written (looked at only when a data
/// directory is set and not empty; otherwise the service keeps its own default).
pub fn startup_problem(cfg: &AppConfig, data_dir_writable: bool) -> (r: Option<String>)
    ensures
        opt_view(r) == startup_problem_of(cfg@.data_dir, data_dir_writable),
{
    match &cfg.data_dir {
        Some(d) if !d.as_str().is_empty() && !data_dir_writable => {
            let mut msg = String::from_str("数据目录不可写: ");
            msg.append(d.as_str());
            msg.append("，请在设置页修改");
            Some(msg)
        },
        _ => None,
    }
}

/// What to do when a window asks to close.
pub enum CloseAction {
    /// Keep the window alive but hidden.
    Hide,
    /// Stop the service and quit the application.
    StopServiceAndExit,
    /// Let the close go ahead.
    Proceed,
}

pub open spec fn close_action_of(label: Seq<char>, minimize_to_tray: bool) -> CloseAction {
    if label == "main"@ {
        if minimize_to_tray { CloseAction::Hide } else { CloseAction::StopServiceAndExit }
    } else if label == "settings"@ {
        CloseAction::Hide
    } else {
        CloseAction::Proceed
    }
}

/// Closing the main window hides it to the tray, or stops the service and
/// quits when the settings say so; closing the settings window always hides it;
/// any other window closes.
pub fn close_action(label: &str, minimize_to_tray: bool) -> (r: CloseAction)
    ensures
        r == close_action_of(label@, minimize_to_tray),
{
    if same_text(label, "main") {
        if minimize_to_tray { CloseAction::Hide } else { CloseAction::StopServiceAndExit }
    } else if same_text(label, "settings") {
        CloseAction::Hide
    } else {
        CloseAction::Proceed
    }
}

/// What a tray menu entry does.
pub enum TrayAction {
    /// Show and focus the main window.
    ShowMain,
    /// Show and focus the settings window.
    ShowSettings,
    /// Quit the application.
    Quit,
    /// Nothing.
    Ignore,
}

pub open spec fn tray_action_of(id: Seq<char>) -> TrayAction {
    if id == "show"@ {
        TrayAction::ShowMain
    } else if id == "settings"@ {
        TrayAction::ShowSettings
    } else if id == "quit"@ {
        TrayAction::Quit
    } else {
        TrayAction::Ignore
    }
}

/// The action of the tray menu entry with identifier `id`.
pub fn tray_action(id: &str) -> (r: TrayAction)
    ensures
        r == tray_action_of(id@),
{
    if same_text(id, "show") {
        TrayAction::ShowMain
    } else if same_text(id, "settings") {
        TrayAction::ShowSettings
    } else if same_text(id, "quit") {
        TrayAction::Quit
    } else {
        TrayAction::Ignore
    }
}

/// Law of the launch directory: a configured working directory that is set and
/// not empty is used, whatever the home directory; otherwise the home
/// directory is, or the empty text when there is none.
pub proof fn lemma_startup_workspace(configured: Option<Seq<char>>, home: Option<Seq<char>>)
    ensures
        configured is Some && configured->0.len() > 0 ==> startup_workspace_of(configured, home) == configured->0,
        (configured is None || configured->0.len() == 0) && home is Some
            ==> startup_workspace_of(configured, home) == home->0,
        (configured is None || configured->0.len() == 0) && home is None
            ==> startup_workspace_of(configured, home).len() == 0,
{
}

/// Law of the check before start-up: start-up is stopped exactly when a data
/// directory is set, not empty, and reported not writable, and the message
/// then names that directory.
pub proof fn lemma_startup_problem(data_dir: Option<Seq<char>>, writable: bool)
    ensures
        startup_problem_of(data_dir, writable) is Some <==> (data_dir is Some && data_dir->0.len() > 0 && !writable),
        startup_problem_of(data_dir, writable) matches Some(m) ==> exists|i: int|
            0 <= i && i + data_dir->0.len() <= m.len() && #[trigger] m.subrange(i, i + data_dir->0.len()) == data_dir->0,
{
    if startup_problem_of(data_dir, writable) is Some {
        let d = data_dir->0;
        let m = startup_problem_of(data_dir, writable)->0;
        let pre = "数据目录不可写: "@;
        assert(m.subrange(pre.len() as int, (pre.len() + d.len()) as int) =~= d);
    }
}

/// Law of closing windows: the main window hides when the settings keep the
/// application in the tray and otherwise stops the service and quits; the
/// settings window always hides; every other window closes.
pub proof fn lemma_close_action(label: Seq<char>, minimize_to_tray: bool)
    ensures
        label == "main"@ && minimize_to_tray ==> close_action_of(label, minimize_to_tray) == CloseAction::Hide,
        label == "main"@ && !minimize_to_tray ==> close_action_of(label, minimize_to_tray)
            == CloseAction::StopServiceAndExit,
        label == "settings"@ ==> close_action_of(label, minimize_to_tray) == CloseAction::Hide,
        label != "main"@ && label != "settings"@ ==> close_action_of(label, minimize_to_tray) == CloseAction::Proceed,
{
    reveal_strlit("main");
    reveal_strlit("settings");
    assert("settings"@ != "main"@) by {
        assert("settings"@.len() != "main"@.len());
    }
}

/// Law of the tray menu: `show` shows the main window, `settings` the settings
/// window, `quit` quits, and any other entry does nothing.
pub proof fn lemma_tray_action(id: Seq<char>)
    ensures
        id == "show"@ ==> tray_action_of(id) == TrayAction::ShowMain,
        id == "settings"@ ==> tray_action_of(id) == TrayAction::ShowSettings,
        id == "quit"@ ==> tray_action_of(id) == TrayAction::Quit,
        id != "show"@ && id != "settings"@ && id != "quit"@ ==> tray_action_of(id) == TrayAction::Ignore,
{
    reveal_strlit("show");
    reveal_strlit("settings");
    reveal_strlit("quit");
    assert("settings"@ != "show"@) by {
        assert("settings"@.len() != "show"@.len());
    }
    assert("quit"@ != "show"@) by {
        assert("quit"@[0] != "show"@[0]);
    }
    assert("quit"@ != "settings"@) by {
        assert("quit"@.len() != "settings"@.len());
    }
}

} // verus!
