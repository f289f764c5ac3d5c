use vstd::prelude::*;

verus! {

/// Label of the window that is brought back on a second launch and that
/// receives opened links.
pub const MAIN_WINDOW_LABEL: &'static str = "main";

/// Name of the event under which an opened link is sent to the main window.
pub const DEEP_LINK_EVENT: &'static str = "deep-link";

/// What the running application is told by its host.
pub enum ShellEvent {
    /// The application was launched again while this instance runs.
    SecondInstance,
    /// The application was asked to open these links, in the order given.
    OpenUrls(Vec<String>),
}

/// What the application does in answer to a `ShellEvent`.
pub enum ShellAction {
    /// Unminimize the main window and give it the focus.
    RestoreMainWindow,
    /// Emit `DEEP_LINK_EVENT` to the main window with this link as payload.
    EmitDeepLink(String),
    /// Do nothing.
    Ignore,
}

/// The answer to `event`, given whether a main window exists: a second
/// launch restores the main window, an opened set of links forwards the
/// first of them; without a main window, or without any link, nothing is done.
pub open spec fn action_for(main_window_present: bool, event: ShellEvent) -> ShellAction {
    if !main_window_present {
        ShellAction::Ignore
    } else {
        match event {
            ShellEvent::SecondInstance => ShellAction::RestoreMainWindow,
            ShellEvent::OpenUrls(urls) => if urls@.len() > 0 {
                ShellAction::EmitDeepLink(urls@[0])
            } else {
                ShellAction::Ignore
            },
        }
    }
}

/// Decides how to answer `event`, given whether the main window exists.
pub fn decide(main_window_present: bool, event: ShellEvent) -> (r: ShellAction)
    ensures
        r == action_for(main_window_present, event),
{
    if !main_window_present {
        return ShellAction::Ignore;
    }
    match event {
        ShellEvent::SecondInstance => ShellAction::RestoreMainWindow,
        ShellEvent::OpenUrls(urls) => {
            if urls.len() > 0 {
                ShellAction::EmitDeepLink(urls[0].clone())
            } else {
                ShellAction::Ignore
            }
        },
    }
}

/// A plugin that the application registers with its host at startup.
#[derive(PartialEq, Eq, Structural)]
pub enum Plugin {
    /// Opens files and links with the system's default programs.
    Opener,
    /// Keeps a single running instance of the application on desktop.
    SingleInstance,
    /// Delivers links opened with the application's schemes.
    DeepLink,
    /// Reports facts about the operating system.
    Os,
    /// Runs shell commands.
    Shell,
}

/// The plugins in the order in which they are registered. The opener comes
/// first and is registered once more at the end; the single-instance plugin
/// exists on desktop targets only.
pub open spec fn plugin_sequence(desktop: bool) -> Seq<Plugin> {
    if desktop {
        seq![Plugin::Opener, Plugin::SingleInstance, Plugin::DeepLink, Plugin::Os, Plugin::Shell, Plugin::Opener]
    } else {
        seq![Plugin::Opener, Plugin::DeepLink, Plugin::Os, Plugin::Shell, Plugin::Opener]
    }
}

/// Lists the plugins to register, in order, on a desktop or a mobile target.
pub fn plugins(desktop: bool) -> (r: Vec<Plugin>)
    ensures
        r@ == plugin_sequence(desktop),
{
    let mut r: Vec<Plugin> = Vec::new();
    r.push(Plugin::Opener);
    if desktop {
        r.push(Plugin::SingleInstance);
    }
    r.push(Plugin::DeepLink);
    r.push(Plugin::Os);
    r.push(Plugin::Shell);
    r.push(Plugin::Opener);
    assert(r@ =~= plugin_sequence(desktop));
    r
}

/// Whether setup registers the application's link schemes with the system:
/// only in a debug build on Windows or Linux.
pub fn registers_schemes_at_setup(windows_or_linux: bool, debug_build: bool) -> (r: bool)
    ensures
        r == (windows_or_linux && debug_build),
{
    windows_or_linux && debug_build
}

} // verus!
