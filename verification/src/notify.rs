use vstd::prelude::*;
use vstd::string::*;
use crate::errors::EngineError;

verus! {

/// The installed theme's name, as the session must be told it.
pub open spec fn spec_theme_name() -> Seq<char> {
    "cmcursor"@
}

/// The session-property setter invocation that selects cursor theme
/// `value`: every argument of one synchronous external command.
pub open spec fn spec_setter_command(value: Seq<char>) -> Seq<Seq<char>> {
    seq![
        "xfconf-query"@,
        "--channel"@,
        "xsettings"@,
        "--property"@,
        "/Gtk/CursorThemeName"@,
        "--set"@,
        value,
    ]
}

/// The theme-reload procedure for the one supported desktop environment:
/// reset the cursor theme to a neutral value, then set it to the installed
/// theme, forcing the session to reload it.
pub open spec fn spec_reload_commands() -> Seq<Seq<Seq<char>>> {
    seq![spec_setter_command("default"@), spec_setter_command(spec_theme_name())]
}

/// The commands as the caller runs them, as character sequences.
pub open spec fn spec_commands_view(cmds: Seq<Vec<String>>) -> Seq<Seq<Seq<char>>> {
    cmds.map_values(|c: Vec<String>| c@.map_values(|s: String| s@))
}

/// The session identity as a character sequence, absent when the session
/// exposes none.
pub open spec fn spec_identity_view(desktop: Option<&String>) -> Option<Seq<char>> {
    match desktop {
        Some(d) => Some(d@),
        None => None,
    }
}

/// Whether the engine knows this session identity's reload procedure.
pub open spec fn spec_supported_identity(desktop: Option<Seq<char>>) -> bool {
    desktop matches Some(d) && d == "xfce"@
}

/// The notifier's whole decision as a function of the session identity:
/// the reload commands for the supported identity, the terminal
/// `UnsupportedEnvironment` notice for every other or for an absent one.
/// The notice carries no command at all, so nothing is run on its account
/// and the installed theme directory is left untouched.
pub open spec fn spec_notify_decision(desktop: Option<Seq<char>>) -> Result<
    Seq<Seq<Seq<char>>>,
    EngineError,
> {
    if spec_supported_identity(desktop) {
        Ok(spec_reload_commands())
    } else {
        Err(EngineError::UnsupportedEnvironment)
    }
}

/// An unrecognized or absent desktop identity yields exactly the
/// `UnsupportedEnvironment` notice: no other error can come of the
/// notifier, and its decision holds no command, so no external command is
/// invoked for it and no file, symlink or directory of the installed
/// theme is created, modified or removed.
pub proof fn lemma_unsupported_identity_is_terminal(desktop: Option<Seq<char>>)
    requires
        !spec_supported_identity(desktop),
    ensures
        spec_notify_decision(desktop) == Err::<Seq<Seq<Seq<char>>>, EngineError>(
            EngineError::UnsupportedEnvironment,
        ),
{
}

fn setter_command(value: &str) -> (r: Vec<String>)
    ensures
        r@.map_values(|s: String| s@) == spec_setter_command(value@),
{
    let mut c: Vec<String> = Vec::new();
    c.push(String::from_str("xfconf-query"));
    c.push(String::from_str("--channel"));
    c.push(String::from_str("xsettings"));
    c.push(String::from_str("--property"));
    c.push(String::from_str("/Gtk/CursorThemeName"));
    c.push(String::from_str("--set"));
    c.push(String::from_str(value));
    proof {
        assert(c@.map_values(|s: String| s@) =~= spec_setter_command(value@));
    }
    c
}

/// Decides the desktop-notification step from the session's desktop
/// identity, exactly as `spec_notify_decision` says: the supported
/// identity gets its reset-then-set reload commands; any other, or an
/// absent one, is `UnsupportedEnvironment`, a terminal notice that asks
/// the user to switch themes by hand.
pub fn reload_commands(desktop: Option<&String>) -> (r: Result<Vec<Vec<String>>, EngineError>)
    ensures
        r matches Ok(cmds) ==> spec_notify_decision(spec_identity_view(desktop)) == Ok::<
            Seq<Seq<Seq<char>>>,
            EngineError,
        >(spec_commands_view(cmds@)),
        r matches Err(e) ==> spec_notify_decision(spec_identity_view(desktop)) == Err::<
            Seq<Seq<Seq<char>>>,
            EngineError,
        >(e),
        r is Ok <==> spec_supported_identity(spec_identity_view(desktop)),
{
    match desktop {
        Some(d) => {
            let known = String::from_str("xfce");
            if *d == known {
                let mut cmds: Vec<Vec<String>> = Vec::new();
                cmds.push(setter_command("default"));
                cmds.push(setter_command("cmcursor"));
                proof {
                    assert(spec_commands_view(cmds@) =~= spec_reload_commands());
                }
                Ok(cmds)
            } else {
                Err(EngineError::UnsupportedEnvironment)
            }
        },
        None => Err(EngineError::UnsupportedEnvironment),
    }
}

} // verus!
