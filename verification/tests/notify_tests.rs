use cmcursor::errors::EngineError;
use cmcursor::notify::reload_commands;

#[test]
fn supported_desktop_gets_reset_then_set() {
    let de = String::from("xfce");
    let cmds = reload_commands(Some(&de)).unwrap();
    let setter = |value: &str| -> Vec<String> {
        vec![
            "xfconf-query".to_string(),
            "--channel".to_string(),
            "xsettings".to_string(),
            "--property".to_string(),
            "/Gtk/CursorThemeName".to_string(),
            "--set".to_string(),
            value.to_string(),
        ]
    };
    assert_eq!(cmds, vec![setter("default"), setter("cmcursor")]);
}

#[test]
fn unknown_desktop_is_unsupported() {
    let de = String::from("gnome");
    assert_eq!(reload_commands(Some(&de)), Err(EngineError::UnsupportedEnvironment));
}

#[test]
fn absent_desktop_identity_is_unsupported() {
    assert_eq!(reload_commands(None), Err(EngineError::UnsupportedEnvironment));
}

#[test]
fn desktop_identity_is_matched_exactly() {
    let de = String::from("xfce4");
    assert_eq!(reload_commands(Some(&de)), Err(EngineError::UnsupportedEnvironment));
    let de = String::from("Xfce");
    assert_eq!(reload_commands(Some(&de)), Err(EngineError::UnsupportedEnvironment));
}
