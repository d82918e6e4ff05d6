use cmcursor::theme_dir::{
    canonical_cursor_path, index_theme_content, is_png_name, plan_install, probe_alias_name,
    standard_cursor_names, DirObservation,
};

#[test]
fn standard_names_are_the_fixed_set() {
    let names = standard_cursor_names();
    assert_eq!(names.len(), 97);
    assert_eq!(names[0], "00008160000006810000408080010102");
    assert_eq!(names[96], "zoom-out");
    assert!(names.contains(&"wait"));
    assert!(names.contains(&"left_ptr"));
    assert!(names.contains(&"default"));
    // the canonical binary itself is not an alias
    assert!(!names.contains(&"pointer"));
}

#[test]
fn probe_is_the_first_standard_name() {
    let names = standard_cursor_names();
    assert_eq!(probe_alias_name(), names[0]);
}

#[test]
fn canonical_path_is_stable() {
    assert_eq!(canonical_cursor_path(), "cursors/pointer");
}

#[test]
fn descriptor_content() {
    assert_eq!(
        index_theme_content().as_str(),
        "[Icon Theme]\nName=CMRedux Cursor\nExample=left_ptr\nInherits=core"
    );
}

#[test]
fn png_name_detection() {
    assert!(is_png_name(&String::from("cursor.png")));
    assert!(is_png_name(&String::from("cursor-1.png")));
    assert!(is_png_name(&String::from(".png")));
    assert!(!is_png_name(&String::from("png")));
    assert!(!is_png_name(&String::from("index.theme")));
    assert!(!is_png_name(&String::from("cursor.PNG")));
    assert!(!is_png_name(&String::from("")));
}

fn observe(probe: bool, index: bool, files: &[&str]) -> DirObservation {
    DirObservation {
        probe_alias_exists: probe,
        index_theme_exists: index,
        root_files: files.iter().map(|s| String::from(*s)).collect(),
    }
}

#[test]
fn fresh_directory_gets_full_install() {
    let obs = observe(false, false, &["cursor.png", "cursor-1.png", "index.theme"]);
    let plan = plan_install(&obs);
    assert_eq!(plan.create_aliases, standard_cursor_names());
    assert!(plan.write_index_theme);
    assert_eq!(plan.remove_files, vec!["cursor.png".to_string(), "cursor-1.png".to_string()]);
}

#[test]
fn installed_directory_is_left_alone() {
    let obs = observe(true, true, &["cursor.png"]);
    let plan = plan_install(&obs);
    assert!(plan.create_aliases.is_empty());
    assert!(!plan.write_index_theme);
    assert_eq!(plan.remove_files, vec!["cursor.png".to_string()]);
}

#[test]
fn two_runs_install_the_same_artifacts_as_one() {
    // first run against a fresh directory
    let plan1 = plan_install(&observe(false, false, &["cursor.png"]));
    // applying plan1 makes the probe alias and the descriptor exist;
    // the second run observes that state
    let plan2 = plan_install(&observe(true, true, &[]));
    assert!(!plan1.create_aliases.is_empty());
    assert!(plan1.write_index_theme);
    assert!(plan2.create_aliases.is_empty());
    assert!(!plan2.write_index_theme);
    // so the alias set and descriptor after two runs are those of run one
}

#[test]
fn second_selection_recreates_no_alias() {
    // after a fresh install the probe alias exists; replacing the canonical
    // binary and re-running the builder touches no alias
    let plan = plan_install(&observe(true, true, &["cursor.png", "cursor-1.png"]));
    assert!(plan.create_aliases.is_empty());
    // only the raster intermediates of the new selection are removed
    assert_eq!(
        plan.remove_files,
        vec!["cursor.png".to_string(), "cursor-1.png".to_string()]
    );
}

#[test]
fn cleanup_takes_every_png_and_nothing_else() {
    let obs = observe(true, true, &["cursor.png", "cursors", "index.theme", "a.png", "b.txt"]);
    let plan = plan_install(&obs);
    assert_eq!(plan.remove_files, vec!["cursor.png".to_string(), "a.png".to_string()]);
    for f in &plan.remove_files {
        assert!(is_png_name(f));
    }
}
