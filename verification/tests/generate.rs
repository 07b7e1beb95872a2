use gdsetup::catalog::{
    default_layout, generate_outcome, generate_plan, plan_dirs, relocation_moves, ProjectLayout,
};

#[test]
fn plan_covers_every_artifact_in_write_order() {
    let layout = default_layout();
    let plan = generate_plan("foo", &layout);
    let paths: Vec<&str> = plan.iter().map(|a| a.rel_path.as_str()).collect();
    assert_eq!(
        paths,
        vec![
            "godot/foo.gdextension",
            "godot/.godot/extension_list.cfg",
            "SConstruct",
            "CMakeLists.txt",
            "src/register_types.cpp",
            "src/register_types.h",
            "src/foo.cpp",
            "src/foo.h",
        ]
    );
}

#[test]
fn folder_names_are_configuration_not_constants() {
    let layout = ProjectLayout { godot_dir: "host".to_string(), src_dir: "native".to_string() };
    let plan = generate_plan("foo", &layout);
    assert_eq!(plan[0].rel_path, "host/foo.gdextension");
    assert_eq!(plan[1].rel_path, "host/.godot/extension_list.cfg");
    assert_eq!(plan[7].rel_path, "native/foo.h");
}

#[test]
fn planned_class_header_matches_scenario() {
    let layout = default_layout();
    let plan = generate_plan("foo", &layout);
    let header = plan.iter().find(|a| a.rel_path == "src/foo.h").unwrap();
    assert!(header.content.contains("#ifndef FOO_CLASS_H"));
    assert!(header.content.contains("class Foo : public RefCounted {"));
}

#[test]
fn two_plans_for_the_same_root_are_identical() {
    let layout = default_layout();
    let first = generate_plan("foo", &layout);
    let second = generate_plan("foo", &layout);
    assert_eq!(first.len(), second.len());
    for (a, b) in first.iter().zip(second.iter()) {
        assert_eq!(a.rel_path, b.rel_path);
        assert_eq!(a.content, b.content);
    }
}

#[test]
fn generation_into_untouched_directory_writes_everything() {
    let layout = default_layout();
    let existing: Vec<String> = vec!["project.godot".to_string()];
    let outcome = generate_outcome("foo", &layout, &existing);
    assert!(outcome.collision.is_none());
    assert_eq!(outcome.written.len(), 8);
}

#[test]
fn collision_aborts_without_touching_later_artifacts() {
    let layout = default_layout();
    let existing: Vec<String> = vec!["SConstruct".to_string()];
    let outcome = generate_outcome("foo", &layout, &existing);
    assert_eq!(outcome.collision.as_deref(), Some("SConstruct"));
    let written: Vec<&str> = outcome.written.iter().map(|a| a.rel_path.as_str()).collect();
    assert_eq!(written, vec!["godot/foo.gdextension", "godot/.godot/extension_list.cfg"]);
}

#[test]
fn directories_are_planned_parents_first() {
    let layout = default_layout();
    let dirs = plan_dirs(&layout);
    assert_eq!(dirs, vec!["godot", "godot/.godot", "src"]);
}

#[test]
fn adopting_an_existing_project_moves_every_entry() {
    let entries = vec![
        "project.godot".to_string(),
        "icon.svg".to_string(),
        "main.tscn".to_string(),
    ];
    let moves = relocation_moves(&entries, "godot").unwrap();
    assert_eq!(
        moves,
        vec![
            ("project.godot".to_string(), "godot/project.godot".to_string()),
            ("icon.svg".to_string(), "godot/icon.svg".to_string()),
            ("main.tscn".to_string(), "godot/main.tscn".to_string()),
        ]
    );
}

#[test]
fn a_plain_directory_is_not_relocated() {
    let entries = vec!["notes.txt".to_string()];
    assert_eq!(relocation_moves(&entries, "godot"), None);
    assert_eq!(relocation_moves(&Vec::new(), "godot"), None);
}

#[test]
fn collision_on_first_artifact_writes_nothing() {
    let layout = default_layout();
    let existing: Vec<String> = vec!["godot/foo.gdextension".to_string()];
    let outcome = generate_outcome("foo", &layout, &existing);
    assert_eq!(outcome.collision.as_deref(), Some("godot/foo.gdextension"));
    assert!(outcome.written.is_empty());
}
