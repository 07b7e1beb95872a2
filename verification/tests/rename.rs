use gdsetup::catalog::default_layout;
use gdsetup::codegen::{
    generate_class_cpp, generate_class_h, generate_cmakelists, generate_gdextension,
    generate_gdextension_list, generate_register_cpp, generate_register_h, generate_sconstruct,
};
use gdsetup::replace::apply_replacements;
use gdsetup::rename::rename_plan;

fn render_all(root: &str) -> Vec<String> {
    vec![
        generate_gdextension(root),
        generate_gdextension_list(root),
        generate_sconstruct(root),
        generate_cmakelists(root),
        generate_register_cpp(root),
        generate_register_h(root),
        generate_class_cpp(root),
        generate_class_h(root),
    ]
}

#[test]
fn plan_locates_artifacts_by_their_old_paths() {
    let layout = default_layout();
    let plan = rename_plan("foo", "bar", &layout);
    let paths: Vec<&str> = plan.iter().map(|a| a.rel_path.as_str()).collect();
    assert_eq!(
        paths,
        vec![
            "godot/foo.gdextension",
            "godot/.godot/extension_list.cfg",
            "SConstruct",
            "CMakeLists.txt",
            "src/register_types.cpp",
            "src/register_types.h",
            "src/foo.cpp",
            "src/foo.h",
        ]
    );
}

#[test]
fn plan_moves_exactly_the_files_named_after_the_root() {
    let layout = default_layout();
    let plan = rename_plan("foo", "bar", &layout);
    let moves: Vec<Option<&str>> = plan.iter().map(|a| a.new_rel_path.as_deref()).collect();
    assert_eq!(
        moves,
        vec![
            Some("godot/bar.gdextension"),
            None,
            None,
            None,
            None,
            None,
            Some("src/bar.cpp"),
            Some("src/bar.h"),
        ]
    );
}

#[test]
fn patching_generated_content_yields_the_new_generation() {
    let layout = default_layout();
    let plan = rename_plan("foo", "bar", &layout);
    let old_contents = render_all("foo");
    let new_contents = render_all("bar");
    for ((action, old), new) in plan.iter().zip(old_contents.iter()).zip(new_contents.iter()) {
        let patched = apply_replacements(old, &action.patterns);
        assert_eq!(&patched, new, "artifact at {}", action.rel_path);
    }
}

#[test]
fn class_files_are_rewritten_as_in_the_scenario() {
    let layout = default_layout();
    let plan = rename_plan("foo", "bar", &layout);
    let header_action = plan.iter().find(|a| a.rel_path == "src/foo.h").unwrap();
    let patched = apply_replacements(&generate_class_h("foo"), &header_action.patterns);
    assert!(patched.contains("#ifndef BAR_CLASS_H"));
    assert!(patched.contains("class Bar : public RefCounted {"));
    assert!(!patched.contains("Foo"));
    assert!(!patched.contains("FOO"));
}

#[test]
fn renaming_back_restores_every_artifact() {
    let layout = default_layout();
    let forward = rename_plan("foo", "bar", &layout);
    let backward = rename_plan("bar", "foo", &layout);
    let before = render_all("foo");
    for ((fwd, back), content) in forward.iter().zip(backward.iter()).zip(before.iter()) {
        let there = apply_replacements(content, &fwd.patterns);
        let back_again = apply_replacements(&there, &back.patterns);
        assert_eq!(&back_again, content, "artifact at {}", fwd.rel_path);
    }
}

#[test]
fn distinct_identifier_pair_keeps_patterns_distinct() {
    let layout = default_layout();
    let plan = rename_plan("alpha", "beta", &layout);
    for action in plan.iter() {
        for (old, new) in action.patterns.iter() {
            assert_ne!(old, new);
        }
    }
}
