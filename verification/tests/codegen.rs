use gdsetup::codegen::{
    generate_class_cpp, generate_class_h, generate_cmakelists, generate_gdextension,
    generate_gdextension_list, generate_register_cpp, generate_register_h, generate_sconstruct,
};

#[test]
fn class_header_embeds_guard_and_class_name() {
    let h = generate_class_h("foo");
    assert!(h.contains("#ifndef FOO_CLASS_H"));
    assert!(h.contains("#define FOO_CLASS_H"));
    assert!(h.contains("#endif // FOO_CLASS_H"));
    assert!(h.contains("class Foo : public RefCounted {"));
    assert!(h.contains("GDCLASS(Foo, RefCounted);"));
    assert!(h.contains("Foo();"));
    assert!(h.contains("~Foo();"));
}

#[test]
fn class_source_embeds_include_and_methods() {
    let c = generate_class_cpp("foo");
    assert!(c.contains("#include \"foo.h\""));
    assert!(c.contains("Foo::Foo() {"));
    assert!(c.contains("Foo::~Foo() {"));
    assert!(c.contains("void Foo::exampleFunction(int number) {"));
    assert!(c.contains("void Foo::_bind_methods() {"));
    assert!(c.contains("&Foo::exampleFunction"));
}

#[test]
fn register_header_embeds_guard_and_module_functions() {
    let h = generate_register_h("foo");
    assert!(h.contains("#ifndef FOO_REGISTER_TYPES_H"));
    assert!(h.contains("#define FOO_REGISTER_TYPES_H"));
    assert!(h.contains("void initialize_foo_module(ModuleInitializationLevel p_level);"));
    assert!(h.contains("void uninitialize_foo_module(ModuleInitializationLevel p_level);"));
}

#[test]
fn register_source_embeds_registration_and_entry_symbol() {
    let c = generate_register_cpp("foo");
    assert!(c.contains("#include \"foo.h\""));
    assert!(c.contains("void initialize_foo_module(ModuleInitializationLevel p_level) {"));
    assert!(c.contains("void uninitialize_foo_module(ModuleInitializationLevel p_level) {"));
    assert!(c.contains("ClassDB::register_class<Foo>();"));
    assert!(c.contains("GDExtensionBool GDE_EXPORT foo_library_init("));
    assert!(c.contains("init_obj.register_initializer(initialize_foo_module);"));
    assert!(c.contains("init_obj.register_terminator(uninitialize_foo_module);"));
}

#[test]
fn sconstruct_embeds_library_name_everywhere() {
    let s = generate_sconstruct("foo");
    assert_eq!(s.matches("libgdfoo").count(), 3);
    assert!(s.contains("godot/bin/libgdfoo.{}.{}.framework/libgdfoo.{}.{}"));
    assert!(s.contains("\"godot/bin/libgdfoo{}{}\".format(env[\"suffix\"], env[\"SHLIBSUFFIX\"])"));
}

#[test]
fn cmakelists_embeds_project_and_output_name() {
    let c = generate_cmakelists("foo");
    assert!(c.contains("project(foo)"));
    assert!(c.contains("set_property(TARGET ${PROJECT_NAME} PROPERTY OUTPUT_NAME \"foo\")"));
}

#[test]
fn gdextension_embeds_entry_symbol_and_all_library_paths() {
    let g = generate_gdextension("foo");
    assert!(g.contains("entry_symbol = \"foo_library_init\""));
    assert_eq!(g.matches("libgdfoo.").count(), 16);
    assert!(g.contains("macos.debug = \"res://bin/libgdfoo.macos.template_debug.framework\""));
    assert!(g.contains(
        "windows.release.x86_64 = \"res://bin/libgdfoo.windows.template_release.x86_64.dll\""
    ));
    assert!(g.contains("linux.debug.rv64 = \"res://bin/libgdfoo.linux.template_debug.rv64.so\""));
    assert!(g.contains(
        "android.release.arm64 = \"res://bin/libgdfoo.android.template_release.arm64.so\""
    ));
}

#[test]
fn gdextension_list_is_exact() {
    assert_eq!(generate_gdextension_list("foo"), "\nres://foo.gdextension\n    ");
}

#[test]
fn generation_is_deterministic() {
    assert_eq!(generate_class_h("foo"), generate_class_h("foo"));
    assert_eq!(generate_gdextension("quux"), generate_gdextension("quux"));
}

#[test]
fn no_artifact_references_a_different_root() {
    let all = [
        generate_class_h("foo"),
        generate_class_cpp("foo"),
        generate_register_h("foo"),
        generate_register_cpp("foo"),
        generate_sconstruct("foo"),
        generate_cmakelists("foo"),
        generate_gdextension("foo"),
        generate_gdextension_list("foo"),
    ];
    for content in all.iter() {
        assert!(!content.contains("example_library_init"));
        assert!(!content.contains("EXAMPLE_"));
        assert!(!content.contains("libgdexample"));
    }
}

#[test]
fn single_character_root_renders_consistently() {
    let h = generate_class_h("x");
    assert!(h.contains("#ifndef X_CLASS_H"));
    assert!(h.contains("class X : public RefCounted {"));
}
