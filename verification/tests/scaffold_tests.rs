use cproject::collect::seed;
use cproject::error::Error;
use cproject::render::Action;
use cproject::scaffold::{
    create_project, flavor, relative_path, render_dir, render_file, EmbeddedFile,
};

fn shipped(path: &str, contents: &[u8]) -> EmbeddedFile {
    EmbeddedFile { path: path.to_string(), contents: contents.to_vec() }
}

fn written(path: &str, contents: &[u8]) -> Action {
    Action::WriteFile { path: path.to_string(), contents: contents.to_vec() }
}

#[test]
fn each_kind_of_project_has_its_flavor() {
    assert_eq!(flavor(true), "cpp/single/library");
    assert_eq!(flavor(false), "cpp/single/executable");
}

#[test]
fn the_relative_path_is_what_follows_the_flavor() {
    assert_eq!(
        relative_path("cpp/single/library", "cpp/single/library/src/lib.cpp"),
        Some("src/lib.cpp".to_string())
    );
    assert_eq!(
        relative_path("cpp/single/library", "cpp/single/library//CMakeLists.txt"),
        Some("CMakeLists.txt".to_string())
    );
    assert_eq!(relative_path("cpp/single/library", "cpp/single/library"), Some(String::new()));
    assert_eq!(relative_path("", "/a/b"), Some("a/b".to_string()));
    assert_eq!(relative_path("cpp/single/library", "cpp/single/executable/main.cpp"), None);
    assert_eq!(relative_path("cpp/single/library", "cpp"), None);
    // The flavor is taken as a prefix of the text.
    assert_eq!(relative_path("cpp/single/lib", "cpp/single/library/a"), Some("rary/a".to_string()));
}

#[test]
fn a_shipped_file_is_rendered_in_name_and_contents() {
    let context = seed("demo", "2031");
    assert_eq!(
        render_file("flavor", &shipped("flavor/src/{{name}}.cpp", b"// {{name}} {{year}}"), &context),
        Ok(written("src/demo.cpp", b"// demo 2031"))
    );
    assert_eq!(
        render_file("flavor", &shipped("flavor/{{name}}.bin", &[0xc0, 0x80]), &context),
        Ok(written("demo.bin", &[0xc0, 0x80]))
    );
    assert_eq!(
        render_file("flavor", &shipped("flavor/README.md.tmpl", b"x"), &context),
        Ok(written("README.md.tmpl", b"x"))
    );
    assert_eq!(
        render_file("flavor", &shipped("other/main.cpp", b"{{nobody}}"), &context),
        Ok(Action::Skip)
    );
}

#[test]
fn a_rejected_shipped_file_names_itself() {
    let context = seed("demo", "2031");
    assert!(matches!(
        render_file("flavor", &shipped("flavor/{{nobody}}", b"x"), &context),
        Err(Error::Render { template, .. }) if template == "flavor/{{nobody}}"
    ));
    assert!(matches!(
        render_file("flavor", &shipped("flavor/a.txt", b"{{#each}}"), &context),
        Err(Error::Render { template, .. }) if template == "flavor/a.txt"
    ));
}

#[test]
fn the_files_of_one_flavor_are_planned_in_order() {
    let files = vec![
        shipped("cpp/single/executable/CMakeLists.txt", b"project({{name}})\n"),
        shipped("cpp/single/library/CMakeLists.txt", b"add_library({{name}})\n"),
        shipped("cpp/single/executable/src/main.cpp", b"int main() {}\n"),
    ];
    let plan = render_dir("cpp/single/executable", &files, &seed("demo", "2031"));
    assert_eq!(plan.failure, None);
    assert_eq!(
        plan.actions,
        vec![
            written("CMakeLists.txt", b"project(demo)\n"),
            Action::Skip,
            written("src/main.cpp", b"int main() {}\n"),
        ]
    );

    let files = vec![
        shipped("f/a", b"ok"),
        shipped("f/b", b"{{nobody}}"),
        shipped("f/c", b"never planned"),
    ];
    let plan = render_dir("f", &files, &seed("demo", "2031"));
    assert_eq!(plan.actions, vec![written("a", b"ok")]);
    assert!(matches!(plan.failure, Some(Error::Render { ref template, .. }) if template == "f/b"));
}

#[test]
fn a_project_is_not_created_over_an_existing_directory() {
    let files = vec![shipped("cpp/single/library/a", b"x")];
    assert_eq!(
        create_project("demo", true, true, &files).err(),
        Some(Error::DestinationExists { path: "demo".to_string() })
    );
}

#[test]
fn a_project_is_created_from_the_flavor_of_its_kind() {
    let files = vec![
        shipped("cpp/single/library/include/{{name}}.hpp", b"// {{name}}"),
        shipped("cpp/single/executable/src/main.cpp", b"// {{name}}"),
    ];
    let library = create_project("demo", true, false, &files).unwrap();
    assert_eq!(library.failure, None);
    assert_eq!(library.actions, vec![written("include/demo.hpp", b"// demo"), Action::Skip]);
    let executable = create_project("demo", false, false, &files).unwrap();
    assert_eq!(executable.actions, vec![Action::Skip, written("src/main.cpp", b"// demo")]);

    let dated = vec![shipped("cpp/single/library/LICENSE", b"{{year}}")];
    let plan = create_project("demo", true, false, &dated).unwrap();
    match &plan.actions[0] {
        Action::WriteFile { contents, .. } => {
            assert_eq!(contents.len(), 4);
            assert!(contents.iter().all(|b| b.is_ascii_digit()));
        },
        other => panic!("{other:?}"),
    }
}
