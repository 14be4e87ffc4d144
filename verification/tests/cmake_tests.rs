use cproject::cmake::{
    cmake_package_name, project_name_from_cmakelists, test_names, usage_hint, usual_usage_hint,
    UsageHint,
};
use cproject::dependencies::{dependency_file_text, remove_dep_block};
use cproject::text::split_on_space;

fn list(words: &[&str]) -> Vec<String> {
    words.iter().map(|s| s.to_string()).collect()
}

#[test]
fn the_project_name_is_read_from_the_project_line() {
    let text = "cmake_minimum_required(VERSION 3.20)\nproject(demo_app VERSION 0.1 LANGUAGES CXX)\n";
    assert_eq!(project_name_from_cmakelists(text), Some("demo_app".to_string()));
    assert_eq!(project_name_from_cmakelists("  project(  my-lib)"), Some("my-lib".to_string()));
    assert_eq!(
        project_name_from_cmakelists("project(first)\nproject(second)"),
        Some("first".to_string())
    );
    assert_eq!(project_name_from_cmakelists("\n\n\tproject(x1"), Some("x1".to_string()));
}

#[test]
fn a_text_without_a_project_line_declares_no_name() {
    for text in ["", "add_executable(demo main.cpp)", "# project(demo)", "project()", "Project(demo)", "my_project(demo)"] {
        assert_eq!(project_name_from_cmakelists(text), None, "{text:?}");
    }
}

#[test]
fn a_package_name_is_spelled_with_underscores() {
    assert_eq!(cmake_package_name("nlohmann-json"), "nlohmann_json");
    assert_eq!(cmake_package_name("a-b-c-"), "a_b_c_");
    assert_eq!(cmake_package_name("fmt"), "fmt");
    assert_eq!(cmake_package_name(""), "");
    assert_eq!(cmake_package_name("gr\u{fc}n-\u{e9}"), "gr\u{fc}n_\u{e9}");
    for name in ["x-y", "--", "plain", "\u{2013}-"] {
        assert_eq!(cmake_package_name(name), name.replace('-', "_"));
    }
}

#[test]
fn words_are_the_runs_between_white_space() {
    assert_eq!(split_on_space("fmt::fmt  fmt::fmt-header-only\n"), list(&["fmt::fmt", "fmt::fmt-header-only"]));
    assert_eq!(split_on_space(""), list(&[]));
    assert_eq!(split_on_space(" \t\n"), list(&[]));
    assert_eq!(split_on_space("one"), list(&["one"]));
    assert_eq!(split_on_space("\u{a0}a\u{3000}b "), list(&["a", "b"]));
    for text in ["a b", "  a  b  ", "a\tb\nc", "x", "", " ", "\u{2003}wide\u{2003}space"] {
        let expected: Vec<String> = text.split_whitespace().map(|w| w.to_string()).collect();
        assert_eq!(split_on_space(text), expected, "{text:?}");
    }
}

#[test]
fn the_usual_usage_goes_by_the_name() {
    assert_eq!(
        usual_usage_hint("nlohmann-json"),
        UsageHint {
            find_pkg: "find_package(nlohmann_json CONFIG REQUIRED)".to_string(),
            targets: list(&["nlohmann_json::nlohmann_json"]),
            from_output: false,
        }
    );
}

#[test]
fn a_usage_hint_is_read_out_of_the_output() {
    let output = "\u{1b}[32mfmt provides CMake targets:\u{1b}[0m\n\n    find_package(fmt CONFIG REQUIRED)\n    target_link_libraries(main PRIVATE fmt::fmt\u{1b}[K fmt::fmt-header-only)\n";
    assert_eq!(
        usage_hint("fmt", output),
        Ok(UsageHint {
            find_pkg: "find_package(fmt CONFIG REQUIRED)".to_string(),
            targets: list(&["fmt::fmt", "fmt::fmt-header-only"]),
            from_output: true,
        })
    );
}

#[test]
fn without_both_calls_in_the_output_the_usual_usage_is_taken() {
    let only_find = "find_package(ZLIB REQUIRED)\n";
    assert_eq!(usage_hint("zlib", only_find), Ok(usual_usage_hint("zlib")));
    let only_link = "target_link_libraries(main PRIVATE ZLIB::ZLIB)\n";
    assert_eq!(usage_hint("zlib", only_link), Ok(usual_usage_hint("zlib")));
    assert_eq!(usage_hint("my-pkg", ""), Ok(usual_usage_hint("my-pkg")));
    let no_keyword = "find_package(a)\ntarget_link_libraries(main a::a)\n";
    assert_eq!(usage_hint("a", no_keyword), Ok(usual_usage_hint("a")));
}

#[test]
fn the_first_calls_in_the_output_count() {
    let output = "find_package(a CONFIG REQUIRED)\nfind_package(b)\ntarget_link_libraries(x PUBLIC a::a)\ntarget_link_libraries(y INTERFACE b::b)\n";
    let hint = usage_hint("a", output).unwrap();
    assert_eq!(hint.find_pkg, "find_package(a CONFIG REQUIRED)");
    assert_eq!(hint.targets, list(&["a::a"]));
    assert!(hint.from_output);
}

#[test]
fn the_tests_that_the_runner_lists_are_named_in_order() {
    let output = "Test project /tmp/build\n  Test #1: parses\n  Test  #2 :  renders things  \nTest #10: last\n\nTotal Tests: 3\n";
    assert_eq!(test_names(output), Ok(list(&["parses", "renders things", "last"])));
    assert_eq!(test_names(""), Ok(list(&[])));
    assert_eq!(test_names("Total Tests: 0\n"), Ok(list(&[])));
}

#[test]
fn a_block_is_removed_with_the_line_break_after_it() {
    let one = dependency_file_text(None, "fmt", "find_package(fmt)", &list(&["fmt::fmt"]));
    let two = dependency_file_text(Some(&one), "zlib", "find_package(ZLIB)", &list(&["ZLIB::ZLIB"]));
    assert_eq!(
        remove_dep_block(&two, "fmt"),
        Ok("set(THIRD_PARTY_LIBS)\n\n\n# === zlib START ===\nfind_package(ZLIB)\nlist(APPEND THIRD_PARTY_LIBS ZLIB::ZLIB)\n# === zlib END ===\n".to_string())
    );
    assert_eq!(remove_dep_block(&two, "zlib"), Ok(format!("{one}\n")));
    assert_eq!(remove_dep_block(&two, "absent"), Ok(two.clone()));
    assert_eq!(remove_dep_block("", "fmt"), Ok(String::new()));
}

#[test]
fn only_the_first_block_of_a_name_is_removed() {
    let one = dependency_file_text(Some(""), "a", "f", &list(&["t"]));
    let twice = dependency_file_text(Some(&one), "a", "g", &list(&["u"]));
    assert_eq!(
        remove_dep_block(&twice, "a"),
        Ok("\n\n# === a START ===\ng\nlist(APPEND THIRD_PARTY_LIBS u)\n# === a END ===\n".to_string())
    );
}

#[test]
fn a_name_stands_in_the_pattern_as_it_is() {
    let text = dependency_file_text(Some(""), "axb", "f", &list(&["t"]));
    // The dot of the name matches any character.
    assert_eq!(remove_dep_block(&text, "a.b"), Ok("\n".to_string()));
    let error = remove_dep_block(&text, "a(b").unwrap_err();
    assert!(!error.is_empty());
    assert!(remove_dep_block(&text, "[").is_err());
}
