use cproject::dependencies::{dependency_block_text, dependency_file_text, join_with_spaces};

fn words(list: &[&str]) -> Vec<String> {
    list.iter().map(|s| s.to_string()).collect()
}

#[test]
fn words_are_joined_with_single_spaces() {
    assert_eq!(join_with_spaces(&words(&[])), "");
    assert_eq!(join_with_spaces(&words(&["fmt::fmt"])), "fmt::fmt");
    assert_eq!(join_with_spaces(&words(&["a", "b", "c"])), "a b c");
    assert_eq!(join_with_spaces(&words(&["a", "", "c"])), "a  c");
    assert_eq!(join_with_spaces(&words(&["", ""])), " ");
    for list in [words(&[]), words(&["x"]), words(&["x", "y z", ""])] {
        assert_eq!(join_with_spaces(&list), list.join(" "));
    }
}

#[test]
fn a_block_is_marked_at_its_start_and_end() {
    assert_eq!(
        dependency_block_text("fmt", "find_package(fmt CONFIG REQUIRED)", &words(&["fmt::fmt", "fmt::fmt-header-only"])),
        "\n# === fmt START ===\nfind_package(fmt CONFIG REQUIRED)\nlist(APPEND THIRD_PARTY_LIBS fmt::fmt fmt::fmt-header-only)\n# === fmt END ===\n"
    );
    assert_eq!(
        dependency_block_text("", "", &words(&[])),
        "\n# ===  START ===\n\nlist(APPEND THIRD_PARTY_LIBS )\n# ===  END ===\n"
    );
}

#[test]
fn the_first_dependency_follows_the_baseline() {
    assert_eq!(
        dependency_file_text(None, "zlib", "find_package(ZLIB REQUIRED)", &words(&["ZLIB::ZLIB"])),
        "set(THIRD_PARTY_LIBS)\n\n# === zlib START ===\nfind_package(ZLIB REQUIRED)\nlist(APPEND THIRD_PARTY_LIBS ZLIB::ZLIB)\n# === zlib END ===\n"
    );
}

#[test]
fn a_further_dependency_follows_what_the_file_holds() {
    let first = dependency_file_text(None, "a", "find_package(a)", &words(&["a::a"]));
    let second = dependency_file_text(Some(&first), "b", "find_package(b)", &words(&["b::b"]));
    assert_eq!(
        second,
        format!("{first}\n# === b START ===\nfind_package(b)\nlist(APPEND THIRD_PARTY_LIBS b::b)\n# === b END ===\n")
    );
    assert_eq!(
        dependency_file_text(Some(""), "b", "f", &words(&["t"])),
        "\n# === b START ===\nf\nlist(APPEND THIRD_PARTY_LIBS t)\n# === b END ===\n"
    );
}
