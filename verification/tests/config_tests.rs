use cproject::config::{expand_path, expand_path_under, starts_at_home, Config, Templates};
use cproject::document::Node;
use cproject::error::Error;

const FULL: &str = r#"
vcpkg-root = "/opt/vcpkg"
other = 1

[templates]
locations = ["/srv/templates", "relative/dir"]

[archetypes]
app = "cpp/app"
lib = "cpp/lib"
"#;

#[test]
fn without_a_file_the_configuration_is_empty() {
    let config = Config::load(None).unwrap();
    assert_eq!(config, Config::default());
    assert_eq!(config.vcpkg_root, None);
    assert!(config.templates.locations.is_empty());
    assert!(config.archetypes.is_empty());
    assert_eq!(config.templates, Templates::default());
}

#[test]
fn load_reads_every_section() {
    let config = Config::load(Some(FULL)).unwrap();
    assert_eq!(
        config,
        Config {
            vcpkg_root: Some("/opt/vcpkg".to_string()),
            templates: Templates {
                locations: vec!["/srv/templates".to_string(), "relative/dir".to_string()],
            },
            archetypes: vec![
                ("app".to_string(), "cpp/app".to_string()),
                ("lib".to_string(), "cpp/lib".to_string()),
            ],
        }
    );
    assert_eq!(config.mapped("lib"), Some(&"cpp/lib".to_string()));
    assert_eq!(config.mapped("exe"), None);
}

#[test]
fn every_field_is_optional() {
    assert_eq!(Config::load(Some("")).unwrap(), Config::default());
    assert_eq!(Config::load(Some("[templates]\n[archetypes]\n")).unwrap(), Config::default());
}

#[test]
fn the_root_key_is_spelled_with_a_hyphen() {
    let config = Config::load(Some("vcpkg_root = \"/opt/vcpkg\"")).unwrap();
    assert_eq!(config.vcpkg_root, None);
}

#[test]
fn a_malformed_or_mistyped_configuration_is_invalid() {
    let cases = [
        "vcpkg-root = ",
        "vcpkg-root = 1",
        "templates = 1",
        "[templates]\nlocations = \"dir\"",
        "[templates]\nlocations = [1]",
        "archetypes = [\"a\"]",
        "[archetypes]\napp = 1",
        "[archetypes]\napp = { path = \"x\" }",
    ];
    for text in cases {
        let result = Config::load(Some(text));
        assert!(matches!(result, Err(Error::ConfigInvalid { .. })), "{text}: {result:?}");
    }
    let error = Config::from_document(&Node::Array(vec![])).unwrap_err();
    assert_eq!(error.message(), "Failed to parse the configuration: the document is not a table");
}

#[test]
fn config_from_document_reads_a_tree_built_by_hand() {
    let document = Node::Table(vec![
        ("vcpkg-root".to_string(), Node::Text("~/vcpkg".to_string())),
        (
            "archetypes".to_string(),
            Node::Table(vec![("app".to_string(), Node::Text("x".to_string()))]),
        ),
    ]);
    let config = Config::from_document(&document).unwrap();
    // Reading a document leaves the paths as they are written.
    assert_eq!(config.vcpkg_root, Some("~/vcpkg".to_string()));
    assert_eq!(config.archetypes, vec![("app".to_string(), "x".to_string())]);
}

#[test]
fn the_local_file_wins_over_the_one_at_home() {
    let files = Config::candidate_files_under(Some("/home/ada"));
    assert_eq!(
        files,
        vec!["./.cproject.toml".to_string(), "/home/ada/.config/cproject/cproject.toml".to_string()]
    );
    assert_eq!(Config::candidate_files_under(None), vec!["./.cproject.toml".to_string()]);
    assert_eq!(
        Config::candidate_files_under(Some("/home/ada/")),
        vec!["./.cproject.toml".to_string(), "/home/ada/.config/cproject/cproject.toml".to_string()]
    );

    assert_eq!(Config::select_file(&files, &vec![true, true]), Some("./.cproject.toml".to_string()));
    assert_eq!(
        Config::select_file(&files, &vec![false, true]),
        Some("/home/ada/.config/cproject/cproject.toml".to_string())
    );
    assert_eq!(Config::select_file(&files, &vec![false, false]), None);
    assert_eq!(Config::select_file(&files, &vec![false]), None);
    assert_eq!(Config::select_file(&files, &vec![]), None);
    assert_eq!(Config::select_file(&vec![], &vec![true]), None);
    assert_eq!(Config::select_file(&files, &vec![true]), Some("./.cproject.toml".to_string()));
}

#[test]
fn the_candidates_begin_with_the_local_file() {
    let files = Config::candidate_files();
    assert!(files.len() == 1 || files.len() == 2);
    assert_eq!(files[0], "./.cproject.toml");
    if files.len() == 2 {
        assert!(files[1].ends_with(".config/cproject/cproject.toml"));
        let home = expand_path("~");
        assert_eq!(files, Config::candidate_files_under(Some(&home)));
    }
}

#[test]
fn a_path_starts_at_home_where_its_first_segment_is_a_tilde() {
    assert!(starts_at_home("~"));
    assert!(starts_at_home("~/"));
    assert!(starts_at_home("~/templates"));
    assert!(!starts_at_home("~ada/templates"));
    assert!(!starts_at_home("/~"));
    assert!(!starts_at_home("./~/x"));
    assert!(!starts_at_home(""));
}

#[test]
fn paths_that_do_not_start_at_home_stay_as_they_are() {
    for path in ["/opt/vcpkg", "relative/dir", "~ada/x", "", "a/~/b", "~~"] {
        assert_eq!(expand_path(path), path);
    }
}

#[test]
fn the_home_directory_takes_the_place_of_the_tilde() {
    let expanded = expand_path("~/templates/cpp");
    assert_ne!(expanded, "~/templates/cpp");
    assert!(expanded.ends_with("/templates/cpp"));
    assert!(!expanded.starts_with('~'));
    let home = expand_path("~");
    assert_eq!(expanded, format!("{home}/templates/cpp"));
}

#[test]
fn expand_paths_expands_the_root_and_every_location() {
    let home = expand_path("~");
    let mut config = Config {
        vcpkg_root: Some("~/vcpkg".to_string()),
        templates: Templates {
            locations: vec!["~/tpl".to_string(), "/abs".to_string(), "~user/tpl".to_string()],
        },
        archetypes: vec![("app".to_string(), "~/not-a-location".to_string())],
    };
    assert_eq!(config.expand_paths(), Ok(()));
    assert_eq!(config.vcpkg_root, Some(format!("{home}/vcpkg")));
    assert_eq!(
        config.templates.locations,
        vec![format!("{home}/tpl"), "/abs".to_string(), "~user/tpl".to_string()]
    );
    assert_eq!(config.archetypes, vec![("app".to_string(), "~/not-a-location".to_string())]);
}

#[test]
fn load_expands_the_paths_it_read() {
    let home = expand_path("~");
    let config =
        Config::load(Some("vcpkg-root = \"~\"\n[templates]\nlocations = [\"~/a\", \"b\"]\n")).unwrap();
    assert_eq!(config.vcpkg_root, Some(home.clone()));
    assert_eq!(config.templates.locations, vec![format!("{home}/a"), "b".to_string()]);
}

#[test]
fn a_given_home_directory_takes_the_place_of_the_tilde() {
    assert_eq!(expand_path_under("~/tpl", Some("/home/ada")), "/home/ada/tpl");
    assert_eq!(expand_path_under("~", Some("/home/ada")), "/home/ada");
    assert_eq!(expand_path_under("~/", Some("/home/ada")), "/home/ada/");
    assert_eq!(expand_path_under("~/a/~/b", Some("/h")), "/h/a/~/b");
    assert_eq!(expand_path_under("~/tpl", Some("")), "/tpl");
    assert_eq!(expand_path_under("~/tpl", Some("relative/home/")), "relative/home//tpl");
}

#[test]
fn without_a_home_directory_every_path_stays_as_it_is() {
    for path in ["~", "~/tpl", "~ada/tpl", "/abs", "rel", ""] {
        assert_eq!(expand_path_under(path, None), path);
    }
}

#[test]
fn a_path_that_does_not_start_at_home_stays_under_any_home() {
    for path in ["~ada/tpl", "~~", "/abs/~", "a/~/b", "rel", "", " ~/x"] {
        assert_eq!(expand_path_under(path, Some("/home/ada")), path);
    }
}

#[test]
fn expand_paths_under_expands_with_the_home_that_is_given() {
    let mut config = Config {
        vcpkg_root: Some("~/vcpkg".to_string()),
        templates: Templates {
            locations: vec!["~/tpl".to_string(), "/abs".to_string(), "~user/tpl".to_string(), "~".to_string()],
        },
        archetypes: vec![("app".to_string(), "~/not-a-location".to_string())],
    };
    let before = config.clone();
    assert_eq!(config.expand_paths_under(None), Ok(()));
    assert_eq!(config, before);
    assert_eq!(config.expand_paths_under(Some("/home/ada")), Ok(()));
    assert_eq!(config.vcpkg_root, Some("/home/ada/vcpkg".to_string()));
    assert_eq!(
        config.templates.locations,
        vec![
            "/home/ada/tpl".to_string(),
            "/abs".to_string(),
            "~user/tpl".to_string(),
            "/home/ada".to_string()
        ]
    );
    assert_eq!(config.archetypes, before.archetypes);

    let mut rootless = Config::default();
    assert_eq!(rootless.expand_paths_under(Some("/home/ada")), Ok(()));
    assert_eq!(rootless, Config::default());
}

#[test]
fn load_under_expands_what_it_read() {
    let text = "vcpkg-root = \"~\"\n[templates]\nlocations = [\"~/a\", \"b\"]\n[archetypes]\napp = \"~/x\"\n";
    let config = Config::load_under(Some(text), Some("/home/ada")).unwrap();
    assert_eq!(config.vcpkg_root, Some("/home/ada".to_string()));
    assert_eq!(config.templates.locations, vec!["/home/ada/a".to_string(), "b".to_string()]);
    assert_eq!(config.archetypes, vec![("app".to_string(), "~/x".to_string())]);

    let config = Config::load_under(Some(text), None).unwrap();
    assert_eq!(config.vcpkg_root, Some("~".to_string()));
    assert_eq!(config.templates.locations, vec!["~/a".to_string(), "b".to_string()]);

    assert_eq!(Config::load_under(None, Some("/home/ada")).unwrap(), Config::default());
    assert!(matches!(
        Config::load_under(Some("vcpkg-root = 1"), Some("/home/ada")),
        Err(Error::ConfigInvalid { .. })
    ));
}

#[test]
fn the_environment_and_a_given_home_expand_alike() {
    let home = expand_path("~");
    if home != "~" {
        assert_eq!(expand_path("~/x"), expand_path_under("~/x", Some(&home)));
    } else {
        assert_eq!(expand_path("~/x"), expand_path_under("~/x", None));
    }
}
