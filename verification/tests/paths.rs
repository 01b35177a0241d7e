use std::path::Path;
use wasmgo::path::{PathKind, PathResolver};
use wasmgo::PluginError;

fn sample_paths() -> Vec<&'static str> {
    vec![
        "", ".", "..", "/", "//", "/.", "./", "./.", "a", "a/", "a//", "a/.", "a/./", "a/..", "a/../",
        "main.go", "src/main.go", "/abs/main.go", "./main.go", ".hidden", "dir/.hidden", ".hidden.go",
        "archive.tar.gz", "trailing.", "..a", "...", "a/...", "a//b", "a/b/c.d/e", "a.b/c", "no_ext",
        "cmd/main.go/", "cmd/main.go/.", "x/.go", "x/y.GO", "weird..name", "caf\u{e9}/na\u{ef}ve.go",
        "\u{65e5}\u{672c}/\u{8a9e}.go", " ", "a b/c d.e f",
    ]
}

#[test]
fn join_paths_puts_one_separator_between() {
    assert_eq!(PathResolver::join_paths("out", "main.wasm"), "out/main.wasm");
    assert_eq!(PathResolver::join_paths("./dist", "app.wasm"), "./dist/app.wasm");
}

#[test]
fn join_paths_adds_no_separator_after_one() {
    assert_eq!(PathResolver::join_paths("out/", "main.wasm"), "out/main.wasm");
    assert_eq!(PathResolver::join_paths("/", "main.wasm"), "/main.wasm");
}

#[test]
fn join_paths_with_empty_base_gives_the_relative_path() {
    assert_eq!(PathResolver::join_paths("", "main.wasm"), "main.wasm");
}

#[test]
fn join_paths_with_empty_relative_path_ends_with_a_separator() {
    assert_eq!(PathResolver::join_paths("out", ""), "out/");
    assert_eq!(PathResolver::join_paths("", ""), "");
}

#[test]
fn join_paths_lets_an_absolute_path_stand_for_itself() {
    assert_eq!(PathResolver::join_paths("out", "/tmp/main.wasm"), "/tmp/main.wasm");
    assert_eq!(PathResolver::join_paths("", "/"), "/");
}

#[test]
fn join_paths_agrees_with_the_standard_library() {
    for base in sample_paths() {
        for relative in sample_paths() {
            let expected = Path::new(base).join(relative).to_string_lossy().to_string();
            assert_eq!(PathResolver::join_paths(base, relative), expected, "{base:?} {relative:?}");
        }
    }
}

#[test]
fn file_name_is_the_last_component() {
    assert_eq!(PathResolver::file_name("src/main.go"), Some("main.go".to_string()));
    assert_eq!(PathResolver::file_name("main.go"), Some("main.go".to_string()));
    assert_eq!(PathResolver::file_name("/abs/dir/"), Some("dir".to_string()));
    assert_eq!(PathResolver::file_name("dir/."), Some("dir".to_string()));
    assert_eq!(PathResolver::file_name("a/..."), Some("...".to_string()));
}

#[test]
fn file_name_is_absent_without_a_named_component() {
    assert_eq!(PathResolver::file_name(""), None);
    assert_eq!(PathResolver::file_name("/"), None);
    assert_eq!(PathResolver::file_name("."), None);
    assert_eq!(PathResolver::file_name(".."), None);
    assert_eq!(PathResolver::file_name("a/.."), None);
    assert_eq!(PathResolver::file_name("./."), None);
}

#[test]
fn file_name_agrees_with_the_standard_library() {
    for path in sample_paths() {
        let expected = Path::new(path).file_name().map(|name| name.to_string_lossy().to_string());
        assert_eq!(PathResolver::file_name(path), expected, "{path:?}");
    }
}

#[test]
fn file_stem_stops_at_the_last_dot() {
    assert_eq!(PathResolver::file_stem("src/main.go"), Some("main".to_string()));
    assert_eq!(PathResolver::file_stem("archive.tar.gz"), Some("archive.tar".to_string()));
    assert_eq!(PathResolver::file_stem("trailing."), Some("trailing".to_string()));
}

#[test]
fn file_stem_is_the_whole_name_without_an_inner_dot() {
    assert_eq!(PathResolver::file_stem("Makefile"), Some("Makefile".to_string()));
    assert_eq!(PathResolver::file_stem("dir/.hidden"), Some(".hidden".to_string()));
    assert_eq!(PathResolver::file_stem("go.mod/"), Some("go".to_string()));
}

#[test]
fn file_stem_is_absent_without_a_file_name() {
    assert_eq!(PathResolver::file_stem(""), None);
    assert_eq!(PathResolver::file_stem("src/.."), None);
    assert_eq!(PathResolver::file_stem("/"), None);
}

#[test]
fn file_stem_agrees_with_the_standard_library() {
    for path in sample_paths() {
        let expected = Path::new(path).file_stem().map(|stem| stem.to_string_lossy().to_string());
        assert_eq!(PathResolver::file_stem(path), expected, "{path:?}");
    }
}

#[test]
fn extension_follows_the_last_dot() {
    assert_eq!(PathResolver::extension("src/main.go"), Some("go".to_string()));
    assert_eq!(PathResolver::extension("archive.tar.gz"), Some("gz".to_string()));
    assert_eq!(PathResolver::extension("x/y.GO"), Some("GO".to_string()));
    assert_eq!(PathResolver::extension("trailing."), Some(String::new()));
}

#[test]
fn extension_is_absent_without_an_inner_dot() {
    assert_eq!(PathResolver::extension("Makefile"), None);
    assert_eq!(PathResolver::extension(".hidden"), None);
    assert_eq!(PathResolver::extension("x/.go"), None);
    assert_eq!(PathResolver::extension("a.b/c"), None);
    assert_eq!(PathResolver::extension(".."), None);
}

#[test]
fn extension_agrees_with_the_standard_library() {
    for path in sample_paths() {
        let expected = Path::new(path).extension().map(|ext| ext.to_string_lossy().to_string());
        assert_eq!(PathResolver::extension(path), expected, "{path:?}");
    }
}

#[test]
fn is_safe_path_accepts_paths_without_two_dots_in_a_row() {
    assert!(PathResolver::is_safe_path(""));
    assert!(PathResolver::is_safe_path("."));
    assert!(PathResolver::is_safe_path("src/main.go"));
    assert!(PathResolver::is_safe_path("./a/./b"));
    assert!(PathResolver::is_safe_path("a.b.c"));
    assert!(PathResolver::is_safe_path("/abs/path/"));
}

#[test]
fn is_safe_path_refuses_two_dots_in_a_row_anywhere() {
    assert!(!PathResolver::is_safe_path(".."));
    assert!(!PathResolver::is_safe_path("../secret"));
    assert!(!PathResolver::is_safe_path("a/../b"));
    assert!(!PathResolver::is_safe_path("a/b/.."));
    assert!(!PathResolver::is_safe_path("name..go"));
    assert!(!PathResolver::is_safe_path("..."));
}

#[test]
fn is_safe_path_agrees_with_a_search_for_two_dots() {
    for path in sample_paths() {
        assert_eq!(PathResolver::is_safe_path(path), !path.contains(".."), "{path:?}");
    }
}

#[test]
fn validate_directory_exists_accepts_a_directory() {
    assert!(PathResolver::validate_directory_exists("proj", PathKind::Directory).is_ok());
}

#[test]
fn validate_directory_exists_reports_a_missing_directory() {
    match PathResolver::validate_directory_exists("proj", PathKind::Missing) {
        Err(PluginError::InvalidProjectStructure { reason }) => {
            assert_eq!(reason, "Directory does not exist: proj")
        }
        other => panic!("unexpected result: {other:?}"),
    }
}

#[test]
fn validate_directory_exists_reports_a_path_that_is_no_directory() {
    match PathResolver::validate_directory_exists("proj/main.go", PathKind::File) {
        Err(PluginError::InvalidProjectStructure { reason }) => {
            assert_eq!(reason, "Path is not a directory: proj/main.go")
        }
        other => panic!("unexpected result: {other:?}"),
    }
}

#[test]
fn ensure_output_directory_exists_accepts_a_created_directory() {
    assert!(PathResolver::ensure_output_directory_exists("dist", true).is_ok());
}

#[test]
fn ensure_output_directory_exists_reports_the_path_that_failed() {
    match PathResolver::ensure_output_directory_exists("/root/dist", false) {
        Err(PluginError::OutputDirectoryCreationFailed { path }) => assert_eq!(path, "/root/dist"),
        other => panic!("unexpected result: {other:?}"),
    }
}
