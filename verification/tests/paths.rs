use std::path::Path;
use universal_config::path::{extension, join, with_extension};
use universal_config::text::same_text;

#[test]
fn join_puts_one_slash_between() {
    assert_eq!(join("/home/u/.config", "myapp"), "/home/u/.config/myapp");
    assert_eq!(join("test_configs", "config.json"), "test_configs/config.json");
    assert_eq!(join("köln", "größe"), "köln/größe");
    assert_eq!(join("dir", ""), "dir/");
}

#[test]
fn join_leaves_the_name_relative_behind_an_empty_directory() {
    assert_eq!(join("", "config.json"), "config.json");
    assert_eq!(join("", ""), "");
}

#[test]
fn join_adds_no_second_slash() {
    assert_eq!(join("dir/", "config.json"), "dir/config.json");
    assert_eq!(join("/", "config.json"), "/config.json");
    assert_eq!(join("dir//", "config.json"), "dir//config.json");
}

#[test]
fn join_keeps_a_name_that_starts_at_the_root() {
    assert_eq!(join("dir", "/etc/config.json"), "/etc/config.json");
    assert_eq!(join("", "/"), "/");
}

#[test]
fn join_agrees_with_the_platform() {
    let parts = ["", "/", "a", "a/", "/a", "/a/", "a/b", "a//", ".", "..", "./a", "größe", "a b"];
    for dir in parts {
        for name in parts {
            let expected = Path::new(dir).join(name);
            assert_eq!(join(dir, name), expected.to_str().unwrap(), "{dir:?} {name:?}");
        }
    }
}

#[test]
fn with_extension_puts_one_dot_between() {
    assert_eq!(with_extension("config", "json"), "config.json");
    assert_eq!(with_extension("", "yml"), ".yml");
    assert_eq!(with_extension("settings.local", "toml"), "settings.local.toml");
}

#[test]
fn extension_is_the_text_behind_the_last_dot() {
    assert_eq!(extension("config.json"), "json");
    assert_eq!(extension("test_configs/config.yaml"), "yaml");
    assert_eq!(extension("archive.tar.gz"), "gz");
    assert_eq!(extension("/a/b/c.d/e.f.toml"), "toml");
    assert_eq!(extension("dir/.hidden.xml"), "xml");
    assert_eq!(extension("..json"), "json");
}

#[test]
fn extension_is_lower_cased() {
    assert_eq!(extension("config.JSON"), "json");
    assert_eq!(extension("Config.Yml"), "yml");
    assert_eq!(extension("DIR/FILE.TOML"), "toml");
    assert_eq!(extension("file.AZaz09@[`{"), "azaz09@[`{");
    assert_eq!(extension("file.ÄÖÜ"), "ÄÖÜ");
}

#[test]
fn a_leading_dot_begins_no_extension() {
    assert_eq!(extension(".json"), "");
    assert_eq!(extension("dir/.toml"), "");
    assert_eq!(extension("/.yaml"), "");
    assert_eq!(extension("a.b/.xml"), "");
}

#[test]
fn extension_is_empty_without_a_dot_in_the_file_name() {
    assert_eq!(extension(""), "");
    assert_eq!(extension("config"), "");
    assert_eq!(extension("some.dir/config"), "");
    assert_eq!(extension("config."), "");
    assert_eq!(extension("/"), "");
    assert_eq!(extension("."), "");
    assert_eq!(extension(".."), "");
    assert_eq!(extension("a.b/.."), "");
}

#[test]
fn extension_passes_over_what_trails_the_last_component() {
    assert_eq!(extension("some.dir/"), "dir");
    assert_eq!(extension("some.dir//"), "dir");
    assert_eq!(extension("some.dir/."), "dir");
    assert_eq!(extension("some.dir/./"), "dir");
    assert_eq!(extension("a.json/.//./"), "json");
    assert_eq!(extension("./"), "");
    assert_eq!(extension("/./."), "");
}

#[test]
fn extension_counts_characters_not_bytes() {
    assert_eq!(extension("größe/datei.jsön"), "jsön");
    assert_eq!(extension("日本語.設定"), "設定");
    assert_eq!(extension("日本語/設定"), "");
}

#[test]
fn extension_agrees_with_the_platform() {
    let paths = [
        "", ".", "..", "/", "//", "./", "../", "/.", "/..", "a", "a.", ".a", "a.b", "a.b.c", "..a",
        "a..", "a..b", "...", "....", ".a.", ".a.b", "a/", "a/.", "a/..", "a/./", "a/.//", "a.b/",
        "a.b/.", "a.b/./.", "a.b/..", "a.b/c", "a.b/.c", "a.b/c.", "a.b/c.d", "a.b//c.d//", "./a.b",
        "./.a", "./.", "/a.b", "/.a", "x/.a.b", "x/...", "x/..a", "x/a../", "größe.ÄBC", "a b.c d",
        "a.b/ ", " .a",
    ];
    for path in paths {
        let expected = Path::new(path).extension().unwrap_or_default().to_str().unwrap_or_default();
        assert_eq!(extension(path), expected.to_ascii_lowercase(), "{path:?}");
    }
}

#[test]
fn extension_of_a_composed_path_is_the_extension_given() {
    for ext in ["json", "yaml", "yml", "toml", "corn", "xml"] {
        for dir in ["", "/", "dir", "dir/", "any.dir/with.dots", "a/."] {
            for stem in ["config", "my.config", ".config", "/etc/config", "a/b"] {
                let path = join(dir, &with_extension(stem, ext));
                assert_eq!(extension(&path), ext, "{path:?}");
            }
        }
    }
}

#[test]
fn extension_of_a_composed_path_without_base_name_is_empty() {
    assert_eq!(extension(&join("dir", &with_extension("", "json"))), "");
    assert_eq!(extension(&join("", &with_extension("", "json"))), "");
    assert_eq!(extension(&join("dir", &with_extension("sub/", "json"))), "");
}

#[test]
fn same_text_compares_characters() {
    assert!(same_text("", ""));
    assert!(same_text("json", "json"));
    assert!(!same_text("json", "jsom"));
    assert!(!same_text("json", "jso"));
    assert!(!same_text("jso", "json"));
    assert!(!same_text("json", "JSON"));
    assert!(same_text("größe", "größe"));
    assert!(!same_text("größe", "grösse"));
}
