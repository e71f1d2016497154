use xtask::textpatch::{replace_all, windows_safe_path};

#[test]
fn replaces_a_single_occurrence() {
    let out = replace_all("abc def", "def", "xyz");
    assert_eq!(out, "abc xyz");
}

#[test]
fn replaces_every_occurrence_left_to_right() {
    let out = replace_all("one, one, one", "one", "two");
    assert_eq!(out, "two, two, two");
}

#[test]
fn strips_a_task_header_include_line() {
    let header = "#pragma once\n#include \"esp_task.h\"\nint f(void);\n";
    let out = replace_all(header, "#include \"esp_task.h\"", "");
    assert_eq!(out, "#pragma once\n\nint f(void);\n");
}

#[test]
fn comments_out_a_controller_include_prefix() {
    let header = "#include \"../../../../controller/x.h\"\n";
    let out = replace_all(
        header,
        "#include \"../../../../controller/",
        "//#include \"../../../../controller/",
    );
    assert_eq!(out, "//#include \"../../../../controller/x.h\"\n");
}

#[test]
fn leaves_a_file_without_the_pattern_unchanged() {
    let header = "#pragma once\nint f(void);\n";
    let out = replace_all(header, "#include \"esp_task.h\"", "");
    assert_eq!(out, header);
}

#[test]
fn patching_an_already_patched_file_changes_nothing() {
    let header = "#pragma once\n#include \"freertos/FreeRTOS.h\"\nint f(void);\n";
    let once = replace_all(header, "#include \"freertos/FreeRTOS.h\"", "");
    let twice = replace_all(&once, "#include \"freertos/FreeRTOS.h\"", "");
    assert_eq!(once, twice);
}

#[test]
fn does_not_rescan_replaced_text() {
    let out = replace_all("aabb", "ab", "");
    assert_eq!(out, "ab");
}

#[test]
fn an_empty_pattern_replaces_nothing() {
    let out = replace_all("abc", "", "xyz");
    assert_eq!(out, "abc");
}

#[test]
fn replacement_may_be_longer_than_the_pattern() {
    let out = replace_all("a-b-c", "-", "--");
    assert_eq!(out, "a--b--c");
}

#[test]
fn strips_the_verbatim_path_marker() {
    let out = windows_safe_path("\\\\?\\C:\\work\\project");
    assert_eq!(out, "C:\\work\\project");
}

#[test]
fn leaves_an_ordinary_path_alone() {
    let out = windows_safe_path("/home/user/project");
    assert_eq!(out, "/home/user/project");
}
