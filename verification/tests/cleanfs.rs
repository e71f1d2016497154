use xtask::fsmodel::MockFs;

#[test]
fn cleaning_an_empty_tree_twice_never_fails() {
    let mut fs = MockFs::new();
    fs.run_clean();
    fs.run_clean();
    assert_eq!(fs.file_count(), 0);
}

#[test]
fn cleaning_twice_equals_cleaning_once() {
    let mut once = MockFs::new();
    let mut twice = MockFs::new();
    let paths = [
        "./helper_project/build/esp-idf/main/libprintf.a",
        "./helper_project/build/config/sdkconfig.h",
        "./helper_project/sdkconfig",
        "./helper_project/sdkconfig.defaults",
        "./helper_project/sdkconfig.old",
        "./helper_project/CMakeLists.txt",
        "./version",
    ];
    for p in paths {
        once.add_file(p);
        twice.add_file(p);
    }
    once.run_clean();
    twice.run_clean();
    twice.run_clean();
    assert_eq!(once.file_count(), twice.file_count());
    for p in paths {
        assert_eq!(once.has_file(p), twice.has_file(p), "path {}", p);
    }
}

#[test]
fn clean_removes_exactly_the_build_tree_and_generated_configuration() {
    let mut fs = MockFs::new();
    fs.add_file("./helper_project/build/esp-idf/main/libprintf.a");
    fs.add_file("./helper_project/build");
    fs.add_file("./helper_project/sdkconfig");
    fs.add_file("./helper_project/sdkconfig.defaults");
    fs.add_file("./helper_project/sdkconfig.old");
    fs.add_file("./helper_project/CMakeLists.txt");
    fs.add_file("./version");
    fs.run_clean();
    assert!(!fs.has_file("./helper_project/build/esp-idf/main/libprintf.a"));
    assert!(!fs.has_file("./helper_project/build"));
    assert!(!fs.has_file("./helper_project/sdkconfig"));
    assert!(!fs.has_file("./helper_project/sdkconfig.defaults"));
    assert!(!fs.has_file("./helper_project/sdkconfig.old"));
    assert!(fs.has_file("./helper_project/CMakeLists.txt"));
    assert!(fs.has_file("./version"));
    assert_eq!(fs.file_count(), 2);
}

#[test]
fn removing_a_directory_does_not_touch_similarly_named_files() {
    let mut fs = MockFs::new();
    fs.add_file("./helper_project/buildinfo");
    fs.add_file("./helper_project/build.log");
    fs.run_clean();
    assert!(fs.has_file("./helper_project/buildinfo"));
    assert!(fs.has_file("./helper_project/build.log"));
}

#[test]
fn removing_an_absent_file_is_a_no_op() {
    let mut fs = MockFs::new();
    fs.add_file("./keep.txt");
    fs.remove_file("./absent.txt");
    assert!(fs.has_file("./keep.txt"));
    assert_eq!(fs.file_count(), 1);
}

#[test]
fn removing_an_absent_tree_is_a_no_op() {
    let mut fs = MockFs::new();
    fs.add_file("./keep.txt");
    fs.remove_dir_all("./absent");
    assert!(fs.has_file("./keep.txt"));
    assert_eq!(fs.file_count(), 1);
}
