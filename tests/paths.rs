use sol_modules::{cache_path, cache_path_in, ModuleSourcePath};

#[test]
fn cache_path_keeps_the_file_name_under_the_run_directory() {
    let source = ModuleSourcePath("./build/echo.so".to_string());
    let c = cache_path_in("/tmp", "run-1", &source).unwrap();
    assert_eq!(c.0, "/tmp/run-1/echo.so");
}

#[test]
fn cache_path_of_a_path_without_file_name_is_none() {
    let source = ModuleSourcePath("./build/..".to_string());
    assert!(cache_path_in("/tmp", "run-1", &source).is_none());
}

#[test]
fn cache_path_uses_the_run_uuid_as_directory() {
    let source = ModuleSourcePath("/out/libstats.so".to_string());
    let c = cache_path("/var/tmp/", &uuid::Uuid::nil(), &source).unwrap();
    assert_eq!(c.0, "/var/tmp/00000000-0000-0000-0000-000000000000/libstats.so");
}
