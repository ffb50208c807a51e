use storage_usage::config::cache_dir_env_name;
use storage_usage::config::cache_dir_file_path;
use storage_usage::config::config_error_message;
use storage_usage::config::get_cache_dir;
use storage_usage::config::read_cache_dir_file;
use storage_usage::config::read_env_cache_dir;
use storage_usage::config::read_initial_cache_dir;
use storage_usage::config::set_cache_dir;
use storage_usage::config::CacheDir;
use storage_usage::config::CacheDirCache;
use storage_usage::config::ConfigError;
use storage_usage::text::trim;

#[test]
fn names_of_the_sources() {
    assert_eq!(cache_dir_env_name(), "MFT_CACHE_DIR");
    assert_eq!(cache_dir_file_path(), "cache-dir.txt");
}

#[test]
fn trim_removes_blanks_at_both_ends() {
    assert_eq!(trim("  a b \t\r\n"), "a b");
    assert_eq!(trim("a"), "a");
    assert_eq!(trim(" \t "), "");
    assert_eq!(trim(""), "");
    assert_eq!(trim("\nD:\\cache dir\n"), "D:\\cache dir");
}

#[test]
fn blank_sources_count_as_missing() {
    assert_eq!(read_env_cache_dir(None), None);
    assert_eq!(read_env_cache_dir(Some("")), None);
    assert_eq!(read_env_cache_dir(Some("   ")), None);
    assert_eq!(read_env_cache_dir(Some(" D:\\cache ")), Some("D:\\cache".to_string()));
    assert_eq!(read_cache_dir_file(Some("\n")), None);
    assert_eq!(read_cache_dir_file(Some("C:\\mft\r\n")), Some("C:\\mft".to_string()));
}

#[test]
fn environment_wins_over_the_file() {
    assert_eq!(read_initial_cache_dir(Some("E:\\env"), Some("F:\\file")), Some("E:\\env".to_string()));
    assert_eq!(read_initial_cache_dir(Some("  "), Some("F:\\file")), Some("F:\\file".to_string()));
    assert_eq!(read_initial_cache_dir(None, Some("F:\\file")), Some("F:\\file".to_string()));
    assert_eq!(read_initial_cache_dir(None, None), None);
}

#[test]
fn unconfigured_cache_dir_is_an_error() {
    let cache = CacheDirCache::new();
    assert!(!cache.is_known());
    match get_cache_dir(&cache, None, Some("  ")) {
        Err(e) => {
            assert_eq!(e, ConfigError::NotConfigured);
            assert_eq!(
                config_error_message(e),
                "cache-dir is not configured. Use: storage-usage-v2.exe config set cache-dir ."
            );
        }
        Ok(other) => panic!("configured: {:?}", other),
    }
}

#[test]
fn configured_path_is_to_be_made_canonical_and_remembered() {
    let mut cache = CacheDirCache::new();
    match get_cache_dir(&cache, Some(" .\\cache "), None) {
        Ok(CacheDir::Configured(raw)) => assert_eq!(raw, ".\\cache"),
        other => panic!("not configured: {:?}", other),
    }
    cache.remember("D:\\work\\cache".to_string());
    assert!(cache.is_known());
    // from now on the sources are not looked at
    match get_cache_dir(&cache, Some("E:\\other"), Some("F:\\other")) {
        Ok(CacheDir::Known(path)) => assert_eq!(path, "D:\\work\\cache"),
        other => panic!("not known: {:?}", other),
    }
}

#[test]
fn set_then_get_gives_the_canonical_path() {
    let mut cache = CacheDirCache::new();
    cache.remember("C:\\old".to_string());
    set_cache_dir(&mut cache, "D:\\canonical".to_string());
    match get_cache_dir(&cache, Some("E:\\env"), None) {
        Ok(CacheDir::Known(path)) => assert_eq!(path, "D:\\canonical"),
        other => panic!("not known: {:?}", other),
    }
}
