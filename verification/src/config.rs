//! The cache directory: where it is configured, and which of its sources
//! wins. Reading the environment and the file system is left to the caller,
//! who hands in what was read.

use vstd::prelude::*;
use vstd::string::*;
use crate::text::trim;
use crate::text::trimmed;

verus! {

/// Name of the environment variable that overrides the stored value.
pub open spec fn env_name_text() -> Seq<char> {
    "MFT_CACHE_DIR"@
}

/// Name of the file that stores the cache directory.
pub open spec fn file_name_text() -> Seq<char> {
    "cache-dir.txt"@
}

/// Name of the environment variable that overrides the stored value.
pub fn cache_dir_env_name() -> (s: &'static str)
    ensures
        s@ == env_name_text(),
{
    "MFT_CACHE_DIR"
}

/// Name of the file, inside the configuration directory, that stores the
/// cache directory.
pub fn cache_dir_file_path() -> (s: &'static str)
    ensures
        s@ == file_name_text(),
{
    "cache-dir.txt"
}

/// Why the cache directory is not known.
#[derive(Clone, Copy, Debug, PartialEq, Eq, Structural)]
pub enum ConfigError {
    /// Neither the environment nor the file names a cache directory.
    NotConfigured,
}

/// What is to be said to the user for an error.
pub fn config_error_message(e: ConfigError) -> (s: String)
    ensures
        s@ == "cache-dir is not configured. Use: storage-usage-v2.exe config set cache-dir ."@,
{
    match e {
        ConfigError::NotConfigured => String::from_str(
            "cache-dir is not configured. Use: storage-usage-v2.exe config set cache-dir .",
        ),
    }
}

/// The path that a raw source names: its text without blanks around it, or
/// nothing where the source is missing or blank.
pub open spec fn named_path(raw: Option<Seq<char>>) -> Option<Seq<char>> {
    match raw {
        Some(text) => if trimmed(text).len() == 0 {
            None
        } else {
            Some(trimmed(text))
        },
        None => None,
    }
}

/// The text of an optional string slice.
pub open spec fn slice_text(s: Option<&str>) -> Option<Seq<char>> {
    match s {
        Some(s) => Some(s@),
        None => None,
    }
}

/// The text of an optional string.
pub open spec fn string_text(s: Option<String>) -> Option<Seq<char>> {
    match s {
        Some(s) => Some(s@),
        None => None,
    }
}

fn read_source(raw: Option<&str>) -> (r: Option<String>)
    ensures
        string_text(r) == named_path(slice_text(raw)),
{
    match raw {
        Some(text) => {
            let path = trim(text);
            if path.as_str().unicode_len() == 0 {
                None
            } else {
                Some(path)
            }
        },
        None => None,
    }
}

/// The path that the environment names. `value` is what the variable holds,
/// if it is set.
pub fn read_env_cache_dir(value: Option<&str>) -> (r: Option<String>)
    ensures
        string_text(r) == named_path(slice_text(value)),
{
    read_source(value)
}

/// The path that the configuration file names. `contents` is what the file
/// holds, if it exists.
pub fn read_cache_dir_file(contents: Option<&str>) -> (r: Option<String>)
    ensures
        string_text(r) == named_path(slice_text(contents)),
{
    read_source(contents)
}

/// The path that is configured: the environment wins over the file.
pub open spec fn initial_path(env_value: Option<Seq<char>>, file_contents: Option<Seq<char>>)
    -> Option<Seq<char>> {
    match named_path(env_value) {
        Some(path) => Some(path),
        None => named_path(file_contents),
    }
}

/// The path that is configured, not yet made canonical: what the
/// environment names, and what the file names where the environment names
/// nothing.
pub fn read_initial_cache_dir(env_value: Option<&str>, file_contents: Option<&str>) -> (r: Option<
    String,
>)
    ensures
        string_text(r) == initial_path(slice_text(env_value), slice_text(file_contents)),
{
    match read_env_cache_dir(env_value) {
        Some(path) => Some(path),
        None => read_cache_dir_file(file_contents),
    }
}

/// The cache directory as the process remembers it: read once, and then not
/// again until it is set.
#[derive(Debug)]
pub struct CacheDirCache {
    cached: Option<String>,
}

/// The answer to a question for the cache directory.
#[derive(Debug)]
pub enum CacheDir {
    /// The directory is known: this is its canonical path.
    Known(String),
    /// This path was configured. It is to be made canonical and then
    /// remembered.
    Configured(String),
}

/// The mathematical value of a [`CacheDir`].
pub enum CacheDirView {
    Known(Seq<char>),
    Configured(Seq<char>),
}

impl View for CacheDir {
    type V = CacheDirView;

    open spec fn view(&self) -> CacheDirView {
        match self {
            CacheDir::Known(p) => CacheDirView::Known(p@),
            CacheDir::Configured(p) => CacheDirView::Configured(p@),
        }
    }
}

/// The answer for a process that remembers `cached` and finds the given
/// sources: what it remembers, whatever the sources say; else what the
/// sources name; else an error.
pub open spec fn cache_dir_answer(
    cached: Option<Seq<char>>,
    env_value: Option<Seq<char>>,
    file_contents: Option<Seq<char>>,
) -> Result<CacheDirView, ConfigError> {
    match cached {
        Some(path) => Ok(CacheDirView::Known(path)),
        None => match initial_path(env_value, file_contents) {
            Some(path) => Ok(CacheDirView::Configured(path)),
            None => Err(ConfigError::NotConfigured),
        },
    }
}

impl View for CacheDirCache {
    type V = Option<Seq<char>>;

    closed spec fn view(&self) -> Option<Seq<char>> {
        string_text(self.cached)
    }
}

impl CacheDirCache {
    /// A process that has not asked yet.
    pub fn new() -> (c: Self)
        ensures
            c@ is None,
    {
        CacheDirCache { cached: None }
    }

    /// Whether the directory is remembered, so that no source needs to be
    /// read.
    pub fn is_known(&self) -> (b: bool)
        ensures
            b == self@ is Some,
    {
        self.cached.is_some()
    }

    /// Remembers the canonical path of the cache directory.
    pub fn remember(&mut self, canonical: String)
        ensures
            final(self)@ == Some(canonical@),
    {
        self.cached = Some(canonical);
    }
}

/// Answers the question for the cache directory. `env_value` and
/// `file_contents` are what the environment variable and the configuration
/// file hold; they are not looked at where the directory is remembered.
pub fn get_cache_dir(
    cache: &CacheDirCache,
    env_value: Option<&str>,
    file_contents: Option<&str>,
) -> (r: Result<CacheDir, ConfigError>)
    ensures
        match cache_dir_answer(cache@, slice_text(env_value), slice_text(file_contents)) {
            Ok(answer) => r is Ok && r->Ok_0@ == answer,
            Err(e) => r is Err && r->Err_0 == e,
        },
{
    match &cache.cached {
        Some(path) => Ok(CacheDir::Known(path.clone())),
        None => match read_initial_cache_dir(env_value, file_contents) {
            Some(path) => Ok(CacheDir::Configured(path)),
            None => Err(ConfigError::NotConfigured),
        },
    }
}

/// Sets the cache directory: `canonical` is the canonical form of the path
/// that was given. From now on it is the answer.
pub fn set_cache_dir(cache: &mut CacheDirCache, canonical: String)
    ensures
        final(cache)@ == Some(canonical@),
{
    cache.remember(canonical);
}

/// After the cache directory is set, the answer is the canonical path that
/// was set, whatever the environment and the file say.
pub proof fn set_then_get(
    canonical: Seq<char>,
    env_value: Option<Seq<char>>,
    file_contents: Option<Seq<char>>,
)
    ensures
        cache_dir_answer(Some(canonical), env_value, file_contents) == Ok::<
            CacheDirView,
            ConfigError,
        >(CacheDirView::Known(canonical)),
{
}

/// The environment wins over the file, and a blank source counts as
/// missing.
pub proof fn environment_wins(env_value: Option<Seq<char>>, file_contents: Option<Seq<char>>)
    ensures
        named_path(env_value) is Some ==> initial_path(env_value, file_contents) == named_path(
            env_value,
        ),
        named_path(env_value) is None ==> initial_path(env_value, file_contents) == named_path(
            file_contents,
        ),
{
}

} // verus!
