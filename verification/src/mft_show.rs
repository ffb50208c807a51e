//! Opening the terminal front end on one dump or on the dumps that a glob
//! pattern matches. What the file system holds is found out by the caller.

use vstd::prelude::*;
use vstd::string::*;
use crate::text::chars_of;
use crate::text::joined;
use crate::text::texts;
use crate::text_order::ascending;
use crate::text_order::in_order;
use crate::text_order::sort_texts;
use crate::tui::app::untouched;
use crate::tui::app::MftShowApp;

verus! {

/// What lies at a path.
#[derive(Clone, Copy, Debug, PartialEq, Eq, Structural)]
pub enum PathKind {
    /// A file.
    File,
    /// Something that is not a file, such as a directory.
    Other,
    /// Nothing.
    Missing,
}

/// A path and what lies there.
#[derive(Debug)]
pub struct Candidate {
    pub path: String,
    pub kind: PathKind,
}

/// Why there is nothing to show.
#[derive(Clone, Copy, Debug, PartialEq, Eq, Structural)]
pub enum ShowError {
    /// The path names nothing.
    FileNotFound,
    /// The path names something that is not a file.
    NotAFile,
    /// No file matches the pattern.
    NoFiles,
}

/// Whether `c` makes a path a glob pattern.
pub open spec fn is_glob_char(c: char) -> bool {
    c == '*' || c == '?' || c == '['
}

/// Whether `pattern` is a glob pattern rather than a plain path.
pub open spec fn is_glob(pattern: Seq<char>) -> bool {
    exists|i: int| 0 <= i < pattern.len() && is_glob_char(#[trigger] pattern[i])
}

/// The paths among `candidates` at which a file lies, in the order given.
pub open spec fn files_among(candidates: Seq<Candidate>) -> Seq<Seq<char>>
    decreases candidates.len(),
{
    if candidates.len() == 0 {
        Seq::empty()
    } else if candidates.last().kind == PathKind::File {
        files_among(candidates.drop_last()).push(candidates.last().path@)
    } else {
        files_among(candidates.drop_last())
    }
}

/// The dumps that `pattern` stands for. A glob pattern stands for the files
/// among its matches, in alphabetical order component by component; a plain
/// path stands for itself if a file lies there.
pub open spec fn expansion(pattern: Seq<char>, pattern_kind: PathKind, matches: Seq<Candidate>)
    -> Result<Seq<Seq<char>>, ShowError> {
    if is_glob(pattern) {
        Ok(in_order(files_among(matches)))
    } else {
        match pattern_kind {
            PathKind::File => Ok(seq![pattern]),
            PathKind::Missing => Err(ShowError::FileNotFound),
            PathKind::Other => Err(ShowError::NotAFile),
        }
    }
}

/// Tests whether `pattern` is a glob pattern.
pub fn is_glob_pattern(pattern: &str) -> (b: bool)
    ensures
        b == is_glob(pattern@),
{
    let chars = chars_of(pattern);
    let mut i: usize = 0;
    while i < chars.len()
        invariant
            i <= chars.len(),
            chars@ == pattern@,
            forall|j: int| 0 <= j < i ==> !is_glob_char(#[trigger] pattern@[j]),
        decreases chars.len() - i,
    {
        let c = chars[i];
        if c == '*' || c == '?' || c == '[' {
            assert(is_glob_char(pattern@[i as int]));
            return true;
        }
        i += 1;
    }
    false
}

/// Expands `pattern` to the dumps it stands for. `pattern_kind` says what
/// lies at the pattern taken as a path; `matches` are the paths that match
/// it as a glob pattern, in any order, each with what lies there. The
/// result is in alphabetical order, and for a glob pattern it holds the
/// files among the matches, each as often as it was given.
pub fn expand_glob_pattern(pattern: &str, pattern_kind: PathKind, matches: &Vec<Candidate>) -> (r:
    Result<Vec<String>, ShowError>)
    ensures
        match expansion(pattern@, pattern_kind, matches@) {
            Ok(files) => r is Ok && texts(r->Ok_0@) == files,
            Err(e) => r is Err && r->Err_0 == e,
        },
        r is Ok ==> ascending(texts(r->Ok_0@)),
        r is Ok && is_glob(pattern@) ==> texts(r->Ok_0@).to_multiset() == files_among(
            matches@,
        ).to_multiset(),
{
    let mut files: Vec<String> = Vec::new();
    if is_glob_pattern(pattern) {
        let mut i: usize = 0;
        assert(matches@.take(0) =~= Seq::<Candidate>::empty());
        assert(texts(files@) =~= Seq::empty());
        while i < matches.len()
            invariant
                i <= matches.len(),
                texts(files@) == files_among(matches@.take(i as int)),
            decreases matches.len() - i,
        {
            proof {
                assert(matches@.take(i + 1).drop_last() =~= matches@.take(i as int));
                assert(matches@.take(i + 1).last() == matches@[i as int]);
            }
            match matches[i].kind {
                PathKind::File => {
                    let ghost before = texts(files@);
                    let path = matches[i].path.clone();
                    files.push(path);
                    assert(texts(files@) =~= before.push(matches@[i as int].path@));
                },
                _ => {},
            }
            i += 1;
        }
        assert(matches@.take(matches.len() as int) =~= matches@);
        Ok(sort_texts(files))
    } else {
        match pattern_kind {
            PathKind::File => {
                files.push(String::from_str(pattern));
                assert(texts(files@) =~= seq![pattern@]);
                Ok(files)
            },
            PathKind::Missing => Err(ShowError::FileNotFound),
            PathKind::Other => Err(ShowError::NotAFile),
        }
    }
}

/// The name that the cached dumps match.
pub open spec fn cached_dumps() -> Seq<char> {
    "*.mft"@
}

/// Whether a path ends in a separator.
pub open spec fn ends_in_separator(path: Seq<char>) -> bool {
    path.len() > 0 && (path.last() == '\\' || path.last() == '/')
}

/// The pattern that `mft show` works on: the pattern that was given, and
/// otherwise every dump in the cache directory, `<cache dir>/*.mft`. The
/// separator is left out behind a directory that ends in one or is empty.
pub open spec fn show_pattern(given: Option<Seq<char>>, cache_dir: Seq<char>) -> Seq<char> {
    match given {
        Some(pattern) => pattern,
        None => if cache_dir.len() == 0 || ends_in_separator(cache_dir) {
            cache_dir + cached_dumps()
        } else {
            cache_dir + seq!['/'] + cached_dumps()
        },
    }
}

/// Tells whether the cache directory is needed to know the pattern that
/// `mft show` works on: where none was given.
pub fn needs_cache_dir(given: &Option<String>) -> (b: bool)
    ensures
        b == (given is None),
{
    given.is_none()
}

/// Works out the pattern that `mft show` works on. The cache directory is
/// looked at only where no pattern was given.
pub fn resolve_show_pattern(given: Option<String>, cache_dir: &str) -> (pattern: String)
    ensures
        pattern@ == show_pattern(crate::cli::command::optional_text(given), cache_dir@),
{
    match given {
        Some(pattern) => pattern,
        None => {
            let chars = chars_of(cache_dir);
            let n = chars.len();
            if n == 0 || chars[n - 1] == '\\' || chars[n - 1] == '/' {
                joined(cache_dir, "*.mft")
            } else {
                let mut pattern = String::from_str(cache_dir);
                pattern.push('/');
                pattern.append("*.mft");
                pattern
            }
        },
    }
}

/// Opens the front end on a single dump.
pub fn show_mft_file(
    mft_file: String,
    _verbose: bool,
    _show_paths: bool,
    _max_entries: Option<usize>,
) -> (app: MftShowApp)
    ensures
        app.wf(),
        !app.quitting(),
        app.files() == seq![untouched(mft_file@)],
{
    let mut paths: Vec<String> = Vec::new();
    paths.push(mft_file);
    let app = MftShowApp::new(paths);
    assert(app.files() =~= seq![untouched(mft_file@)]);
    app
}

/// The progress of untouched files at `paths`.
pub open spec fn untouched_files(paths: Seq<Seq<char>>) -> Seq<crate::tui::progress::ProgressView> {
    paths.map_values(|p: Seq<char>| untouched(p))
}

/// Opens the front end on the dumps that `pattern` stands for. At least
/// one dump is needed.
pub fn show_mft_files(
    pattern: &str,
    pattern_kind: PathKind,
    matches: &Vec<Candidate>,
    _verbose: bool,
    _show_paths: bool,
    _max_entries: Option<usize>,
    _threads: Option<usize>,
) -> (r: Result<MftShowApp, ShowError>)
    ensures
        match expansion(pattern@, pattern_kind, matches@) {
            Ok(files) => if files.len() == 0 {
                r is Err && r->Err_0 == ShowError::NoFiles
            } else {
                r is Ok && r->Ok_0.wf() && !r->Ok_0.quitting() && r->Ok_0.files()
                    == untouched_files(files)
            },
            Err(e) => r is Err && r->Err_0 == e,
        },
{
    let files = match expand_glob_pattern(pattern, pattern_kind, matches) {
        Ok(files) => files,
        Err(e) => {
            return Err(e);
        },
    };
    if files.len() == 0 {
        return Err(ShowError::NoFiles);
    }
    let ghost paths = texts(files@);
    let app = MftShowApp::new(files);
    assert(app.files() =~= untouched_files(paths));
    Ok(app)
}

} // verus!
