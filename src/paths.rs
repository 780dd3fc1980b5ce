use vstd::prelude::*;

verus! {

/// The full filesystem path the build system writes a module's shared object to.
#[derive(Debug)]
pub struct ModuleSourcePath(pub String);

/// The full filesystem path of the private copy of a module that is actually
/// opened.
#[derive(Debug)]
pub struct ModuleCachePath(pub String);

#[verifier::external_type_specification]
#[verifier::external_body]
pub struct ExUuid(uuid::Uuid);

/// The final component of `path`, as `std::path::Path::file_name` finds it.
pub uninterp spec fn file_name_of(path: Seq<char>) -> Option<Seq<char>>;

/// `part` appended to `base` as a further component, as `std::path::Path::join`
/// builds it.
pub uninterp spec fn joined(base: Seq<char>, part: Seq<char>) -> Seq<char>;

/// A character of the hyphenated lower-case text form of a UUID.
pub open spec fn is_uuid_char(c: char) -> bool {
    c == '-' || ('0' <= c && c <= '9') || ('a' <= c && c <= 'f')
}

/// A directory name that the text form of a UUID can be.
pub open spec fn is_run_dir_name(t: Seq<char>) -> bool {
    t.len() == 36 && forall|i: int| 0 <= i < t.len() ==> is_uuid_char(#[trigger] t[i])
}

/// Where the module built at `source` is cached: its file name inside the
/// per-run directory `run_dir` under `temp_dir`; none when `source` has no
/// file name.
pub open spec fn cache_path_of(temp_dir: Seq<char>, run_dir: Seq<char>, source: Seq<char>) -> Option<
    Seq<char>,
> {
    match file_name_of(source) {
        Some(f) => Some(joined(joined(temp_dir, run_dir), f)),
        None => None,
    }
}

/// Relies on std::path::Path::file_name: the final component of a path, if it
/// has one; taken out of a `str`, it is valid text.
#[verifier::external_body]
fn file_name(path: &str) -> (r: Option<String>)
    ensures
        match r {
            Some(f) => file_name_of(path@) == Some(f@),
            None => file_name_of(path@) is None,
        },
{
    match std::path::Path::new(path).file_name() {
        Some(n) => Some(n.to_string_lossy().into_owned()),
        None => None,
    }
}

/// Relies on std::path::Path::join: `base` with `part` appended; built from two
/// `str`, it is valid text.
#[verifier::external_body]
fn join(base: &str, part: &str) -> (r: String)
    ensures
        r@ == joined(base@, part@),
{
    std::path::Path::new(base).join(part).to_string_lossy().into_owned()
}

/// Relies on uuid::Uuid's `Display`: the hyphenated form, 36 lower-case
/// hexadecimal digits and hyphens.
#[verifier::external_body]
fn uuid_text(id: &uuid::Uuid) -> (r: String)
    ensures
        is_run_dir_name(r@),
{
    id.to_string()
}

/// The cache path of the module built at `source`, inside the per-run directory
/// `run_dir` under `temp_dir`; `None` when `source` has no file name.
pub fn cache_path_in(temp_dir: &str, run_dir: &str, source: &ModuleSourcePath) -> (r: Option<
    ModuleCachePath,
>)
    ensures
        match r {
            Some(c) => cache_path_of(temp_dir@, run_dir@, source.0@) == Some(c.0@),
            None => cache_path_of(temp_dir@, run_dir@, source.0@) is None,
        },
{
    match file_name(source.0.as_str()) {
        Some(f) => {
            let dir = join(temp_dir, run_dir);
            Some(ModuleCachePath(join(dir.as_str(), f.as_str())))
        },
        None => None,
    }
}

/// The cache path of the module built at `source` for the run identified by
/// `run_id`: inside the directory named after the run's UUID under
/// `temp_dir`; `None` when `source` has no file name.
pub fn cache_path(temp_dir: &str, run_id: &uuid::Uuid, source: &ModuleSourcePath) -> (r: Option<
    ModuleCachePath,
>)
    ensures
        exists|run_dir: Seq<char>|
            #![trigger cache_path_of(temp_dir@, run_dir, source.0@)]
            is_run_dir_name(run_dir) && match r {
                Some(c) => cache_path_of(temp_dir@, run_dir, source.0@) == Some(c.0@),
                None => cache_path_of(temp_dir@, run_dir, source.0@) is None,
            },
{
    let run_dir = uuid_text(run_id);
    let r = cache_path_in(temp_dir, run_dir.as_str(), source);
    assert(is_run_dir_name(run_dir@));
    r
}

} // verus!
