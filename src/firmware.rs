use vstd::prelude::*;
use vstd::string::*;
use crate::paths::{contains_seq, contains_str, file_name, file_name_of, join_path, joined};

verus! {

/// A candidate location for a firmware file, with whether it was found on
/// the host.
pub struct Candidate {
    pub path: String,
    pub exists: bool,
}

/// The path of the first candidate that exists, in list order.
pub open spec fn first_existing_spec(cs: Seq<Candidate>) -> Option<Seq<char>>
    decreases cs.len(),
{
    if cs.len() == 0 {
        None
    } else if cs[0].exists {
        Some(cs[0].path@)
    } else {
        first_existing_spec(cs.drop_first())
    }
}

/// Selects the first candidate that exists.
pub fn first_existing(candidates: &Vec<Candidate>) -> (r: Option<String>)
    ensures
        match r {
            Some(p) => first_existing_spec(candidates@) == Some(p@),
            None => first_existing_spec(candidates@) is None,
        },
{
    let n = candidates.len();
    let mut i: usize = 0;
    assert(candidates@.subrange(0, n as int) =~= candidates@);
    while i < n
        invariant
            n == candidates@.len(),
            i <= n,
            first_existing_spec(candidates@) == first_existing_spec(candidates@.subrange(i as int, n as int)),
        decreases n - i,
    {
        let ghost rest = candidates@.subrange(i as int, n as int);
        assert(rest.drop_first() =~= candidates@.subrange(i + 1, n as int));
        if candidates[i].exists {
            return Some(candidates[i].path.clone());
        }
        i = i + 1;
    }
    assert(candidates@.subrange(n as int, n as int).len() == 0);
    None
}

/// The views of a list of strings.
pub open spec fn views(v: Seq<String>) -> Seq<Seq<char>> {
    v.map_values(|s: String| s@)
}

/// Host locations of the firmware code image, the 4M variant first.
pub open spec fn code_candidates_spec() -> Seq<Seq<char>> {
    seq!["/usr/share/OVMF/OVMF_CODE_4M.fd"@, "/usr/share/OVMF/OVMF_CODE.fd"@]
}

/// Host locations of the firmware vars template, the 4M variant first.
pub open spec fn vars_candidates_spec() -> Seq<Seq<char>> {
    seq!["/usr/share/OVMF/OVMF_VARS_4M.fd"@, "/usr/share/OVMF/OVMF_VARS.fd"@]
}

/// The host paths probed for the firmware code image, in order of preference.
pub fn code_candidate_paths() -> (r: Vec<String>)
    ensures
        views(r@) == code_candidates_spec(),
{
    let r = vec![
        String::from_str("/usr/share/OVMF/OVMF_CODE_4M.fd"),
        String::from_str("/usr/share/OVMF/OVMF_CODE.fd"),
    ];
    assert(views(r@) =~= code_candidates_spec());
    r
}

/// The host paths probed for the firmware vars template, in order of preference.
pub fn vars_candidate_paths() -> (r: Vec<String>)
    ensures
        views(r@) == vars_candidates_spec(),
{
    let r = vec![
        String::from_str("/usr/share/OVMF/OVMF_VARS_4M.fd"),
        String::from_str("/usr/share/OVMF/OVMF_VARS.fd"),
    ];
    assert(views(r@) =~= vars_candidates_spec());
    r
}

/// A resolved firmware pair: the read-only code image and the vars template.
pub struct FirmwarePair {
    pub code: String,
    pub vars: String,
}

/// Why firmware resolution failed.
#[derive(PartialEq, Eq, Structural, Clone, Copy, Debug)]
pub enum ResolveError {
    /// No candidate for the code image exists.
    CodeNotFound,
    /// No candidate for the vars template exists.
    VarsNotFound,
}

/// Resolves both firmware roles, the code image first.
pub fn system_ovmf_paths(code: &Vec<Candidate>, vars: &Vec<Candidate>) -> (r: Result<
    FirmwarePair,
    ResolveError,
>)
    ensures
        match r {
            Ok(pair) => first_existing_spec(code@) == Some(pair.code@) && first_existing_spec(
                vars@,
            ) == Some(pair.vars@),
            Err(ResolveError::CodeNotFound) => first_existing_spec(code@) is None,
            Err(ResolveError::VarsNotFound) => first_existing_spec(code@) is Some
                && first_existing_spec(vars@) is None,
        },
{
    let c = match first_existing(code) {
        Some(c) => c,
        None => return Err(ResolveError::CodeNotFound),
    };
    let v = match first_existing(vars) {
        Some(v) => v,
        None => return Err(ResolveError::VarsNotFound),
    };
    Ok(FirmwarePair { code: c, vars: v })
}

/// The scratch directory: `ovmf` under the build output directory, which
/// is `target` where none is configured.
pub open spec fn ovmf_dir_spec(target_dir: Option<Seq<char>>) -> Seq<char> {
    match target_dir {
        Some(t) => joined(t, "ovmf"@),
        None => joined("target"@, "ovmf"@),
    }
}

/// The scratch directory for the given build output directory setting.
pub fn target_ovmf_dir(target_dir: Option<&str>) -> (r: String)
    ensures
        r@ == ovmf_dir_spec(
            match target_dir {
                Some(t) => Some(t@),
                None => None,
            },
        ),
{
    match target_dir {
        Some(t) => join_path(t, "ovmf"),
        None => join_path("target", "ovmf"),
    }
}

/// The marker that names the newer, larger firmware variant.
pub open spec fn large_marker() -> Seq<char> {
    "_4M"@
}

/// The file name of the writable vars copy for a template of the given file
/// name: each firmware variant has its own.
pub open spec fn staged_vars_name(template_name: Seq<char>) -> Seq<char> {
    if contains_seq(template_name, large_marker()) {
        "OVMF_VARS_4M.writable.fd"@
    } else {
        "OVMF_VARS.writable.fd"@
    }
}

/// The file name of a template path, empty where it has none.
pub open spec fn template_name(template: Seq<char>) -> Seq<char> {
    match file_name_of(template) {
        Some(n) => n,
        None => Seq::empty(),
    }
}

/// Where the writable vars copy of `template` is staged inside `dir`.
pub open spec fn writable_vars_spec(dir: Seq<char>, template: Seq<char>) -> Seq<char> {
    joined(dir, staged_vars_name(template_name(template)))
}

/// The file name of the writable vars copy for a template file name.
pub fn writable_vars_name(template_name: &str) -> (r: String)
    ensures
        r@ == staged_vars_name(template_name@),
{
    if contains_str(template_name, "_4M") {
        String::from_str("OVMF_VARS_4M.writable.fd")
    } else {
        String::from_str("OVMF_VARS.writable.fd")
    }
}

/// The path, inside `ovmf_dir`, of the writable copy of `vars_template`.
pub fn writable_vars_path(ovmf_dir: &str, vars_template: &str) -> (r: String)
    ensures
        r@ == writable_vars_spec(ovmf_dir@, vars_template@),
{
    let name = match file_name(vars_template) {
        Some(n) => writable_vars_name(n.as_str()),
        None => {
            proof {
                reveal_strlit("");
            }
            assert(""@ =~= Seq::<char>::empty());
            writable_vars_name("")
        },
    };
    join_path(ovmf_dir, name.as_str())
}

} // verus!
