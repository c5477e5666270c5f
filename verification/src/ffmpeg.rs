//! The ffmpeg binary that the recorder runs. The user may enter it under
//! Settings → Recording; the recorder runs whatever this names, so it has to
//! be an absolute path to an existing file called `ffmpeg` (or `ffmpeg.exe`):
//! the setting cannot point the recorder at some other program. When the
//! setting is empty, ffmpeg is looked for in the usual install locations,
//! then in the absolute directories on `PATH`.
//!
//! Paths are taken apart by `std::path::Path`, so each platform's own path
//! syntax applies (`/` on Unix; `\`, `/` and drive prefixes on Windows).
use vstd::prelude::*;
use crate::text::{chars_of, eq_ignore_case, eq_ignore_case_range};

verus! {

// ---------------------------------------------------------------------------
// std::path, whose results follow the platform's path syntax
// ---------------------------------------------------------------------------

/// What `Path::file_stem` gives for a path, as text.
pub uninterp spec fn path_stem_of(path: Seq<char>) -> Option<Seq<char>>;

/// What `Path::extension` gives for a path, as text.
pub uninterp spec fn path_ext_of(path: Seq<char>) -> Option<Seq<char>>;

/// What `Path::is_absolute` gives for a path.
pub uninterp spec fn path_absolute_of(path: Seq<char>) -> bool;

pub open spec fn opt_string_view(o: Option<String>) -> Option<Seq<char>> {
    match o {
        Some(s) => Some(s@),
        None => None,
    }
}

/// `Path::file_stem` of `path`, as text (the path is valid UTF-8, so its
/// parts are too). The result is named, not stated: it follows the path
/// syntax of the platform the crate is built for, and is a function of the
/// path alone.
#[verifier::external_body]
fn path_file_stem(path: &str) -> (r: Option<String>)
    ensures
        opt_string_view(r) == path_stem_of(path@),
{
    match std::path::Path::new(path).file_stem() {
        Some(s) => Some(s.to_string_lossy().into_owned()),
        None => None,
    }
}

/// `Path::extension` of `path`, as text. Named, not stated, as for the stem.
#[verifier::external_body]
fn path_extension(path: &str) -> (r: Option<String>)
    ensures
        opt_string_view(r) == path_ext_of(path@),
{
    match std::path::Path::new(path).extension() {
        Some(s) => Some(s.to_string_lossy().into_owned()),
        None => None,
    }
}

/// `Path::is_absolute` of `path`. Named, not stated: on Unix a path is
/// absolute when it starts at the root, on Windows when it has a prefix and
/// a root.
#[verifier::external_body]
fn path_is_absolute(path: &str) -> (r: bool)
    ensures
        r == path_absolute_of(path@),
{
    std::path::Path::new(path).is_absolute()
}

// ---------------------------------------------------------------------------
// The configured binary
// ---------------------------------------------------------------------------

/// A file stem and extension that name ffmpeg: the stem is `ffmpeg` in any
/// ASCII case, and there is no extension or it is `exe` in any ASCII case.
pub open spec fn names_ffmpeg(stem: Option<Seq<char>>, ext: Option<Seq<char>>) -> bool {
    &&& match stem {
        None => false,
        Some(s) => eq_ignore_case(s, "ffmpeg"@),
    }
    &&& match ext {
        None => true,
        Some(e) => eq_ignore_case(e, "exe"@),
    }
}

pub open spec fn opt_view(o: Option<&str>) -> Option<Seq<char>> {
    match o {
        Some(s) => Some(s@),
        None => None,
    }
}

pub open spec fn not_ffmpeg_text(configured: Seq<char>) -> Seq<char> {
    configured
        + " is not an ffmpeg binary: Settings → Recording expects the path of ffmpeg itself (…/ffmpeg or …\\ffmpeg.exe)."@
}

pub open spec fn not_found_text(configured: Seq<char>) -> Seq<char> {
    "ffmpeg not found at "@ + configured
        + " (Settings → Recording); leave the field empty to search for it."@
}

/// The decision of `check_ffmpeg`.
pub open spec fn ffmpeg_check_of(
    configured: Seq<char>,
    stem: Option<Seq<char>>,
    ext: Option<Seq<char>>,
    absolute: bool,
    exists_as_file: bool,
) -> Result<Seq<char>, Seq<char>> {
    if !names_ffmpeg(stem, ext) {
        Err(not_ffmpeg_text(configured))
    } else if absolute && exists_as_file {
        Ok(configured)
    } else {
        Err(not_found_text(configured))
    }
}

pub open spec fn result_view(r: Result<String, String>) -> Result<Seq<char>, Seq<char>> {
    match r {
        Ok(p) => Ok(p@),
        Err(e) => Err(e@),
    }
}

/// Whether `s` equals `lit` in ASCII case-insensitive comparison.
fn eq_ignore_case_str(s: &str, lit: &str) -> (r: bool)
    ensures
        r == eq_ignore_case(s@, lit@),
{
    let v = chars_of(s);
    assert(v@.subrange(0, v@.len() as int) =~= v@);
    eq_ignore_case_range(&v, 0, v.len(), lit)
}

/// Whether a file stem and extension name ffmpeg.
pub fn is_ffmpeg_name(stem: Option<&str>, ext: Option<&str>) -> (r: bool)
    ensures
        r == names_ffmpeg(opt_view(stem), opt_view(ext)),
{
    let stem_ok = match stem {
        None => false,
        Some(s) => eq_ignore_case_str(s, "ffmpeg"),
    };
    let ext_ok = match ext {
        None => true,
        Some(e) => eq_ignore_case_str(e, "exe"),
    };
    stem_ok && ext_ok
}

/// Checks a configured ffmpeg path, given its file stem and extension,
/// whether it is absolute, and whether a regular file is found there. A path
/// that does not name an ffmpeg is refused first; then it must be absolute
/// and exist.
pub fn check_ffmpeg(
    configured: &str,
    stem: Option<&str>,
    ext: Option<&str>,
    absolute: bool,
    exists_as_file: bool,
) -> (r: Result<String, String>)
    ensures
        result_view(r) == ffmpeg_check_of(
            configured@,
            opt_view(stem),
            opt_view(ext),
            absolute,
            exists_as_file,
        ),
{
    if !is_ffmpeg_name(stem, ext) {
        let mut e = configured.to_owned();
        e.append(
            " is not an ffmpeg binary: Settings → Recording expects the path of ffmpeg itself (…/ffmpeg or …\\ffmpeg.exe).",
        );
        return Err(e);
    }
    if absolute && exists_as_file {
        Ok(configured.to_owned())
    } else {
        let mut e = "ffmpeg not found at ".to_owned();
        e.append(configured);
        e.append(" (Settings → Recording); leave the field empty to search for it.");
        Err(e)
    }
}

/// Checks the ffmpeg path that the user entered, taking it apart with
/// `std::path::Path`; `exists_as_file` is whether a regular file is found at
/// that path. The path is accepted, as it was entered, exactly when its stem
/// and extension name ffmpeg, it is absolute and the file exists.
pub fn configured_ffmpeg(configured: &str, exists_as_file: bool) -> (r: Result<String, String>)
    ensures
        result_view(r) == ffmpeg_check_of(
            configured@,
            path_stem_of(configured@),
            path_ext_of(configured@),
            path_absolute_of(configured@),
            exists_as_file,
        ),
        match r {
            Ok(p) => p@ == configured@ && exists_as_file,
            Err(e) => e@ == not_ffmpeg_text(configured@) || e@ == not_found_text(configured@),
        },
{
    let stem = path_file_stem(configured);
    let ext = path_extension(configured);
    let absolute = path_is_absolute(configured);
    let stem_ref: Option<&str> = match &stem {
        Some(s) => Some(s.as_str()),
        None => None,
    };
    let ext_ref: Option<&str> = match &ext {
        Some(s) => Some(s.as_str()),
        None => None,
    };
    assert(opt_view(stem_ref) == opt_string_view(stem));
    assert(opt_view(ext_ref) == opt_string_view(ext));
    check_ffmpeg(configured, stem_ref, ext_ref, absolute, exists_as_file)
}

// ---------------------------------------------------------------------------
// Searching
// ---------------------------------------------------------------------------

pub const FFMPEG_MISSING: &'static str = "Screen recording needs ffmpeg: install it, or enter its location under Settings → Recording.";

/// The platforms whose search differs.
#[derive(Debug, Clone, Copy, PartialEq, Eq, Structural)]
pub enum Platform {
    Linux,
    Windows,
    MacOs,
}

/// The environment variables that name Windows install locations.
#[derive(Debug)]
pub struct SearchEnv {
    /// `ProgramFiles`
    pub program_files: Option<String>,
    /// `ProgramW6432`
    pub program_w6432: Option<String>,
    /// `ProgramFiles(x86)`
    pub program_files_x86: Option<String>,
    /// `ProgramData`
    pub program_data: Option<String>,
    /// `SystemDrive`
    pub system_drive: Option<String>,
}

/// A place to look for ffmpeg: `base` joined (`Path::join`) with each of
/// `parts` in turn.
#[derive(Debug)]
pub struct SearchPlace {
    pub base: String,
    pub parts: Vec<String>,
}

pub open spec fn place_view(p: SearchPlace) -> (Seq<char>, Seq<Seq<char>>) {
    (p.base@, p.parts@.map_values(|s: String| s@))
}

pub open spec fn places_view(ps: Seq<SearchPlace>) -> Seq<(Seq<char>, Seq<Seq<char>>)> {
    ps.map_values(|p: SearchPlace| place_view(p))
}

/// The binary's file name: `ffmpeg.exe` on Windows, else `ffmpeg`.
pub open spec fn exe_name(platform: Platform) -> Seq<char> {
    if platform == Platform::Windows {
        "ffmpeg.exe"@
    } else {
        "ffmpeg"@
    }
}

pub open spec fn place_if(dir: Option<String>, parts: Seq<Seq<char>>) -> Seq<(Seq<char>, Seq<Seq<char>>)> {
    match dir {
        Some(d) => seq![(d@, parts)],
        None => Seq::empty(),
    }
}

/// The usual install locations, in order: on Windows those under the
/// program folders, Chocolatey's and `\\ffmpeg\\bin` on the system drive (each
/// when its variable is set); on Linux the system, local, snap and flatpak
/// binary folders; none on macOS. These are candidates: a place whose base
/// is not an absolute path (an environment variable set to a relative path)
/// is dropped by the search, like a relative `PATH` entry.
pub open spec fn install_places(platform: Platform, env: SearchEnv) -> Seq<(Seq<char>, Seq<Seq<char>>)> {
    let exe = exe_name(platform);
    match platform {
        Platform::Windows => place_if(env.program_files, seq!["ffmpeg"@, "bin"@, exe]) + place_if(
            env.program_w6432,
            seq!["ffmpeg"@, "bin"@, exe],
        ) + place_if(env.program_files_x86, seq!["ffmpeg"@, "bin"@, exe]) + place_if(
            env.program_data,
            seq!["chocolatey"@, "bin"@, exe],
        ) + match env.system_drive {
            Some(d) => seq![(d@ + "\\ffmpeg\\bin"@, seq![exe])],
            None => Seq::empty(),
        },
        Platform::Linux => seq![
            ("/usr/bin"@, seq![exe]),
            ("/usr/local/bin"@, seq![exe]),
            ("/snap/bin"@, seq![exe]),
            ("/var/lib/flatpak/exports/bin"@, seq![exe]),
        ],
        Platform::MacOs => Seq::empty(),
    }
}

/// Each `PATH` directory, with the binary's name.
pub open spec fn dir_places(dirs: Seq<Seq<char>>, exe: Seq<char>) -> Seq<(Seq<char>, Seq<Seq<char>>)> {
    dirs.map_values(|d: Seq<char>| (d, seq![exe]))
}

/// Every place to look at, in order: the install locations, then the `PATH`
/// directories.
pub open spec fn candidate_places(platform: Platform, env: SearchEnv, dirs: Seq<Seq<char>>) -> Seq<
    (Seq<char>, Seq<Seq<char>>),
> {
    install_places(platform, env) + dir_places(dirs, exe_name(platform))
}

/// Whether a place's base is an absolute path (by `Path::is_absolute`).
pub open spec fn absolute_base(p: (Seq<char>, Seq<Seq<char>>)) -> bool {
    path_absolute_of(p.0)
}

/// The places that the search looks at, in order: the candidates whose base
/// is absolute. A relative base (a relative `PATH` entry or install
/// variable, or on Windows one relative to the working directory) could
/// supply an impostor, so it is skipped.
pub open spec fn search_places_of(platform: Platform, env: SearchEnv, dirs: Seq<Seq<char>>) -> Seq<
    (Seq<char>, Seq<Seq<char>>),
> {
    candidate_places(platform, env, dirs).filter(|p: (Seq<char>, Seq<Seq<char>>)| absolute_base(p))
}

/// The places of `ps` whose flag in `keep` is set, in order.
pub open spec fn kept_places(ps: Seq<(Seq<char>, Seq<Seq<char>>)>, keep: Seq<bool>) -> Seq<
    (Seq<char>, Seq<Seq<char>>),
>
    decreases ps.len(),
{
    if ps.len() == 0 {
        Seq::empty()
    } else {
        let rest = kept_places(ps.drop_last(), keep.drop_last());
        if keep.last() {
            rest.push(ps.last())
        } else {
            rest
        }
    }
}

pub open spec fn string_views(v: Seq<String>) -> Seq<Seq<char>> {
    v.map_values(|s: String| s@)
}

fn text(s: &str) -> (r: String)
    ensures
        r@ == s@,
{
    s.to_owned()
}

fn exe(platform: Platform) -> (r: String)
    ensures
        r@ == exe_name(platform),
{
    if platform == Platform::Windows {
        text("ffmpeg.exe")
    } else {
        text("ffmpeg")
    }
}

fn place(base: String, parts: Vec<String>) -> (r: SearchPlace)
    ensures
        place_view(r) == (base@, parts@.map_values(|s: String| s@)),
{
    SearchPlace { base, parts }
}

fn push_place(out: &mut Vec<SearchPlace>, dir: &Option<String>, parts: Vec<String>)
    ensures
        places_view(final(out)@) == places_view(old(out)@) + place_if(*dir, parts@.map_values(|s: String| s@)),
{
    match dir {
        Some(d) => {
            let ghost before = out@;
            out.push(place(d.clone(), parts));
            assert(places_view(out@) =~= places_view(before).push(place_view(out@.last())));
        },
        None => {
            assert(place_if(*dir, parts@.map_values(|s: String| s@)) =~= Seq::empty());
            assert(places_view(out@) + Seq::empty() =~= places_view(out@));
        },
    }
}

fn parts3(a: &str, b: &str, c: String) -> (r: Vec<String>)
    ensures
        r@.map_values(|s: String| s@) == seq![a@, b@, c@],
{
    let mut v: Vec<String> = Vec::new();
    v.push(text(a));
    v.push(text(b));
    v.push(c);
    assert(v@.map_values(|s: String| s@) =~= seq![a@, b@, v@[2]@]);
    v
}

fn parts1(c: String) -> (r: Vec<String>)
    ensures
        r@.map_values(|s: String| s@) == seq![c@],
{
    let mut v: Vec<String> = Vec::new();
    v.push(c);
    assert(v@.map_values(|s: String| s@) =~= seq![v@[0]@]);
    v
}

/// Every place to look at, in order, before the absoluteness test: the
/// install locations for `platform`, then each `PATH` directory.
pub fn ffmpeg_candidates(platform: Platform, env: &SearchEnv, path_dirs: &Vec<String>) -> (r: Vec<
    SearchPlace,
>)
    ensures
        places_view(r@) == candidate_places(platform, *env, string_views(path_dirs@)),
{
    let mut out: Vec<SearchPlace> = Vec::new();
    assert(places_view(out@) =~= Seq::empty());
    match platform {
        Platform::Windows => {
            push_place(&mut out, &env.program_files, parts3("ffmpeg", "bin", exe(platform)));
            push_place(&mut out, &env.program_w6432, parts3("ffmpeg", "bin", exe(platform)));
            push_place(&mut out, &env.program_files_x86, parts3("ffmpeg", "bin", exe(platform)));
            push_place(&mut out, &env.program_data, parts3("chocolatey", "bin", exe(platform)));
            match &env.system_drive {
                Some(d) => {
                    let mut base = d.clone();
                    base.append("\\ffmpeg\\bin");
                    let ghost before = out@;
                    out.push(place(base, parts1(exe(platform))));
                    assert(places_view(out@) =~= places_view(before).push(place_view(out@.last())));
                },
                None => {},
            }
        },
        Platform::Linux => {
            out.push(place(text("/usr/bin"), parts1(exe(platform))));
            out.push(place(text("/usr/local/bin"), parts1(exe(platform))));
            out.push(place(text("/snap/bin"), parts1(exe(platform))));
            out.push(place(text("/var/lib/flatpak/exports/bin"), parts1(exe(platform))));
        },
        Platform::MacOs => {},
    }
    assert(places_view(out@) =~= install_places(platform, *env));
    let ghost fixed = places_view(out@);
    let ghost dirs = string_views(path_dirs@);
    let mut i: usize = 0;
    while i < path_dirs.len()
        invariant
            i <= path_dirs.len(),
            dirs == string_views(path_dirs@),
            places_view(out@) =~= fixed + dir_places(dirs.take(i as int), exe_name(platform)),
        decreases path_dirs.len() - i,
    {
        let ghost before = out@;
        out.push(place(path_dirs[i].clone(), parts1(exe(platform))));
        proof {
            assert(places_view(out@) =~= places_view(before).push(place_view(out@.last())));
            assert(dir_places(dirs.take(i + 1), exe_name(platform)) =~= dir_places(
                dirs.take(i as int),
                exe_name(platform),
            ).push((path_dirs@[i as int]@, seq![exe_name(platform)])));
        }
        i = i + 1;
    }
    assert(dirs.take(path_dirs.len() as int) =~= dirs);
    out
}

fn copy_strings(v: &Vec<String>) -> (r: Vec<String>)
    ensures
        r@.map_values(|s: String| s@) == v@.map_values(|s: String| s@),
{
    let mut out: Vec<String> = Vec::new();
    let mut i: usize = 0;
    while i < v.len()
        invariant
            i <= v.len(),
            out@.map_values(|s: String| s@) =~= v@.take(i as int).map_values(|s: String| s@),
        decreases v.len() - i,
    {
        out.push(v[i].clone());
        proof {
            assert(v@.take(i + 1).map_values(|s: String| s@) =~= v@.take(i as int).map_values(
                |s: String| s@,
            ).push(v@[i as int]@));
        }
        i = i + 1;
    }
    assert(v@.take(v.len() as int) =~= v@);
    out
}

fn copy_place(p: &SearchPlace) -> (r: SearchPlace)
    ensures
        place_view(r) == place_view(*p),
{
    place(p.base.clone(), copy_strings(&p.parts))
}

/// The places whose flag in `keep` is set, in order: the search keeps those
/// whose base `Path::is_absolute` finds absolute.
pub fn keep_places(places: &Vec<SearchPlace>, keep: &Vec<bool>) -> (r: Vec<SearchPlace>)
    requires
        places.len() == keep.len(),
    ensures
        places_view(r@) == kept_places(places_view(places@), keep@),
{
    let ghost ps = places_view(places@);
    let mut out: Vec<SearchPlace> = Vec::new();
    let mut i: usize = 0;
    while i < places.len()
        invariant
            i <= places.len() == keep.len(),
            ps == places_view(places@),
            places_view(out@) =~= kept_places(ps.take(i as int), keep@.take(i as int)),
        decreases places.len() - i,
    {
        proof {
            assert(ps.take(i + 1).drop_last() =~= ps.take(i as int));
            assert(keep@.take(i + 1).drop_last() =~= keep@.take(i as int));
            assert(ps.take(i + 1).last() == place_view(places@[i as int]));
        }
        if keep[i] {
            let ghost before = out@;
            out.push(copy_place(&places[i]));
            assert(places_view(out@) =~= places_view(before).push(place_view(out@.last())));
        }
        i = i + 1;
    }
    proof {
        assert(ps.take(places.len() as int) =~= ps);
        assert(keep@.take(places.len() as int) =~= keep@);
    }
    out
}

proof fn lemma_kept_by_absolute_base(ps: Seq<(Seq<char>, Seq<Seq<char>>)>, keep: Seq<bool>)
    requires
        keep.len() == ps.len(),
        forall|j: int| 0 <= j < ps.len() ==> keep[j] == absolute_base(#[trigger] ps[j]),
    ensures
        kept_places(ps, keep) == ps.filter(|p: (Seq<char>, Seq<Seq<char>>)| absolute_base(p)),
    decreases ps.len(),
{
    reveal(Seq::filter);
    if ps.len() > 0 {
        lemma_kept_by_absolute_base(ps.drop_last(), keep.drop_last());
        assert(keep.last() == absolute_base(ps[ps.len() - 1]));
    }
}

/// The places to look for ffmpeg, in order: the install locations, then the
/// `PATH` directories, each kept only when `Path::is_absolute` finds its
/// base absolute.
pub fn ffmpeg_search_places(platform: Platform, env: &SearchEnv, path_dirs: &Vec<String>) -> (r: Vec<
    SearchPlace,
>)
    ensures
        places_view(r@) == search_places_of(platform, *env, string_views(path_dirs@)),
{
    let candidates = ffmpeg_candidates(platform, env, path_dirs);
    let ghost ps = places_view(candidates@);
    let mut absolute: Vec<bool> = Vec::new();
    let mut i: usize = 0;
    while i < candidates.len()
        invariant
            i <= candidates.len(),
            ps == places_view(candidates@),
            absolute.len() == i,
            forall|j: int| 0 <= j < i ==> absolute@[j] == absolute_base(#[trigger] ps[j]),
        decreases candidates.len() - i,
    {
        absolute.push(path_is_absolute(candidates[i].base.as_str()));
        i = i + 1;
    }
    let r = keep_places(&candidates, &absolute);
    proof {
        lemma_kept_by_absolute_base(ps, absolute@);
    }
    r
}

// ---------------------------------------------------------------------------
// Laws
// ---------------------------------------------------------------------------

/// Every place that the search looks at has an absolute base: a relative
/// `PATH` entry or install variable never supplies the binary.
pub proof fn lemma_search_places_are_absolute(platform: Platform, env: SearchEnv, dirs: Seq<Seq<char>>, k: int)
    requires
        0 <= k < search_places_of(platform, env, dirs).len(),
    ensures
        path_absolute_of(search_places_of(platform, env, dirs)[k].0),
{
    let f = |p: (Seq<char>, Seq<Seq<char>>)| absolute_base(p);
    candidate_places(platform, env, dirs).lemma_filter_pred(f, k);
}

/// Every candidate whose base is absolute is looked at.
pub proof fn lemma_absolute_candidates_are_searched(
    platform: Platform,
    env: SearchEnv,
    dirs: Seq<Seq<char>>,
    k: int,
)
    requires
        0 <= k < candidate_places(platform, env, dirs).len(),
        path_absolute_of(candidate_places(platform, env, dirs)[k].0),
    ensures
        search_places_of(platform, env, dirs).contains(candidate_places(platform, env, dirs)[k]),
{
    let f = |p: (Seq<char>, Seq<Seq<char>>)| absolute_base(p);
    candidate_places(platform, env, dirs).lemma_filter_contains(f, k);
}

/// A configured path is accepted only when `Path` finds it names ffmpeg
/// and is absolute, and a file exists there.
pub proof fn lemma_accepts_only_ffmpeg(configured: Seq<char>, exists_as_file: bool)
    ensures
        ffmpeg_check_of(
            configured,
            path_stem_of(configured),
            path_ext_of(configured),
            path_absolute_of(configured),
            exists_as_file,
        ) is Ok ==> names_ffmpeg(path_stem_of(configured), path_ext_of(configured))
            && path_absolute_of(configured) && exists_as_file,
{
}

} // verus!
