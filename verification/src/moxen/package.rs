//! The archive builder: structural validation of a source tree, ignore-glob
//! filtering, the forbidden-extension gate, and the deterministic archive
//! plan.  The library works on the tree's enumerated relative paths, in
//! depth-first enumeration order; walking, copying and compressing happen
//! outside it.

use vstd::prelude::*;

use crate::common::ends_with_spec;
use crate::common::find_first_char;
use crate::common::first_index_of;
use crate::common::gather_files;
use crate::common::lemma_first_index_of_props;
use crate::common::path_forbidden;
use crate::common::str_ends_with;
use crate::common::str_eq_str;
use crate::common::MoxenError;
use crate::moxen::manifest::PackageManifest;

verus! {

// ---------------------------------------------------------------------------
// Structural validation: marker files
// ---------------------------------------------------------------------------

/// A path with no separator whose name carries the marker suffix: a marker
/// file sitting directly in the root.
pub open spec fn root_toc_file(f: Seq<char>) -> bool {
    (forall|j: int| 0 <= j < f.len() ==> f[j] != '/') && ends_with_spec(f, ".toc"@)
}

/// Whether some enumerated file is a root-level marker file.
pub open spec fn has_root_toc(fs: Seq<Seq<char>>) -> bool {
    exists|i: int| 0 <= i < fs.len() && root_toc_file(fs[i])
}

/// Whether some enumerated file carries the marker suffix, anywhere.
pub open spec fn has_any_toc(fs: Seq<Seq<char>>) -> bool {
    exists|i: int| 0 <= i < fs.len() && ends_with_spec(fs[i], ".toc"@)
}

/// Whether the path descends into a subdirectory.
pub open spec fn has_slash(f: Seq<char>) -> bool {
    exists|j: int| 0 <= j < f.len() && f[j] == '/'
}

/// The member subdirectory a path belongs to: its first component.
pub open spec fn first_comp(f: Seq<char>) -> Seq<char> {
    f.subrange(0, first_index_of(f, '/'))
}

/// A marker file sitting directly inside the member subdirectory `m`.
pub open spec fn member_toc_file(f: Seq<char>, m: Seq<char>) -> bool {
    f.len() > m.len() && f.subrange(0, m.len() as int) == m && f[m.len() as int] == '/'
        && root_toc_file(f.subrange(m.len() as int + 1, f.len() as int))
}

/// Whether the member subdirectory `m` holds a marker file directly.
pub open spec fn member_has_toc(fs: Seq<Seq<char>>, m: Seq<char>) -> bool {
    exists|k: int| 0 <= k < fs.len() && member_toc_file(fs[k], m)
}

/// A valid collection: there is at least one member subdirectory, and every
/// member subdirectory independently holds a root-level marker file.
pub open spec fn collection_ok(fs: Seq<Seq<char>>) -> bool {
    (exists|i: int| 0 <= i < fs.len() && has_slash(fs[i])) && (forall|i: int|
        0 <= i < fs.len() && has_slash(fs[i]) ==> member_has_toc(fs, first_comp(fs[i])))
}

/// The structural invariant of a source tree: a single bundle needs a marker
/// file directly in its root; a collection needs every member subdirectory
/// to satisfy the same rule.
pub open spec fn structure_ok(fs: Seq<Seq<char>>, is_collection: bool) -> bool {
    if is_collection {
        collection_ok(fs)
    } else {
        has_root_toc(fs)
    }
}

/// Whether a root-level marker file is among the enumerated files.
pub fn check_for_toc(files: &Vec<String>) -> (r: bool)
    ensures
        r == has_root_toc(files.deep_view()),
{
    let mut i: usize = 0;
    while i < files.len()
        invariant
            i <= files@.len(),
            forall|j: int| 0 <= j < i ==> !root_toc_file(files.deep_view()[j]),
        decreases files@.len() - i,
    {
        let no_slash = match find_first_char(files[i].as_str(), '/') {
            Some(_) => false,
            None => true,
        };
        proof {
            lemma_first_index_of_props(files@[i as int]@, '/');
        }
        if no_slash && str_ends_with(files[i].as_str(), ".toc") {
            proof {
                assert(root_toc_file(files.deep_view()[i as int]));
            }
            return true;
        }
        proof {
            if no_slash {
            } else {
                assert(files.deep_view()[i as int][first_index_of(files@[i as int]@, '/')] == '/');
            }
        }
        i = i + 1;
    }
    false
}

/// Whether any enumerated file, at any depth, carries the marker suffix.
pub fn find_any_toc(files: &Vec<String>) -> (r: bool)
    ensures
        r == has_any_toc(files.deep_view()),
{
    let mut i: usize = 0;
    while i < files.len()
        invariant
            i <= files@.len(),
            forall|j: int| 0 <= j < i ==> !ends_with_spec(files.deep_view()[j], ".toc"@),
        decreases files@.len() - i,
    {
        if str_ends_with(files[i].as_str(), ".toc") {
            proof {
                assert(ends_with_spec(files.deep_view()[i as int], ".toc"@));
            }
            return true;
        }
        i = i + 1;
    }
    false
}

/// Whether `f` is a marker file directly inside member subdirectory `m`.
fn is_member_toc_file(f: &str, m: &str) -> (r: bool)
    ensures
        r == member_toc_file(f@, m@),
{
    let flen = f.unicode_len();
    let mlen = m.unicode_len();
    if flen <= mlen {
        return false;
    }
    let head = f.substring_char(0, mlen);
    if !str_eq_str(head, m) {
        return false;
    }
    if f.get_char(mlen) != '/' {
        return false;
    }
    let tail = f.substring_char(mlen + 1, flen);
    let tail_no_slash = match find_first_char(tail, '/') {
        Some(_) => false,
        None => true,
    };
    proof {
        lemma_first_index_of_props(tail@, '/');
    }
    if !tail_no_slash {
        proof {
            assert(tail@[first_index_of(tail@, '/')] == '/');
        }
        return false;
    }
    str_ends_with(tail, ".toc")
}

/// Whether the member subdirectory `m` holds a marker file directly.
fn member_has_toc_exec(files: &Vec<String>, m: &str) -> (r: bool)
    ensures
        r == member_has_toc(files.deep_view(), m@),
{
    let mut k: usize = 0;
    while k < files.len()
        invariant
            k <= files@.len(),
            forall|j: int| 0 <= j < k ==> !member_toc_file(files.deep_view()[j], m@),
        decreases files@.len() - k,
    {
        if is_member_toc_file(files[k].as_str(), m) {
            proof {
                assert(member_toc_file(files.deep_view()[k as int], m@));
            }
            return true;
        }
        k = k + 1;
    }
    false
}

/// Checks the collection rule over the enumerated files.
fn validate_collection(files: &Vec<String>) -> (r: bool)
    ensures
        r == collection_ok(files.deep_view()),
{
    let mut any: bool = false;
    let mut i: usize = 0;
    while i < files.len()
        invariant
            i <= files@.len(),
            any <==> exists|j: int| 0 <= j < i && has_slash(files.deep_view()[j]),
            forall|j: int|
                0 <= j < i && has_slash(files.deep_view()[j]) ==> member_has_toc(
                    files.deep_view(),
                    first_comp(files.deep_view()[j]),
                ),
        decreases files@.len() - i,
    {
        proof {
            lemma_first_index_of_props(files@[i as int]@, '/');
        }
        match find_first_char(files[i].as_str(), '/') {
            Some(p) => {
                let member = files[i].as_str().substring_char(0, p);
                proof {
                    assert(member@ == first_comp(files.deep_view()[i as int]));
                    assert(files.deep_view()[i as int][p as int] == '/');
                    assert(has_slash(files.deep_view()[i as int]));
                }
                if !member_has_toc_exec(files, member) {
                    return false;
                }
                any = true;
            },
            None => {
                proof {
                    assert(!has_slash(files.deep_view()[i as int]));
                }
            },
        }
        i = i + 1;
    }
    any
}

/// Validates the structural invariant of a source tree over its enumerated
/// files: a single bundle needs a root-level marker file; a collection needs
/// one directly inside each member subdirectory.
pub fn validate_structure(files: &Vec<String>, is_collection: bool) -> (r: bool)
    ensures
        r == structure_ok(files.deep_view(), is_collection),
{
    if is_collection {
        validate_collection(files)
    } else {
        check_for_toc(files)
    }
}


// ---------------------------------------------------------------------------
// Ignore-glob filtering
// ---------------------------------------------------------------------------

/// Whether the glob crate accepts the pattern text.
pub uninterp spec fn glob_pattern_ok(pat: Seq<char>) -> bool;

/// Whether the pattern matches the path, under the glob crate's `*`/`**`
/// rules, case-sensitively.
pub uninterp spec fn glob_matches(pat: Seq<char>, path: Seq<char>) -> bool;

/// Relies on glob::Pattern::new: whether the pattern text is well-formed.
#[verifier::external_body]
fn glob_pattern_valid(pat: &str) -> (r: bool)
    ensures
        r == glob_pattern_ok(pat@),
{
    glob::Pattern::new(pat).is_ok()
}

/// Relies on glob::Pattern::matches: a pure function of the well-formed
/// pattern and the path.
#[verifier::external_body]
fn glob_match(pat: &str, path: &str) -> (r: bool)
    requires
        glob_pattern_ok(pat@),
    ensures
        r == glob_matches(pat@, path@),
{
    match glob::Pattern::new(pat) {
        Ok(p) => p.matches(path),
        Err(_) => false,
    }
}

/// Whether any of the patterns matches the path.
pub open spec fn matched_any(pats: Seq<Seq<char>>, f: Seq<char>) -> bool {
    exists|j: int| 0 <= j < pats.len() && glob_matches(pats[j], f)
}

/// Whether every pattern is well-formed.
pub open spec fn all_patterns_ok(pats: Seq<Seq<char>>) -> bool {
    forall|j: int| 0 <= j < pats.len() ==> glob_pattern_ok(pats[j])
}

/// The first `n` files with every ignore-matched one removed, in order.
pub open spec fn kept_prefix(fs: Seq<Seq<char>>, pats: Seq<Seq<char>>, n: int) -> Seq<Seq<char>>
    decreases n,
{
    if n <= 0 {
        Seq::<Seq<char>>::empty()
    } else {
        kept_prefix(fs, pats, n - 1) + if matched_any(pats, fs[n - 1]) {
            Seq::<Seq<char>>::empty()
        } else {
            seq![fs[n - 1]]
        }
    }
}

/// The files that survive ignore filtering, in enumeration order.
pub open spec fn kept_spec(fs: Seq<Seq<char>>, pats: Seq<Seq<char>>) -> Seq<Seq<char>> {
    kept_prefix(fs, pats, fs.len() as int)
}

/// Whether any of the patterns matches the path, checked executably.
fn matches_any_exec(f: &str, patterns: &Vec<String>) -> (r: bool)
    requires
        all_patterns_ok(patterns.deep_view()),
    ensures
        r == matched_any(patterns.deep_view(), f@),
{
    let mut j: usize = 0;
    while j < patterns.len()
        invariant
            all_patterns_ok(patterns.deep_view()),
            j <= patterns@.len(),
            forall|k: int| 0 <= k < j ==> !glob_matches(patterns.deep_view()[k], f@),
        decreases patterns@.len() - j,
    {
        proof {
            assert(glob_pattern_ok(patterns.deep_view()[j as int]));
        }
        if glob_match(patterns[j].as_str(), f) {
            proof {
                assert(glob_matches(patterns.deep_view()[j as int], f@));
            }
            return true;
        }
        j = j + 1;
    }
    false
}

/// Drops every file matched by some ignore pattern, keeping enumeration
/// order.  A malformed pattern is a fatal validation error.
pub fn filter_ignored(files: &Vec<String>, patterns: &Vec<String>) -> (r: Result<
    Vec<String>,
    MoxenError,
>)
    ensures
        r is Ok <==> all_patterns_ok(patterns.deep_view()),
        r matches Ok(v) ==> v.deep_view() == kept_spec(files.deep_view(), patterns.deep_view()),
        r matches Err(e) ==> e is GeneralError,
{
    let mut j: usize = 0;
    while j < patterns.len()
        invariant
            j <= patterns@.len(),
            forall|k: int| 0 <= k < j ==> glob_pattern_ok(patterns.deep_view()[k]),
        decreases patterns@.len() - j,
    {
        if !glob_pattern_valid(patterns[j].as_str()) {
            proof {
                assert(patterns.deep_view()[j as int] == patterns@[j as int]@);
            }
            return Err(
                MoxenError::GeneralError(
                    String::from_str("invalid ignore pattern: ").concat(patterns[j].as_str()),
                ),
            );
        }
        j = j + 1;
    }
    let mut out: Vec<String> = Vec::new();
    let mut i: usize = 0;
    while i < files.len()
        invariant
            all_patterns_ok(patterns.deep_view()),
            i <= files@.len(),
            out.deep_view() == kept_prefix(files.deep_view(), patterns.deep_view(), i as int),
        decreases files@.len() - i,
    {
        if !matches_any_exec(files[i].as_str(), patterns) {
            out.push(files[i].clone());
        }
        proof {
            assert(out.deep_view() =~= kept_prefix(
                files.deep_view(),
                patterns.deep_view(),
                i + 1,
            ));
        }
        i = i + 1;
    }
    Ok(out)
}

// ---------------------------------------------------------------------------
// The archive plan
// ---------------------------------------------------------------------------

/// The plan of one archive build: where the tree lives, where it is staged,
/// where the compressed archive goes, and exactly which files are copied, in
/// enumeration order.
#[derive(Debug, Clone)]
pub struct ArchivePlan {
    pub source_dir: String,
    pub staging_dir: String,
    pub archive_path: String,
    pub files: Vec<String>,
}

/// The ignore patterns a manifest declares, empty when absent.
pub open spec fn ignore_seq(m: &PackageManifest) -> Seq<Seq<char>> {
    match m.mox.ignore {
        Some(p) => p.deep_view(),
        None => Seq::<Seq<char>>::empty(),
    }
}

/// Filters an enumerated listing through the ignore patterns, then holds
/// every survivor to the forbidden-extension rule.
pub fn package_mox(files: &Vec<String>, patterns: &Vec<String>) -> (r: Result<
    Vec<String>,
    MoxenError,
>)
    ensures
        r is Ok <==> all_patterns_ok(patterns.deep_view()) && (forall|i: int|
            0 <= i < kept_spec(files.deep_view(), patterns.deep_view()).len()
                ==> !path_forbidden(kept_spec(files.deep_view(), patterns.deep_view())[i])),
        r matches Ok(v) ==> v.deep_view() == kept_spec(files.deep_view(), patterns.deep_view()),
        !all_patterns_ok(patterns.deep_view()) ==> (r matches Err(e) && e is GeneralError),
        all_patterns_ok(patterns.deep_view()) && (exists|i: int|
            0 <= i < kept_spec(files.deep_view(), patterns.deep_view()).len() && path_forbidden(
            kept_spec(files.deep_view(), patterns.deep_view())[i])) ==> (r matches Err(e)
            && e is InvalidFileExtension),
{
    let kept = match filter_ignored(files, patterns) {
        Ok(v) => v,
        Err(e) => {
            return Err(e);
        },
    };
    match gather_files(kept) {
        Ok(v) => Ok(v),
        Err(e) => Err(e),
    }
}

/// Plans an archive build.  The enumerated `files` are the source tree's
/// relative paths in depth-first order; the plan fails before any staging
/// when the tree lacks its marker files, when an ignore pattern is
/// malformed, or when a surviving file carries a forbidden extension.
pub fn package_content(manifest: &PackageManifest, src_dir: &String, mox_dir: &String, files: Vec<
    String,
>) -> (r: Result<ArchivePlan, MoxenError>)
    ensures
        r is Ok <==> (has_root_toc(files.deep_view()) || collection_ok(files.deep_view()))
            && all_patterns_ok(ignore_seq(manifest)) && (forall|i: int|
            0 <= i < kept_spec(files.deep_view(), ignore_seq(manifest)).len() ==> !path_forbidden(
                kept_spec(files.deep_view(), ignore_seq(manifest))[i],
            )),
        !(has_root_toc(files.deep_view()) || collection_ok(files.deep_view())) ==> (
        r matches Err(e) && e is MissingTocFile),
        r matches Ok(plan) ==> plan.files.deep_view() == kept_spec(
            files.deep_view(),
            ignore_seq(manifest),
        ) && plan.source_dir@ == src_dir@ && plan.staging_dir@ == mox_dir@ + "/package/"@
            + manifest.normal_name_spec(true) && plan.archive_path@ == mox_dir@ + "/package/"@
            + manifest.normal_name_spec(true) + ".mox"@,
        (has_root_toc(files.deep_view()) || collection_ok(files.deep_view())) && !all_patterns_ok(
            ignore_seq(manifest),
        ) ==> (r matches Err(e) && e is GeneralError),
        (has_root_toc(files.deep_view()) || collection_ok(files.deep_view())) && all_patterns_ok(
            ignore_seq(manifest),
        ) && (exists|i: int|
            0 <= i < kept_spec(files.deep_view(), ignore_seq(manifest)).len() && path_forbidden(
            kept_spec(files.deep_view(), ignore_seq(manifest))[i])) ==> (r matches Err(e)
            && e is InvalidFileExtension),
{
    let name = manifest.normalise_name(true);
    let root_ok = check_for_toc(&files);
    if !root_ok {
        if !validate_collection(&files) {
            return Err(MoxenError::MissingTocFile);
        }
    }
    let empty_patterns: Vec<String> = Vec::new();
    let patterns: &Vec<String> = match &manifest.mox.ignore {
        Some(p) => p,
        None => &empty_patterns,
    };
    proof {
        assert(patterns.deep_view() =~= ignore_seq(manifest));
    }
    let checked = match package_mox(&files, patterns) {
        Ok(v) => v,
        Err(e) => {
            return Err(e);
        },
    };
    let mut staging = mox_dir.clone();
    staging.append("/package/");
    staging.append(name.as_str());
    let mut archive = staging.clone();
    archive.append(".mox");
    Ok(
        ArchivePlan {
            source_dir: src_dir.clone(),
            staging_dir: staging,
            archive_path: archive,
            files: checked,
        },
    )
}



/// The copy list an archive build stages before compressing: for each
/// enumerated file, where it is read from under the source tree and where it
/// lands under the staging directory, in enumeration order.
pub fn staging_steps(plan: &ArchivePlan) -> (r: Vec<(String, String)>)
    ensures
        r@.len() == plan.files@.len(),
        forall|i: int|
            0 <= i < r@.len() ==> r@[i].0@ == plan.source_dir@ + "/"@ + plan.files@[i]@ && r@[i].1@
                == plan.staging_dir@ + "/"@ + plan.files@[i]@,
{
    let mut out: Vec<(String, String)> = Vec::new();
    let mut i: usize = 0;
    while i < plan.files.len()
        invariant
            i <= plan.files@.len(),
            out@.len() == i,
            forall|j: int|
                0 <= j < i ==> out@[j].0@ == plan.source_dir@ + "/"@ + plan.files@[j]@
                    && out@[j].1@ == plan.staging_dir@ + "/"@ + plan.files@[j]@,
        decreases plan.files@.len() - i,
    {
        let mut sp = plan.source_dir.clone();
        sp.append("/");
        sp.append(plan.files[i].as_str());
        let mut dp = plan.staging_dir.clone();
        dp.append("/");
        dp.append(plan.files[i].as_str());
        out.push((sp, dp));
        i = i + 1;
    }
    out
}


} // verus!
