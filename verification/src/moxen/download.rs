//! Decision logic of the dependency resolver: which requested names get a
//! fetch unit, how a fetched package is accepted, and how completed names
//! fold back into the manifest.  Spawning the units and the network and
//! file-system work happen outside the library.

use vstd::prelude::*;

use crate::common::checksum_matches;
use crate::common::validate_package_checksum;
use crate::common::MoxenError;
use crate::moxen::manifest::insert_dep;
use crate::moxen::manifest::PackageManifest;

verus! {

/// The names among the first `n` requested whose target directories do not
/// already exist, in request order.
pub open spec fn to_fetch_prefix(req: Seq<Seq<char>>, present: Seq<bool>, n: int) -> Seq<Seq<char>>
    decreases n,
{
    if n <= 0 {
        Seq::<Seq<char>>::empty()
    } else {
        to_fetch_prefix(req, present, n - 1) + if present[n - 1] {
            Seq::<Seq<char>>::empty()
        } else {
            seq![req[n - 1]]
        }
    }
}

/// The requested names that still need a fetch unit.
pub open spec fn to_fetch_spec(req: Seq<Seq<char>>, present: Seq<bool>) -> Seq<Seq<char>> {
    to_fetch_prefix(req, present, req.len() as int)
}

/// Picks the requested names whose target directories do not already exist:
/// exactly these get one concurrent fetch unit each.  `present[i]` says
/// whether the target directory of `requested[i]` already exists.
pub fn plan_downloads(requested: &Vec<String>, present: &Vec<bool>) -> (r: Vec<String>)
    requires
        requested@.len() == present@.len(),
    ensures
        r.deep_view() == to_fetch_spec(requested.deep_view(), present@),
{
    let mut out: Vec<String> = Vec::new();
    let mut i: usize = 0;
    while i < requested.len()
        invariant
            requested@.len() == present@.len(),
            i <= requested@.len(),
            out.deep_view() == to_fetch_prefix(requested.deep_view(), present@, i as int),
        decreases requested@.len() - i,
    {
        if !present[i] {
            out.push(requested[i].clone());
            proof {
                assert(out.deep_view() =~= to_fetch_prefix(
                    requested.deep_view(),
                    present@,
                    i + 1,
                ));
            }
        } else {
            proof {
                assert(out.deep_view() =~= to_fetch_prefix(
                    requested.deep_view(),
                    present@,
                    i + 1,
                ));
            }
        }
        i = i + 1;
    }
    out
}

/// Accepts a fetched package exactly when its bytes hash to the digest its
/// manifest carries; a mismatch is fatal to this dependency.
pub fn accept_package(package: &Vec<u8>, cksum: &str) -> (r: Result<(), MoxenError>)
    ensures
        r is Ok <==> checksum_matches(package@, cksum@),
        r matches Err(e) ==> e is ChecksumFailure,
{
    validate_package_checksum(package, cksum)
}

/// The dependency list after folding in a sequence of completed names, each
/// through the idempotent insertion rule, in completion order.
pub open spec fn record_prefix(deps: Seq<Seq<char>>, names: Seq<Seq<char>>, n: int) -> Seq<
    Seq<char>,
>
    decreases n,
{
    if n <= 0 {
        deps
    } else {
        insert_dep(record_prefix(deps, names, n - 1), names[n - 1])
    }
}

/// Folds the completed dependency names into the manifest, one idempotent
/// insertion per name, in the order they completed.
pub fn record_downloads(manifest: &mut PackageManifest, names: &Vec<String>)
    ensures
        old(manifest).wf() ==> final(manifest).wf(),
        final(manifest).deps_seq() == record_prefix(
            old(manifest).deps_seq(),
            names.deep_view(),
            names@.len() as int,
        ),
        final(manifest).mox.name == old(manifest).mox.name,
        final(manifest).mox.version == old(manifest).mox.version,
        final(manifest).mox.wow_version == old(manifest).mox.wow_version,
        final(manifest).mox.description == old(manifest).mox.description,
        final(manifest).mox.categories == old(manifest).mox.categories,
        final(manifest).mox.authors == old(manifest).mox.authors,
        final(manifest).mox.homepage == old(manifest).mox.homepage,
        final(manifest).mox.repository == old(manifest).mox.repository,
        final(manifest).mox.ignore == old(manifest).mox.ignore,
{
    proof {
        if crate::moxen::manifest::deps_unique(old(manifest).deps_seq()) {
            lemma_record_preserves_unique(
                old(manifest).deps_seq(),
                names.deep_view(),
                names@.len() as int,
            );
        }
    }
    let mut i: usize = 0;
    while i < names.len()
        invariant
            i <= names@.len(),
            manifest.deps_seq() == record_prefix(
                old(manifest).deps_seq(),
                names.deep_view(),
                i as int,
            ),
            manifest.mox.name == old(manifest).mox.name,
            manifest.mox.version == old(manifest).mox.version,
            manifest.mox.wow_version == old(manifest).mox.wow_version,
            manifest.mox.description == old(manifest).mox.description,
            manifest.mox.categories == old(manifest).mox.categories,
            manifest.mox.authors == old(manifest).mox.authors,
            manifest.mox.homepage == old(manifest).mox.homepage,
            manifest.mox.repository == old(manifest).mox.repository,
            manifest.mox.ignore == old(manifest).mox.ignore,
        decreases names@.len() - i,
    {
        manifest.add_dependency(names[i].clone());
        i = i + 1;
    }
}

// ---------------------------------------------------------------------------
// Laws of the resolver
// ---------------------------------------------------------------------------

/// A fetch unit is planned exactly for the requested names whose target
/// directories are absent, and the plan keeps request order.
pub proof fn lemma_plan_downloads_exact(req: Seq<Seq<char>>, present: Seq<bool>, n: int)
    requires
        req.len() == present.len(),
        0 <= n <= req.len(),
    ensures
        to_fetch_prefix(req, present, n).len() == count_absent(present, n),
        forall|x: Seq<char>|
            to_fetch_prefix(req, present, n).contains(x) <==> exists|i: int|
                0 <= i < n && req[i] == x && !present[i],
    decreases n,
{
    if n > 0 {
        lemma_plan_downloads_exact(req, present, n - 1);
        let prev = to_fetch_prefix(req, present, n - 1);
        let cur = to_fetch_prefix(req, present, n);
        assert forall|x: Seq<char>| cur.contains(x) implies exists|i: int|
            0 <= i < n && req[i] == x && !present[i] by {
            let k = choose|k: int| 0 <= k < cur.len() && cur[k] == x;
            if k < prev.len() {
                assert(prev[k] == x);
                assert(prev.contains(x));
            } else {
                assert(!present[n - 1] && req[n - 1] == x);
            }
        }
        assert forall|x: Seq<char>|
            (exists|i: int| 0 <= i < n && req[i] == x && !present[i]) implies cur.contains(x) by {
            let i = choose|i: int| 0 <= i < n && req[i] == x && !present[i];
            if i < n - 1 {
                assert(prev.contains(x));
                let k = choose|k: int| 0 <= k < prev.len() && prev[k] == x;
                assert(cur[k] == x);
            } else {
                assert(cur[cur.len() - 1] == x);
            }
        }
    }
}

/// How many of the first `n` requested names have no target directory yet.
pub open spec fn count_absent(present: Seq<bool>, n: int) -> int
    decreases n,
{
    if n <= 0 {
        0
    } else {
        count_absent(present, n - 1) + if present[n - 1] {
            0int
        } else {
            1int
        }
    }
}

/// Folding completed names into a duplicate-free dependency list keeps it
/// duplicate-free.
pub proof fn lemma_record_preserves_unique(deps: Seq<Seq<char>>, names: Seq<Seq<char>>, n: int)
    requires
        crate::moxen::manifest::deps_unique(deps),
        0 <= n <= names.len(),
    ensures
        crate::moxen::manifest::deps_unique(record_prefix(deps, names, n)),
    decreases n,
{
    if n > 0 {
        lemma_record_preserves_unique(deps, names, n - 1);
        crate::moxen::manifest::lemma_insert_dep_preserves_unique(
            record_prefix(deps, names, n - 1),
            names[n - 1],
        );
    }
}

/// After the fold, the manifest holds exactly its old dependencies plus the
/// completed names: a name that neither was present nor completed — a failed
/// fetch — never appears.
pub proof fn lemma_record_membership(deps: Seq<Seq<char>>, names: Seq<Seq<char>>, n: int, x: Seq<
    char,
>)
    requires
        0 <= n <= names.len(),
    ensures
        record_prefix(deps, names, n).contains(x) <==> deps.contains(x) || exists|i: int|
            0 <= i < n && names[i] == x,
    decreases n,
{
    if n > 0 {
        lemma_record_membership(deps, names, n - 1, x);
        let prev = record_prefix(deps, names, n - 1);
        let cur = record_prefix(deps, names, n);
        crate::moxen::manifest::lemma_add_dependency_idempotent(prev, names[n - 1]);
        if prev.contains(names[n - 1]) {
        } else {
            assert(cur == prev.push(names[n - 1]));
            assert forall|y: Seq<char>| cur.contains(y) implies prev.contains(y) || y == names[n
                - 1] by {
                let k = choose|k: int| 0 <= k < cur.len() && cur[k] == y;
                if k < prev.len() {
                    assert(prev[k] == y);
                }
            }
            assert(cur[cur.len() - 1] == names[n - 1]);
            if prev.contains(x) {
                let k = choose|k: int| 0 <= k < prev.len() && prev[k] == x;
                assert(cur[k] == x);
            }
        }
    }
}

} // verus!
