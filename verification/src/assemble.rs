//! Assembly of the candidate list: every resolved root, in the fixed source
//! order, crossed with the fixed suffix table.

use vstd::prelude::*;
use crate::paths::{
    join_spec, join_path, root_candidates, runtime_suffixes, suffix_table, PROGRAM_FILES_PATH,
};
use crate::sources::{
    DiscoveryError, RegistryLookup, cache_root_of, env_view, known_root_of, probe_known_root,
    registry_root_of, resolve_cache_root, resolve_install_root,
};

verus! {

/// The views of a vector of path strings, in order.
pub open spec fn views_of(v: Seq<String>) -> Seq<Seq<char>> {
    v.map_values(|s: String| s@)
}

/// The candidates one source contributes: all six for a resolved root, none
/// for a source that yielded nothing.
pub open spec fn contribution(root: Option<Seq<char>>) -> Seq<Seq<char>> {
    match root {
        Option::Some(r) => root_candidates(r),
        Option::None => Seq::empty(),
    }
}

/// The whole discovery outcome, given what each source resolved to: the
/// three contributions concatenated in the fixed source order — cache, then
/// registry, then the well-known path.
pub open spec fn spec_discover(
    cache: Option<Seq<char>>,
    registry: Option<Seq<char>>,
    known: Option<Seq<char>>,
) -> Seq<Seq<char>> {
    contribution(cache) + contribution(registry) + contribution(known)
}

/// How many of the three sources resolved to a root.
pub open spec fn resolved_count(
    cache: Option<Seq<char>>,
    registry: Option<Seq<char>>,
    known: Option<Seq<char>>,
) -> int {
    (if cache is Some { 1int } else { 0int })
        + (if registry is Some { 1int } else { 0int })
        + (if known is Some { 1int } else { 0int })
}

/// Appends the six candidates for one resolved root, in suffix order.
fn push_candidates(out: &mut Vec<String>, root: &str)
    ensures
        views_of(final(out)@) == views_of(old(out)@) + root_candidates(root@),
{
    let ghost base: Seq<Seq<char>> = views_of(out@);
    let suffixes = runtime_suffixes();
    let mut i: usize = 0;
    while i < suffixes.len()
        invariant
            suffixes@.len() == suffix_table().len(),
            forall|j: int| 0 <= j < suffixes@.len() ==> suffixes@[j]@ == suffix_table()[j],
            i <= suffixes@.len(),
            views_of(out@) == base + root_candidates(root@).take(i as int),
        decreases suffixes@.len() - i,
    {
        let ghost prev: Seq<String> = out@;
        let c = join_path(root, suffixes[i]);
        let ghost cv: Seq<char> = c@;
        out.push(c);
        proof {
            let rc = root_candidates(root@);
            assert(cv == rc[i as int]);
            assert forall|j: int| 0 <= j < prev.len() implies views_of(out@)[j] == views_of(
                prev,
            )[j] by {
                assert(out@[j] == prev[j]);
            }
            assert(views_of(out@)[prev.len() as int] == cv);
            assert(rc.take(i as int).len() == i);
            assert(views_of(prev).len() == prev.len());
            assert(prev.len() == base.len() + i);
            assert forall|j: int| 0 <= j < prev.len() + 1 implies views_of(out@)[j] == (base
                + rc.take(i as int + 1))[j] by {
                if j < base.len() {
                    assert(views_of(prev)[j] == base[j]);
                } else if j < prev.len() {
                    assert(views_of(prev)[j] == rc.take(i as int)[j - base.len()]);
                    assert(rc.take(i as int)[j - base.len()] == rc[j - base.len()]);
                    assert(rc.take(i as int + 1)[j - base.len()] == rc[j - base.len()]);
                } else {
                    assert(views_of(out@)[j] == cv);
                    assert(rc.take(i as int + 1)[i as int] == rc[i as int]);
                }
            }
            assert(views_of(out@) =~= base + rc.take(i as int + 1));
        }
        i += 1;
    }
    proof {
        assert(root_candidates(root@).take(suffixes@.len() as int) =~= root_candidates(root@));
    }
}

/// Gets all candidate installation locations of the launcher's bundled Java
/// runtime.
///
/// The caller reports what it observed of the three sources: the cache
/// environment variable's value, whether the directory derived from it
/// exists, the registry lookup's outcome, and the well-known path's probe.
/// The fixed assembly rule then produces the ordered candidate list.  The
/// operation as a whole cannot fail: each source's failure is swallowed at
/// this boundary, and a source that yielded nothing contributes nothing.
pub fn get_jre_locations(
    env_value: Option<String>,
    derived_exists: bool,
    lookup: RegistryLookup,
    probe: Result<bool, DiscoveryError>,
) -> (r: Vec<String>)
    ensures
        views_of(r@) == spec_discover(
            cache_root_of(env_view(env_value), derived_exists),
            registry_root_of(lookup),
            known_root_of(probe),
        ),
{
    let mut candidates: Vec<String> = Vec::new();

    let cache = resolve_cache_root(env_value, derived_exists);
    if let Ok(root) = &cache {
        push_candidates(&mut candidates, root.as_str());
    }
    proof {
        assert(views_of(candidates@) =~= contribution(
            cache_root_of(env_view(env_value), derived_exists),
        ));
    }

    let install = resolve_install_root(lookup);
    if let Ok(root) = &install {
        push_candidates(&mut candidates, root.as_str());
    }
    proof {
        assert(views_of(candidates@) =~= contribution(
            cache_root_of(env_view(env_value), derived_exists),
        ) + contribution(registry_root_of(lookup)));
    }

    let known = probe_known_root(probe);
    if let Some(root) = &known {
        push_candidates(&mut candidates, root.as_str());
    }
    proof {
        assert(views_of(candidates@) =~= spec_discover(
            cache_root_of(env_view(env_value), derived_exists),
            registry_root_of(lookup),
            known_root_of(probe),
        ));
    }

    candidates
}

/// A source that yields no root contributes nothing and leaves the other
/// sources' contributions and their relative order untouched; in particular,
/// with the cache environment variable unset the cache source contributes
/// exactly zero candidates, whatever the registry and the filesystem hold.
pub proof fn lemma_absent_cache_contributes_nothing(
    registry: Option<Seq<char>>,
    known: Option<Seq<char>>,
)
    ensures
        spec_discover(Option::None, registry, known) == contribution(registry) + contribution(
            known,
        ),
{
    assert(spec_discover(Option::None, registry, known) =~= contribution(registry) + contribution(
        known,
    ));
}

/// With the registry value present and holding root `r`, exactly six
/// candidates rooted at `r` stand in the list: one block in fixed suffix
/// order, directly after the cache contribution.  Whether `r` exists on disk
/// is never consulted — the outcome does not mention it.
pub proof fn lemma_registry_block(cache: Option<Seq<char>>, r: Seq<char>, known: Option<Seq<char>>)
    ensures
        root_candidates(r).len() == 6,
        forall|i: int|
            0 <= i < 6 ==> root_candidates(r)[i] == join_spec(r, suffix_table()[i]),
        spec_discover(cache, Option::Some(r), known).subrange(
            contribution(cache).len() as int,
            contribution(cache).len() as int + 6,
        ) == root_candidates(r),
{
    assert(spec_discover(cache, Option::Some(r), known).subrange(
        contribution(cache).len() as int,
        contribution(cache).len() as int + 6,
    ) =~= root_candidates(r));
}

/// If the well-known path is found, exactly six candidates rooted there
/// close the list, in fixed suffix order; if it is absent, or probing it
/// failed, that source contributes exactly zero candidates.
pub proof fn lemma_known_path_block(cache: Option<Seq<char>>, registry: Option<Seq<char>>)
    ensures
        ({
            let d = spec_discover(cache, registry, Option::Some(PROGRAM_FILES_PATH@));
            d.subrange(d.len() - 6, d.len() as int) == root_candidates(PROGRAM_FILES_PATH@)
        }),
        spec_discover(cache, registry, Option::None) == contribution(cache) + contribution(
            registry,
        ),
{
    let d = spec_discover(cache, registry, Option::Some(PROGRAM_FILES_PATH@));
    assert(d.subrange(d.len() - 6, d.len() as int) =~= root_candidates(PROGRAM_FILES_PATH@));
    assert(spec_discover(cache, registry, Option::None) =~= contribution(cache) + contribution(
        registry,
    ));
}

/// The total candidate count is six per source that resolved, and the list
/// is exactly the three contributions in the fixed source order — cache,
/// then registry, then the well-known path — each internally in the fixed
/// suffix order.
pub proof fn lemma_total_count(
    cache: Option<Seq<char>>,
    registry: Option<Seq<char>>,
    known: Option<Seq<char>>,
)
    ensures
        spec_discover(cache, registry, known).len() == 6 * resolved_count(cache, registry, known),
        spec_discover(cache, registry, known) == contribution(cache) + contribution(registry)
            + contribution(known),
{
}

/// Discovery is deterministic: the outcome depends on nothing but what the
/// three sources resolved to, so two calls that observe identical
/// environment, registry and filesystem states are specified to yield
/// identical candidate lists.
pub proof fn lemma_deterministic(
    cache1: Option<Seq<char>>,
    registry1: Option<Seq<char>>,
    known1: Option<Seq<char>>,
    cache2: Option<Seq<char>>,
    registry2: Option<Seq<char>>,
    known2: Option<Seq<char>>,
)
    requires
        cache1 == cache2,
        registry1 == registry2,
        known1 == known2,
    ensures
        spec_discover(cache1, registry1, known1) == spec_discover(cache2, registry2, known2),
{
}

} // verus!
