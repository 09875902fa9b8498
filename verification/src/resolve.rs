//! The dependency set builder: resolve a list of module paths to the set of
//! npm package files they refer to, skipping paths that can never be package
//! references and deduplicating the results.

use vstd::prelude::*;

use crate::npm_resolver::npm_resolve_wesl;
use crate::text::{split_on, split_str};

verus! {

/// A segment list refers to a package exactly when it has at least two
/// segments and its first segment is not the reserved builtin namespace
/// `constants`: single segments name language builtins, and `constants` is a
/// compiler-internal virtual namespace.
pub open spec fn is_package_ref(segments: Seq<Seq<char>>) -> bool {
    segments.len() >= 2 && segments[0] != "constants"@
}

/// Law: a single-segment module path, or one whose first segment is the
/// reserved word `constants`, is never a package reference, so the dependency
/// set builder never attempts to resolve it.
pub proof fn lemma_builtin_paths_not_package_refs(segments: Seq<Seq<char>>)
    requires
        segments.len() < 2 || segments[0] == "constants"@,
    ensures
        !is_package_ref(segments),
{
}

/// Decide whether a segment list refers to a package (see `is_package_ref`).
pub fn is_resolvable_segments(segments: &Vec<String>) -> (r: bool)
    ensures
        r == is_package_ref(segments.deep_view()),
{
    if segments.len() < 2 {
        return false;
    }
    let reserved = String::from_str("constants");
    let r = !(segments[0] == reserved);
    proof {
        assert(segments.deep_view()[0] == segments@[0]@);
    }
    r
}

/// Does `v` hold a string with the same characters as `s`?
fn contains_string(v: &Vec<String>, s: &String) -> (r: bool)
    ensures
        r == exists|t: int| 0 <= t < v@.len() && v@[t]@ == s@,
{
    let mut i: usize = 0;
    while i < v.len()
        invariant
            i <= v@.len(),
            forall|t: int| 0 <= t < i ==> v@[t]@ != s@,
        decreases v@.len() - i,
    {
        if v[i] == *s {
            return true;
        }
        i = i + 1;
    }
    false
}

/// Resolve module paths (`::`-separated) to the npm package files they refer
/// to. A path with fewer than two segments, or in the reserved `constants`
/// namespace, is never resolved, so an input made only of such paths yields
/// an empty result whatever is on disk; a path that nothing resolves is
/// silently absent from the result; two paths resolving to the same file
/// contribute one entry, so the result holds no duplicates. An empty input
/// yields an empty result.
pub fn resolve_dependencies(module_paths: &Vec<String>, project_dir: &str) -> (r: Vec<String>)
    ensures
        forall|a: int, b: int| 0 <= a < b < r@.len() ==> r@[a]@ != r@[b]@,
        module_paths@.len() == 0 ==> r@.len() == 0,
        (forall|i: int|
            0 <= i < module_paths@.len() ==> !is_package_ref(
                #[trigger] split_on(module_paths@[i]@, "::"@),
            )) ==> r@.len() == 0,
{
    let mut deps: Vec<String> = Vec::new();
    let mut i: usize = 0;
    while i < module_paths.len()
        invariant
            i <= module_paths@.len(),
            forall|a: int, b: int| 0 <= a < b < deps@.len() ==> deps@[a]@ != deps@[b]@,
            module_paths@.len() == 0 ==> deps@.len() == 0,
            (forall|t: int|
                0 <= t < module_paths@.len() ==> !is_package_ref(
                    #[trigger] split_on(module_paths@[t]@, "::"@),
                )) ==> deps@.len() == 0,
        decreases module_paths@.len() - i,
    {
        proof {
            reveal_strlit("::");
        }
        let segments = split_str(module_paths[i].as_str(), "::");
        if is_resolvable_segments(&segments) {
            proof {
                assert(segments.deep_view() == split_on(module_paths@[i as int]@, "::"@));
            }
            if let Some(resolved) = npm_resolve_wesl(&segments, project_dir) {
                if !contains_string(&deps, &resolved) {
                    deps.push(resolved);
                }
            }
        }
        i = i + 1;
    }
    deps
}

} // verus!
