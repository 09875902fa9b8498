//! Resolution of a segmented shader-module path to a file inside an npm
//! package, by probing export subpaths from longest to shortest and package
//! name variations in order.

use vstd::prelude::*;

use crate::package_name_utils::npm_name_variations;
use crate::text::{join_slash, join_prefix};

verus! {

/// The slash-joined prefixes of `segments`, longest first: candidate `k`
/// joins the first `segments.len() - k` segments.
pub open spec fn subpath_candidates(segments: Seq<Seq<char>>) -> Seq<Seq<char>> {
    Seq::new(segments.len(), |k: int| join_slash(segments.take(segments.len() - k)))
}

/// Yield possible export subpaths from a module path, longest first: the full
/// path is tried first (for wildcard exports), then segments are dropped from
/// the end to find package boundaries.
pub fn export_subpaths(m_path: &Vec<String>) -> (r: Vec<String>)
    ensures
        r.deep_view() == subpath_candidates(m_path.deep_view()),
        r@.len() == m_path@.len(),
{
    let n: usize = m_path.len();
    let mut r: Vec<String> = Vec::new();
    let mut k: usize = 0;
    while k < n
        invariant
            k <= n,
            n == m_path@.len(),
            m_path.deep_view().len() == n,
            r@.len() == k,
            forall|t: int| 0 <= t < k ==> r.deep_view()[t] == join_slash(
                m_path.deep_view().take(n - t),
            ),
        decreases n - k,
    {
        let joined = join_prefix(m_path, n - k);
        let ghost old_dv = r.deep_view();
        let ghost old_rv = r@;
        r.push(joined);
        k = k + 1;
        proof {
            assert forall|t: int| 0 <= t < k implies r.deep_view()[t] == join_slash(
                m_path.deep_view().take(n - t),
            ) by {
                assert(r.deep_view()[t] == r@[t].deep_view());
                if t < k - 1 {
                    assert(r@[t] == old_rv[t]);
                    assert(old_dv[t] == old_rv[t].deep_view());
                }
            }
        }
    }
    proof {
        assert(r.deep_view() =~= subpath_candidates(m_path.deep_view()));
    }
    r
}

/// Law: for a segment list of length `n` the subpath enumerator produces
/// exactly `n` candidates; candidate `k` is the join of the prefix of length
/// `n - k`, so the number of joined segments strictly decreases along the
/// candidate list, and every candidate joins a prefix of the full path.
pub proof fn lemma_subpath_candidates_shape(segments: Seq<Seq<char>>)
    ensures
        subpath_candidates(segments).len() == segments.len(),
        forall|k: int| 0 <= k < segments.len() ==> subpath_candidates(segments)[k] == join_slash(
            segments.take(segments.len() - k),
        ),
        forall|k: int|
            0 <= k < segments.len() ==> (#[trigger] segments.take(segments.len() - k)).len()
                == segments.len() - k,
        forall|k: int| 0 <= k < segments.len() ==> (#[trigger] segments.take(
            segments.len() - k,
        )).is_prefix_of(segments),
{
    assert forall|k: int| 0 <= k < segments.len() implies (#[trigger] segments.take(
        segments.len() - k,
    )).is_prefix_of(segments) by {
        assert(segments.take(segments.len() - k) =~= segments.subrange(0, segments.len() - k));
    }
}

/// Relies on `oxc_resolver::Resolver::resolve` (with `condition_names` set to
/// `node` and `import`): `Ok` carries the path of the file that Node-style
/// module resolution finds for `path` from `project_dir`. The outcome depends
/// on the contents of the filesystem, so nothing is stated about it.
#[verifier::external_body]
fn try_resolve(path: &str, project_dir: &str) -> Option<String> {
    let options = oxc_resolver::ResolveOptions {
        condition_names: vec!["node".into(), "import".into()],
        ..Default::default()
    };
    let resolver = oxc_resolver::Resolver::new(options);
    resolver.resolve(project_dir, path).ok().map(|resolution| {
        resolution.path().display().to_string()
    })
}

/// Find the longest resolvable npm subpath for the segments of one module
/// path: subpath candidates are tried longest first and, within one
/// candidate, the underscore-preserving name variation before the hyphenated
/// one; the first resolution to succeed wins. `None` when nothing resolves —
/// an expected outcome, not an error. Which candidate resolves depends on the
/// packages present on disk, so only the candidate order is pinned down (see
/// `subpath_candidates` and `name_variations`).
pub fn npm_resolve_wesl(m_path: &Vec<String>, project_dir: &str) -> (r: Option<String>)
    ensures
        m_path@.len() == 0 ==> r is None,
{
    let sub_paths = export_subpaths(m_path);
    let mut i: usize = 0;
    while i < sub_paths.len()
        invariant
            i <= sub_paths@.len(),
            sub_paths@.len() == m_path@.len(),
        decreases sub_paths@.len() - i,
    {
        let variations = npm_name_variations(sub_paths[i].as_str());
        let mut j: usize = 0;
        while j < variations.len()
            invariant
                j <= variations@.len(),
                i < sub_paths@.len(),
                sub_paths@.len() == m_path@.len(),
            decreases variations@.len() - j,
        {
            if let Some(resolved) = try_resolve(variations[j].as_str(), project_dir) {
                return Some(resolved);
            }
            j = j + 1;
        }
        i = i + 1;
    }
    None
}

} // verus!
