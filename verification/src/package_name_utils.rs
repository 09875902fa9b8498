//! Candidate npm package names for a sanitized shader-module identifier.
//!
//! A double underscore in the package part encodes an npm scope
//! (`lygia__shader_utils` stands for `@lygia/shader_utils`); single
//! underscores may stand for hyphens in the published name, so both spellings
//! are produced, underscore form first.

use vstd::prelude::*;

use crate::text::{
    break_at, break_at_spec, find_first, first_match, hyphenate, lemma_first_match, matches_at,
    replace_underscores,
};

verus! {

/// The two candidate npm names for a sanitized subpath `p`, in the order in
/// which they are to be tried: the package part (before any `/`) is split at
/// the first double underscore into scope and name if one occurs, and the
/// name is offered as written first and with underscores replaced by hyphens
/// second; the subpath part is kept unchanged.
pub open spec fn name_variations(p: Seq<char>) -> Seq<Seq<char>> {
    let pkg = break_at_spec(p, seq!['/']).0;
    let sub = break_at_spec(p, seq!['/']).1;
    match first_match(pkg, seq!['_', '_']) {
        Some(i) => {
            let scope = pkg.take(i);
            let tail = pkg.skip(i + 2);
            seq![
                seq!['@'] + scope + seq!['/'] + tail + sub,
                seq!['@'] + scope + seq!['/'] + hyphenate(tail) + sub,
            ]
        },
        None => seq![pkg + sub, hyphenate(pkg) + sub],
    }
}

/// Generate the npm package name variations for a sanitized identifier,
/// underscore-preserving form first, hyphen-substituted form second.
pub fn npm_name_variations(sanitized_path: &str) -> (r: Vec<String>)
    ensures
        r.deep_view() == name_variations(sanitized_path@),
        r@.len() == 2,
{
    let (pkg, sub) = break_at(sanitized_path, "/");
    proof {
        reveal_strlit("/");
        assert("/"@ =~= seq!['/']);
        lemma_first_match(pkg@, "__"@);
        reveal_strlit("__");
        assert("__"@ =~= seq!['_', '_']);
    }
    let mut r: Vec<String> = Vec::new();
    match find_first(pkg.as_str(), "__") {
        Some(i) => {
            let pkg_len: usize = pkg.as_str().unicode_len();
            let scope = pkg.as_str().substring_char(0, i);
            let tail = pkg.as_str().substring_char(i + 2, pkg_len);
            proof {
                assert(scope@ =~= pkg@.take(i as int));
                assert(tail@ =~= pkg@.skip(i + 2));
            }
            let hyphened = replace_underscores(tail);
            let mut v1 = String::from_str("@");
            v1.append(scope);
            v1.append("/");
            v1.append(tail);
            v1.append(sub.as_str());
            let mut v2 = String::from_str("@");
            v2.append(scope);
            v2.append("/");
            v2.append(hyphened.as_str());
            v2.append(sub.as_str());
            proof {
                reveal_strlit("@");
                assert("@"@ =~= seq!['@']);
            }
            r.push(v1);
            r.push(v2);
        },
        None => {
            let mut v1 = pkg.clone();
            v1.append(sub.as_str());
            let mut v2 = replace_underscores(pkg.as_str());
            v2.append(sub.as_str());
            r.push(v1);
            r.push(v2);
        },
    }
    proof {
        assert(r.deep_view() =~~= name_variations(sanitized_path@));
    }
    r
}

/// Law: on an identifier without any underscore the variation generator is
/// idempotent; both candidate names are the identifier itself.
pub proof fn lemma_name_variations_without_underscores(p: Seq<char>)
    requires
        forall|i: int| 0 <= i < p.len() ==> p[i] != '_',
    ensures
        name_variations(p) == seq![p, p],
{
    let pkg = break_at_spec(p, seq!['/']).0;
    let sub = break_at_spec(p, seq!['/']).1;
    lemma_first_match(p, seq!['/']);
    assert(pkg + sub =~= p);
    assert(forall|i: int| 0 <= i < pkg.len() ==> pkg[i] != '_');
    lemma_first_match(pkg, seq!['_', '_']);
    match first_match(pkg, seq!['_', '_']) {
        Some(i) => {
            assert(matches_at(pkg, seq!['_', '_'], i));
            assert(pkg.subrange(i, i + 2)[0] == pkg[i]);
            assert(false);
        },
        None => {
            assert(hyphenate(pkg) =~= pkg);
            assert(name_variations(p) =~~= seq![p, p]);
        },
    }
}

} // verus!
