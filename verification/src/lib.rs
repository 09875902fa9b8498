//! Resolution of colon-delimited shader-module import paths to npm package
//! locations, and extraction of `weslBundle` descriptors from the resolved
//! package source files.

use vstd::prelude::*;

pub mod js_ast;
pub mod npm_resolver;
pub mod package_name_utils;
pub mod parse;
pub mod resolve;
pub mod text;

verus! {

/// A parsed bundle descriptor: the name and edition of one shader package,
/// its modules as (module path, source text) pairs in source order, and its
/// transitive bundle dependencies (not populated yet: always empty).
#[derive(Debug, PartialEq)]
pub struct WeslBundle {
    pub name: String,
    pub edition: String,
    pub modules: Vec<(String, String)>,
    pub dependencies: Vec<WeslBundle>,
}

impl WeslBundle {
    /// A field-for-field copy of the descriptor and of each dependency.
    fn duplicate(&self) -> (r: WeslBundle)
        ensures
            r.name == self.name,
            r.edition == self.edition,
        decreases *self,
    {
        broadcast use vstd::std_specs::vec::axiom_vec_index_decreases;

        let mut dependencies: Vec<WeslBundle> = Vec::new();
        let mut i: usize = 0;
        while i < self.dependencies.len()
            invariant
                i <= self.dependencies@.len(),
            decreases self.dependencies@.len() - i,
        {
            let child = &self.dependencies[i];
            proof {
                assert(decreases_to!(*self => self.dependencies));
            }
            dependencies.push(child.duplicate());
            i = i + 1;
        }
        WeslBundle {
            name: self.name.clone(),
            edition: self.edition.clone(),
            modules: self.modules.clone(),
            dependencies,
        }
    }
}

impl Clone for WeslBundle {
    /// A field-for-field copy.
    fn clone(&self) -> (r: WeslBundle) {
        self.duplicate()
    }
}

/// Why a bundle could not be extracted. Resolution misses are not errors and
/// never surface here.
#[derive(Debug)]
pub enum WeslResolveError {
    /// The bundle file could not be read; carries the path and the cause.
    ReadError { path: String, cause: String },
    /// The parser reported diagnostics for the source text.
    SyntaxError { path: String, diagnostics: Vec<String> },
    /// No `weslBundle` binding with an object-literal value exists at the
    /// top level of the file.
    NotFoundError { path: String },
    /// A `weslBundle` object literal exists but lacks `name` or `edition`.
    MissingFieldError { path: String, missing_name: bool, missing_edition: bool },
}

/// Load bundle descriptors from (file path, source text) pairs, one
/// descriptor per pair, in input order. The whole batch fails on the first
/// pair whose parse or extraction fails, with that pair's error, and yields
/// no partial results.
pub fn load_bundles(sources: &Vec<(String, String)>) -> (r: Result<
    Vec<WeslBundle>,
    WeslResolveError,
>)
    ensures
        r matches Ok(bundles) ==> bundles@.len() == sources@.len() && (forall|k: int|
            0 <= k < sources@.len() ==> crate::parse::bundle_matches_source(
                sources@[k].0@,
                sources@[k].1@,
                #[trigger] bundles@[k],
            )),
        r matches Err(e) ==> exists|k: int|
            {
                &&& 0 <= k < sources@.len()
                &&& !crate::parse::source_ok(#[trigger] sources@[k].0@, sources@[k].1@)
                &&& crate::parse::error_matches_source(sources@[k].0@, sources@[k].1@, e)
                &&& forall|t: int|
                    0 <= t < k ==> crate::parse::source_ok(
                        #[trigger] sources@[t].0@,
                        sources@[t].1@,
                    )
            },
        r is Ok <==> (forall|k: int|
            0 <= k < sources@.len() ==> crate::parse::source_ok(
                #[trigger] sources@[k].0@,
                sources@[k].1@,
            )),
{
    let mut bundles: Vec<WeslBundle> = Vec::new();
    let mut i: usize = 0;
    while i < sources.len()
        invariant
            i <= sources@.len(),
            bundles@.len() == i,
            forall|k: int|
                0 <= k < i ==> crate::parse::bundle_matches_source(
                    sources@[k].0@,
                    sources@[k].1@,
                    #[trigger] bundles@[k],
                ),
            forall|k: int|
                0 <= k < i ==> crate::parse::source_ok(#[trigger] sources@[k].0@, sources@[k].1@),
        decreases sources@.len() - i,
    {
        let source = &sources[i];
        match crate::parse::parse_wesl_bundle(&source.0, &source.1) {
            Ok(b) => {
                bundles.push(b);
            },
            Err(e) => {
                return Err(e);
            },
        }
        i = i + 1;
    }
    Ok(bundles)
}

/// Parse shader module paths (`::`-separated, e.g. `foo::bar::baz`) and find
/// the npm package files they resolve to from `project_dir`. Resolution
/// misses are silent, paths that cannot be package references — single
/// segments and the reserved `constants` namespace — are skipped, so an
/// input made only of such paths yields an empty result, and the result
/// holds no duplicates; this function never fails.
pub fn parse_dependencies(module_paths: &Vec<String>, project_dir: &str) -> (r: Vec<String>)
    ensures
        forall|a: int, b: int| 0 <= a < b < r@.len() ==> r@[a]@ != r@[b]@,
        module_paths@.len() == 0 ==> r@.len() == 0,
        (forall|i: int|
            0 <= i < module_paths@.len() ==> !crate::resolve::is_package_ref(
                #[trigger] crate::text::split_on(module_paths@[i]@, "::"@),
            )) ==> r@.len() == 0,
{
    crate::resolve::resolve_dependencies(module_paths, project_dir)
}

} // verus!
