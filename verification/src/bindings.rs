//! What the binding generator is given for one library: its public headers
//! by path, the header search paths of the library itself and of every
//! library it builds upon, and where the bindings go.

use vstd::prelude::*;
use vstd::string::*;
use crate::config::{BuildConfiguration, BuildConfigurationView};
use crate::library::{spec_header_base, Library, LibrarySpec, LibrarySpecView};
use crate::registry::{spec_upstream_includes, DependencyRegistry};
use crate::list::{append_items, empty_list, push_item};
use crate::step::{BindingPlan, BindingPlanView};
use crate::text::{
    copy_texts,
    join_all,
    join_path,
    prefix_all,
    spec_join,
    spec_join_all,
    spec_prefix_all,
};

verus! {

/// The header search paths of a binding run: the library's own include path
/// first, then one for each upstream library, in the order of the edges.
pub open spec fn spec_search_paths(
    spec: LibrarySpecView,
    include_dir: Seq<char>,
    registry: Map<Library, Seq<char>>,
) -> Seq<Seq<char>> {
    seq![include_dir] + spec_upstream_includes(registry, spec.upstream)
}

/// What the binding generator is given.
pub open spec fn spec_binding_plan(
    spec: LibrarySpecView,
    config: BuildConfigurationView,
    include_dir: Seq<char>,
    registry: Map<Library, Seq<char>>,
) -> BindingPlanView {
    BindingPlanView {
        headers: spec_join_all(spec_header_base(spec, include_dir), spec.headers),
        clang_args: spec_prefix_all("-I"@, spec_search_paths(spec, include_dir, registry)),
        blocklist: spec.blocklist,
        derive_default: spec.derive_extras,
        derive_debug: spec.derive_extras,
        output: spec_join(config.out_dir, "bindings.rs"@),
    }
}

/// The header search paths of a binding run.
pub fn search_paths(
    spec: &LibrarySpec,
    include_dir: &str,
    registry: &DependencyRegistry,
) -> (dirs: Vec<String>)
    ensures
        dirs.deep_view() == spec_search_paths(spec@, include_dir@, registry@),
        dirs@.len() == 1 + spec@.upstream.len(),
{
    let mut dirs: Vec<String> = empty_list();
    push_item(&mut dirs, String::from_str(include_dir));
    append_items(&mut dirs, registry.upstream_includes(&spec.upstream));
    proof {
        assert(Seq::<Seq<char>>::empty().push(include_dir@) =~= seq![include_dir@]);
    }
    dirs
}

/// Plans the binding run of a library whose headers are read from
/// `include_dir`. Every public header of the library is bound, and the
/// include path of every upstream library is on the search path.
pub fn binding_plan(
    spec: &LibrarySpec,
    config: &BuildConfiguration,
    include_dir: &str,
    registry: &DependencyRegistry,
) -> (plan: BindingPlan)
    ensures
        plan@ == spec_binding_plan(spec@, config@, include_dir@, registry@),
        plan@.headers.len() == spec@.headers.len(),
        plan@.clang_args.len() == 1 + spec@.upstream.len(),
{
    let base = join_path(include_dir, spec.header_dir.as_str());
    let dirs = search_paths(spec, include_dir, registry);
    let plan = BindingPlan {
        headers: join_all(base.as_str(), &spec.headers),
        clang_args: prefix_all("-I", &dirs),
        blocklist: copy_texts(&spec.blocklist),
        derive_default: spec.derive_extras,
        derive_debug: spec.derive_extras,
        output: join_path(config.out_dir.as_str(), "bindings.rs"),
    };
    plan
}

} // verus!
