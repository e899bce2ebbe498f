//! What holds of every build plan, whatever the library, the configuration
//! and the state of the file system.

use vstd::prelude::*;
use vstd::string::*;
use crate::bindings::{spec_binding_plan, spec_search_paths};
use crate::compile::{
    spec_artifact,
    spec_cc_build,
    spec_compile_steps,
    spec_header_steps,
    spec_runtime_steps,
};
use crate::config::{spec_enabled, BuildConfigurationView, HostOs};
use crate::directive::{is_link_directive, DirectiveView};
use crate::fetch::{
    spec_archive,
    spec_extract_steps,
    spec_fetch_steps,
    spec_normalize_steps,
    spec_overlay_steps,
    spec_prebuilt_steps,
    ArchiveView,
};
use crate::library::{library_name, spec_library_spec, Library, LibrarySpecView};
use crate::location::{
    spec_missing_root_warning,
    spec_resolve,
    spec_settle,
    spec_stage,
    spec_working_dir,
    ResolvedLocationView,
    Stage,
};
use crate::pipeline::{
    spec_head_steps,
    spec_plan,
    spec_publish_directives,
    spec_upstream_link,
    Probes,
};
use crate::registry::spec_upstream_include;
use crate::step::{
    is_compilation,
    is_download,
    is_extraction,
    spec_emit_all,
    PlanError,
    StepView,
};
use crate::text::spec_join;

verus! {

/// No step of the plan downloads or unpacks anything.
pub open spec fn fetches_nothing(steps: Seq<StepView>) -> bool {
    forall|i: int|
        0 <= i < steps.len() ==> !is_download(#[trigger] steps[i]) && !is_extraction(steps[i])
}

/// No step of the plan compiles anything.
pub open spec fn compiles_nothing(steps: Seq<StepView>) -> bool {
    forall|i: int| 0 <= i < steps.len() ==> !is_compilation(#[trigger] steps[i])
}

/// No step of the plan publishes a link directive or an include path.
pub open spec fn links_nothing(steps: Seq<StepView>) -> bool {
    forall|i: int|
        0 <= i < steps.len() ==> match #[trigger] steps[i] {
            StepView::Emit(directive) => !is_link_directive(directive) && !(directive is Include),
            _ => true,
        }
}

/// The plan downloads at the position `at` and nowhere else.
pub open spec fn downloads_only_at(steps: Seq<StepView>, at: int) -> bool {
    &&& 0 <= at < steps.len()
    &&& forall|i: int| 0 <= i < steps.len() ==> (is_download(#[trigger] steps[i]) <==> i == at)
}

/// The plan compiles at the position `at` and nowhere else.
pub open spec fn compiles_only_at(steps: Seq<StepView>, at: int) -> bool {
    &&& 0 <= at < steps.len()
    &&& forall|i: int| 0 <= i < steps.len() ==> (is_compilation(#[trigger] steps[i]) <==> i == at)
}

/// The steps of a successful plan; empty where there is no plan.
pub open spec fn steps_of(plan: Result<Seq<StepView>, PlanError>) -> Seq<StepView> {
    match plan {
        Ok(steps) => steps,
        Err(_) => seq![],
    }
}

/// An override takes strict precedence. Whatever the configuration says of
/// source builds and whatever lies in the build output directory, the
/// override is the root and its `include` the header directory; nothing is
/// fetched or compiled; and where the override's directory exists the plan is
/// the bindings followed by the directives for that root.
pub proof fn law_override_takes_precedence(
    spec: LibrarySpecView,
    config: BuildConfigurationView,
    dir: Seq<char>,
    probes: Probes,
    registry: Map<Library, Seq<char>>,
)
    ensures
        spec_resolve(spec, Some(dir)) == (ResolvedLocationView {
            include_dir: spec_join(dir, "include"@),
            root: Some(dir),
        }),
        spec_settle(spec, config, spec_resolve(spec, Some(dir))) == spec_resolve(spec, Some(dir)),
        spec_stage(spec, config, spec_resolve(spec, Some(dir)), probes.working_dir_exists)
            == Stage::Skip,
        probes.headers_exist ==> spec_plan(spec, config, Some(dir), probes, registry) is Ok,
        fetches_nothing(steps_of(spec_plan(spec, config, Some(dir), probes, registry))),
        compiles_nothing(steps_of(spec_plan(spec, config, Some(dir), probes, registry))),
        probes.headers_exist && probes.root_exists ==> spec_plan(
            spec,
            config,
            Some(dir),
            probes,
            registry,
        ) == Ok::<Seq<StepView>, PlanError>(
            spec_head_steps(spec, config, Some(dir), registry) + spec_emit_all(
                spec_publish_directives(spec, dir),
            ),
        ),
{
}

/// Without an override and without a source build the header directory is
/// the bundled one and no root is resolved. The build then has a plan as
/// soon as the bundled headers exist: the bindings and one warning. It
/// publishes no link directive and no include path, and fetches and compiles
/// nothing.
pub proof fn law_bundled_headers_without_root(
    spec: LibrarySpecView,
    config: BuildConfigurationView,
    probes: Probes,
    registry: Map<Library, Seq<char>>,
)
    requires
        !spec_enabled(config.sources, spec.library),
    ensures
        spec_resolve(spec, None) == (ResolvedLocationView {
            include_dir: spec.vendored_include,
            root: None,
        }),
        spec_settle(spec, config, spec_resolve(spec, None)).root is None,
        probes.headers_exist ==> spec_plan(spec, config, None, probes, registry) == Ok::<
            Seq<StepView>,
            PlanError,
        >(
            spec_head_steps(spec, config, None, registry).push(
                StepView::Emit(DirectiveView::Warning(spec_missing_root_warning(spec))),
            ),
        ),
        links_nothing(steps_of(spec_plan(spec, config, None, probes, registry))),
        fetches_nothing(steps_of(spec_plan(spec, config, None, probes, registry))),
        compiles_nothing(steps_of(spec_plan(spec, config, None, probes, registry))),
{
    let head = spec_head_steps(spec, config, None, registry);
    let warning = StepView::Emit(DirectiveView::Warning(spec_missing_root_warning(spec)));
    assert(head + seq![warning] =~= head.push(warning));
}

/// A working directory that exists is reused as it is: the stage is skipped
/// and the plan, if there is one, fetches and compiles nothing. There is a
/// plan whenever the header directory exists.
pub proof fn law_existing_tree_is_reused(
    spec: LibrarySpecView,
    config: BuildConfigurationView,
    override_dir: Option<Seq<char>>,
    probes: Probes,
    registry: Map<Library, Seq<char>>,
)
    requires
        probes.working_dir_exists,
    ensures
        spec_stage(spec, config, spec_resolve(spec, override_dir), probes.working_dir_exists)
            == Stage::Skip,
        probes.headers_exist ==> spec_plan(spec, config, override_dir, probes, registry) is Ok,
        fetches_nothing(steps_of(spec_plan(spec, config, override_dir, probes, registry))),
        compiles_nothing(steps_of(spec_plan(spec, config, override_dir, probes, registry))),
{
}

/// The fetched tree's name does not depend on the release. The working
/// directory is the same for every release of a library, and whatever
/// directory an archive unpacks to, the steps that follow the unpacking leave
/// the tree at the working directory: an archive that unpacks under another
/// name has its tree renamed there, after whatever lay there was removed.
pub proof fn law_tree_name_ignores_release(
    spec: LibrarySpecView,
    config: BuildConfigurationView,
    version: Option<Seq<char>>,
    archive: ArchiveView,
)
    ensures
        spec_working_dir(LibrarySpecView { version, ..spec }, config) == spec_working_dir(
            spec,
            config,
        ),
        archive.extracted == spec.name ==> spec_normalize_steps(spec, config, archive).len() == 0
            && spec_join(config.out_dir, archive.extracted) == spec_working_dir(spec, config),
        archive.extracted != spec.name ==> spec_normalize_steps(spec, config, archive) == seq![
            StepView::RemoveDir(spec_working_dir(spec, config)),
            StepView::Rename {
                from: spec_join(config.out_dir, archive.extracted),
                to: spec_working_dir(spec, config),
            },
        ],
{
}

/// Every tagged release ends up under the same name. Whatever release of
/// the ephemeris reader or of the astrometry library is fetched, its archive
/// unpacks under a name that holds the release, and the fetch renames that
/// tree to the working directory, which holds none.
pub proof fn law_tagged_release_is_renamed(
    library: Library,
    config: BuildConfigurationView,
    version: Seq<char>,
)
    requires
        library != Library::Cspice,
    ensures
        ({
            let spec = LibrarySpecView { version: Some(version), ..spec_library_spec(library) };
            let archive = spec_archive(spec, config)->Ok_0;
            &&& spec_archive(spec, config) is Ok
            &&& spec_working_dir(spec, config) == spec_join(config.out_dir, library_name(library))
            &&& spec_normalize_steps(spec, config, archive) == seq![
                StepView::RemoveDir(spec_join(config.out_dir, library_name(library))),
                StepView::Rename {
                    from: spec_join(config.out_dir, archive.extracted),
                    to: spec_join(config.out_dir, library_name(library)),
                },
            ]
        }),
{
    reveal_strlit("calceph");
    reveal_strlit("calceph-calceph_");
    reveal_strlit("supernovas");
    reveal_strlit("SuperNOVAS-");
    let spec = LibrarySpecView { version: Some(version), ..spec_library_spec(library) };
    let archive = spec_archive(spec, config)->Ok_0;
    assert(archive.extracted.len() != spec.name.len());
}

/// Every upstream edge reaches the binding generator: the search path holds
/// the library's own header directory first and then, for each edge in
/// order, the include path of the upstream library, published or bundled.
pub proof fn law_upstream_paths_reach_bindings(
    spec: LibrarySpecView,
    config: BuildConfigurationView,
    include_dir: Seq<char>,
    registry: Map<Library, Seq<char>>,
    edge: int,
)
    requires
        0 <= edge < spec.upstream.len(),
    ensures
        spec_search_paths(spec, include_dir, registry).len() == 1 + spec.upstream.len(),
        spec_binding_plan(spec, config, include_dir, registry).clang_args.len() == 1
            + spec.upstream.len(),
        spec_binding_plan(spec, config, include_dir, registry).clang_args[0] == "-I"@
            + include_dir,
        spec_binding_plan(spec, config, include_dir, registry).clang_args[edge + 1] == "-I"@
            + spec_upstream_include(registry, spec.upstream[edge]),
{
}

/// Every upstream edge reaches the compiler: where a library is compiled
/// file by file, the search path of the compilation holds the include path
/// of each upstream library, in the order of the edges, before the tree's
/// own.
pub proof fn law_upstream_paths_reach_compiler(
    spec: LibrarySpecView,
    config: BuildConfigurationView,
    registry: Map<Library, Seq<char>>,
    edge: int,
)
    requires
        0 <= edge < spec.upstream.len(),
    ensures
        spec_cc_build(spec, config, registry).include_dirs.len() == spec.upstream.len() + 1,
        spec_cc_build(spec, config, registry).include_dirs[edge] == spec_upstream_include(
            registry,
            spec.upstream[edge],
        ),
        spec_cc_build(spec, config, registry).include_dirs.last() == spec_join(
            spec_working_dir(spec, config),
            "include"@,
        ),
{
}

/// What is published names the root. The directives of a library with a
/// root are one static library for each upstream edge, in the order of the
/// edges, then the root's `lib` as the place to search, the library's own
/// static archive, and the root's `include` as the include path for
/// dependent builds.
pub proof fn law_directives_name_the_root(spec: LibrarySpecView, root: Seq<char>)
    ensures
        spec_publish_directives(spec, root).len() == spec.upstream.len() + 3,
        forall|edge: int|
            0 <= edge < spec.upstream.len() ==> #[trigger] spec_publish_directives(
                spec,
                root,
            )[edge] == spec_upstream_link(spec.upstream[edge]),
        spec_publish_directives(spec, root)[spec.upstream.len() as int]
            == DirectiveView::LinkSearch(spec_join(root, "lib"@)),
        spec_publish_directives(spec, root)[spec.upstream.len() as int + 1] == (
        DirectiveView::LinkLib { name: spec.name, is_static: true }),
        spec_publish_directives(spec, root)[spec.upstream.len() as int + 2]
            == DirectiveView::Include(spec_join(root, "include"@)),
{
}

/// What a source build publishes is what it has built. The directives for
/// the build output directory as root name the artifact's directory and its
/// link name. Where the library is compiled file by file, the archive goes
/// to the artifact's directory under the artifact's name, and each header of
/// the artifact is the target of one copy from the tree's `include`, in the
/// order of the public headers.
pub proof fn law_published_links_name_the_artifact(
    spec: LibrarySpecView,
    config: BuildConfigurationView,
    registry: Map<Library, Seq<char>>,
    header: int,
)
    requires
        0 <= header < spec.headers.len(),
    ensures
        spec_publish_directives(spec, config.out_dir)[spec.upstream.len() as int]
            == DirectiveView::LinkSearch(spec_artifact(spec, config).lib_dir),
        spec_publish_directives(spec, config.out_dir)[spec.upstream.len() as int + 1] == (
        DirectiveView::LinkLib { name: spec_artifact(spec, config).name, is_static: true }),
        spec_cc_build(spec, config, registry).out_dir == spec_artifact(spec, config).lib_dir,
        spec_cc_build(spec, config, registry).name == spec_artifact(spec, config).name,
        spec_artifact(spec, config).headers.len() == spec.headers.len(),
        spec_header_steps(spec, config).len() == spec.headers.len() + 1,
        spec_header_steps(spec, config)[header + 1] == (StepView::CopyFile {
            from: spec_join(
                spec_join(spec_working_dir(spec, config), "include"@),
                spec.headers[header],
            ),
            to: spec_artifact(spec, config).headers[header],
        }),
{
}

/// A source build that finds no tree fetches once and compiles once. Where
/// no override is set, the library is built from source, no working directory
/// exists and an archive can be named, the plan is the bindings, the fetch,
/// the compilation and the directives for the build output directory as
/// root. Its only download is the first step after the bindings, every
/// unpacking follows it and precedes the compilation, and the compilation is
/// the only one.
pub proof fn law_fresh_source_build(
    spec: LibrarySpecView,
    config: BuildConfigurationView,
    probes: Probes,
    registry: Map<Library, Seq<char>>,
    archive: ArchiveView,
)
    requires
        spec_enabled(config.sources, spec.library),
        probes.headers_exist,
        !probes.working_dir_exists,
        spec_archive(spec, config) == Ok::<ArchiveView, PlanError>(archive),
    ensures
        spec_stage(spec, config, spec_resolve(spec, None), probes.working_dir_exists)
            == Stage::FetchAndCompile,
        spec_plan(spec, config, None, probes, registry) == Ok::<Seq<StepView>, PlanError>(
            spec_head_steps(spec, config, None, registry) + (spec_fetch_steps(
                spec,
                config,
                archive,
            ) + spec_compile_steps(spec, config, registry) + spec_emit_all(
                spec_publish_directives(spec, config.out_dir),
            )),
        ),
        downloads_only_at(steps_of(spec_plan(spec, config, None, probes, registry)), 2),
        is_extraction(steps_of(spec_plan(spec, config, None, probes, registry))[3]),
        compiles_only_at(
            steps_of(spec_plan(spec, config, None, probes, registry)),
            2 + spec_fetch_steps(spec, config, archive).len() as int,
        ),
        forall|i: int|
            0 <= i < steps_of(spec_plan(spec, config, None, probes, registry)).len()
                && is_extraction(
                #[trigger] steps_of(spec_plan(spec, config, None, probes, registry))[i],
            ) ==> 2 < i < 2 + spec_fetch_steps(spec, config, archive).len(),
{
    let head = spec_head_steps(spec, config, None, registry);
    let fetch = spec_fetch_steps(spec, config, archive);
    let compile = spec_compile_steps(spec, config, registry);
    let publish = spec_emit_all(spec_publish_directives(spec, config.out_dir));
    let steps = head + (fetch + compile + publish);
    lemma_fetch_shape(spec, config, archive);
    lemma_compile_shape(spec, config, registry);
    assert(head.len() == 2);
    assert forall|i: int| 0 <= i < steps.len() implies (is_download(#[trigger] steps[i]) <==> i
        == 2) by {
        if i >= 2 && i < 2 + fetch.len() {
            assert(steps[i] == fetch[i - 2]);
        } else if i >= 2 + fetch.len() && i < 2 + fetch.len() + compile.len() {
            assert(steps[i] == compile[i - 2 - fetch.len()]);
        } else if i >= 2 + fetch.len() + compile.len() {
            assert(steps[i] == publish[i - 2 - fetch.len() - compile.len()]);
        }
    }
    assert forall|i: int| 0 <= i < steps.len() implies (is_compilation(#[trigger] steps[i]) <==> i
        == 2 + fetch.len()) by {
        if i >= 2 && i < 2 + fetch.len() {
            assert(steps[i] == fetch[i - 2]);
        } else if i >= 2 + fetch.len() && i < 2 + fetch.len() + compile.len() {
            assert(steps[i] == compile[i - 2 - fetch.len()]);
        } else if i >= 2 + fetch.len() + compile.len() {
            assert(steps[i] == publish[i - 2 - fetch.len() - compile.len()]);
        }
    }
    assert forall|i: int| 0 <= i < steps.len() && is_extraction(#[trigger] steps[i]) implies 2 < i
        < 2 + fetch.len() by {
        if i >= 2 && i < 2 + fetch.len() {
            assert(steps[i] == fetch[i - 2]);
        } else if i >= 2 + fetch.len() && i < 2 + fetch.len() + compile.len() {
            assert(steps[i] == compile[i - 2 - fetch.len()]);
        } else if i >= 2 + fetch.len() + compile.len() {
            assert(steps[i] == publish[i - 2 - fetch.len() - compile.len()]);
        }
    }
    assert(steps[3] == fetch[1]);
    assert(steps[2 + fetch.len() as int] == compile[0]);
}

/// The shape of a fetch: the download comes first and is the only one, an
/// unpacking follows it, and nothing is compiled.
pub proof fn lemma_fetch_shape(
    spec: LibrarySpecView,
    config: BuildConfigurationView,
    archive: ArchiveView,
)
    ensures
        spec_fetch_steps(spec, config, archive).len() >= 2,
        is_download(spec_fetch_steps(spec, config, archive)[0]),
        is_extraction(spec_fetch_steps(spec, config, archive)[1]),
        forall|i: int|
            0 < i < spec_fetch_steps(spec, config, archive).len() ==> !is_download(
                #[trigger] spec_fetch_steps(spec, config, archive)[i],
            ),
        !is_extraction(spec_fetch_steps(spec, config, archive)[0]),
        compiles_nothing(spec_fetch_steps(spec, config, archive)),
{
    let first = seq![
        StepView::Download { url: archive.url, target: spec_join(config.out_dir, archive.file) },
    ];
    let extract = spec_extract_steps(config, archive, spec.name);
    let normalize = spec_normalize_steps(spec, config, archive);
    let prebuilt = spec_prebuilt_steps(spec, config, archive);
    let overlay = spec_overlay_steps(spec, config);
    let steps = spec_fetch_steps(spec, config, archive);
    assert(steps == first + extract + normalize + prebuilt + overlay);
    assert(extract.len() >= 1);
    assert(steps[0] == first[0]);
    assert(steps[1] == extract[0]);
    assert forall|i: int| 0 < i < steps.len() implies !is_download(#[trigger] steps[i])
        && !is_compilation(steps[i]) by {
        let a = 1 + extract.len();
        let b = a + normalize.len();
        let c = b + prebuilt.len();
        if i < a {
            assert(steps[i] == extract[i - 1]);
        } else if i < b {
            assert(steps[i] == normalize[i - a]);
        } else if i < c {
            assert(steps[i] == prebuilt[i - b]);
        } else {
            assert(steps[i] == overlay[i - c]);
        }
    }
}

/// The shape of a compilation: the compiler runs first and once, and nothing
/// is fetched.
pub proof fn lemma_compile_shape(
    spec: LibrarySpecView,
    config: BuildConfigurationView,
    registry: Map<Library, Seq<char>>,
)
    ensures
        spec_compile_steps(spec, config, registry).len() >= 1,
        is_compilation(spec_compile_steps(spec, config, registry)[0]),
        forall|i: int|
            0 < i < spec_compile_steps(spec, config, registry).len() ==> !is_compilation(
                #[trigger] spec_compile_steps(spec, config, registry)[i],
            ),
        fetches_nothing(spec_compile_steps(spec, config, registry)),
{
    let steps = spec_compile_steps(spec, config, registry);
    if spec.library != Library::Calceph {
        let first = seq![StepView::CompileC(spec_cc_build(spec, config, registry))];
        let runtime = spec_runtime_steps(spec, config);
        let headers = spec_header_steps(spec, config);
        assert(steps == first + runtime + headers);
        assert(steps[0] == first[0]);
        assert forall|i: int| 0 < i < steps.len() implies !is_compilation(#[trigger] steps[i])
            && !is_download(steps[i]) && !is_extraction(steps[i]) by {
            if i < 1 + runtime.len() {
                assert(steps[i] == runtime[i - 1]);
            } else {
                assert(steps[i] == headers[i - 1 - runtime.len()]);
            }
        }
    }
}

/// When a build has no plan. The header directory is missing; or the
/// sources are due and the archive cannot be named, because a tagged release
/// has no version or because no bundle of the toolkit is offered for the
/// host. Every other build has a plan.
pub proof fn law_plan_errors(
    spec: LibrarySpecView,
    config: BuildConfigurationView,
    override_dir: Option<Seq<char>>,
    probes: Probes,
    registry: Map<Library, Seq<char>>,
)
    ensures
        spec_plan(spec, config, override_dir, probes, registry) == Err::<
            Seq<StepView>,
            PlanError,
        >(PlanError::MissingHeaders) <==> !probes.headers_exist,
        spec_plan(spec, config, override_dir, probes, registry) == Err::<
            Seq<StepView>,
            PlanError,
        >(PlanError::MissingVersion) <==> probes.headers_exist && spec_stage(
            spec,
            config,
            spec_resolve(spec, override_dir),
            probes.working_dir_exists,
        ) == Stage::FetchAndCompile && spec.library != Library::Cspice && spec.version is None,
        spec_plan(spec, config, override_dir, probes, registry) == Err::<
            Seq<StepView>,
            PlanError,
        >(PlanError::UnsupportedHost) <==> probes.headers_exist && spec_stage(
            spec,
            config,
            spec_resolve(spec, override_dir),
            probes.working_dir_exists,
        ) == Stage::FetchAndCompile && spec.library == Library::Cspice && config.host
            == HostOs::Other,
{
}

} // verus!
