//! The plan of one library's build: resolution first, then the bindings,
//! then fetching and compiling where the sources are to be built and no tree
//! is there yet, and at the end what is published. The caller probes the file
//! system, asks for the plan, and performs it step by step; a step that fails
//! ends the build.

use vstd::prelude::*;
use vstd::string::*;
use crate::bindings::{binding_plan, spec_binding_plan};
use crate::compile::{compile_steps, spec_compile_steps};
use crate::config::{BuildConfiguration, BuildConfigurationView};
use crate::directive::{Directive, DirectiveView};
use crate::fetch::{archive, fetch_steps, spec_archive, spec_fetch_steps};
use crate::library::{library_name, Library, LibrarySpec, LibrarySpecView};
use crate::list::{append_items, empty_list, push_item};
use crate::location::{
    invalid_root_warning,
    missing_root_warning,
    resolve,
    settle,
    spec_invalid_root_warning,
    spec_missing_root_warning,
    spec_resolve,
    spec_settle,
    spec_stage,
    stage,
    Stage,
};
use crate::registry::DependencyRegistry;
use crate::step::{emit_all, spec_emit_all, PlanError, Step, StepView};
use crate::text::{join_path, spec_join};

verus! {

/// What the caller has seen on the file system before planning.
#[derive(Clone, Copy, PartialEq, Eq, Debug, Structural)]
pub struct Probes {
    /// Whether the resolved header directory exists.
    pub headers_exist: bool,
    /// Whether the directory named by the override exists; not read where no
    /// override is set.
    pub root_exists: bool,
    /// Whether the library's working directory exists.
    pub working_dir_exists: bool,
}

/// The directive that links an upstream library as a static archive.
pub open spec fn spec_upstream_link(library: Library) -> DirectiveView {
    DirectiveView::LinkLib { name: library_name(library), is_static: true }
}

/// The static libraries to link for a library's upstream edges, in the
/// order of the edges.
pub open spec fn spec_upstream_links(upstream: Seq<Library>) -> Seq<DirectiveView> {
    upstream.map_values(|library: Library| spec_upstream_link(library))
}

/// What a library with the root `root` publishes: the static libraries of
/// its upstream edges, where its own archive lies, its own archive, and its
/// include path for dependent builds.
pub open spec fn spec_publish_directives(spec: LibrarySpecView, root: Seq<char>) -> Seq<
    DirectiveView,
> {
    spec_upstream_links(spec.upstream) + seq![
        DirectiveView::LinkSearch(spec_join(root, "lib"@)),
        DirectiveView::LinkLib { name: spec.name, is_static: true },
        DirectiveView::Include(spec_join(root, "include"@)),
    ]
}

/// The steps that every plan starts with: the build is to run again when the
/// override changes, and the bindings are generated from the resolved
/// header directory.
pub open spec fn spec_head_steps(
    spec: LibrarySpecView,
    config: BuildConfigurationView,
    override_dir: Option<Seq<char>>,
    registry: Map<Library, Seq<char>>,
) -> Seq<StepView> {
    seq![
        StepView::Emit(DirectiveView::RerunIfEnvChanged(spec.env_var)),
        StepView::GenerateBindings(
            spec_binding_plan(spec, config, spec_resolve(spec, override_dir).include_dir, registry),
        ),
    ]
}

/// The steps that follow the bindings, or why the sources cannot be fetched.
///
/// Without a root the build warns and publishes nothing. An override whose
/// directory is missing warns likewise. With a root the build publishes its
/// directives, after fetching and compiling where that stage is due.
pub open spec fn spec_tail_steps(
    spec: LibrarySpecView,
    config: BuildConfigurationView,
    override_dir: Option<Seq<char>>,
    probes: Probes,
    registry: Map<Library, Seq<char>>,
) -> Result<Seq<StepView>, PlanError> {
    let location = spec_resolve(spec, override_dir);
    match spec_settle(spec, config, location).root {
        None => Ok(seq![StepView::Emit(DirectiveView::Warning(spec_missing_root_warning(spec)))]),
        Some(root) => if override_dir is Some && !probes.root_exists {
            Ok(seq![StepView::Emit(DirectiveView::Warning(spec_invalid_root_warning(spec, root)))])
        } else {
            match spec_stage(spec, config, location, probes.working_dir_exists) {
                Stage::Skip => Ok(spec_emit_all(spec_publish_directives(spec, root))),
                Stage::FetchAndCompile => match spec_archive(spec, config) {
                    Ok(archive) => Ok(
                        spec_fetch_steps(spec, config, archive) + spec_compile_steps(
                            spec,
                            config,
                            registry,
                        ) + spec_emit_all(spec_publish_directives(spec, root)),
                    ),
                    Err(error) => Err(error),
                },
            }
        },
    }
}

/// The plan of a build, or why there is none. No plan is made against a
/// header directory that does not exist.
pub open spec fn spec_plan(
    spec: LibrarySpecView,
    config: BuildConfigurationView,
    override_dir: Option<Seq<char>>,
    probes: Probes,
    registry: Map<Library, Seq<char>>,
) -> Result<Seq<StepView>, PlanError> {
    if !probes.headers_exist {
        Err(PlanError::MissingHeaders)
    } else {
        match spec_tail_steps(spec, config, override_dir, probes, registry) {
            Ok(tail) => Ok(spec_head_steps(spec, config, override_dir, registry) + tail),
            Err(error) => Err(error),
        }
    }
}

/// What the user is told when a build has no plan.
pub open spec fn spec_describe(error: PlanError, spec: LibrarySpecView) -> Seq<char> {
    match error {
        PlanError::MissingHeaders => "the header directory of "@ + spec.name + " does not exist"@,
        PlanError::MissingVersion => "no release of "@ + spec.name
            + " is named, so its sources cannot be fetched"@,
        PlanError::UnsupportedHost =>
            "Cannot fetch CSPICE source for this platform, please download manually"@,
    }
}

/// The message for a build that has no plan.
pub fn describe(error: PlanError, spec: &LibrarySpec) -> (text: String)
    ensures
        text@ == spec_describe(error, spec@),
{
    match error {
        PlanError::MissingHeaders => String::from_str("the header directory of ").concat(
            spec.name.as_str(),
        ).concat(" does not exist"),
        PlanError::MissingVersion => String::from_str("no release of ").concat(
            spec.name.as_str(),
        ).concat(" is named, so its sources cannot be fetched"),
        PlanError::UnsupportedHost => String::from_str(
            "Cannot fetch CSPICE source for this platform, please download manually",
        ),
    }
}

/// The directives that link the upstream libraries.
pub fn upstream_links(upstream: &Vec<Library>) -> (links: Vec<Directive>)
    ensures
        links.deep_view() == spec_upstream_links(upstream@),
{
    let ghost each = |library: Library| spec_upstream_link(library);
    let mut links: Vec<Directive> = empty_list();
    let mut i: usize = 0;
    proof {
        assert(upstream@.take(0).map_values(each) =~= Seq::<DirectiveView>::empty());
    }
    while i < upstream.len()
        invariant
            i <= upstream.len(),
            each == |library: Library| spec_upstream_link(library),
            links.deep_view() == upstream@.take(i as int).map_values(each),
        decreases upstream.len() - i,
    {
        push_item(&mut links, Directive::LinkLib { name: upstream[i].name(), is_static: true });
        proof {
            assert(upstream@.take(i as int + 1).map_values(each) =~= upstream@.take(
                i as int,
            ).map_values(each).push(each(upstream@[i as int])));
        }
        i += 1;
    }
    proof {
        assert(upstream@.take(upstream.len() as int) =~= upstream@);
    }
    links
}

/// What a library with the root `root` publishes.
pub fn publish_directives(spec: &LibrarySpec, root: &str) -> (directives: Vec<Directive>)
    ensures
        directives.deep_view() == spec_publish_directives(spec@, root@),
{
    let mut directives = upstream_links(&spec.upstream);
    push_item(&mut directives, Directive::LinkSearch(join_path(root, "lib")));
    push_item(&mut directives, Directive::LinkLib { name: spec.name.clone(), is_static: true });
    push_item(&mut directives, Directive::Include(join_path(root, "include")));
    proof {
        assert(directives.deep_view() =~= spec_publish_directives(spec@, root@));
    }
    directives
}

/// The steps that every plan starts with.
pub fn head_steps(
    spec: &LibrarySpec,
    config: &BuildConfiguration,
    override_dir: Option<&str>,
    registry: &DependencyRegistry,
) -> (steps: Vec<Step>)
    ensures
        steps.deep_view() == spec_head_steps(
            spec@,
            config@,
            override_dir.deep_view(),
            registry@,
        ),
{
    let location = resolve(spec, override_dir);
    let mut steps: Vec<Step> = empty_list();
    push_item(&mut steps, Step::Emit(Directive::RerunIfEnvChanged(spec.env_var.clone())));
    push_item(
        &mut steps,
        Step::GenerateBindings(binding_plan(spec, config, location.include_dir.as_str(), registry)),
    );
    proof {
        assert(steps.deep_view() =~= spec_head_steps(
            spec@,
            config@,
            override_dir.deep_view(),
            registry@,
        ));
    }
    steps
}

/// The steps that follow the bindings, or why the sources cannot be fetched.
pub fn tail_steps(
    spec: &LibrarySpec,
    config: &BuildConfiguration,
    override_dir: Option<&str>,
    probes: Probes,
    registry: &DependencyRegistry,
) -> (found: Result<Vec<Step>, PlanError>)
    ensures
        match found {
            Ok(steps) => spec_tail_steps(
                spec@,
                config@,
                override_dir.deep_view(),
                probes,
                registry@,
            ) == Ok::<Seq<StepView>, PlanError>(steps.deep_view()),
            Err(error) => spec_tail_steps(
                spec@,
                config@,
                override_dir.deep_view(),
                probes,
                registry@,
            ) == Err::<Seq<StepView>, PlanError>(error),
        },
{
    let location = resolve(spec, override_dir);
    let due = stage(spec, config, &location, probes.working_dir_exists);
    let settled = settle(spec, config, location);
    let mut steps: Vec<Step> = empty_list();
    match &settled.root {
        None => {
            push_item(&mut steps, Step::Emit(Directive::Warning(missing_root_warning(spec))));
            proof {
                assert(steps.deep_view() =~= seq![
                    StepView::Emit(DirectiveView::Warning(spec_missing_root_warning(spec@))),
                ]);
            }
            Ok(steps)
        },
        Some(root) => {
            if override_dir.is_some() && !probes.root_exists {
                push_item(
                    &mut steps,
                    Step::Emit(Directive::Warning(invalid_root_warning(spec, root.as_str()))),
                );
                proof {
                    assert(steps.deep_view() =~= seq![
                        StepView::Emit(
                            DirectiveView::Warning(spec_invalid_root_warning(spec@, root@)),
                        ),
                    ]);
                }
                Ok(steps)
            } else {
                match due {
                    Stage::Skip => Ok(emit_all(&publish_directives(spec, root.as_str()))),
                    Stage::FetchAndCompile => match archive(spec, config) {
                        Ok(release) => {
                            append_items(&mut steps, fetch_steps(spec, config, &release));
                            append_items(&mut steps, compile_steps(spec, config, registry));
                            append_items(
                                &mut steps,
                                emit_all(&publish_directives(spec, root.as_str())),
                            );
                            proof {
                                assert(steps.deep_view() =~= spec_fetch_steps(
                                    spec@,
                                    config@,
                                    release@,
                                ) + spec_compile_steps(spec@, config@, registry@) + spec_emit_all(
                                    spec_publish_directives(spec@, root@),
                                ));
                            }
                            Ok(steps)
                        },
                        Err(error) => Err(error),
                    },
                }
            }
        },
    }
}

/// Plans the build of one library.
///
/// `override_dir` is the value of the library's override variable, if it is
/// set; `probes` is what the caller found on the file system; `registry`
/// holds what the upstream builds have published.
///
/// There is no plan where the header directory is missing, and none where
/// the sources are due but no archive can be named. Every other build has
/// one: it starts with the bindings, and it ends with the published
/// directives or, where no usable root is resolved, with a warning.
pub fn plan(
    spec: &LibrarySpec,
    config: &BuildConfiguration,
    override_dir: Option<&str>,
    probes: Probes,
    registry: &DependencyRegistry,
) -> (found: Result<Vec<Step>, PlanError>)
    ensures
        match found {
            Ok(steps) => spec_plan(spec@, config@, override_dir.deep_view(), probes, registry@)
                == Ok::<Seq<StepView>, PlanError>(steps.deep_view()),
            Err(error) => spec_plan(spec@, config@, override_dir.deep_view(), probes, registry@)
                == Err::<Seq<StepView>, PlanError>(error),
        },
        !probes.headers_exist ==> found == Err::<Vec<Step>, PlanError>(PlanError::MissingHeaders),
{
    if !probes.headers_exist {
        return Err(PlanError::MissingHeaders);
    }
    match tail_steps(spec, config, override_dir, probes, registry) {
        Ok(tail) => {
            let mut steps = head_steps(spec, config, override_dir, registry);
            append_items(&mut steps, tail);
            Ok(steps)
        },
        Err(error) => Err(error),
    }
}

} // verus!
