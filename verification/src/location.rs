//! Where a library's headers and, if there is one, its installation are
//! found. An installed copy named by the caller always wins; the bundled
//! headers serve otherwise; a source build supplies the installation only
//! where none was named.

use vstd::prelude::*;
use vstd::string::*;
use crate::config::{spec_enabled, BuildConfiguration, BuildConfigurationView};
use crate::library::{LibrarySpec, LibrarySpecView};
use crate::text::{join_path, spec_join};

verus! {

/// The outcome of resolution: the header directory, which is always known,
/// and the installation root, which holds `include` and `lib` and may be
/// absent.
#[derive(Clone, PartialEq, Eq, Debug)]
pub struct ResolvedLocation {
    /// The directory whose headers the binding generator reads.
    pub include_dir: String,
    /// The directory that holds the headers and the archive to link.
    pub root: Option<String>,
}

/// The mathematical content of a [`ResolvedLocation`].
pub ghost struct ResolvedLocationView {
    pub include_dir: Seq<char>,
    pub root: Option<Seq<char>>,
}

impl View for ResolvedLocation {
    type V = ResolvedLocationView;

    open spec fn view(&self) -> ResolvedLocationView {
        ResolvedLocationView { include_dir: self.include_dir@, root: self.root.deep_view() }
    }
}

/// The optional stage that fetches and compiles a library.
#[derive(Clone, Copy, PartialEq, Eq, Debug, Structural)]
pub enum Stage {
    /// Nothing is fetched or compiled.
    Skip,
    /// The sources are fetched, then compiled.
    FetchAndCompile,
}

/// The location that follows from the override alone: the override's
/// `include` below the override as root, or the bundled headers and no root.
pub open spec fn spec_resolve(
    spec: LibrarySpecView,
    override_dir: Option<Seq<char>>,
) -> ResolvedLocationView {
    match override_dir {
        Some(dir) => ResolvedLocationView {
            include_dir: spec_join(dir, "include"@),
            root: Some(dir),
        },
        None => ResolvedLocationView { include_dir: spec.vendored_include, root: None },
    }
}

/// The directory that holds a library's fetched source tree: the library's
/// name below the build output directory.
pub open spec fn spec_working_dir(
    spec: LibrarySpecView,
    config: BuildConfigurationView,
) -> Seq<char> {
    spec_join(config.out_dir, spec.name)
}

/// Whether the build falls back on a source build: no root is resolved and
/// the library's switch is on.
pub open spec fn spec_builds_here(
    spec: LibrarySpecView,
    config: BuildConfigurationView,
    location: ResolvedLocationView,
) -> bool {
    location.root is None && spec_enabled(config.sources, spec.library)
}

/// The stage to run: fetching and compiling only where the build falls back
/// on a source build and no working directory is left from an earlier run.
pub open spec fn spec_stage(
    spec: LibrarySpecView,
    config: BuildConfigurationView,
    location: ResolvedLocationView,
    working_dir_exists: bool,
) -> Stage {
    if spec_builds_here(spec, config, location) && !working_dir_exists {
        Stage::FetchAndCompile
    } else {
        Stage::Skip
    }
}

/// The location once the source build is taken into account: where the build
/// falls back on one, the build output directory becomes the root.
pub open spec fn spec_settle(
    spec: LibrarySpecView,
    config: BuildConfigurationView,
    location: ResolvedLocationView,
) -> ResolvedLocationView {
    if spec_builds_here(spec, config, location) {
        ResolvedLocationView { root: Some(config.out_dir), ..location }
    } else {
        location
    }
}

/// The warning for a build that has no root: neither an installed copy nor a
/// source build.
pub open spec fn spec_missing_root_warning(spec: LibrarySpecView) -> Seq<char> {
    "`"@ + spec.name + "_dir` does not point to a valid directory. Please set the "@
        + spec.env_var + " environment variable or use `"@ + spec.feature + "` feature."@
}

/// The warning for an installed copy whose directory does not exist.
pub open spec fn spec_invalid_root_warning(spec: LibrarySpecView, dir: Seq<char>) -> Seq<char> {
    "`"@ + spec.name + "_dir` does not point to a valid directory: "@ + dir
}

/// Resolves a library from the value of its override variable, if set.
pub fn resolve(spec: &LibrarySpec, override_dir: Option<&str>) -> (location: ResolvedLocation)
    ensures
        location@ == spec_resolve(spec@, override_dir.deep_view()),
        override_dir is Some ==> location@.root == Some(override_dir->0@),
        override_dir is Some ==> location@.include_dir == spec_join(
            override_dir->0@,
            "include"@,
        ),
        override_dir is None ==> location@.root is None,
        override_dir is None ==> location@.include_dir == spec@.vendored_include,
{
    match override_dir {
        Some(dir) => ResolvedLocation {
            include_dir: join_path(dir, "include"),
            root: Some(String::from_str(dir)),
        },
        None => ResolvedLocation { include_dir: spec.vendored_include.clone(), root: None },
    }
}

/// The directory of a library's fetched source tree.
pub fn working_dir(spec: &LibrarySpec, config: &BuildConfiguration) -> (dir: String)
    ensures
        dir@ == spec_working_dir(spec@, config@),
{
    join_path(config.out_dir.as_str(), spec.name.as_str())
}

/// Decides whether the sources are fetched and compiled. `working_dir_exists`
/// says whether the library's working directory is there already.
pub fn stage(
    spec: &LibrarySpec,
    config: &BuildConfiguration,
    location: &ResolvedLocation,
    working_dir_exists: bool,
) -> (stage: Stage)
    ensures
        stage == spec_stage(spec@, config@, location@, working_dir_exists),
        working_dir_exists ==> stage == Stage::Skip,
        location@.root is Some ==> stage == Stage::Skip,
{
    if location.root.is_none() && config.builds_from_source(spec.library) && !working_dir_exists {
        Stage::FetchAndCompile
    } else {
        Stage::Skip
    }
}

/// Takes the source build into account: where no root is resolved and the
/// library is built from source, the build output directory becomes the root.
/// The header directory stays as resolved.
pub fn settle(
    spec: &LibrarySpec,
    config: &BuildConfiguration,
    location: ResolvedLocation,
) -> (settled: ResolvedLocation)
    ensures
        settled@ == spec_settle(spec@, config@, location@),
        settled@.include_dir == location@.include_dir,
        location@.root is Some ==> settled@ == location@,
{
    if location.root.is_none() && config.builds_from_source(spec.library) {
        ResolvedLocation { include_dir: location.include_dir, root: Some(config.out_dir.clone()) }
    } else {
        location
    }
}

/// The warning for a build without a root.
pub fn missing_root_warning(spec: &LibrarySpec) -> (text: String)
    ensures
        text@ == spec_missing_root_warning(spec@),
{
    String::from_str("`").concat(spec.name.as_str()).concat(
        "_dir` does not point to a valid directory. Please set the ",
    ).concat(spec.env_var.as_str()).concat(" environment variable or use `").concat(
        spec.feature.as_str(),
    ).concat("` feature.")
}

/// The warning for an installed copy whose directory is missing.
pub fn invalid_root_warning(spec: &LibrarySpec, dir: &str) -> (text: String)
    ensures
        text@ == spec_invalid_root_warning(spec@, dir@),
{
    String::from_str("`").concat(spec.name.as_str()).concat(
        "_dir` does not point to a valid directory: ",
    ).concat(dir)
}

} // verus!
