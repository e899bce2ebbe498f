//! Compiling a fetched source tree: the sources to compile, the flags and
//! definitions for the target's toolchain, the search paths of the upstream
//! libraries, and the public headers to copy out afterwards.

use vstd::prelude::*;
use vstd::string::*;
use crate::config::{
    spec_targets_windows,
    spec_toolchain,
    BuildConfiguration,
    BuildConfigurationView,
    Toolchain,
};
use crate::directive::{Directive, DirectiveView};
use crate::fetch::{source_dir, spec_source_dir};
use crate::library::{spec_header_base, Library, LibrarySpec, LibrarySpecView};
use crate::list::{append_items, empty_list, push_item};
use crate::location::{spec_working_dir, working_dir};
use crate::registry::{spec_upstream_includes, DependencyRegistry};
use crate::step::{
    emit_all,
    spec_emit_all,
    CcBuild,
    CcBuildView,
    CmakeBuild,
    CmakeBuildView,
    Step,
    StepView,
};
use crate::text::{
    has_extension,
    join_all,
    join_path,
    owned_texts,
    spec_has_extension,
    spec_join,
    spec_join_all,
};

verus! {

/// Whether a file name is that of a C source.
pub open spec fn spec_is_c_source(name: Seq<char>) -> bool {
    spec_has_extension(name, "c"@)
}

/// The paths of the C sources among the entries of a directory, in the order
/// of the listing.
pub open spec fn spec_select_sources(dir: Seq<char>, names: Seq<Seq<char>>) -> Seq<Seq<char>> {
    names.filter(|name: Seq<char>| spec_is_c_source(name)).map_values(
        |name: Seq<char>| spec_join(dir, name),
    )
}

/// The compiler flags of a library for a toolchain family. The toolkit has a
/// profile for each family, the astrometry library one for Microsoft's
/// compiler; the ephemeris reader is not built by this compiler driver.
pub open spec fn spec_flags(library: Library, toolchain: Toolchain) -> Seq<Seq<char>> {
    match (library, toolchain) {
        (Library::Cspice, Toolchain::Msvc) => seq!["/c"@, "/TC"@, "/MP"@, "/O2"@],
        (Library::Cspice, Toolchain::Gnu) => seq!["-c"@, "-ansi"@, "-m64"@, "-O2"@, "-fPIC"@],
        (Library::Supernovas, Toolchain::Msvc) => seq!["/std:c11"@, "/MP"@, "/O2"@],
        _ => seq![],
    }
}

/// The preprocessor definitions of a library for a toolchain family.
pub open spec fn spec_defines(library: Library, toolchain: Toolchain) -> Seq<
    (Seq<char>, Option<Seq<char>>),
> {
    match (library, toolchain) {
        (Library::Cspice, Toolchain::Msvc) => seq![
            ("KR_headers"@, None),
            ("_COMPLEX_DEFINED"@, None),
            ("MSDOS"@, None),
            ("OMIT_BLANK_CC"@, None),
            ("NON_ANSI_STDIO"@, None),
        ],
        (Library::Cspice, Toolchain::Gnu) => seq![("NON_UNIX_STDIO"@, None)],
        (Library::Supernovas, Toolchain::Msvc) => seq![
            ("restrict"@, Some(""@)),
            ("strcasecmp"@, Some("_stricmp"@)),
            ("strncasecmp"@, Some("_strnicmp"@)),
            ("_CRT_SECURE_NO_WARNINGS"@, Some(""@)),
            ("_CRT_NONSTDC_NO_DEPRECATE"@, Some(""@)),
        ],
        _ => seq![],
    }
}

/// Whether the build chooses the C runtime itself: the astrometry library on
/// a Windows target.
pub open spec fn spec_selects_runtime(
    spec: LibrarySpecView,
    config: BuildConfigurationView,
) -> bool {
    spec.library == Library::Supernovas && spec_targets_windows(config.target)
}

/// The import library of the C runtime for a build mode.
pub open spec fn spec_runtime_lib(debug: bool) -> Seq<char> {
    if debug {
        "msvcrtd"@
    } else {
        "msvcrt"@
    }
}

/// The compiler flag that selects the C runtime for a build mode.
pub open spec fn spec_runtime_flag(debug: bool) -> Seq<char> {
    if debug {
        "/MDd"@
    } else {
        "/MD"@
    }
}

/// The directives that link the chosen C runtime and no other: the runtime
/// and the legacy I/O definitions are linked, both default runtimes are
/// suppressed, and the chosen one is forced.
pub open spec fn spec_runtime_directives(debug: bool) -> Seq<DirectiveView> {
    seq![
        DirectiveView::LinkLib { name: spec_runtime_lib(debug), is_static: false },
        DirectiveView::LinkLib { name: "legacy_stdio_definitions"@, is_static: false },
        DirectiveView::LinkArg("/NODEFAULTLIB:msvcrt.lib"@),
        DirectiveView::LinkArg("/NODEFAULTLIB:msvcrtd.lib"@),
        DirectiveView::LinkArg("/DEFAULTLIB:"@ + spec_runtime_lib(debug) + ".lib"@),
    ]
}

/// All flags of a compilation: the profile of the toolchain, then the
/// runtime flag where the build chooses the runtime.
pub open spec fn spec_all_flags(
    spec: LibrarySpecView,
    config: BuildConfigurationView,
) -> Seq<Seq<char>> {
    spec_flags(spec.library, spec_toolchain(config.target)) + (if spec_selects_runtime(
        spec,
        config,
    ) {
        seq![spec_runtime_flag(config.debug)]
    } else {
        seq![]
    })
}

/// The compilation of a library's C sources: the include path of every
/// upstream library comes first on the search path, then the tree's own.
pub open spec fn spec_cc_build(
    spec: LibrarySpecView,
    config: BuildConfigurationView,
    registry: Map<Library, Seq<char>>,
) -> CcBuildView {
    CcBuildView {
        name: spec.name,
        out_dir: spec_join(config.out_dir, "lib"@),
        source_dir: spec_source_dir(spec, config),
        include_dirs: spec_upstream_includes(registry, spec.upstream).push(
            spec_join(spec_working_dir(spec, config), "include"@),
        ),
        flags: spec_all_flags(spec, config),
        defines: spec_defines(spec.library, spec_toolchain(config.target)),
    }
}

/// The CMake build of a library: Fortran support is switched off, and
/// Microsoft's compiler gets NMake makefiles.
pub open spec fn spec_cmake_build(
    spec: LibrarySpecView,
    config: BuildConfigurationView,
) -> CmakeBuildView {
    CmakeBuildView {
        source_dir: spec_working_dir(spec, config),
        defines: seq![("ENABLE_FORTRAN"@, "OFF"@)],
        generator: if spec_toolchain(config.target) == Toolchain::Msvc {
            Some("NMake Makefiles"@)
        } else {
            None
        },
    }
}

/// The copy of one public header from the source tree to the build output.
pub open spec fn spec_header_copy(
    spec: LibrarySpecView,
    config: BuildConfigurationView,
    header: Seq<char>,
) -> StepView {
    StepView::CopyFile {
        from: spec_join(spec_join(spec_working_dir(spec, config), "include"@), header),
        to: spec_join(spec_header_base(spec, spec_join(config.out_dir, "include"@)), header),
    }
}

/// The steps that copy the public headers, and only those, to the build
/// output: the directory is made, then each header is copied.
pub open spec fn spec_header_steps(
    spec: LibrarySpecView,
    config: BuildConfigurationView,
) -> Seq<StepView> {
    seq![StepView::CreateDir(spec_header_base(spec, spec_join(config.out_dir, "include"@)))]
        + spec.headers.map_values(|header: Seq<char>| spec_header_copy(spec, config, header))
}

/// The steps that publish the choice of C runtime, where the build makes
/// one.
pub open spec fn spec_runtime_steps(
    spec: LibrarySpecView,
    config: BuildConfigurationView,
) -> Seq<StepView> {
    if spec_selects_runtime(spec, config) {
        spec_emit_all(spec_runtime_directives(config.debug))
    } else {
        seq![]
    }
}

/// All steps that compile a fetched library. The ephemeris reader is a
/// CMake project whose installation lays out headers and archive itself; the
/// others are compiled file by file, and their public headers copied.
pub open spec fn spec_compile_steps(
    spec: LibrarySpecView,
    config: BuildConfigurationView,
    registry: Map<Library, Seq<char>>,
) -> Seq<StepView> {
    match spec.library {
        Library::Calceph => seq![StepView::CompileCmake(spec_cmake_build(spec, config))],
        _ => seq![StepView::CompileC(spec_cc_build(spec, config, registry))] + spec_runtime_steps(
            spec,
            config,
        ) + spec_header_steps(spec, config),
    }
}

/// What a source build leaves in the build output directory for the linker
/// and for dependent builds.
#[derive(Clone, PartialEq, Eq, Debug)]
pub struct CompiledArtifact {
    /// The directory that holds the static archive.
    pub lib_dir: String,
    /// The archive's link name.
    pub name: String,
    /// The public headers, by path.
    pub headers: Vec<String>,
}

/// The mathematical content of a [`CompiledArtifact`].
pub ghost struct CompiledArtifactView {
    pub lib_dir: Seq<char>,
    pub name: Seq<char>,
    pub headers: Seq<Seq<char>>,
}

impl View for CompiledArtifact {
    type V = CompiledArtifactView;

    open spec fn view(&self) -> CompiledArtifactView {
        CompiledArtifactView {
            lib_dir: self.lib_dir@,
            name: self.name@,
            headers: self.headers.deep_view(),
        }
    }
}

/// The artifact of a library's source build: the archive in `lib` and the
/// public headers in `include`, both below the build output directory.
pub open spec fn spec_artifact(
    spec: LibrarySpecView,
    config: BuildConfigurationView,
) -> CompiledArtifactView {
    CompiledArtifactView {
        lib_dir: spec_join(config.out_dir, "lib"@),
        name: spec.name,
        headers: spec_join_all(
            spec_header_base(spec, spec_join(config.out_dir, "include"@)),
            spec.headers,
        ),
    }
}

/// Filtering a list that ends in `last` filters the rest and keeps `last`
/// where it is picked.
pub proof fn lemma_filter_push<A>(rest: Seq<A>, last: A, pick: spec_fn(A) -> bool)
    ensures
        rest.push(last).filter(pick) == if pick(last) {
            rest.filter(pick).push(last)
        } else {
            rest.filter(pick)
        },
{
    reveal(Seq::filter);
    assert(rest.push(last).drop_last() =~= rest);
}

/// Whether a file name is that of a C source.
pub fn is_c_source(name: &str) -> (yes: bool)
    ensures
        yes == spec_is_c_source(name@),
{
    has_extension(name, "c")
}

/// The C sources among the entries `names` of the directory `dir`, as
/// paths. Only entries directly in the directory are given, so none below it
/// is compiled.
pub fn select_sources(dir: &str, names: &Vec<String>) -> (paths: Vec<String>)
    ensures
        paths.deep_view() == spec_select_sources(dir@, names.deep_view()),
{
    let ghost pick = |name: Seq<char>| spec_is_c_source(name);
    let ghost each = |name: Seq<char>| spec_join(dir@, name);
    let mut paths: Vec<String> = empty_list();
    let mut i: usize = 0;
    proof {
        reveal(Seq::filter);
        assert(names.deep_view().take(0).filter(pick).map_values(each) =~= Seq::<
            Seq<char>,
        >::empty());
    }
    while i < names.len()
        invariant
            i <= names.len(),
            pick == |name: Seq<char>| spec_is_c_source(name),
            each == |name: Seq<char>| spec_join(dir@, name),
            paths.deep_view() == names.deep_view().take(i as int).filter(pick).map_values(each),
        decreases names.len() - i,
    {
        let ghost done = names.deep_view().take(i as int);
        let ghost name = names.deep_view()[i as int];
        proof {
            assert(names.deep_view().take(i as int + 1) =~= done.push(name));
            lemma_filter_push(done, name, pick);
        }
        if is_c_source(names[i].as_str()) {
            push_item(&mut paths, join_path(dir, names[i].as_str()));
            proof {
                assert(done.filter(pick).push(name).map_values(each) =~= done.filter(
                    pick,
                ).map_values(each).push(each(name)));
            }
        }
        i += 1;
    }
    proof {
        assert(names.deep_view().take(names.len() as int) =~= names.deep_view());
    }
    paths
}

/// The import library of the C runtime for a build mode.
pub fn runtime_lib(debug: bool) -> (name: String)
    ensures
        name@ == spec_runtime_lib(debug),
{
    if debug {
        String::from_str("msvcrtd")
    } else {
        String::from_str("msvcrt")
    }
}

/// The compiler flag that selects the C runtime for a build mode.
pub fn runtime_flag(debug: bool) -> (flag: String)
    ensures
        flag@ == spec_runtime_flag(debug),
{
    if debug {
        String::from_str("/MDd")
    } else {
        String::from_str("/MD")
    }
}

/// The directives that link the C runtime of a build mode and no other.
pub fn runtime_directives(debug: bool) -> (directives: Vec<Directive>)
    ensures
        directives.deep_view() == spec_runtime_directives(debug),
{
    let mut directives: Vec<Directive> = empty_list();
    push_item(&mut directives, Directive::LinkLib { name: runtime_lib(debug), is_static: false });
    push_item(
        &mut directives,
        Directive::LinkLib { name: String::from_str("legacy_stdio_definitions"), is_static: false },
    );
    push_item(&mut directives, Directive::LinkArg(String::from_str("/NODEFAULTLIB:msvcrt.lib")));
    push_item(&mut directives, Directive::LinkArg(String::from_str("/NODEFAULTLIB:msvcrtd.lib")));
    let forced = String::from_str("/DEFAULTLIB:").concat(runtime_lib(debug).as_str()).concat(
        ".lib",
    );
    push_item(&mut directives, Directive::LinkArg(forced));
    proof {
        assert(directives.deep_view() =~= spec_runtime_directives(debug));
    }
    directives
}

/// Whether the build chooses the C runtime itself.
pub fn selects_runtime(spec: &LibrarySpec, config: &BuildConfiguration) -> (yes: bool)
    ensures
        yes == spec_selects_runtime(spec@, config@),
{
    match spec.library {
        Library::Supernovas => config.targets_windows(),
        _ => false,
    }
}

/// The compiler flags of a library for a toolchain family.
pub fn flags(library: Library, toolchain: Toolchain) -> (list: Vec<String>)
    ensures
        list.deep_view() == spec_flags(library, toolchain),
{
    let list = match (library, toolchain) {
        (Library::Cspice, Toolchain::Msvc) => owned_texts(&vec!["/c", "/TC", "/MP", "/O2"]),
        (Library::Cspice, Toolchain::Gnu) => owned_texts(
            &vec!["-c", "-ansi", "-m64", "-O2", "-fPIC"],
        ),
        (Library::Supernovas, Toolchain::Msvc) => owned_texts(&vec!["/std:c11", "/MP", "/O2"]),
        _ => empty_list(),
    };
    proof {
        assert(list.deep_view() =~= spec_flags(library, toolchain));
    }
    list
}

/// A definition without a value.
fn bare(name: &str) -> (define: (String, Option<String>))
    ensures
        define.deep_view() == (name@, None::<Seq<char>>),
{
    (String::from_str(name), None)
}

/// A definition with a value.
fn valued(name: &str, value: &str) -> (define: (String, Option<String>))
    ensures
        define.deep_view() == (name@, Some(value@)),
{
    (String::from_str(name), Some(String::from_str(value)))
}

/// The preprocessor definitions of a library for a toolchain family.
pub fn defines(library: Library, toolchain: Toolchain) -> (list: Vec<(String, Option<String>)>)
    ensures
        list.deep_view() == spec_defines(library, toolchain),
{
    let mut list: Vec<(String, Option<String>)> = empty_list();
    match (library, toolchain) {
        (Library::Cspice, Toolchain::Msvc) => {
            push_item(&mut list, bare("KR_headers"));
            push_item(&mut list, bare("_COMPLEX_DEFINED"));
            push_item(&mut list, bare("MSDOS"));
            push_item(&mut list, bare("OMIT_BLANK_CC"));
            push_item(&mut list, bare("NON_ANSI_STDIO"));
        },
        (Library::Cspice, Toolchain::Gnu) => {
            push_item(&mut list, bare("NON_UNIX_STDIO"));
        },
        (Library::Supernovas, Toolchain::Msvc) => {
            push_item(&mut list, valued("restrict", ""));
            push_item(&mut list, valued("strcasecmp", "_stricmp"));
            push_item(&mut list, valued("strncasecmp", "_strnicmp"));
            push_item(&mut list, valued("_CRT_SECURE_NO_WARNINGS", ""));
            push_item(&mut list, valued("_CRT_NONSTDC_NO_DEPRECATE", ""));
        },
        _ => {},
    }
    proof {
        assert(list.deep_view() =~= spec_defines(library, toolchain));
    }
    list
}

/// All flags of a compilation.
pub fn all_flags(spec: &LibrarySpec, config: &BuildConfiguration) -> (list: Vec<String>)
    ensures
        list.deep_view() == spec_all_flags(spec@, config@),
{
    let mut list = flags(spec.library, config.toolchain());
    if selects_runtime(spec, config) {
        push_item(&mut list, runtime_flag(config.debug));
        proof {
            assert(list.deep_view() =~= spec_all_flags(spec@, config@));
        }
    } else {
        proof {
            assert(list.deep_view() =~= spec_all_flags(spec@, config@));
        }
    }
    list
}

/// Plans the compilation of a library's C sources.
pub fn cc_build(
    spec: &LibrarySpec,
    config: &BuildConfiguration,
    registry: &DependencyRegistry,
) -> (build: CcBuild)
    ensures
        build@ == spec_cc_build(spec@, config@, registry@),
{
    let tree = working_dir(spec, config);
    let mut include_dirs = registry.upstream_includes(&spec.upstream);
    push_item(&mut include_dirs, join_path(tree.as_str(), "include"));
    let build = CcBuild {
        name: spec.name.clone(),
        out_dir: join_path(config.out_dir.as_str(), "lib"),
        source_dir: source_dir(spec, config),
        include_dirs,
        flags: all_flags(spec, config),
        defines: defines(spec.library, config.toolchain()),
    };
    build
}

/// Plans the CMake build of a library.
pub fn cmake_build(spec: &LibrarySpec, config: &BuildConfiguration) -> (build: CmakeBuild)
    ensures
        build@ == spec_cmake_build(spec@, config@),
{
    let mut defines: Vec<(String, String)> = empty_list();
    push_item(&mut defines, (String::from_str("ENABLE_FORTRAN"), String::from_str("OFF")));
    proof {
        assert(defines.deep_view() =~= seq![("ENABLE_FORTRAN"@, "OFF"@)]);
    }
    let generator = match config.toolchain() {
        Toolchain::Msvc => Some(String::from_str("NMake Makefiles")),
        _ => None,
    };
    let build = CmakeBuild { source_dir: working_dir(spec, config), defines, generator };
    build
}

/// The steps that copy the public headers to the build output.
pub fn header_steps(spec: &LibrarySpec, config: &BuildConfiguration) -> (steps: Vec<Step>)
    ensures
        steps.deep_view() == spec_header_steps(spec@, config@),
{
    let ghost each = |header: Seq<char>| spec_header_copy(spec@, config@, header);
    let tree = working_dir(spec, config);
    let from_dir = join_path(tree.as_str(), "include");
    let out_include = join_path(config.out_dir.as_str(), "include");
    let to_dir = join_path(out_include.as_str(), spec.header_dir.as_str());
    let mut steps: Vec<Step> = empty_list();
    push_item(&mut steps, Step::CreateDir(to_dir.clone()));
    let ghost first = steps.deep_view();
    let mut i: usize = 0;
    proof {
        assert(first =~= seq![StepView::CreateDir(to_dir@)]);
        assert(first + spec@.headers.take(0).map_values(each) =~= first);
    }
    while i < spec.headers.len()
        invariant
            i <= spec.headers.len(),
            each == |header: Seq<char>| spec_header_copy(spec@, config@, header),
            from_dir@ == spec_join(spec_working_dir(spec@, config@), "include"@),
            to_dir@ == spec_header_base(spec@, spec_join(config@.out_dir, "include"@)),
            first == seq![StepView::CreateDir(to_dir@)],
            steps.deep_view() == first + spec@.headers.take(i as int).map_values(each),
        decreases spec.headers.len() - i,
    {
        let header = spec.headers[i].as_str();
        push_item(
            &mut steps,
            Step::CopyFile {
                from: join_path(from_dir.as_str(), header),
                to: join_path(to_dir.as_str(), header),
            },
        );
        proof {
            assert(spec@.headers[i as int] == header@);
            assert((first + spec@.headers.take(i as int).map_values(each)).push(each(header@))
                =~= first + spec@.headers.take(i as int + 1).map_values(each));
        }
        i += 1;
    }
    proof {
        assert(spec@.headers.take(spec.headers.len() as int) =~= spec@.headers);
    }
    steps
}

/// The artifact that the source build of a library leaves behind.
pub fn artifact(spec: &LibrarySpec, config: &BuildConfiguration) -> (built: CompiledArtifact)
    ensures
        built@ == spec_artifact(spec@, config@),
{
    let out_include = join_path(config.out_dir.as_str(), "include");
    let base = join_path(out_include.as_str(), spec.header_dir.as_str());
    let built = CompiledArtifact {
        lib_dir: join_path(config.out_dir.as_str(), "lib"),
        name: spec.name.clone(),
        headers: join_all(base.as_str(), &spec.headers),
    };
    built
}

/// The steps that publish the choice of C runtime, where the build makes
/// one.
pub fn runtime_steps(spec: &LibrarySpec, config: &BuildConfiguration) -> (steps: Vec<Step>)
    ensures
        steps.deep_view() == spec_runtime_steps(spec@, config@),
{
    if selects_runtime(spec, config) {
        emit_all(&runtime_directives(config.debug))
    } else {
        empty_list()
    }
}

/// All steps that compile a fetched library, in order.
pub fn compile_steps(
    spec: &LibrarySpec,
    config: &BuildConfiguration,
    registry: &DependencyRegistry,
) -> (steps: Vec<Step>)
    ensures
        steps.deep_view() == spec_compile_steps(spec@, config@, registry@),
{
    let mut steps: Vec<Step> = empty_list();
    match spec.library {
        Library::Calceph => {
            push_item(&mut steps, Step::CompileCmake(cmake_build(spec, config)));
            proof {
                assert(steps.deep_view() =~= spec_compile_steps(spec@, config@, registry@));
            }
        },
        _ => {
            push_item(&mut steps, Step::CompileC(cc_build(spec, config, registry)));
            proof {
                assert(steps.deep_view() =~= seq![
                    StepView::CompileC(spec_cc_build(spec@, config@, registry@)),
                ]);
            }
            append_items(&mut steps, runtime_steps(spec, config));
            append_items(&mut steps, header_steps(spec, config));
        },
    }
    steps
}

} // verus!
