//! The steps of a build plan. The library decides which steps a build takes
//! and with what arguments; the caller performs them in order and stops the
//! build at the first one that fails.

use vstd::prelude::*;
use vstd::string::*;
use crate::directive::{Directive, DirectiveView};
use crate::list::{empty_list, push_item};

verus! {

/// What the binding generator is given.
#[derive(Clone, PartialEq, Eq, Debug)]
pub struct BindingPlan {
    /// The headers to bind, by path.
    pub headers: Vec<String>,
    /// Arguments for the C front end: the header search paths.
    pub clang_args: Vec<String>,
    /// Names to leave out of the bindings.
    pub blocklist: Vec<String>,
    /// Whether a default value is asked for on every generated type; where
    /// it is not, the generator decides.
    pub derive_default: bool,
    /// Whether debug formatting is asked for on every generated type; where
    /// it is not, the generator decides.
    pub derive_debug: bool,
    /// The file that receives the bindings.
    pub output: String,
}

/// The mathematical content of a [`BindingPlan`].
pub ghost struct BindingPlanView {
    pub headers: Seq<Seq<char>>,
    pub clang_args: Seq<Seq<char>>,
    pub blocklist: Seq<Seq<char>>,
    pub derive_default: bool,
    pub derive_debug: bool,
    pub output: Seq<char>,
}

impl View for BindingPlan {
    type V = BindingPlanView;

    open spec fn view(&self) -> BindingPlanView {
        BindingPlanView {
            headers: self.headers.deep_view(),
            clang_args: self.clang_args.deep_view(),
            blocklist: self.blocklist.deep_view(),
            derive_default: self.derive_default,
            derive_debug: self.derive_debug,
            output: self.output@,
        }
    }
}

/// A compilation of C sources into one static archive.
#[derive(Clone, PartialEq, Eq, Debug)]
pub struct CcBuild {
    /// The archive's name, without prefix or extension.
    pub name: String,
    /// The directory that receives the archive.
    pub out_dir: String,
    /// The directory whose C files, and no others, are compiled.
    pub source_dir: String,
    /// Header search paths, in order.
    pub include_dirs: Vec<String>,
    /// Compiler flags; one that the compiler does not know is left out.
    pub flags: Vec<String>,
    /// Preprocessor definitions, with or without a value.
    pub defines: Vec<(String, Option<String>)>,
}

/// The mathematical content of a [`CcBuild`].
pub ghost struct CcBuildView {
    pub name: Seq<char>,
    pub out_dir: Seq<char>,
    pub source_dir: Seq<char>,
    pub include_dirs: Seq<Seq<char>>,
    pub flags: Seq<Seq<char>>,
    pub defines: Seq<(Seq<char>, Option<Seq<char>>)>,
}

impl View for CcBuild {
    type V = CcBuildView;

    open spec fn view(&self) -> CcBuildView {
        CcBuildView {
            name: self.name@,
            out_dir: self.out_dir@,
            source_dir: self.source_dir@,
            include_dirs: self.include_dirs.deep_view(),
            flags: self.flags.deep_view(),
            defines: self.defines.deep_view(),
        }
    }
}

/// A build of a CMake project, installed into the build output directory.
#[derive(Clone, PartialEq, Eq, Debug)]
pub struct CmakeBuild {
    /// The directory of the project.
    pub source_dir: String,
    /// Cache entries: name and value.
    pub defines: Vec<(String, String)>,
    /// The generator to use instead of the default one, if any.
    pub generator: Option<String>,
}

/// The mathematical content of a [`CmakeBuild`].
pub ghost struct CmakeBuildView {
    pub source_dir: Seq<char>,
    pub defines: Seq<(Seq<char>, Seq<char>)>,
    pub generator: Option<Seq<char>>,
}

impl View for CmakeBuild {
    type V = CmakeBuildView;

    open spec fn view(&self) -> CmakeBuildView {
        CmakeBuildView {
            source_dir: self.source_dir@,
            defines: self.defines.deep_view(),
            generator: self.generator.deep_view(),
        }
    }
}

/// One step of a build.
#[derive(Clone, PartialEq, Eq, Debug)]
pub enum Step {
    /// Publish a directive.
    Emit(Directive),
    /// Generate the bindings.
    GenerateBindings(BindingPlan),
    /// Fetch `url` and store the body in the file `target`.
    Download { url: String, target: String },
    /// Run a program in the directory `dir`; an exit status other than
    /// success fails the build.
    Run { program: String, args: Vec<String>, dir: String },
    /// Remove a directory and all it holds, if it exists.
    RemoveDir(String),
    /// Create a directory and its missing parents.
    CreateDir(String),
    /// Rename a file or directory.
    Rename { from: String, to: String },
    /// Copy one file.
    CopyFile { from: String, to: String },
    /// Copy every regular file that lies directly in `from` into `to`.
    CopyFiles { from: String, to: String },
    /// Compile C sources into a static archive.
    CompileC(CcBuild),
    /// Build and install a CMake project.
    CompileCmake(CmakeBuild),
}

/// The mathematical content of a [`Step`].
pub ghost enum StepView {
    Emit(DirectiveView),
    GenerateBindings(BindingPlanView),
    Download { url: Seq<char>, target: Seq<char> },
    Run { program: Seq<char>, args: Seq<Seq<char>>, dir: Seq<char> },
    RemoveDir(Seq<char>),
    CreateDir(Seq<char>),
    Rename { from: Seq<char>, to: Seq<char> },
    CopyFile { from: Seq<char>, to: Seq<char> },
    CopyFiles { from: Seq<char>, to: Seq<char> },
    CompileC(CcBuildView),
    CompileCmake(CmakeBuildView),
}

impl View for Step {
    type V = StepView;

    open spec fn view(&self) -> StepView {
        match self {
            Step::Emit(directive) => StepView::Emit(directive@),
            Step::GenerateBindings(plan) => StepView::GenerateBindings(plan@),
            Step::Download { url, target } => StepView::Download { url: url@, target: target@ },
            Step::Run { program, args, dir } => StepView::Run {
                program: program@,
                args: args.deep_view(),
                dir: dir@,
            },
            Step::RemoveDir(path) => StepView::RemoveDir(path@),
            Step::CreateDir(path) => StepView::CreateDir(path@),
            Step::Rename { from, to } => StepView::Rename { from: from@, to: to@ },
            Step::CopyFile { from, to } => StepView::CopyFile { from: from@, to: to@ },
            Step::CopyFiles { from, to } => StepView::CopyFiles { from: from@, to: to@ },
            Step::CompileC(build) => StepView::CompileC(build@),
            Step::CompileCmake(build) => StepView::CompileCmake(build@),
        }
    }
}

impl DeepView for Step {
    type V = StepView;

    open spec fn deep_view(&self) -> StepView {
        self@
    }
}

/// Why no plan can be made for a build.
#[derive(Clone, Copy, PartialEq, Eq, Debug, Structural)]
pub enum PlanError {
    /// The header directory of the library does not exist.
    MissingHeaders,
    /// The sources are to be fetched, and the archive's location needs a
    /// release that the library's description does not name.
    MissingVersion,
    /// The sources are to be fetched, and no bundle is offered for the host.
    UnsupportedHost,
}

/// Whether a step reaches out to the network.
pub open spec fn is_download(step: StepView) -> bool {
    step is Download
}

/// Whether a step runs an archive tool.
pub open spec fn is_extraction(step: StepView) -> bool {
    step is Run
}

/// Whether a step compiles native sources.
pub open spec fn is_compilation(step: StepView) -> bool {
    step is CompileC || step is CompileCmake
}

/// One step for each directive: publishing it.
pub open spec fn spec_emit_all(directives: Seq<DirectiveView>) -> Seq<StepView> {
    directives.map_values(|directive: DirectiveView| StepView::Emit(directive))
}

/// The steps that publish `directives`, in order.
pub fn emit_all(directives: &Vec<Directive>) -> (steps: Vec<Step>)
    ensures
        steps.deep_view() == spec_emit_all(directives.deep_view()),
{
    let ghost each = |directive: DirectiveView| StepView::Emit(directive);
    let mut steps: Vec<Step> = empty_list();
    let mut i: usize = 0;
    proof {
        assert(directives.deep_view().take(0).map_values(each) =~= Seq::<StepView>::empty());
    }
    while i < directives.len()
        invariant
            i <= directives.len(),
            each == |directive: DirectiveView| StepView::Emit(directive),
            steps.deep_view() == directives.deep_view().take(i as int).map_values(each),
        decreases directives.len() - i,
    {
        push_item(&mut steps, Step::Emit(directives[i].duplicate()));
        proof {
            assert(directives.deep_view().take(i as int + 1).map_values(each)
                =~= directives.deep_view().take(i as int).map_values(each).push(
                each(directives.deep_view()[i as int]),
            ));
        }
        i += 1;
    }
    proof {
        assert(directives.deep_view().take(directives.len() as int) =~= directives.deep_view());
    }
    steps
}

impl Step {
    /// Whether this step reaches out to the network.
    pub fn is_download(&self) -> (yes: bool)
        ensures
            yes == is_download(self@),
    {
        match self {
            Step::Download { .. } => true,
            _ => false,
        }
    }

    /// Whether this step runs an archive tool.
    pub fn is_extraction(&self) -> (yes: bool)
        ensures
            yes == is_extraction(self@),
    {
        match self {
            Step::Run { .. } => true,
            _ => false,
        }
    }

    /// Whether this step compiles native sources.
    pub fn is_compilation(&self) -> (yes: bool)
        ensures
            yes == is_compilation(self@),
    {
        match self {
            Step::CompileC(_) => true,
            Step::CompileCmake(_) => true,
            _ => false,
        }
    }
}

} // verus!
