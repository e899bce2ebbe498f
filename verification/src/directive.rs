//! What a build publishes: instructions to the host build system and
//! metadata for the builds that depend on this one.

use vstd::prelude::*;
use vstd::string::*;

verus! {

/// One line of published build output.
#[derive(Clone, PartialEq, Eq, Debug)]
pub enum Directive {
    /// Run the build again when this environment variable changes.
    RerunIfEnvChanged(String),
    /// A warning shown to the user; the build goes on.
    Warning(String),
    /// A directory in which the linker looks for native libraries.
    LinkSearch(String),
    /// A library to link, as a static archive or as the linker finds it.
    LinkLib { name: String, is_static: bool },
    /// An argument handed to the linker as it stands.
    LinkArg(String),
    /// The include path of this library, for dependent builds.
    Include(String),
}

/// The mathematical content of a [`Directive`].
pub ghost enum DirectiveView {
    RerunIfEnvChanged(Seq<char>),
    Warning(Seq<char>),
    LinkSearch(Seq<char>),
    LinkLib { name: Seq<char>, is_static: bool },
    LinkArg(Seq<char>),
    Include(Seq<char>),
}

impl View for Directive {
    type V = DirectiveView;

    open spec fn view(&self) -> DirectiveView {
        match self {
            Directive::RerunIfEnvChanged(var) => DirectiveView::RerunIfEnvChanged(var@),
            Directive::Warning(text) => DirectiveView::Warning(text@),
            Directive::LinkSearch(path) => DirectiveView::LinkSearch(path@),
            Directive::LinkLib { name, is_static } => DirectiveView::LinkLib {
                name: name@,
                is_static: *is_static,
            },
            Directive::LinkArg(arg) => DirectiveView::LinkArg(arg@),
            Directive::Include(path) => DirectiveView::Include(path@),
        }
    }
}

impl DeepView for Directive {
    type V = DirectiveView;

    open spec fn deep_view(&self) -> DirectiveView {
        self@
    }
}

/// The line that the host build system reads for a directive.
pub open spec fn spec_render(directive: DirectiveView) -> Seq<char> {
    match directive {
        DirectiveView::RerunIfEnvChanged(var) => "cargo:rerun-if-env-changed="@ + var,
        DirectiveView::Warning(text) => "cargo:warning="@ + text,
        DirectiveView::LinkSearch(path) => "cargo:rustc-link-search=native="@ + path,
        DirectiveView::LinkLib { name, is_static } => if is_static {
            "cargo:rustc-link-lib=static="@ + name
        } else {
            "cargo:rustc-link-lib="@ + name
        },
        DirectiveView::LinkArg(arg) => "cargo:rustc-link-arg="@ + arg,
        DirectiveView::Include(path) => "cargo:include="@ + path,
    }
}

/// Whether a directive tells the linker where or what to link.
pub open spec fn is_link_directive(directive: DirectiveView) -> bool {
    directive is LinkSearch || directive is LinkLib || directive is LinkArg
}

impl Directive {
    /// The line to print for this directive.
    pub fn render(&self) -> (line: String)
        ensures
            line@ == spec_render(self@),
    {
        match self {
            Directive::RerunIfEnvChanged(var) => String::from_str(
                "cargo:rerun-if-env-changed=",
            ).concat(var.as_str()),
            Directive::Warning(text) => String::from_str("cargo:warning=").concat(text.as_str()),
            Directive::LinkSearch(path) => String::from_str(
                "cargo:rustc-link-search=native=",
            ).concat(path.as_str()),
            Directive::LinkLib { name, is_static } => if *is_static {
                String::from_str("cargo:rustc-link-lib=static=").concat(name.as_str())
            } else {
                String::from_str("cargo:rustc-link-lib=").concat(name.as_str())
            },
            Directive::LinkArg(arg) => String::from_str("cargo:rustc-link-arg=").concat(
                arg.as_str(),
            ),
            Directive::Include(path) => String::from_str("cargo:include=").concat(path.as_str()),
        }
    }

    /// A copy of this directive.
    pub fn duplicate(&self) -> (copy: Directive)
        ensures
            copy@ == self@,
    {
        match self {
            Directive::RerunIfEnvChanged(var) => Directive::RerunIfEnvChanged(var.clone()),
            Directive::Warning(text) => Directive::Warning(text.clone()),
            Directive::LinkSearch(path) => Directive::LinkSearch(path.clone()),
            Directive::LinkLib { name, is_static } => Directive::LinkLib {
                name: name.clone(),
                is_static: *is_static,
            },
            Directive::LinkArg(arg) => Directive::LinkArg(arg.clone()),
            Directive::Include(path) => Directive::Include(path.clone()),
        }
    }

    /// Whether this directive tells the linker where or what to link.
    pub fn is_link(&self) -> (link: bool)
        ensures
            link == is_link_directive(self@),
    {
        match self {
            Directive::LinkSearch(_) => true,
            Directive::LinkLib { .. } => true,
            Directive::LinkArg(_) => true,
            _ => false,
        }
    }
}

} // verus!
