//! The build configuration: target, host, mode, output directory and the
//! per-library switches for building from source. It is made once from the
//! build environment and only read afterwards.

use vstd::prelude::*;
use vstd::string::*;
use crate::library::Library;
use crate::text::{contains_text, equal_text, spec_contains};

verus! {

/// The family of the C toolchain that a target uses.
#[derive(Clone, Copy, PartialEq, Eq, Debug, Structural)]
pub enum Toolchain {
    /// Microsoft's compiler and its option syntax.
    Msvc,
    /// GCC and compatible compilers.
    Gnu,
    /// Anything else: no flag profile applies.
    Other,
}

/// The operating system that runs the build.
#[derive(Clone, Copy, PartialEq, Eq, Debug, Structural)]
pub enum HostOs {
    Linux,
    MacOs,
    Windows,
    /// A system for which no source bundle of the toolkit is offered.
    Other,
}

/// Which libraries are fetched and compiled when no installed copy is named.
#[derive(Clone, Copy, PartialEq, Eq, Debug, Structural)]
pub struct SourceBuilds {
    pub calceph: bool,
    pub cspice: bool,
    pub supernovas: bool,
}

/// Whether `library` is among the libraries built from source.
pub open spec fn spec_enabled(sources: SourceBuilds, library: Library) -> bool {
    match library {
        Library::Calceph => sources.calceph,
        Library::Cspice => sources.cspice,
        Library::Supernovas => sources.supernovas,
    }
}

/// The switches with the one of `library` set to `on` and the others as they
/// were.
pub open spec fn spec_with(sources: SourceBuilds, library: Library, on: bool) -> SourceBuilds {
    match library {
        Library::Calceph => SourceBuilds { calceph: on, ..sources },
        Library::Cspice => SourceBuilds { cspice: on, ..sources },
        Library::Supernovas => SourceBuilds { supernovas: on, ..sources },
    }
}

/// The toolchain family named in a target triple. A triple that names
/// neither family has none.
pub open spec fn spec_toolchain(target: Seq<char>) -> Toolchain {
    if spec_contains(target, "msvc"@) {
        Toolchain::Msvc
    } else if spec_contains(target, "gnu"@) {
        Toolchain::Gnu
    } else {
        Toolchain::Other
    }
}

/// Whether a target triple names Windows.
pub open spec fn spec_targets_windows(target: Seq<char>) -> bool {
    spec_contains(target, "windows"@)
}

/// The host system with the given name, as the standard library spells it.
pub open spec fn spec_host_os(name: Seq<char>) -> HostOs {
    if name == "linux"@ {
        HostOs::Linux
    } else if name == "macos"@ {
        HostOs::MacOs
    } else if name == "windows"@ {
        HostOs::Windows
    } else {
        HostOs::Other
    }
}

/// Whether the build mode variable asks for a debug build: only the value
/// `true` does.
pub open spec fn spec_debug_mode(value: Option<Seq<char>>) -> bool {
    value == Some("true"@)
}

impl SourceBuilds {
    /// No library is built from source.
    pub fn none() -> (sources: SourceBuilds)
        ensures
            sources == (SourceBuilds { calceph: false, cspice: false, supernovas: false }),
    {
        SourceBuilds { calceph: false, cspice: false, supernovas: false }
    }

    /// Whether `library` is built from source.
    pub fn enabled(self, library: Library) -> (on: bool)
        ensures
            on == spec_enabled(self, library),
    {
        match library {
            Library::Calceph => self.calceph,
            Library::Cspice => self.cspice,
            Library::Supernovas => self.supernovas,
        }
    }

    /// The same switches with the one of `library` set to `on`.
    pub fn with(self, library: Library, on: bool) -> (sources: SourceBuilds)
        ensures
            sources == spec_with(self, library, on),
    {
        match library {
            Library::Calceph => SourceBuilds { calceph: on, ..self },
            Library::Cspice => SourceBuilds { cspice: on, ..self },
            Library::Supernovas => SourceBuilds { supernovas: on, ..self },
        }
    }
}

impl HostOs {
    /// The host system with the given name.
    pub fn parse(name: &str) -> (host: HostOs)
        ensures
            host == spec_host_os(name@),
    {
        if equal_text(name, "linux") {
            HostOs::Linux
        } else if equal_text(name, "macos") {
            HostOs::MacOs
        } else if equal_text(name, "windows") {
            HostOs::Windows
        } else {
            HostOs::Other
        }
    }
}

/// Everything a build reads from its surroundings, apart from the paths of
/// installed libraries.
#[derive(Clone, PartialEq, Eq, Debug)]
pub struct BuildConfiguration {
    /// The target triple.
    pub target: String,
    /// The system that runs the build.
    pub host: HostOs,
    /// Whether the host's architecture is `arm`.
    pub host_arm: bool,
    /// Debug rather than release mode.
    pub debug: bool,
    /// The build output directory.
    pub out_dir: String,
    /// The libraries to build from source.
    pub sources: SourceBuilds,
}

/// The mathematical content of a [`BuildConfiguration`].
pub ghost struct BuildConfigurationView {
    pub target: Seq<char>,
    pub host: HostOs,
    pub host_arm: bool,
    pub debug: bool,
    pub out_dir: Seq<char>,
    pub sources: SourceBuilds,
}

impl View for BuildConfiguration {
    type V = BuildConfigurationView;

    open spec fn view(&self) -> BuildConfigurationView {
        BuildConfigurationView {
            target: self.target@,
            host: self.host,
            host_arm: self.host_arm,
            debug: self.debug,
            out_dir: self.out_dir@,
            sources: self.sources,
        }
    }
}

impl BuildConfiguration {
    /// The configuration that the build environment describes: the target
    /// triple, the output directory, the value of the build mode variable if
    /// it is set, and the host's system and architecture by name.
    pub fn from_environment(
        target: &str,
        out_dir: &str,
        debug: Option<&str>,
        host_os: &str,
        host_arch: &str,
        sources: SourceBuilds,
    ) -> (config: BuildConfiguration)
        ensures
            config@ == (BuildConfigurationView {
                target: target@,
                host: spec_host_os(host_os@),
                host_arm: host_arch@ == "arm"@,
                debug: spec_debug_mode(debug.deep_view()),
                out_dir: out_dir@,
                sources,
            }),
    {
        let debug_mode = match debug {
            Some(value) => equal_text(value, "true"),
            None => false,
        };
        let config = BuildConfiguration {
            target: String::from_str(target),
            host: HostOs::parse(host_os),
            host_arm: equal_text(host_arch, "arm"),
            debug: debug_mode,
            out_dir: String::from_str(out_dir),
            sources,
        };
        config
    }

    /// The toolchain family of the target.
    pub fn toolchain(&self) -> (family: Toolchain)
        ensures
            family == spec_toolchain(self@.target),
    {
        if contains_text(self.target.as_str(), "msvc") {
            Toolchain::Msvc
        } else if contains_text(self.target.as_str(), "gnu") {
            Toolchain::Gnu
        } else {
            Toolchain::Other
        }
    }

    /// Whether the target is a Windows system.
    pub fn targets_windows(&self) -> (windows: bool)
        ensures
            windows == spec_targets_windows(self@.target),
    {
        contains_text(self.target.as_str(), "windows")
    }

    /// Whether `library` is built from source when no installed copy is
    /// named.
    pub fn builds_from_source(&self, library: Library) -> (on: bool)
        ensures
            on == spec_enabled(self@.sources, library),
    {
        self.sources.enabled(library)
    }
}

} // verus!
