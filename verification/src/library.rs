//! The three native libraries and what is known of each before a build starts.

use vstd::prelude::*;
use vstd::string::*;
use crate::text::{owned_texts, spec_join};

verus! {

/// One of the native libraries this crate integrates.
#[derive(Clone, Copy, PartialEq, Eq, Debug, Structural)]
pub enum Library {
    /// The ephemeris reader.
    Calceph,
    /// The spacecraft and planetary toolkit.
    Cspice,
    /// The astrometric reduction library, which needs the other two.
    Supernovas,
}

impl View for Library {
    type V = Library;

    open spec fn view(&self) -> Library {
        *self
    }
}

impl DeepView for Library {
    type V = Library;

    open spec fn deep_view(&self) -> Library {
        *self
    }
}

/// The canonical name of a library: its working directory, its archive and
/// its link name.
pub open spec fn library_name(library: Library) -> Seq<char> {
    match library {
        Library::Calceph => "calceph"@,
        Library::Cspice => "cspice"@,
        Library::Supernovas => "supernovas"@,
    }
}

/// The header directory bundled with an integration, relative to the
/// integration's own directory.
pub open spec fn library_vendored_include(library: Library) -> Seq<char> {
    match library {
        Library::Calceph => "vendor/calceph/include"@,
        Library::Cspice => "vendor/cspice/include"@,
        Library::Supernovas => "vendor/SuperNOVAS/include"@,
    }
}

/// The key under which a library's resolved include path reaches the builds
/// that depend on it.
pub open spec fn library_metadata_key(library: Library) -> Seq<char> {
    match library {
        Library::Calceph => "DEP_CALCEPH_INCLUDE"@,
        Library::Cspice => "DEP_CSPICE_INCLUDE"@,
        Library::Supernovas => "DEP_SUPERNOVAS_INCLUDE"@,
    }
}

impl Library {
    /// The canonical name.
    pub fn name(self) -> (name: String)
        ensures
            name@ == library_name(self),
    {
        match self {
            Library::Calceph => String::from_str("calceph"),
            Library::Cspice => String::from_str("cspice"),
            Library::Supernovas => String::from_str("supernovas"),
        }
    }

    /// The bundled header directory.
    pub fn vendored_include(self) -> (path: String)
        ensures
            path@ == library_vendored_include(self),
    {
        match self {
            Library::Calceph => String::from_str("vendor/calceph/include"),
            Library::Cspice => String::from_str("vendor/cspice/include"),
            Library::Supernovas => String::from_str("vendor/SuperNOVAS/include"),
        }
    }

    /// The metadata key of the library's include path.
    pub fn metadata_key(self) -> (key: String)
        ensures
            key@ == library_metadata_key(self),
    {
        match self {
            Library::Calceph => String::from_str("DEP_CALCEPH_INCLUDE"),
            Library::Cspice => String::from_str("DEP_CSPICE_INCLUDE"),
            Library::Supernovas => String::from_str("DEP_SUPERNOVAS_INCLUDE"),
        }
    }
}

/// What identifies one integration: names, bundled paths, the release to
/// fetch, the public headers, and the libraries it builds upon.
#[derive(Clone, PartialEq, Eq, Debug)]
pub struct LibrarySpec {
    /// Which library this is; selects the archive location and the flag
    /// profile.
    pub library: Library,
    /// Canonical name: working directory, archive stem and link name.
    pub name: String,
    /// Environment variable that names an installed copy.
    pub env_var: String,
    /// Configuration switch that turns on building from source.
    pub feature: String,
    /// Header directory bundled with the integration.
    pub vendored_include: String,
    /// Release to fetch, where the archive location depends on one.
    pub version: Option<String>,
    /// Directory below `include` that holds the public headers; empty when
    /// they lie in `include` itself.
    pub header_dir: String,
    /// The public headers, by file name.
    pub headers: Vec<String>,
    /// Directory of the source files, relative to the source tree.
    pub source_dir: String,
    /// Bundled directory whose files replace the fetched sources, if any.
    pub source_overlay: Option<String>,
    /// The libraries whose include paths this one needs.
    pub upstream: Vec<Library>,
    /// Names the binding generator must leave out.
    pub blocklist: Vec<String>,
    /// Whether default values and debug formatting are asked for on every
    /// generated type.
    pub derive_extras: bool,
}

/// The mathematical content of a [`LibrarySpec`].
pub ghost struct LibrarySpecView {
    pub library: Library,
    pub name: Seq<char>,
    pub env_var: Seq<char>,
    pub feature: Seq<char>,
    pub vendored_include: Seq<char>,
    pub version: Option<Seq<char>>,
    pub header_dir: Seq<char>,
    pub headers: Seq<Seq<char>>,
    pub source_dir: Seq<char>,
    pub source_overlay: Option<Seq<char>>,
    pub upstream: Seq<Library>,
    pub blocklist: Seq<Seq<char>>,
    pub derive_extras: bool,
}

impl View for LibrarySpec {
    type V = LibrarySpecView;

    open spec fn view(&self) -> LibrarySpecView {
        LibrarySpecView {
            library: self.library,
            name: self.name@,
            env_var: self.env_var@,
            feature: self.feature@,
            vendored_include: self.vendored_include@,
            version: self.version.deep_view(),
            header_dir: self.header_dir@,
            headers: self.headers.deep_view(),
            source_dir: self.source_dir@,
            source_overlay: self.source_overlay.deep_view(),
            upstream: self.upstream@,
            blocklist: self.blocklist.deep_view(),
            derive_extras: self.derive_extras,
        }
    }
}

/// The directory that holds a library's public headers below an include
/// path.
pub open spec fn spec_header_base(spec: LibrarySpecView, include_dir: Seq<char>) -> Seq<char> {
    spec_join(include_dir, spec.header_dir)
}

/// The ephemeris reader: one umbrella header, built with CMake from a tagged
/// release.
pub open spec fn spec_calceph() -> LibrarySpecView {
    LibrarySpecView {
        library: Library::Calceph,
        name: "calceph"@,
        env_var: "CALCEPH_DIR"@,
        feature: "calceph-src"@,
        vendored_include: "vendor/calceph/include"@,
        version: Some("4_0_5"@),
        header_dir: ""@,
        headers: seq!["calceph.h"@],
        source_dir: "src"@,
        source_overlay: None,
        upstream: seq![],
        blocklist: seq![],
        derive_extras: false,
    }
}

/// The toolkit: one umbrella header below `include/cspice`, fetched as a
/// per-platform bundle that carries no version in its location.
pub open spec fn spec_cspice() -> LibrarySpecView {
    LibrarySpecView {
        library: Library::Cspice,
        name: "cspice"@,
        env_var: "CSPICE_DIR"@,
        feature: "cspice-src"@,
        vendored_include: "vendor/cspice/include"@,
        version: None,
        header_dir: "cspice"@,
        headers: seq!["SpiceUsr.h"@],
        source_dir: "src/cspice"@,
        source_overlay: None,
        upstream: seq![],
        blocklist: seq![],
        derive_extras: false,
    }
}

/// The astrometry library: five headers, bundled sources that replace the
/// fetched ones, and two upstream libraries.
pub open spec fn spec_supernovas() -> LibrarySpecView {
    LibrarySpecView {
        library: Library::Supernovas,
        name: "supernovas"@,
        env_var: "SUPERNOVAS_DIR"@,
        feature: "novas-src"@,
        vendored_include: "vendor/SuperNOVAS/include"@,
        version: Some("1.4.0"@),
        header_dir: ""@,
        headers: seq![
            "novas-calceph.h"@,
            "novas-cspice.h"@,
            "novas.h"@,
            "nutation.h"@,
            "solarsystem.h"@,
        ],
        source_dir: "src"@,
        source_overlay: Some("vendor/SuperNOVAS/src"@),
        upstream: seq![Library::Cspice, Library::Calceph],
        blocklist: seq![
            "FP_NAN"@,
            "FP_INFINITE"@,
            "FP_ZERO"@,
            "FP_SUBNORMAL"@,
            "FP_NORMAL"@,
        ],
        derive_extras: true,
    }
}

/// The description of each library as this crate ships it.
pub open spec fn spec_library_spec(library: Library) -> LibrarySpecView {
    match library {
        Library::Calceph => spec_calceph(),
        Library::Cspice => spec_cspice(),
        Library::Supernovas => spec_supernovas(),
    }
}

impl LibrarySpec {
    /// The ephemeris reader.
    pub fn calceph() -> (spec: LibrarySpec)
        ensures
            spec@ == spec_calceph(),
    {
        let headers = owned_texts(&vec!["calceph.h"]);
        let blocklist: Vec<String> = Vec::new();
        let upstream: Vec<Library> = Vec::new();
        proof {
            assert(headers.deep_view() =~= seq!["calceph.h"@]);
            assert(blocklist.deep_view() =~= Seq::<Seq<char>>::empty());
            assert(upstream@ =~= Seq::<Library>::empty());
        }
        let spec = LibrarySpec {
            library: Library::Calceph,
            name: String::from_str("calceph"),
            env_var: String::from_str("CALCEPH_DIR"),
            feature: String::from_str("calceph-src"),
            vendored_include: String::from_str("vendor/calceph/include"),
            version: Some(String::from_str("4_0_5")),
            header_dir: String::from_str(""),
            headers,
            source_dir: String::from_str("src"),
            source_overlay: None,
            upstream,
            blocklist,
            derive_extras: false,
        };
        spec
    }

    /// The toolkit.
    pub fn cspice() -> (spec: LibrarySpec)
        ensures
            spec@ == spec_cspice(),
    {
        let headers = owned_texts(&vec!["SpiceUsr.h"]);
        let blocklist: Vec<String> = Vec::new();
        let upstream: Vec<Library> = Vec::new();
        proof {
            assert(headers.deep_view() =~= seq!["SpiceUsr.h"@]);
            assert(blocklist.deep_view() =~= Seq::<Seq<char>>::empty());
            assert(upstream@ =~= Seq::<Library>::empty());
        }
        let spec = LibrarySpec {
            library: Library::Cspice,
            name: String::from_str("cspice"),
            env_var: String::from_str("CSPICE_DIR"),
            feature: String::from_str("cspice-src"),
            vendored_include: String::from_str("vendor/cspice/include"),
            version: None,
            header_dir: String::from_str("cspice"),
            headers,
            source_dir: String::from_str("src/cspice"),
            source_overlay: None,
            upstream,
            blocklist,
            derive_extras: false,
        };
        spec
    }

    /// The astrometry library.
    pub fn supernovas() -> (spec: LibrarySpec)
        ensures
            spec@ == spec_supernovas(),
    {
        let headers = owned_texts(
            &vec!["novas-calceph.h", "novas-cspice.h", "novas.h", "nutation.h", "solarsystem.h"],
        );
        let blocklist = owned_texts(
            &vec!["FP_NAN", "FP_INFINITE", "FP_ZERO", "FP_SUBNORMAL", "FP_NORMAL"],
        );
        let upstream: Vec<Library> = vec![Library::Cspice, Library::Calceph];
        proof {
            assert(headers.deep_view() =~= seq![
                "novas-calceph.h"@,
                "novas-cspice.h"@,
                "novas.h"@,
                "nutation.h"@,
                "solarsystem.h"@,
            ]);
            assert(blocklist.deep_view() =~= seq![
                "FP_NAN"@,
                "FP_INFINITE"@,
                "FP_ZERO"@,
                "FP_SUBNORMAL"@,
                "FP_NORMAL"@,
            ]);
        }
        let spec = LibrarySpec {
            library: Library::Supernovas,
            name: String::from_str("supernovas"),
            env_var: String::from_str("SUPERNOVAS_DIR"),
            feature: String::from_str("novas-src"),
            vendored_include: String::from_str("vendor/SuperNOVAS/include"),
            version: Some(String::from_str("1.4.0")),
            header_dir: String::from_str(""),
            headers,
            source_dir: String::from_str("src"),
            source_overlay: Some(String::from_str("vendor/SuperNOVAS/src")),
            upstream,
            blocklist,
            derive_extras: true,
        };
        spec
    }

    /// The description of `library` as this crate ships it.
    pub fn of(library: Library) -> (spec: LibrarySpec)
        ensures
            spec@ == spec_library_spec(library),
    {
        match library {
            Library::Calceph => LibrarySpec::calceph(),
            Library::Cspice => LibrarySpec::cspice(),
            Library::Supernovas => LibrarySpec::supernovas(),
        }
    }

    /// The same integration at another release.
    pub fn with_version(self, version: &str) -> (spec: LibrarySpec)
        ensures
            spec@ == (LibrarySpecView { version: Some(version@), ..self@ }),
    {
        let mut spec = self;
        spec.version = Some(String::from_str(version));
        spec
    }
}

} // verus!
