//! Fetching a library's sources: which archive, from where, how it is
//! unpacked, and under which name the source tree ends up. The tree's final
//! name is the library's name, whatever release the archive holds.

use vstd::prelude::*;
use vstd::string::*;
use crate::config::{BuildConfiguration, BuildConfigurationView, HostOs};
use crate::library::{Library, LibrarySpec, LibrarySpecView};
use crate::list::{append_items, empty_list, push_item};
use crate::location::{spec_working_dir, working_dir};
use crate::step::{PlanError, Step, StepView};
use crate::text::{equal_text, join_path, spec_join};

verus! {

/// How an archive is packed.
#[derive(Clone, Copy, PartialEq, Eq, Debug, Structural)]
pub enum ArchiveFormat {
    /// A tar file compressed with gzip.
    TarGz,
    /// A tar file compressed with compress.
    TarZ,
    /// A zip file.
    Zip,
}

impl DeepView for ArchiveFormat {
    type V = ArchiveFormat;

    open spec fn deep_view(&self) -> ArchiveFormat {
        *self
    }
}

/// The release archive of a library for one build.
#[derive(Clone, PartialEq, Eq, Debug)]
pub struct Archive {
    /// Where the archive is fetched from.
    pub url: String,
    /// The file name under which it is stored in the build output directory.
    pub file: String,
    /// How it is packed.
    pub format: ArchiveFormat,
    /// The name of the directory that unpacking creates.
    pub extracted: String,
}

/// The mathematical content of an [`Archive`].
pub ghost struct ArchiveView {
    pub url: Seq<char>,
    pub file: Seq<char>,
    pub format: ArchiveFormat,
    pub extracted: Seq<char>,
}

impl View for Archive {
    type V = ArchiveView;

    open spec fn view(&self) -> ArchiveView {
        ArchiveView {
            url: self.url@,
            file: self.file@,
            format: self.format,
            extracted: self.extracted@,
        }
    }
}

/// The file extension of an archive format.
pub open spec fn spec_extension(format: ArchiveFormat) -> Seq<char> {
    match format {
        ArchiveFormat::TarGz => "tar.gz"@,
        ArchiveFormat::TarZ => "tar.Z"@,
        ArchiveFormat::Zip => "zip"@,
    }
}

/// The toolkit's bundle for a host: the platform's name in the download
/// location and the format of the bundle. No bundle is offered for other
/// hosts.
pub open spec fn spec_bundle(host: HostOs, host_arm: bool) -> Option<(Seq<char>, ArchiveFormat)> {
    match host {
        HostOs::Linux => Some(("PC_Linux_GCC_64bit"@, ArchiveFormat::TarZ)),
        HostOs::MacOs => if host_arm {
            Some(("MacM1_OSX_clang_64bit"@, ArchiveFormat::TarZ))
        } else {
            Some(("MacIntel_OSX_AppleC_64bit"@, ArchiveFormat::TarZ))
        },
        HostOs::Windows => Some(("PC_Windows_VisualC_64bit"@, ArchiveFormat::Zip)),
        HostOs::Other => None,
    }
}

/// The archive of a tagged release of the ephemeris reader.
pub open spec fn spec_calceph_archive(version: Seq<char>) -> ArchiveView {
    ArchiveView {
        url: "https://gitlab.obspm.fr/imcce_calceph/calceph/-/archive/calceph_"@ + version
            + "/calceph-calceph_"@ + version + ".tar.gz"@,
        file: "calceph.tar.gz"@,
        format: ArchiveFormat::TarGz,
        extracted: "calceph-calceph_"@ + version,
    }
}

/// The archive of a tagged release of the astrometry library.
pub open spec fn spec_supernovas_archive(version: Seq<char>) -> ArchiveView {
    ArchiveView {
        url: "https://github.com/Smithsonian/SuperNOVAS/archive/refs/tags/v"@ + version
            + ".tar.gz"@,
        file: "supernovas.tar.gz"@,
        format: ArchiveFormat::TarGz,
        extracted: "SuperNOVAS-"@ + version,
    }
}

/// The toolkit's bundle for a platform. It unpacks into a directory that
/// carries no version.
pub open spec fn spec_cspice_archive(platform: Seq<char>, format: ArchiveFormat) -> ArchiveView {
    ArchiveView {
        url: "https://naif.jpl.nasa.gov/pub/naif/toolkit//C/"@ + platform + "/packages/cspice."@
            + spec_extension(format),
        file: "cspice."@ + spec_extension(format),
        format,
        extracted: "cspice"@,
    }
}

/// The archive to fetch for a library, or why there is none: a tagged
/// release needs a version, the toolkit needs a host for which a bundle is
/// offered.
pub open spec fn spec_archive(
    spec: LibrarySpecView,
    config: BuildConfigurationView,
) -> Result<ArchiveView, PlanError> {
    match spec.library {
        Library::Calceph => match spec.version {
            Some(version) => Ok(spec_calceph_archive(version)),
            None => Err(PlanError::MissingVersion),
        },
        Library::Supernovas => match spec.version {
            Some(version) => Ok(spec_supernovas_archive(version)),
            None => Err(PlanError::MissingVersion),
        },
        Library::Cspice => match spec_bundle(config.host, config.host_arm) {
            Some((platform, format)) => Ok(spec_cspice_archive(platform, format)),
            None => Err(PlanError::UnsupportedHost),
        },
    }
}

/// Running `program` with `args` in the build output directory.
pub open spec fn spec_run(
    config: BuildConfigurationView,
    program: Seq<char>,
    args: Seq<Seq<char>>,
) -> StepView {
    StepView::Run { program, args, dir: config.out_dir }
}

/// Unpacking an archive that lies in the build output directory. A
/// compressed tar file that tar cannot read by itself is decompressed first.
pub open spec fn spec_extract_steps(
    config: BuildConfigurationView,
    archive: ArchiveView,
    name: Seq<char>,
) -> Seq<StepView> {
    match archive.format {
        ArchiveFormat::TarGz => seq![spec_run(config, "tar"@, seq!["-xzf"@, archive.file])],
        ArchiveFormat::TarZ => seq![
            spec_run(config, "gzip"@, seq!["-d"@, archive.file]),
            spec_run(config, "tar"@, seq!["xf"@, name + ".tar"@]),
        ],
        ArchiveFormat::Zip => seq![spec_run(config, "tar"@, seq!["xf"@, archive.file])],
    }
}

/// Giving the unpacked tree its final name: whatever lies at the working
/// directory is removed and the tree renamed into place. A tree that unpacks
/// under the library's name is in place already.
pub open spec fn spec_normalize_steps(
    spec: LibrarySpecView,
    config: BuildConfigurationView,
    archive: ArchiveView,
) -> Seq<StepView> {
    if archive.extracted == spec.name {
        seq![]
    } else {
        seq![
            StepView::RemoveDir(spec_working_dir(spec, config)),
            StepView::Rename {
                from: spec_join(config.out_dir, archive.extracted),
                to: spec_working_dir(spec, config),
            },
        ]
    }
}

/// The toolkit's bundles for Unix hosts carry a prebuilt archive whose name
/// lacks the prefix that the linker expects; it is renamed.
pub open spec fn spec_prebuilt_steps(
    spec: LibrarySpecView,
    config: BuildConfigurationView,
    archive: ArchiveView,
) -> Seq<StepView> {
    if spec.library == Library::Cspice && archive.format == ArchiveFormat::TarZ {
        seq![
            StepView::Rename {
                from: spec_join(spec_working_dir(spec, config), "lib/"@ + spec.name + ".a"@),
                to: spec_join(spec_working_dir(spec, config), "lib/lib"@ + spec.name + ".a"@),
            },
        ]
    } else {
        seq![]
    }
}

/// The directory of the C sources in the fetched tree.
pub open spec fn spec_source_dir(
    spec: LibrarySpecView,
    config: BuildConfigurationView,
) -> Seq<char> {
    spec_join(spec_working_dir(spec, config), spec.source_dir)
}

/// Replacing the fetched sources by the bundled ones: the source directory
/// is removed, made anew, and filled with the files of the overlay.
pub open spec fn spec_overlay_steps(
    spec: LibrarySpecView,
    config: BuildConfigurationView,
) -> Seq<StepView> {
    match spec.source_overlay {
        Some(overlay) => seq![
            StepView::RemoveDir(spec_source_dir(spec, config)),
            StepView::CreateDir(spec_source_dir(spec, config)),
            StepView::CopyFiles { from: overlay, to: spec_source_dir(spec, config) },
        ],
        None => seq![],
    }
}

/// All steps that fetch a library's sources from `archive`: one download,
/// the unpacking, the final name, and the bundled sources on top.
pub open spec fn spec_fetch_steps(
    spec: LibrarySpecView,
    config: BuildConfigurationView,
    archive: ArchiveView,
) -> Seq<StepView> {
    seq![
        StepView::Download { url: archive.url, target: spec_join(config.out_dir, archive.file) },
    ] + spec_extract_steps(config, archive, spec.name) + spec_normalize_steps(
        spec,
        config,
        archive,
    ) + spec_prebuilt_steps(spec, config, archive) + spec_overlay_steps(spec, config)
}

impl ArchiveFormat {
    /// The file extension of the format.
    pub fn extension(self) -> (ext: String)
        ensures
            ext@ == spec_extension(self),
    {
        match self {
            ArchiveFormat::TarGz => String::from_str("tar.gz"),
            ArchiveFormat::TarZ => String::from_str("tar.Z"),
            ArchiveFormat::Zip => String::from_str("zip"),
        }
    }
}

/// The toolkit's bundle for a host, if one is offered.
pub fn bundle(host: HostOs, host_arm: bool) -> (found: Option<(String, ArchiveFormat)>)
    ensures
        found.deep_view() == spec_bundle(host, host_arm),
        found is None <==> host == HostOs::Other,
{
    match host {
        HostOs::Linux => Some((String::from_str("PC_Linux_GCC_64bit"), ArchiveFormat::TarZ)),
        HostOs::MacOs => if host_arm {
            Some((String::from_str("MacM1_OSX_clang_64bit"), ArchiveFormat::TarZ))
        } else {
            Some((String::from_str("MacIntel_OSX_AppleC_64bit"), ArchiveFormat::TarZ))
        },
        HostOs::Windows => Some((String::from_str("PC_Windows_VisualC_64bit"), ArchiveFormat::Zip)),
        HostOs::Other => None,
    }
}

/// The archive to fetch for a library. A tagged release without a version
/// and the toolkit on a host without a bundle have none.
pub fn archive(
    spec: &LibrarySpec,
    config: &BuildConfiguration,
) -> (found: Result<Archive, PlanError>)
    ensures
        match found {
            Ok(archive) => spec_archive(spec@, config@) == Ok::<ArchiveView, PlanError>(archive@),
            Err(error) => spec_archive(spec@, config@) == Err::<ArchiveView, PlanError>(error),
        },
{
    match spec.library {
        Library::Calceph => match &spec.version {
            Some(version) => Ok(
                Archive {
                    url: String::from_str(
                        "https://gitlab.obspm.fr/imcce_calceph/calceph/-/archive/calceph_",
                    ).concat(version.as_str()).concat("/calceph-calceph_").concat(
                        version.as_str(),
                    ).concat(".tar.gz"),
                    file: String::from_str("calceph.tar.gz"),
                    format: ArchiveFormat::TarGz,
                    extracted: String::from_str("calceph-calceph_").concat(version.as_str()),
                },
            ),
            None => Err(PlanError::MissingVersion),
        },
        Library::Supernovas => match &spec.version {
            Some(version) => Ok(
                Archive {
                    url: String::from_str(
                        "https://github.com/Smithsonian/SuperNOVAS/archive/refs/tags/v",
                    ).concat(version.as_str()).concat(".tar.gz"),
                    file: String::from_str("supernovas.tar.gz"),
                    format: ArchiveFormat::TarGz,
                    extracted: String::from_str("SuperNOVAS-").concat(version.as_str()),
                },
            ),
            None => Err(PlanError::MissingVersion),
        },
        Library::Cspice => match bundle(config.host, config.host_arm) {
            Some((platform, format)) => {
                let ext = format.extension();
                Ok(
                    Archive {
                        url: String::from_str(
                            "https://naif.jpl.nasa.gov/pub/naif/toolkit//C/",
                        ).concat(platform.as_str()).concat("/packages/cspice.").concat(
                            ext.as_str(),
                        ),
                        file: String::from_str("cspice.").concat(ext.as_str()),
                        format,
                        extracted: String::from_str("cspice"),
                    },
                )
            },
            None => Err(PlanError::UnsupportedHost),
        },
    }
}

/// The step that runs `program` with two arguments in the build output
/// directory.
fn run_step(config: &BuildConfiguration, program: &str, first: &str, second: &str) -> (step: Step)
    ensures
        step@ == spec_run(config@, program@, seq![first@, second@]),
{
    let mut args: Vec<String> = empty_list();
    push_item(&mut args, String::from_str(first));
    push_item(&mut args, String::from_str(second));
    proof {
        assert(Seq::<Seq<char>>::empty().push(first@).push(second@) =~= seq![first@, second@]);
    }
    Step::Run { program: String::from_str(program), args, dir: config.out_dir.clone() }
}

/// The steps that unpack `archive` in the build output directory.
pub fn extract_steps(
    config: &BuildConfiguration,
    archive: &Archive,
    name: &str,
) -> (steps: Vec<Step>)
    ensures
        steps.deep_view() == spec_extract_steps(config@, archive@, name@),
{
    let mut steps: Vec<Step> = empty_list();
    match archive.format {
        ArchiveFormat::TarGz => {
            push_item(&mut steps, run_step(config, "tar", "-xzf", archive.file.as_str()));
        },
        ArchiveFormat::TarZ => {
            let tar_file = String::from_str(name).concat(".tar");
            push_item(&mut steps, run_step(config, "gzip", "-d", archive.file.as_str()));
            push_item(&mut steps, run_step(config, "tar", "xf", tar_file.as_str()));
        },
        ArchiveFormat::Zip => {
            push_item(&mut steps, run_step(config, "tar", "xf", archive.file.as_str()));
        },
    }
    proof {
        assert(steps.deep_view() =~= spec_extract_steps(config@, archive@, name@));
    }
    steps
}

/// The steps that give the unpacked tree its final name.
pub fn normalize_steps(
    spec: &LibrarySpec,
    config: &BuildConfiguration,
    archive: &Archive,
) -> (steps: Vec<Step>)
    ensures
        steps.deep_view() == spec_normalize_steps(spec@, config@, archive@),
{
    let mut steps: Vec<Step> = empty_list();
    if !equal_text(archive.extracted.as_str(), spec.name.as_str()) {
        push_item(&mut steps, Step::RemoveDir(working_dir(spec, config)));
        push_item(
            &mut steps,
            Step::Rename {
                from: join_path(config.out_dir.as_str(), archive.extracted.as_str()),
                to: working_dir(spec, config),
            },
        );
    }
    proof {
        assert(steps.deep_view() =~= spec_normalize_steps(spec@, config@, archive@));
    }
    steps
}

/// The steps that rename a prebuilt archive in the toolkit's Unix bundles.
pub fn prebuilt_steps(
    spec: &LibrarySpec,
    config: &BuildConfiguration,
    archive: &Archive,
) -> (steps: Vec<Step>)
    ensures
        steps.deep_view() == spec_prebuilt_steps(spec@, config@, archive@),
{
    let mut steps: Vec<Step> = empty_list();
    let toolkit = match spec.library {
        Library::Cspice => true,
        _ => false,
    };
    let unix_bundle = match archive.format {
        ArchiveFormat::TarZ => true,
        _ => false,
    };
    if toolkit && unix_bundle {
        let dir = working_dir(spec, config);
        let plain = String::from_str("lib/").concat(spec.name.as_str()).concat(".a");
        let prefixed = String::from_str("lib/lib").concat(spec.name.as_str()).concat(".a");
        push_item(
            &mut steps,
            Step::Rename {
                from: join_path(dir.as_str(), plain.as_str()),
                to: join_path(dir.as_str(), prefixed.as_str()),
            },
        );
    }
    proof {
        assert(steps.deep_view() =~= spec_prebuilt_steps(spec@, config@, archive@));
    }
    steps
}

/// The directory of the C sources in the fetched tree.
pub fn source_dir(spec: &LibrarySpec, config: &BuildConfiguration) -> (dir: String)
    ensures
        dir@ == spec_source_dir(spec@, config@),
{
    let tree = working_dir(spec, config);
    join_path(tree.as_str(), spec.source_dir.as_str())
}

/// The steps that put the bundled sources in place of the fetched ones.
pub fn overlay_steps(spec: &LibrarySpec, config: &BuildConfiguration) -> (steps: Vec<Step>)
    ensures
        steps.deep_view() == spec_overlay_steps(spec@, config@),
{
    let mut steps: Vec<Step> = empty_list();
    match &spec.source_overlay {
        Some(overlay) => {
            push_item(&mut steps, Step::RemoveDir(source_dir(spec, config)));
            push_item(&mut steps, Step::CreateDir(source_dir(spec, config)));
            push_item(
                &mut steps,
                Step::CopyFiles { from: overlay.clone(), to: source_dir(spec, config) },
            );
        },
        None => {},
    }
    proof {
        assert(steps.deep_view() =~= spec_overlay_steps(spec@, config@));
    }
    steps
}

/// All steps that fetch a library's sources from `archive`, in order.
pub fn fetch_steps(
    spec: &LibrarySpec,
    config: &BuildConfiguration,
    archive: &Archive,
) -> (steps: Vec<Step>)
    ensures
        steps.deep_view() == spec_fetch_steps(spec@, config@, archive@),
{
    let mut steps: Vec<Step> = empty_list();
    push_item(
        &mut steps,
        Step::Download {
            url: archive.url.clone(),
            target: join_path(config.out_dir.as_str(), archive.file.as_str()),
        },
    );
    proof {
        assert(steps.deep_view() =~= seq![
            StepView::Download {
                url: archive@.url,
                target: spec_join(config@.out_dir, archive@.file),
            },
        ]);
    }
    append_items(&mut steps, extract_steps(config, archive, spec.name.as_str()));
    append_items(&mut steps, normalize_steps(spec, config, archive));
    append_items(&mut steps, prebuilt_steps(spec, config, archive));
    append_items(&mut steps, overlay_steps(spec, config));
    steps
}

} // verus!
