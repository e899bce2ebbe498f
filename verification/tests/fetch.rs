use astro_build::config::{BuildConfiguration, HostOs, SourceBuilds};
use astro_build::fetch::{
    archive, bundle, extract_steps, fetch_steps, normalize_steps, overlay_steps, prebuilt_steps,
    source_dir, Archive, ArchiveFormat,
};
use astro_build::library::LibrarySpec;
use astro_build::step::{PlanError, Step};

fn config_on(host: HostOs, host_arm: bool) -> BuildConfiguration {
    BuildConfiguration {
        target: "x86_64-unknown-linux-gnu".to_string(),
        host,
        host_arm,
        debug: false,
        out_dir: "/build/out".to_string(),
        sources: SourceBuilds { calceph: true, cspice: true, supernovas: true },
    }
}

fn run(program: &str, args: &[&str]) -> Step {
    Step::Run {
        program: program.to_string(),
        args: args.iter().map(|arg| arg.to_string()).collect(),
        dir: "/build/out".to_string(),
    }
}

#[test]
fn formats_have_their_extensions() {
    assert_eq!(ArchiveFormat::TarGz.extension(), "tar.gz");
    assert_eq!(ArchiveFormat::TarZ.extension(), "tar.Z");
    assert_eq!(ArchiveFormat::Zip.extension(), "zip");
}

#[test]
fn bundles_are_offered_for_three_hosts() {
    assert_eq!(
        bundle(HostOs::Linux, false),
        Some(("PC_Linux_GCC_64bit".to_string(), ArchiveFormat::TarZ))
    );
    assert_eq!(
        bundle(HostOs::Linux, true),
        Some(("PC_Linux_GCC_64bit".to_string(), ArchiveFormat::TarZ))
    );
    assert_eq!(
        bundle(HostOs::MacOs, false),
        Some(("MacIntel_OSX_AppleC_64bit".to_string(), ArchiveFormat::TarZ))
    );
    assert_eq!(
        bundle(HostOs::MacOs, true),
        Some(("MacM1_OSX_clang_64bit".to_string(), ArchiveFormat::TarZ))
    );
    assert_eq!(
        bundle(HostOs::Windows, false),
        Some(("PC_Windows_VisualC_64bit".to_string(), ArchiveFormat::Zip))
    );
    assert_eq!(bundle(HostOs::Other, false), None);
    assert_eq!(bundle(HostOs::Other, true), None);
}

#[test]
fn calceph_archive_is_the_tagged_release() {
    let found = archive(&LibrarySpec::calceph(), &config_on(HostOs::Linux, false));
    assert_eq!(
        found,
        Ok(Archive {
            url: "https://gitlab.obspm.fr/imcce_calceph/calceph/-/archive/calceph_4_0_5/\
                  calceph-calceph_4_0_5.tar.gz"
                .to_string(),
            file: "calceph.tar.gz".to_string(),
            format: ArchiveFormat::TarGz,
            extracted: "calceph-calceph_4_0_5".to_string(),
        })
    );
}

#[test]
fn supernovas_archive_is_the_tagged_release() {
    let found = archive(&LibrarySpec::supernovas(), &config_on(HostOs::Windows, false));
    assert_eq!(
        found,
        Ok(Archive {
            url: "https://github.com/Smithsonian/SuperNOVAS/archive/refs/tags/v1.4.0.tar.gz"
                .to_string(),
            file: "supernovas.tar.gz".to_string(),
            format: ArchiveFormat::TarGz,
            extracted: "SuperNOVAS-1.4.0".to_string(),
        })
    );
}

#[test]
fn another_release_changes_location_and_unpacked_name() {
    let spec = LibrarySpec::supernovas().with_version("1.5.1");
    let found = archive(&spec, &config_on(HostOs::Linux, false)).unwrap();
    assert_eq!(
        found.url,
        "https://github.com/Smithsonian/SuperNOVAS/archive/refs/tags/v1.5.1.tar.gz"
    );
    assert_eq!(found.extracted, "SuperNOVAS-1.5.1");
    assert_eq!(found.file, "supernovas.tar.gz");
}

#[test]
fn cspice_archive_depends_on_the_host() {
    let spec = LibrarySpec::cspice();
    assert_eq!(
        archive(&spec, &config_on(HostOs::Linux, false)),
        Ok(Archive {
            url: "https://naif.jpl.nasa.gov/pub/naif/toolkit//C/PC_Linux_GCC_64bit/packages/\
                  cspice.tar.Z"
                .to_string(),
            file: "cspice.tar.Z".to_string(),
            format: ArchiveFormat::TarZ,
            extracted: "cspice".to_string(),
        })
    );
    assert_eq!(
        archive(&spec, &config_on(HostOs::MacOs, true)).unwrap().url,
        "https://naif.jpl.nasa.gov/pub/naif/toolkit//C/MacM1_OSX_clang_64bit/packages/cspice.tar.Z"
    );
    assert_eq!(
        archive(&spec, &config_on(HostOs::MacOs, false)).unwrap().url,
        "https://naif.jpl.nasa.gov/pub/naif/toolkit//C/MacIntel_OSX_AppleC_64bit/packages/\
         cspice.tar.Z"
    );
    assert_eq!(
        archive(&spec, &config_on(HostOs::Windows, false)),
        Ok(Archive {
            url: "https://naif.jpl.nasa.gov/pub/naif/toolkit//C/PC_Windows_VisualC_64bit/\
                  packages/cspice.zip"
                .to_string(),
            file: "cspice.zip".to_string(),
            format: ArchiveFormat::Zip,
            extracted: "cspice".to_string(),
        })
    );
}

#[test]
fn cspice_has_no_archive_on_other_hosts() {
    assert_eq!(
        archive(&LibrarySpec::cspice(), &config_on(HostOs::Other, false)),
        Err(PlanError::UnsupportedHost)
    );
}

#[test]
fn a_tagged_release_needs_a_version() {
    let mut calceph = LibrarySpec::calceph();
    calceph.version = None;
    assert_eq!(archive(&calceph, &config_on(HostOs::Linux, false)), Err(PlanError::MissingVersion));
    let mut supernovas = LibrarySpec::supernovas();
    supernovas.version = None;
    assert_eq!(
        archive(&supernovas, &config_on(HostOs::Other, false)),
        Err(PlanError::MissingVersion)
    );
}

#[test]
fn the_other_hosts_do_not_matter_to_tagged_releases() {
    assert!(archive(&LibrarySpec::calceph(), &config_on(HostOs::Other, false)).is_ok());
    assert!(archive(&LibrarySpec::supernovas(), &config_on(HostOs::Other, true)).is_ok());
}

#[test]
fn each_format_is_unpacked_in_its_way() {
    let config = config_on(HostOs::Linux, false);
    let packed = |file: &str, format: ArchiveFormat| Archive {
        url: "u".to_string(),
        file: file.to_string(),
        format,
        extracted: "x".to_string(),
    };
    assert_eq!(
        extract_steps(&config, &packed("calceph.tar.gz", ArchiveFormat::TarGz), "calceph"),
        vec![run("tar", &["-xzf", "calceph.tar.gz"])]
    );
    assert_eq!(
        extract_steps(&config, &packed("cspice.tar.Z", ArchiveFormat::TarZ), "cspice"),
        vec![run("gzip", &["-d", "cspice.tar.Z"]), run("tar", &["xf", "cspice.tar"])]
    );
    assert_eq!(
        extract_steps(&config, &packed("cspice.zip", ArchiveFormat::Zip), "cspice"),
        vec![run("tar", &["xf", "cspice.zip"])]
    );
}

#[test]
fn the_unpacked_tree_gets_the_name_of_the_library() {
    let config = config_on(HostOs::Linux, false);
    let spec = LibrarySpec::calceph();
    let found = archive(&spec, &config).unwrap();
    assert_eq!(
        normalize_steps(&spec, &config, &found),
        vec![
            Step::RemoveDir("/build/out/calceph".to_string()),
            Step::Rename {
                from: "/build/out/calceph-calceph_4_0_5".to_string(),
                to: "/build/out/calceph".to_string(),
            },
        ]
    );
}

#[test]
fn the_final_name_is_the_same_for_every_release() {
    let config = config_on(HostOs::Linux, false);
    let mut targets = Vec::new();
    for version in ["1.3.0", "1.4.0", "2.0.0-rc1"] {
        let spec = LibrarySpec::supernovas().with_version(version);
        let found = archive(&spec, &config).unwrap();
        let steps = normalize_steps(&spec, &config, &found);
        assert_eq!(steps.len(), 2);
        match &steps[1] {
            Step::Rename { from, to } => {
                assert_eq!(from, &format!("/build/out/SuperNOVAS-{}", version));
                targets.push(to.clone());
            }
            other => panic!("unexpected step {:?}", other),
        }
    }
    assert_eq!(targets, vec!["/build/out/supernovas".to_string(); 3]);
}

#[test]
fn a_tree_that_unpacks_under_its_final_name_stays() {
    let config = config_on(HostOs::Linux, false);
    let spec = LibrarySpec::cspice();
    let found = archive(&spec, &config).unwrap();
    assert_eq!(normalize_steps(&spec, &config, &found), vec![]);
}

#[test]
fn unix_bundles_of_the_toolkit_have_their_archive_renamed() {
    let spec = LibrarySpec::cspice();
    let linux = config_on(HostOs::Linux, false);
    assert_eq!(
        prebuilt_steps(&spec, &linux, &archive(&spec, &linux).unwrap()),
        vec![Step::Rename {
            from: "/build/out/cspice/lib/cspice.a".to_string(),
            to: "/build/out/cspice/lib/libcspice.a".to_string(),
        }]
    );
    let windows = config_on(HostOs::Windows, false);
    assert_eq!(prebuilt_steps(&spec, &windows, &archive(&spec, &windows).unwrap()), vec![]);
    let calceph = LibrarySpec::calceph();
    assert_eq!(prebuilt_steps(&calceph, &linux, &archive(&calceph, &linux).unwrap()), vec![]);
}

#[test]
fn bundled_sources_replace_the_fetched_ones() {
    let config = config_on(HostOs::Linux, false);
    assert_eq!(
        overlay_steps(&LibrarySpec::supernovas(), &config),
        vec![
            Step::RemoveDir("/build/out/supernovas/src".to_string()),
            Step::CreateDir("/build/out/supernovas/src".to_string()),
            Step::CopyFiles {
                from: "vendor/SuperNOVAS/src".to_string(),
                to: "/build/out/supernovas/src".to_string(),
            },
        ]
    );
    assert_eq!(overlay_steps(&LibrarySpec::calceph(), &config), vec![]);
    assert_eq!(overlay_steps(&LibrarySpec::cspice(), &config), vec![]);
}

#[test]
fn source_directories_lie_in_the_tree() {
    let config = config_on(HostOs::Linux, false);
    assert_eq!(source_dir(&LibrarySpec::cspice(), &config), "/build/out/cspice/src/cspice");
    assert_eq!(source_dir(&LibrarySpec::supernovas(), &config), "/build/out/supernovas/src");
    assert_eq!(source_dir(&LibrarySpec::calceph(), &config), "/build/out/calceph/src");
}

#[test]
fn fetching_supernovas_takes_seven_steps() {
    let config = config_on(HostOs::Linux, false);
    let spec = LibrarySpec::supernovas();
    let found = archive(&spec, &config).unwrap();
    assert_eq!(
        fetch_steps(&spec, &config, &found),
        vec![
            Step::Download {
                url: "https://github.com/Smithsonian/SuperNOVAS/archive/refs/tags/v1.4.0.tar.gz"
                    .to_string(),
                target: "/build/out/supernovas.tar.gz".to_string(),
            },
            run("tar", &["-xzf", "supernovas.tar.gz"]),
            Step::RemoveDir("/build/out/supernovas".to_string()),
            Step::Rename {
                from: "/build/out/SuperNOVAS-1.4.0".to_string(),
                to: "/build/out/supernovas".to_string(),
            },
            Step::RemoveDir("/build/out/supernovas/src".to_string()),
            Step::CreateDir("/build/out/supernovas/src".to_string()),
            Step::CopyFiles {
                from: "vendor/SuperNOVAS/src".to_string(),
                to: "/build/out/supernovas/src".to_string(),
            },
        ]
    );
}

#[test]
fn fetching_cspice_on_linux_decompresses_first() {
    let config = config_on(HostOs::Linux, false);
    let spec = LibrarySpec::cspice();
    let found = archive(&spec, &config).unwrap();
    assert_eq!(
        fetch_steps(&spec, &config, &found),
        vec![
            Step::Download {
                url: "https://naif.jpl.nasa.gov/pub/naif/toolkit//C/PC_Linux_GCC_64bit/packages/\
                      cspice.tar.Z"
                    .to_string(),
                target: "/build/out/cspice.tar.Z".to_string(),
            },
            run("gzip", &["-d", "cspice.tar.Z"]),
            run("tar", &["xf", "cspice.tar"]),
            Step::Rename {
                from: "/build/out/cspice/lib/cspice.a".to_string(),
                to: "/build/out/cspice/lib/libcspice.a".to_string(),
            },
        ]
    );
}

#[test]
fn fetching_cspice_on_windows_unpacks_the_zip() {
    let config = config_on(HostOs::Windows, false);
    let spec = LibrarySpec::cspice();
    let found = archive(&spec, &config).unwrap();
    assert_eq!(
        fetch_steps(&spec, &config, &found),
        vec![
            Step::Download {
                url: "https://naif.jpl.nasa.gov/pub/naif/toolkit//C/PC_Windows_VisualC_64bit/\
                      packages/cspice.zip"
                    .to_string(),
                target: "/build/out/cspice.zip".to_string(),
            },
            run("tar", &["xf", "cspice.zip"]),
        ]
    );
}
