use astro_build::config::{BuildConfiguration, HostOs, SourceBuilds};
use astro_build::library::{Library, LibrarySpec};
use astro_build::location::{
    invalid_root_warning, missing_root_warning, resolve, settle, stage, working_dir,
    ResolvedLocation, Stage,
};

fn config(sources: SourceBuilds) -> BuildConfiguration {
    BuildConfiguration {
        target: "x86_64-unknown-linux-gnu".to_string(),
        host: HostOs::Linux,
        host_arm: false,
        debug: false,
        out_dir: "/build/out".to_string(),
        sources,
    }
}

fn all_sources() -> SourceBuilds {
    SourceBuilds { calceph: true, cspice: true, supernovas: true }
}

fn specs() -> Vec<LibrarySpec> {
    vec![LibrarySpec::calceph(), LibrarySpec::cspice(), LibrarySpec::supernovas()]
}

#[test]
fn an_override_is_root_and_header_source() {
    for spec in specs() {
        let location = resolve(&spec, Some("/opt/native"));
        assert_eq!(
            location,
            ResolvedLocation {
                include_dir: "/opt/native/include".to_string(),
                root: Some("/opt/native".to_string()),
            }
        );
    }
}

#[test]
fn an_override_wins_over_a_source_build() {
    for spec in specs() {
        for sources in [SourceBuilds::none(), all_sources()] {
            for exists in [false, true] {
                let config = config(sources);
                let location = resolve(&spec, Some("/opt/native"));
                assert_eq!(stage(&spec, &config, &location, exists), Stage::Skip);
                assert_eq!(settle(&spec, &config, location.clone()), location);
            }
        }
    }
}

#[test]
fn without_an_override_the_bundled_headers_serve() {
    let expected = ["vendor/calceph/include", "vendor/cspice/include", "vendor/SuperNOVAS/include"];
    for (spec, include_dir) in specs().iter().zip(expected) {
        let location = resolve(spec, None);
        assert_eq!(
            location,
            ResolvedLocation { include_dir: include_dir.to_string(), root: None }
        );
        let settled = settle(spec, &config(SourceBuilds::none()), location.clone());
        assert_eq!(settled, location);
    }
}

#[test]
fn a_source_build_makes_the_output_directory_the_root() {
    for spec in specs() {
        let location = resolve(&spec, None);
        let settled = settle(&spec, &config(all_sources()), location.clone());
        assert_eq!(settled.root, Some("/build/out".to_string()));
        assert_eq!(settled.include_dir, location.include_dir);
    }
}

#[test]
fn the_switch_of_another_library_does_not_count() {
    let spec = LibrarySpec::cspice();
    let config = config(SourceBuilds::none().with(Library::Calceph, true));
    let location = resolve(&spec, None);
    assert_eq!(stage(&spec, &config, &location, false), Stage::Skip);
    assert_eq!(settle(&spec, &config, location).root, None);
}

#[test]
fn sources_are_fetched_only_where_no_tree_exists() {
    for spec in specs() {
        let config = config(all_sources());
        let location = resolve(&spec, None);
        assert_eq!(stage(&spec, &config, &location, false), Stage::FetchAndCompile);
        assert_eq!(stage(&spec, &config, &location, true), Stage::Skip);
    }
}

#[test]
fn no_stage_runs_without_the_switch() {
    for spec in specs() {
        let config = config(SourceBuilds::none());
        let location = resolve(&spec, None);
        assert_eq!(stage(&spec, &config, &location, false), Stage::Skip);
        assert_eq!(stage(&spec, &config, &location, true), Stage::Skip);
    }
}

#[test]
fn the_working_directory_is_the_name_below_the_output() {
    let config = config(SourceBuilds::none());
    assert_eq!(working_dir(&LibrarySpec::calceph(), &config), "/build/out/calceph");
    assert_eq!(working_dir(&LibrarySpec::cspice(), &config), "/build/out/cspice");
    assert_eq!(working_dir(&LibrarySpec::supernovas(), &config), "/build/out/supernovas");
}

#[test]
fn the_working_directory_is_the_same_for_every_release() {
    let config = config(SourceBuilds::none());
    let one = LibrarySpec::supernovas().with_version("1.4.0");
    let other = LibrarySpec::supernovas().with_version("1.5.1");
    assert_eq!(working_dir(&one, &config), working_dir(&other, &config));
    assert_eq!(working_dir(&other, &config), "/build/out/supernovas");
}

#[test]
fn the_warnings_name_variable_and_switch() {
    assert_eq!(
        missing_root_warning(&LibrarySpec::calceph()),
        "`calceph_dir` does not point to a valid directory. Please set the CALCEPH_DIR \
         environment variable or use `calceph-src` feature."
    );
    assert_eq!(
        missing_root_warning(&LibrarySpec::cspice()),
        "`cspice_dir` does not point to a valid directory. Please set the CSPICE_DIR \
         environment variable or use `cspice-src` feature."
    );
    assert_eq!(
        missing_root_warning(&LibrarySpec::supernovas()),
        "`supernovas_dir` does not point to a valid directory. Please set the SUPERNOVAS_DIR \
         environment variable or use `novas-src` feature."
    );
    assert_eq!(
        invalid_root_warning(&LibrarySpec::cspice(), "/nowhere"),
        "`cspice_dir` does not point to a valid directory: /nowhere"
    );
}
