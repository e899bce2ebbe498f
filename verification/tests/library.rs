use astro_build::library::{Library, LibrarySpec};

fn texts(items: &[&str]) -> Vec<String> {
    items.iter().map(|item| item.to_string()).collect()
}

#[test]
fn calceph_is_described_as_shipped() {
    let spec = LibrarySpec::calceph();
    assert_eq!(spec.library, Library::Calceph);
    assert_eq!(spec.name, "calceph");
    assert_eq!(spec.env_var, "CALCEPH_DIR");
    assert_eq!(spec.feature, "calceph-src");
    assert_eq!(spec.vendored_include, "vendor/calceph/include");
    assert_eq!(spec.version, Some("4_0_5".to_string()));
    assert_eq!(spec.header_dir, "");
    assert_eq!(spec.headers, texts(&["calceph.h"]));
    assert_eq!(spec.source_dir, "src");
    assert_eq!(spec.source_overlay, None);
    assert!(spec.upstream.is_empty());
    assert!(spec.blocklist.is_empty());
    assert!(!spec.derive_extras);
}

#[test]
fn cspice_is_described_as_shipped() {
    let spec = LibrarySpec::cspice();
    assert_eq!(spec.library, Library::Cspice);
    assert_eq!(spec.name, "cspice");
    assert_eq!(spec.env_var, "CSPICE_DIR");
    assert_eq!(spec.feature, "cspice-src");
    assert_eq!(spec.vendored_include, "vendor/cspice/include");
    assert_eq!(spec.version, None);
    assert_eq!(spec.header_dir, "cspice");
    assert_eq!(spec.headers, texts(&["SpiceUsr.h"]));
    assert_eq!(spec.source_dir, "src/cspice");
    assert_eq!(spec.source_overlay, None);
    assert!(spec.upstream.is_empty());
    assert!(spec.blocklist.is_empty());
    assert!(!spec.derive_extras);
}

#[test]
fn supernovas_is_described_as_shipped() {
    let spec = LibrarySpec::supernovas();
    assert_eq!(spec.library, Library::Supernovas);
    assert_eq!(spec.name, "supernovas");
    assert_eq!(spec.env_var, "SUPERNOVAS_DIR");
    assert_eq!(spec.feature, "novas-src");
    assert_eq!(spec.vendored_include, "vendor/SuperNOVAS/include");
    assert_eq!(spec.version, Some("1.4.0".to_string()));
    assert_eq!(spec.header_dir, "");
    assert_eq!(
        spec.headers,
        texts(&["novas-calceph.h", "novas-cspice.h", "novas.h", "nutation.h", "solarsystem.h"])
    );
    assert_eq!(spec.source_dir, "src");
    assert_eq!(spec.source_overlay, Some("vendor/SuperNOVAS/src".to_string()));
    assert_eq!(spec.upstream, vec![Library::Cspice, Library::Calceph]);
    assert_eq!(
        spec.blocklist,
        texts(&["FP_NAN", "FP_INFINITE", "FP_ZERO", "FP_SUBNORMAL", "FP_NORMAL"])
    );
    assert!(spec.derive_extras);
}

#[test]
fn of_picks_the_description_by_library() {
    assert_eq!(LibrarySpec::of(Library::Calceph), LibrarySpec::calceph());
    assert_eq!(LibrarySpec::of(Library::Cspice), LibrarySpec::cspice());
    assert_eq!(LibrarySpec::of(Library::Supernovas), LibrarySpec::supernovas());
}

#[test]
fn with_version_changes_the_release_only() {
    let spec = LibrarySpec::calceph().with_version("4_0_6");
    let mut expected = LibrarySpec::calceph();
    expected.version = Some("4_0_6".to_string());
    assert_eq!(spec, expected);
}

#[test]
fn library_constants_are_exact() {
    assert_eq!(Library::Calceph.name(), "calceph");
    assert_eq!(Library::Cspice.name(), "cspice");
    assert_eq!(Library::Supernovas.name(), "supernovas");
    assert_eq!(Library::Calceph.vendored_include(), "vendor/calceph/include");
    assert_eq!(Library::Cspice.vendored_include(), "vendor/cspice/include");
    assert_eq!(Library::Supernovas.vendored_include(), "vendor/SuperNOVAS/include");
    assert_eq!(Library::Calceph.metadata_key(), "DEP_CALCEPH_INCLUDE");
    assert_eq!(Library::Cspice.metadata_key(), "DEP_CSPICE_INCLUDE");
    assert_eq!(Library::Supernovas.metadata_key(), "DEP_SUPERNOVAS_INCLUDE");
}
