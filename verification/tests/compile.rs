use astro_build::compile::{
    all_flags, artifact, cc_build, cmake_build, compile_steps, defines, flags, header_steps,
    is_c_source, runtime_directives, runtime_flag, runtime_lib, runtime_steps, select_sources,
    selects_runtime, CompiledArtifact,
};
use astro_build::config::{BuildConfiguration, HostOs, SourceBuilds, Toolchain};
use astro_build::directive::Directive;
use astro_build::library::{Library, LibrarySpec};
use astro_build::registry::DependencyRegistry;
use astro_build::step::{CcBuild, CmakeBuild, Step};

fn config_for(target: &str, debug: bool) -> BuildConfiguration {
    BuildConfiguration {
        target: target.to_string(),
        host: HostOs::Linux,
        host_arm: false,
        debug,
        out_dir: "/build/out".to_string(),
        sources: SourceBuilds { calceph: true, cspice: true, supernovas: true },
    }
}

fn owned(items: &[&str]) -> Vec<String> {
    items.iter().map(|item| item.to_string()).collect()
}

fn bare(names: &[&str]) -> Vec<(String, Option<String>)> {
    names.iter().map(|name| (name.to_string(), None)).collect()
}

fn valued(pairs: &[(&str, &str)]) -> Vec<(String, Option<String>)> {
    pairs.iter().map(|(name, value)| (name.to_string(), Some(value.to_string()))).collect()
}

fn link(name: &str) -> Directive {
    Directive::LinkLib { name: name.to_string(), is_static: false }
}

#[test]
fn c_sources_are_told_by_their_extension() {
    assert!(is_c_source("novas.c"));
    assert!(is_c_source("a.b.c"));
    assert!(!is_c_source("novas.h"));
    assert!(!is_c_source(".c"));
    assert!(!is_c_source("c"));
    assert!(!is_c_source("novas.C"));
    assert!(!is_c_source("novas.c.bak"));
}

#[test]
fn only_c_sources_are_selected_in_listing_order() {
    let names = owned(&["zeta.c", "README", "alpha.c", "alpha.h", ".c", "Makefile", "beta.c"]);
    assert_eq!(
        select_sources("/build/out/supernovas/src", &names),
        owned(&[
            "/build/out/supernovas/src/zeta.c",
            "/build/out/supernovas/src/alpha.c",
            "/build/out/supernovas/src/beta.c",
        ])
    );
    assert_eq!(select_sources("src", &owned(&["a.h", "b.txt"])), Vec::<String>::new());
    assert_eq!(select_sources("src", &vec![]), Vec::<String>::new());
}

#[test]
fn cspice_has_a_profile_for_each_family() {
    assert_eq!(flags(Library::Cspice, Toolchain::Msvc), owned(&["/c", "/TC", "/MP", "/O2"]));
    assert_eq!(
        defines(Library::Cspice, Toolchain::Msvc),
        bare(&["KR_headers", "_COMPLEX_DEFINED", "MSDOS", "OMIT_BLANK_CC", "NON_ANSI_STDIO"])
    );
    assert_eq!(
        flags(Library::Cspice, Toolchain::Gnu),
        owned(&["-c", "-ansi", "-m64", "-O2", "-fPIC"])
    );
    assert_eq!(defines(Library::Cspice, Toolchain::Gnu), bare(&["NON_UNIX_STDIO"]));
    assert_eq!(flags(Library::Cspice, Toolchain::Other), Vec::<String>::new());
    assert_eq!(defines(Library::Cspice, Toolchain::Other), vec![]);
}

#[test]
fn supernovas_has_a_profile_for_msvc_only() {
    assert_eq!(flags(Library::Supernovas, Toolchain::Msvc), owned(&["/std:c11", "/MP", "/O2"]));
    assert_eq!(
        defines(Library::Supernovas, Toolchain::Msvc),
        valued(&[
            ("restrict", ""),
            ("strcasecmp", "_stricmp"),
            ("strncasecmp", "_strnicmp"),
            ("_CRT_SECURE_NO_WARNINGS", ""),
            ("_CRT_NONSTDC_NO_DEPRECATE", ""),
        ])
    );
    assert_eq!(flags(Library::Supernovas, Toolchain::Gnu), Vec::<String>::new());
    assert_eq!(defines(Library::Supernovas, Toolchain::Gnu), vec![]);
    assert_eq!(flags(Library::Supernovas, Toolchain::Other), Vec::<String>::new());
}

#[test]
fn calceph_has_no_flag_profile() {
    for toolchain in [Toolchain::Msvc, Toolchain::Gnu, Toolchain::Other] {
        assert_eq!(flags(Library::Calceph, toolchain), Vec::<String>::new());
        assert_eq!(defines(Library::Calceph, toolchain), vec![]);
    }
}

#[test]
fn the_runtime_follows_the_build_mode() {
    assert_eq!(runtime_lib(true), "msvcrtd");
    assert_eq!(runtime_lib(false), "msvcrt");
    assert_eq!(runtime_flag(true), "/MDd");
    assert_eq!(runtime_flag(false), "/MD");
    assert_eq!(
        runtime_directives(true),
        vec![
            link("msvcrtd"),
            link("legacy_stdio_definitions"),
            Directive::LinkArg("/NODEFAULTLIB:msvcrt.lib".to_string()),
            Directive::LinkArg("/NODEFAULTLIB:msvcrtd.lib".to_string()),
            Directive::LinkArg("/DEFAULTLIB:msvcrtd.lib".to_string()),
        ]
    );
    assert_eq!(
        runtime_directives(false),
        vec![
            link("msvcrt"),
            link("legacy_stdio_definitions"),
            Directive::LinkArg("/NODEFAULTLIB:msvcrt.lib".to_string()),
            Directive::LinkArg("/NODEFAULTLIB:msvcrtd.lib".to_string()),
            Directive::LinkArg("/DEFAULTLIB:msvcrt.lib".to_string()),
        ]
    );
}

#[test]
fn only_supernovas_on_windows_chooses_the_runtime() {
    let windows = config_for("x86_64-pc-windows-msvc", false);
    let linux = config_for("x86_64-unknown-linux-gnu", false);
    assert!(selects_runtime(&LibrarySpec::supernovas(), &windows));
    assert!(!selects_runtime(&LibrarySpec::supernovas(), &linux));
    assert!(!selects_runtime(&LibrarySpec::cspice(), &windows));
    assert!(!selects_runtime(&LibrarySpec::calceph(), &windows));
    assert_eq!(runtime_steps(&LibrarySpec::supernovas(), &linux), vec![]);
    assert_eq!(runtime_steps(&LibrarySpec::cspice(), &windows), vec![]);
    let steps = runtime_steps(&LibrarySpec::supernovas(), &windows);
    let expected: Vec<Step> = runtime_directives(false).into_iter().map(Step::Emit).collect();
    assert_eq!(steps, expected);
    assert_eq!(steps.len(), 5);
}

#[test]
fn the_runtime_flag_follows_the_profile() {
    let spec = LibrarySpec::supernovas();
    assert_eq!(
        all_flags(&spec, &config_for("x86_64-pc-windows-msvc", false)),
        owned(&["/std:c11", "/MP", "/O2", "/MD"])
    );
    assert_eq!(
        all_flags(&spec, &config_for("x86_64-pc-windows-msvc", true)),
        owned(&["/std:c11", "/MP", "/O2", "/MDd"])
    );
    assert_eq!(all_flags(&spec, &config_for("x86_64-pc-windows-gnu", true)), owned(&["/MDd"]));
    assert_eq!(
        all_flags(&spec, &config_for("x86_64-unknown-linux-gnu", true)),
        Vec::<String>::new()
    );
    assert_eq!(
        all_flags(&LibrarySpec::cspice(), &config_for("x86_64-pc-windows-msvc", true)),
        owned(&["/c", "/TC", "/MP", "/O2"])
    );
}

#[test]
fn cspice_is_compiled_from_its_source_directory() {
    let build = cc_build(
        &LibrarySpec::cspice(),
        &config_for("x86_64-unknown-linux-gnu", false),
        &DependencyRegistry::new(),
    );
    assert_eq!(
        build,
        CcBuild {
            name: "cspice".to_string(),
            out_dir: "/build/out/lib".to_string(),
            source_dir: "/build/out/cspice/src/cspice".to_string(),
            include_dirs: owned(&["/build/out/cspice/include"]),
            flags: owned(&["-c", "-ansi", "-m64", "-O2", "-fPIC"]),
            defines: bare(&["NON_UNIX_STDIO"]),
        }
    );
}

#[test]
fn supernovas_is_compiled_with_both_upstream_paths() {
    let mut registry = DependencyRegistry::new();
    assert!(registry.publish(Library::Cspice, "/dep/cspice/include"));
    assert!(registry.publish(Library::Calceph, "/dep/calceph/include"));
    let build = cc_build(
        &LibrarySpec::supernovas(),
        &config_for("x86_64-pc-windows-msvc", true),
        &registry,
    );
    assert_eq!(
        build,
        CcBuild {
            name: "supernovas".to_string(),
            out_dir: "/build/out/lib".to_string(),
            source_dir: "/build/out/supernovas/src".to_string(),
            include_dirs: owned(&[
                "/dep/cspice/include",
                "/dep/calceph/include",
                "/build/out/supernovas/include",
            ]),
            flags: owned(&["/std:c11", "/MP", "/O2", "/MDd"]),
            defines: valued(&[
                ("restrict", ""),
                ("strcasecmp", "_stricmp"),
                ("strncasecmp", "_strnicmp"),
                ("_CRT_SECURE_NO_WARNINGS", ""),
                ("_CRT_NONSTDC_NO_DEPRECATE", ""),
            ]),
        }
    );
}

#[test]
fn calceph_is_a_cmake_project() {
    let spec = LibrarySpec::calceph();
    assert_eq!(
        cmake_build(&spec, &config_for("x86_64-unknown-linux-gnu", false)),
        CmakeBuild {
            source_dir: "/build/out/calceph".to_string(),
            defines: vec![("ENABLE_FORTRAN".to_string(), "OFF".to_string())],
            generator: None,
        }
    );
    assert_eq!(
        cmake_build(&spec, &config_for("x86_64-pc-windows-msvc", false)).generator,
        Some("NMake Makefiles".to_string())
    );
    assert_eq!(cmake_build(&spec, &config_for("x86_64-pc-windows-gnu", false)).generator, None);
}

#[test]
fn only_the_public_headers_are_copied() {
    let config = config_for("x86_64-unknown-linux-gnu", false);
    let copy = |header: &str| Step::CopyFile {
        from: format!("/build/out/supernovas/include/{}", header),
        to: format!("/build/out/include/{}", header),
    };
    assert_eq!(
        header_steps(&LibrarySpec::supernovas(), &config),
        vec![
            Step::CreateDir("/build/out/include".to_string()),
            copy("novas-calceph.h"),
            copy("novas-cspice.h"),
            copy("novas.h"),
            copy("nutation.h"),
            copy("solarsystem.h"),
        ]
    );
    assert_eq!(
        header_steps(&LibrarySpec::cspice(), &config),
        vec![
            Step::CreateDir("/build/out/include/cspice".to_string()),
            Step::CopyFile {
                from: "/build/out/cspice/include/SpiceUsr.h".to_string(),
                to: "/build/out/include/cspice/SpiceUsr.h".to_string(),
            },
        ]
    );
}

#[test]
fn compiling_calceph_is_one_cmake_step() {
    let spec = LibrarySpec::calceph();
    let config = config_for("x86_64-unknown-linux-gnu", false);
    assert_eq!(
        compile_steps(&spec, &config, &DependencyRegistry::new()),
        vec![Step::CompileCmake(cmake_build(&spec, &config))]
    );
}

#[test]
fn compiling_supernovas_on_windows_publishes_the_runtime() {
    let spec = LibrarySpec::supernovas();
    let config = config_for("x86_64-pc-windows-msvc", false);
    let registry = DependencyRegistry::new();
    let mut expected = vec![Step::CompileC(cc_build(&spec, &config, &registry))];
    expected.extend(runtime_steps(&spec, &config));
    expected.extend(header_steps(&spec, &config));
    let steps = compile_steps(&spec, &config, &registry);
    assert_eq!(steps, expected);
    assert_eq!(steps.len(), 1 + 5 + 6);
}

#[test]
fn compiling_cspice_copies_its_header_afterwards() {
    let spec = LibrarySpec::cspice();
    let config = config_for("x86_64-unknown-linux-gnu", false);
    let registry = DependencyRegistry::new();
    let steps = compile_steps(&spec, &config, &registry);
    assert_eq!(steps.len(), 3);
    assert_eq!(steps[0], Step::CompileC(cc_build(&spec, &config, &registry)));
    assert_eq!(steps[1], Step::CreateDir("/build/out/include/cspice".to_string()));
}

#[test]
fn the_artifact_lies_in_the_build_output() {
    let config = config_for("x86_64-unknown-linux-gnu", false);
    assert_eq!(
        artifact(&LibrarySpec::cspice(), &config),
        CompiledArtifact {
            lib_dir: "/build/out/lib".to_string(),
            name: "cspice".to_string(),
            headers: owned(&["/build/out/include/cspice/SpiceUsr.h"]),
        }
    );
    assert_eq!(
        artifact(&LibrarySpec::supernovas(), &config),
        CompiledArtifact {
            lib_dir: "/build/out/lib".to_string(),
            name: "supernovas".to_string(),
            headers: owned(&[
                "/build/out/include/novas-calceph.h",
                "/build/out/include/novas-cspice.h",
                "/build/out/include/novas.h",
                "/build/out/include/nutation.h",
                "/build/out/include/solarsystem.h",
            ]),
        }
    );
}

#[test]
fn every_header_of_the_artifact_is_copied_there() {
    let config = config_for("x86_64-unknown-linux-gnu", false);
    for spec in [LibrarySpec::cspice(), LibrarySpec::supernovas()] {
        let built = artifact(&spec, &config);
        let steps = header_steps(&spec, &config);
        assert_eq!(steps.len(), built.headers.len() + 1);
        for (at, header) in built.headers.iter().enumerate() {
            match &steps[at + 1] {
                Step::CopyFile { to, .. } => assert_eq!(to, header),
                other => panic!("unexpected step {:?}", other),
            }
        }
        assert_eq!(cc_build(&spec, &config, &DependencyRegistry::new()).out_dir, built.lib_dir);
    }
}
