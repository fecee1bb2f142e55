use cxx::{Action, Config, ConfigError, Event, LinkType, Registry, RegistryEntry, SessionError};

const SOURCES: &str = "FILE(GLOB_RECURSE HEADER_LIST \"${PROJECT_ROOT_PATH}/include/*.h*\")\nFILE(GLOB_RECURSE SOURCE_LIST \"${PROJECT_ROOT_PATH}/source/*.c*\")\n\nSOURCE_GROUP(${LIB_NAME} FILES ${HEADER_LIST})\nSOURCE_GROUP(${LIB_NAME} FILES ${SOURCE_LIST})\n\nSET(CMAKE_CXX_STANDARD 17)\nSET(CMAKE_CXX_STANDARD_REQUIRED ON)\nSET(CMAKE_CXX_EXTENSIONS OFF)\n";

const INSTALL: &str = "\nINSTALL(DIRECTORY \"${PROJECT_ROOT_PATH}/include/\" DESTINATION include)\nINSTALL(TARGETS ${LIB_NAME} RUNTIME DESTINATION bin LIBRARY DESTINATION lib\tARCHIVE DESTINATION lib)";

fn package(name: &str) -> Config {
    Config::new(
        &format!("/work/target/debug/build/{}-1/out", name),
        &format!("/src/{}", name),
        name,
        "debug",
    )
}

fn entry(name: &str, location: &str) -> RegistryEntry {
    RegistryEntry { name: name.to_string(), location: location.to_string() }
}

fn expect_ok(r: Result<Action, SessionError>) -> Action {
    match r {
        Ok(a) => a,
        Err(e) => panic!("refused: {:?}", e),
    }
}

/// Runs a session in which no hand-written description exists, answering the
/// output-directory check with `cached` and the registry scan from `registry`.
/// Returns the description written, if any, the tool's project directory,
/// and the directives; the registry receives the package's record.
fn run_session(
    cfg: &mut Config,
    first: Action,
    cached: bool,
    registry: &mut Registry,
) -> (Option<String>, String, Vec<String>) {
    let mut action = first;
    let mut written = None;
    let mut tool_dir = String::new();
    loop {
        let event = match action {
            Action::CheckRootDescriptor { .. } => Event::Found(false),
            Action::CheckOutputDescriptor { .. } => Event::Found(cached),
            Action::ScanRegistry { .. } => Event::Scanned(registry.entries()),
            Action::WriteDescriptor { text, .. } => {
                written = Some(text);
                Event::Written
            }
            Action::RunTool { invocation } => {
                tool_dir = invocation.project_dir;
                Event::ToolFinished
            }
            Action::Publish { entry, .. } => {
                registry.publish(entry);
                Event::Published
            }
            Action::Finish { directives } => return (written, tool_dir, directives),
        };
        action = expect_ok(cfg.step(event));
    }
}

#[test]
fn descriptor_exact_text() {
    let mut cfg = Config::new("/o", "C:\\pkg", "demo", "release");
    cfg.define("A", "1").link("m");
    let expected = format!(
        "CMAKE_MINIMUM_REQUIRED(VERSION 3.0)\n\nPROJECT(demo)\n\nSET(LIB_NAME demo)\n\nSET(PROJECT_ROOT_PATH \"C:/pkg\")\n\n{}ADD_LIBRARY(${{LIB_NAME}} STATIC ${{HEADER_LIST}} ${{SOURCE_LIST}})\n\nTARGET_COMPILE_DEFINITIONS(${{LIB_NAME}} PRIVATE \"A=1\")\n\n\nTARGET_INCLUDE_DIRECTORIES(${{LIB_NAME}} PRIVATE \"C:/pkg/include\")\n\nTARGET_LINK_LIBRARIES(${{LIB_NAME}} PRIVATE \"m\")\n{}",
        SOURCES, INSTALL
    );
    assert_eq!(cfg.generator(), expected);
}

#[test]
fn descriptor_with_nothing_configured_keeps_structure() {
    let mut cfg = Config::new("/o", "/p", "bare", "debug");
    cfg.link_type(LinkType::Executables);
    let expected = format!(
        "CMAKE_MINIMUM_REQUIRED(VERSION 3.0)\n\nPROJECT(bare)\n\nSET(LIB_NAME bare)\n\nSET(PROJECT_ROOT_PATH \"/p\")\n\n{}ADD_EXECUTABLE(${{LIB_NAME}} ${{HEADER_LIST}} ${{SOURCE_LIST}})\n\n\n\nTARGET_INCLUDE_DIRECTORIES(${{LIB_NAME}} PRIVATE \"/p/include\")\n\n{}",
        SOURCES, INSTALL
    );
    assert_eq!(cfg.generator(), expected);
}

#[test]
fn descriptor_dynamic_target_and_order_of_directives() {
    let mut cfg = Config::new("/o", "/p", "dyn", "debug");
    cfg.link_type(LinkType::Dynamic)
        .define("X", "1")
        .define("Y", "2")
        .link_path("/a")
        .link_path("/b")
        .include_dir("/h")
        .link("l1")
        .link("l2");
    let text = cfg.generator();
    assert!(text.contains("ADD_LIBRARY(${LIB_NAME} SHARED ${HEADER_LIST} ${SOURCE_LIST})\n\n"));
    let x = text.find("\"X=1\"").unwrap();
    let y = text.find("\"Y=2\"").unwrap();
    let a = text.find("TARGET_LINK_DIRECTORIES(${LIB_NAME} PRIVATE \"/a\")").unwrap();
    let b = text.find("TARGET_LINK_DIRECTORIES(${LIB_NAME} PRIVATE \"/b\")").unwrap();
    let h = text.find("TARGET_INCLUDE_DIRECTORIES(${LIB_NAME} PRIVATE \"/h\")").unwrap();
    let l1 = text.find("TARGET_LINK_LIBRARIES(${LIB_NAME} PRIVATE \"l1\")").unwrap();
    let l2 = text.find("TARGET_LINK_LIBRARIES(${LIB_NAME} PRIVATE \"l2\")").unwrap();
    assert!(x < y && y < a && a < b && b < h && h < l1 && l1 < l2);
}

#[test]
fn descriptor_is_deterministic() {
    let mut cfg = package("det");
    cfg.define("K", "V").link("z");
    assert_eq!(cfg.generator(), cfg.generator());
}

#[test]
fn setters_replace_name_and_profile() {
    let mut cfg = Config::new("/o", "/p", "old", "debug");
    cfg.project("new_name").profile("release");
    let text = cfg.generator();
    assert!(text.contains("PROJECT(new_name)"));
    assert!(!text.contains("old"));
    match cfg.build() {
        Action::CheckRootDescriptor { path } => assert_eq!(path, "/p/CMakeLists.txt"),
        other => panic!("unexpected {:?}", other),
    }
    match expect_ok(cfg.step(Event::Found(true))) {
        Action::RunTool { invocation } => {
            assert_eq!(invocation.profile, "release");
            assert_eq!(invocation.bindings[0].1, "release");
        }
        other => panic!("unexpected {:?}", other),
    }
}

#[test]
fn load_reports_first_missing_setting() {
    let s = |v: &str| Some(v.to_string());
    assert_eq!(Config::load(None, s("m"), s("p"), s("d")).err(), Some(ConfigError::MissingOutDir));
    assert_eq!(Config::load(s("o"), None, None, s("d")).err(), Some(ConfigError::MissingManifestDir));
    assert_eq!(Config::load(s("o"), s("m"), None, s("d")).err(), Some(ConfigError::MissingPackageName));
    assert_eq!(Config::load(s("o"), s("m"), s("p"), None).err(), Some(ConfigError::MissingProfile));
    let cfg = Config::load(s("o"), s("a\\b"), s("p"), s("d")).ok().unwrap();
    assert!(cfg.generator().contains("SET(PROJECT_ROOT_PATH \"a/b\")"));
    assert!(cfg.generator().contains("TARGET_INCLUDE_DIRECTORIES(${LIB_NAME} PRIVATE \"a/b/include\")"));
}

#[test]
fn separators_are_normalised() {
    assert_eq!(cxx::paths::normalize_separators("C:\\a\\b/c"), "C:/a/b/c");
    assert_eq!(cxx::paths::normalize_separators(""), "");
    assert_eq!(cxx::paths::join_path("x", "y"), "x/y");
}

#[test]
fn absorb_adds_siblings_and_skips_own_record() {
    let mut cfg = Config::new("/o", "/p", "me", "debug");
    cfg.absorb_registry(&vec![entry("dep", "D:\\out\\dep"), entry("me", "/stale"), entry("two", "/t")]);
    let text = cfg.generator();
    assert!(text.contains("TARGET_LINK_LIBRARIES(${LIB_NAME} PRIVATE \"dep\")\nTARGET_LINK_LIBRARIES(${LIB_NAME} PRIVATE \"two\")\n"));
    assert!(text.contains("TARGET_LINK_DIRECTORIES(${LIB_NAME} PRIVATE \"D:/out/dep/lib\")\nTARGET_LINK_DIRECTORIES(${LIB_NAME} PRIVATE \"/t/lib\")\n"));
    assert!(text.contains("TARGET_INCLUDE_DIRECTORIES(${LIB_NAME} PRIVATE \"/p/include\")\nTARGET_INCLUDE_DIRECTORIES(${LIB_NAME} PRIVATE \"D:/out/dep/include\")\nTARGET_INCLUDE_DIRECTORIES(${LIB_NAME} PRIVATE \"/t/include\")\n"));
    assert!(!text.contains("\"me\""));
    assert!(!text.contains("/stale"));
}

#[test]
fn absorb_of_only_own_record_changes_nothing() {
    let mut cfg = Config::new("/o", "/p", "me", "debug");
    let before = cfg.generator();
    cfg.absorb_registry(&vec![entry("me", "/o")]);
    assert_eq!(cfg.generator(), before);
}

#[test]
fn registry_last_writer_wins() {
    let mut reg = Registry::new();
    reg.publish(entry("a", "/1"));
    reg.publish(entry("b", "/2"));
    reg.publish(entry("a", "/3"));
    let listed = reg.entries();
    assert_eq!(listed.len(), 2);
    assert_eq!((listed[0].name.as_str(), listed[0].location.as_str()), ("a", "/3"));
    assert_eq!((listed[1].name.as_str(), listed[1].location.as_str()), ("b", "/2"));
}

#[test]
fn registry_round_trip() {
    let mut reg = Registry::new();
    let mut p = package("p");
    let first = p.build_static_lib();
    let _ = run_session(&mut p, first, false, &mut reg);
    let mut q = package("q");
    let first = q.build_static_lib();
    let (written, _, _) = run_session(&mut q, first, false, &mut reg);
    let text = written.unwrap();
    assert!(text.contains("TARGET_LINK_LIBRARIES(${LIB_NAME} PRIVATE \"p\")"));
    assert!(text.contains("TARGET_LINK_DIRECTORIES(${LIB_NAME} PRIVATE \"/work/target/debug/build/p-1/out/lib\")"));
    assert!(text.contains("TARGET_INCLUDE_DIRECTORIES(${LIB_NAME} PRIVATE \"/work/target/debug/build/p-1/out/include\")"));
}

#[test]
fn self_exclusion_on_rebuild() {
    let mut reg = Registry::new();
    let mut p = package("p");
    let first = p.build_static_lib();
    let _ = run_session(&mut p, first, false, &mut reg);
    let mut again = package("p");
    let first = again.build_static_lib();
    let (written, _, _) = run_session(&mut again, first, false, &mut reg);
    let text = written.unwrap();
    assert!(!text.contains("TARGET_LINK_LIBRARIES"));
    assert!(!text.contains("TARGET_LINK_DIRECTORIES"));
    assert_eq!(reg.entries().len(), 1);
}

#[test]
fn cached_descriptor_is_not_rewritten() {
    let mut reg = Registry::new();
    let mut p = package("p");
    let first = p.build();
    let (written, tool_dir, _) = run_session(&mut p, first, false, &mut reg);
    assert!(written.is_some());
    assert_eq!(tool_dir, "/work/target/debug/build/p-1/out");
    let mut again = package("p");
    let first = again.build();
    let (written, tool_dir, directives) = run_session(&mut again, first, true, &mut reg);
    assert!(written.is_none());
    assert_eq!(tool_dir, "/work/target/debug/build/p-1/out");
    assert_eq!(directives.len(), 2);
    assert_eq!(reg.entries().len(), 1);
}

#[test]
fn hand_written_descriptor_overrides_generation() {
    let mut cfg = package("h");
    cfg.define("FOO", "bar").link("ignored");
    let first = cfg.build_dynamic_lib();
    assert!(matches!(first, Action::CheckRootDescriptor { .. }));
    match expect_ok(cfg.step(Event::Found(true))) {
        Action::RunTool { invocation } => {
            assert_eq!(invocation.project_dir, "/src/h");
            assert_eq!(invocation.profile, "debug");
            let b: Vec<(&str, &str)> =
                invocation.bindings.iter().map(|(k, v)| (k.as_str(), v.as_str())).collect();
            assert_eq!(b, vec![("CMAKE_BUILD_TYPE", "debug"), ("FOO", "bar")]);
        }
        other => panic!("unexpected {:?}", other),
    }
    match expect_ok(cfg.step(Event::ToolFinished)) {
        Action::Publish { dir, entry } => {
            assert_eq!(dir, "/work/target/debug/build/h-1/out/../../../cmake-links");
            assert_eq!(entry.name, "h");
            assert_eq!(entry.location, "/work/target/debug/build/h-1/out");
        }
        other => panic!("unexpected {:?}", other),
    }
    match expect_ok(cfg.step(Event::Published)) {
        Action::Finish { directives } => assert_eq!(directives.len(), 2),
        other => panic!("unexpected {:?}", other),
    }
}

#[test]
fn generated_build_passes_profile_and_definitions() {
    let mut cfg = package("g");
    cfg.define("N", "3");
    let _ = cfg.build();
    assert!(matches!(expect_ok(cfg.step(Event::Found(false))), Action::ScanRegistry { .. }));
    assert!(matches!(
        expect_ok(cfg.step(Event::Scanned(Vec::new()))),
        Action::CheckOutputDescriptor { .. }
    ));
    match expect_ok(cfg.step(Event::Found(true))) {
        Action::RunTool { invocation } => {
            assert_eq!(invocation.project_dir, "/work/target/debug/build/g-1/out");
            assert_eq!(invocation.bindings.len(), 2);
            assert_eq!(invocation.bindings[1].0, "N");
            assert_eq!(invocation.bindings[1].1, "3");
        }
        other => panic!("unexpected {:?}", other),
    }
}

#[test]
fn session_scans_registry_before_output_check() {
    let mut cfg = package("s");
    let _ = cfg.build();
    match expect_ok(cfg.step(Event::Found(false))) {
        Action::ScanRegistry { dir } => {
            assert_eq!(dir, "/work/target/debug/build/s-1/out/../../../cmake-links")
        }
        other => panic!("unexpected {:?}", other),
    }
    match expect_ok(cfg.step(Event::Scanned(vec![entry("dep", "/d")]))) {
        Action::CheckOutputDescriptor { path } => {
            assert_eq!(path, "/work/target/debug/build/s-1/out/CMakeLists.txt")
        }
        other => panic!("unexpected {:?}", other),
    }
    match expect_ok(cfg.step(Event::Found(false))) {
        Action::WriteDescriptor { path, text } => {
            assert_eq!(path, "/work/target/debug/build/s-1/out/CMakeLists.txt");
            assert!(text.contains("TARGET_LINK_LIBRARIES(${LIB_NAME} PRIVATE \"dep\")"));
            assert_eq!(text, cfg.generator());
        }
        other => panic!("unexpected {:?}", other),
    }
}

#[test]
fn cached_build_still_takes_in_registry() {
    let mut reg = Registry::new();
    reg.publish(entry("p", "/out/p"));
    let mut q = package("q");
    let first = q.build_static_lib();
    let (written, _, _) = run_session(&mut q, first, true, &mut reg);
    assert!(written.is_none());
    let text = q.generator();
    assert!(text.contains("TARGET_LINK_LIBRARIES(${LIB_NAME} PRIVATE \"p\")"));
    assert!(text.contains("TARGET_LINK_DIRECTORIES(${LIB_NAME} PRIVATE \"/out/p/lib\")"));
    assert!(text.contains("TARGET_INCLUDE_DIRECTORIES(${LIB_NAME} PRIVATE \"/out/p/include\")"));
}

#[test]
fn unexpected_event_is_refused() {
    let mut cfg = package("u");
    assert!(matches!(cfg.step(Event::Written), Err(SessionError::UnexpectedEvent)));
    let _ = cfg.build();
    assert!(matches!(cfg.step(Event::Published), Err(SessionError::UnexpectedEvent)));
    assert!(matches!(cfg.step(Event::Found(false)), Ok(Action::ScanRegistry { .. })));
}

#[test]
fn executable_emits_no_directives() {
    let mut reg = Registry::new();
    let mut cfg = package("tool");
    let first = cfg.build_exce();
    let (written, _, directives) = run_session(&mut cfg, first, false, &mut reg);
    assert!(written.unwrap().contains("ADD_EXECUTABLE("));
    assert!(directives.is_empty());
    assert!(cfg.link_directives().is_empty());
}

#[test]
fn libraries_emit_two_directives() {
    let mut cfg = package("lib1");
    cfg.link_type(LinkType::Static);
    assert_eq!(
        cfg.link_directives(),
        vec![
            "cargo:rustc-link-search=native=/work/target/debug/build/lib1-1/out/lib".to_string(),
            "cargo:rustc-link-lib=static=lib1".to_string(),
        ]
    );
    cfg.link_type(LinkType::Dynamic);
    assert_eq!(cfg.link_directives().len(), 2);
}

#[test]
fn end_to_end_alpha_then_beta() {
    let mut reg = Registry::new();
    let mut alpha = package("alpha");
    let first = alpha.build_static_lib();
    let (written, _, directives) = run_session(&mut alpha, first, false, &mut reg);
    assert!(written.is_some());
    assert_eq!(
        directives,
        vec![
            "cargo:rustc-link-search=native=/work/target/debug/build/alpha-1/out/lib".to_string(),
            "cargo:rustc-link-lib=static=alpha".to_string(),
        ]
    );
    let listed = reg.entries();
    assert_eq!(listed.len(), 1);
    assert_eq!(listed[0].name, "alpha");
    assert_eq!(listed[0].location, "/work/target/debug/build/alpha-1/out");

    let mut beta = package("beta");
    beta.link("zlib");
    let first = beta.build_static_lib();
    let (written, _, _) = run_session(&mut beta, first, false, &mut reg);
    let text = written.unwrap();
    assert!(text.contains("TARGET_LINK_LIBRARIES(${LIB_NAME} PRIVATE \"zlib\")\nTARGET_LINK_LIBRARIES(${LIB_NAME} PRIVATE \"alpha\")\n"));
    assert!(text.contains("TARGET_LINK_DIRECTORIES(${LIB_NAME} PRIVATE \"/work/target/debug/build/alpha-1/out/lib\")"));
    assert!(text.contains("TARGET_INCLUDE_DIRECTORIES(${LIB_NAME} PRIVATE \"/work/target/debug/build/alpha-1/out/include\")"));
    let names: Vec<String> = reg.entries().iter().map(|e| e.name.clone()).collect();
    assert_eq!(names, vec!["alpha".to_string(), "beta".to_string()]);
}

#[test]
fn skeleton_of_new_package() {
    let s = cxx::skeleton("pkg", "driver");
    assert_eq!(s.dirs, vec!["./pkg".to_string(), "pkg/include".to_string(), "pkg/source".to_string()]);
    assert_eq!(s.files.len(), 3);
    assert_eq!(s.files[0], ("./pkg/Cargo.toml".to_string(), String::new()));
    assert_eq!(s.files[1], ("./pkg/.gitignore".to_string(), "/target\n**/*.rs.bk".to_string()));
    assert_eq!(s.files[2].0, "./pkg/build.rs");
    assert_eq!(
        s.files[2].1,
        "fn main()\n{\n\tlet mut config = driver::config_from_env();\n\tdriver::build(&mut config);\n}"
    );
}
