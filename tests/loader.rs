use trigger_loader::binary::{classify, normalize_binary, BinaryKind};
use trigger_loader::error::LoadError;
use trigger_loader::loader::{locked_source_path, AccessMode, FileMount, PreopenDir, TriggerLoader};
use trigger_loader::source::{join_path_exec, parse_file_url};
use trigger_loader::world::{adapt_old_worlds_to_new, decide_adaptation, Adaptation, TargetWorld};

const MODULE: [u8; 8] = [0x00, 0x61, 0x73, 0x6d, 0x01, 0x00, 0x00, 0x00];
const COMPONENT: [u8; 8] = [0x00, 0x61, 0x73, 0x6d, 0x0d, 0x00, 0x01, 0x00];

fn resolve_with(platform_world: &str) -> wit_parser::Resolve {
    let mut resolve = wit_parser::Resolve::new();
    resolve
        .push_str("spin.wit", &format!("package fermyon:spin;\nworld platform {{ {platform_world} }}\n"))
        .unwrap();
    resolve
        .push_str("wasi.wit", "package wasmtime:wasi;\nworld preview1-adapter-reactor {}\n")
        .unwrap();
    resolve
}

fn open_target() -> TargetWorld {
    match TargetWorld::new(resolve_with("")) {
        Ok(t) => t,
        Err(e) => panic!("target world: {e:?}"),
    }
}

fn strict_target() -> TargetWorld {
    match TargetWorld::new(resolve_with("export run: func();")) {
        Ok(t) => t,
        Err(e) => panic!("target world: {e:?}"),
    }
}

fn mount(source: &str, path: &str) -> FileMount {
    FileMount { source: Some(source.to_string()), path: path.to_string() }
}

fn unchanged(r: Result<Adaptation, LoadError>) -> Vec<u8> {
    match r {
        Ok(Adaptation::Unchanged(b)) => b,
        Ok(Adaptation::Adapted(_)) => panic!("expected pass-through, got an adapted binary"),
        Err(e) => panic!("expected pass-through, got {e:?}"),
    }
}

#[test]
fn file_url_gives_absolute_path() {
    assert_eq!(parse_file_url("file:///app/comp.wasm"), Ok("/app/comp.wasm".to_string()));
}

#[test]
fn other_schemes_are_invalid_sources() {
    assert_eq!(parse_file_url("https://example.com/comp.wasm"), Err(LoadError::InvalidSource));
    assert_eq!(parse_file_url("file://"), Err(LoadError::InvalidSource));
    assert_eq!(parse_file_url("file://relative/x"), Err(LoadError::InvalidSource));
    assert_eq!(parse_file_url(""), Err(LoadError::InvalidSource));
}

#[test]
fn missing_source_field() {
    assert_eq!(locked_source_path(&None), Err(LoadError::MissingSourceField));
    assert_eq!(locked_source_path(&Some("file:///a".to_string())), Ok("/a".to_string()));
}

#[test]
fn join_keeps_absolute_and_nests_relative() {
    assert_eq!(join_path_exec("/work", "/app/data"), "/app/data");
    assert_eq!(join_path_exec("/work", "data"), "/work/data");
    assert_eq!(join_path_exec("/work/", "data"), "/work/data");
    assert_eq!(join_path_exec("", "data"), "data");
}

#[test]
fn classify_reads_the_preamble() {
    assert_eq!(classify(&MODULE.to_vec()), BinaryKind::Module);
    assert_eq!(classify(&COMPONENT.to_vec()), BinaryKind::Component);
    assert_eq!(classify(&vec![0x00, 0x61, 0x73, 0x6d]), BinaryKind::Unrecognized);
    assert_eq!(classify(&b"not wasm".to_vec()), BinaryKind::Unrecognized);
    assert_eq!(classify(&vec![]), BinaryKind::Unrecognized);
    let mut truncated = COMPONENT.to_vec();
    truncated.extend_from_slice(&[0x00, 0x05, 0x01]);
    assert_eq!(classify(&truncated), BinaryKind::Unrecognized);
    let mut with_custom = COMPONENT.to_vec();
    with_custom.extend_from_slice(&[0x00, 0x02, 0x01, 0x78]);
    assert_eq!(classify(&with_custom), BinaryKind::Component);
}

#[test]
fn normalize_passes_components_and_replaces_modules() {
    let n = normalize_binary(COMPONENT.to_vec(), None).unwrap();
    assert_eq!(n.bytes, COMPONENT.to_vec());
    assert!(n.already_component);

    let n = normalize_binary(MODULE.to_vec(), Some(COMPONENT.to_vec())).unwrap();
    assert_eq!(n.bytes, COMPONENT.to_vec());
    assert!(!n.already_component);

    assert_eq!(normalize_binary(MODULE.to_vec(), None).err(), Some(LoadError::UnrecognizedBinary));
    assert_eq!(
        normalize_binary(MODULE.to_vec(), Some(MODULE.to_vec())).err(),
        Some(LoadError::UnrecognizedBinary)
    );
    assert_eq!(normalize_binary(b"junk".to_vec(), None).err(), Some(LoadError::UnrecognizedBinary));
}

#[test]
fn adaptation_decisions() {
    let c = COMPONENT.to_vec();
    let mut composed = COMPONENT.to_vec();
    composed.extend_from_slice(&[0x00, 0x02, 0x01, 0x78]);
    assert_eq!(unchanged(decide_adaptation(c.clone(), true, Some(composed.clone()), true)), c);
    match decide_adaptation(c.clone(), false, Some(composed.clone()), true) {
        Ok(Adaptation::Adapted(b)) => assert_eq!(b, composed),
        _ => panic!("expected the composed binary"),
    }
    assert_eq!(decide_adaptation(c.clone(), false, None, true).err(), Some(LoadError::NoAdapterAvailable));
    assert_eq!(
        decide_adaptation(c.clone(), false, Some(composed.clone()), false).err(),
        Some(LoadError::IncompatibleWorld)
    );
    assert_eq!(
        decide_adaptation(c, false, Some(MODULE.to_vec()), true).err(),
        Some(LoadError::IncompatibleWorld)
    );
}

#[test]
fn target_world_needs_both_packages() {
    let mut only_spin = wit_parser::Resolve::new();
    only_spin.push_str("spin.wit", "package fermyon:spin;\nworld platform {}\n").unwrap();
    assert_eq!(TargetWorld::new(only_spin).err(), Some(LoadError::ContractResolution));

    let mut wrong_world = wit_parser::Resolve::new();
    wrong_world.push_str("spin.wit", "package fermyon:spin;\nworld other {}\n").unwrap();
    wrong_world
        .push_str("wasi.wit", "package wasmtime:wasi;\nworld preview1-adapter-reactor {}\n")
        .unwrap();
    assert_eq!(TargetWorld::new(wrong_world).err(), Some(LoadError::ContractResolution));
}

#[test]
fn conformant_component_passes_through_byte_identical() {
    let target = open_target();
    assert!(target.accepts(&COMPONENT.to_vec()));
    let out = unchanged(adapt_old_worlds_to_new(&target, COMPONENT.to_vec(), None));
    assert_eq!(out, COMPONENT.to_vec());
}

#[test]
fn nonconformant_component_without_adapter_fails() {
    let target = strict_target();
    assert!(!target.accepts(&COMPONENT.to_vec()));
    assert_eq!(
        adapt_old_worlds_to_new(&target, COMPONENT.to_vec(), None).err(),
        Some(LoadError::NoAdapterAvailable)
    );
    assert_eq!(
        adapt_old_worlds_to_new(&target, COMPONENT.to_vec(), Some(COMPONENT.to_vec())).err(),
        Some(LoadError::IncompatibleWorld)
    );
}

#[test]
fn same_source_twice_gives_same_decision() {
    let target = open_target();
    let loader = TriggerLoader::new("/app".to_string(), false);
    let a = loader.prepare_component(&target, MODULE.to_vec(), Some(COMPONENT.to_vec()), None).unwrap();
    let b = loader.prepare_component(&target, MODULE.to_vec(), Some(COMPONENT.to_vec()), None).unwrap();
    assert_eq!(a.already_component, b.already_component);
    assert_eq!(unchanged(Ok(a.binary)), unchanged(Ok(b.binary)));

    let strict = strict_target();
    let c = loader.prepare_component(&strict, COMPONENT.to_vec(), None, None).err();
    let d = loader.prepare_component(&strict, COMPONENT.to_vec(), None, None).err();
    assert_eq!(c, Some(LoadError::NoAdapterAvailable));
    assert_eq!(c, d);
}

#[test]
fn scenario_conformant_component_and_read_only_mount() {
    let target = open_target();
    let loader = TriggerLoader::new("/app".to_string(), false);
    let source = locked_source_path(&Some("file:///app/comp.wasm".to_string())).unwrap();
    assert_eq!(source, "/app/comp.wasm");
    let prepared = loader.prepare_component(&target, COMPONENT.to_vec(), None, None).unwrap();
    assert!(prepared.already_component);
    assert_eq!(unchanged(Ok(prepared.binary)), COMPONENT.to_vec());

    let mut builder: Vec<PreopenDir> = Vec::new();
    let files = vec![mount("file:///app/data", "/data")];
    assert_eq!(loader.mount_files(&mut builder, &files, &vec![true]), Ok(()));
    assert_eq!(builder.len(), 1);
    assert_eq!(builder[0].host_path, "/app/data");
    assert_eq!(builder[0].guest_path, "/data");
    assert_eq!(builder[0].mode, AccessMode::ReadOnly);
}

#[test]
fn scenario_core_module_is_componentized_first() {
    let target = open_target();
    let loader = TriggerLoader::new("/app".to_string(), false);
    let prepared = loader.prepare_component(&target, MODULE.to_vec(), Some(COMPONENT.to_vec()), None).unwrap();
    assert!(!prepared.already_component);
    assert_eq!(unchanged(Ok(prepared.binary)), COMPONENT.to_vec());

    assert_eq!(
        loader.prepare_component(&target, MODULE.to_vec(), None, None).err(),
        Some(LoadError::UnrecognizedBinary)
    );
    let strict = strict_target();
    assert_eq!(
        loader.prepare_component(&strict, MODULE.to_vec(), Some(COMPONENT.to_vec()), None).err(),
        Some(LoadError::NoAdapterAvailable)
    );
}

#[test]
fn scenario_mount_of_regular_file_is_not_a_directory() {
    let loader = TriggerLoader::new("/app".to_string(), false);
    let mut builder: Vec<PreopenDir> = Vec::new();
    let files = vec![mount("file:///app/data.txt", "/data")];
    assert_eq!(loader.mount_files(&mut builder, &files, &vec![false]), Err(LoadError::NotADirectory));
    assert!(builder.is_empty());
}

#[test]
fn first_failing_mount_stops_the_walk() {
    let loader = TriggerLoader::new("/app".to_string(), true);
    let mut builder: Vec<PreopenDir> = Vec::new();
    let files = vec![
        mount("file:///app/a", "/a"),
        FileMount { source: None, path: "/b".to_string() },
        mount("file:///app/c", "/c"),
    ];
    assert_eq!(
        loader.mount_files(&mut builder, &files, &vec![true, true, true]),
        Err(LoadError::MissingSourceField)
    );
    assert_eq!(builder.len(), 1);
    assert_eq!(builder[0].guest_path, "/a");

    let mut builder: Vec<PreopenDir> = Vec::new();
    let files = vec![mount("http://x/a", "/a")];
    assert_eq!(loader.mount_files(&mut builder, &files, &vec![true]), Err(LoadError::InvalidSource));
    assert!(builder.is_empty());
}

#[test]
fn write_flag_changes_only_the_mode() {
    let files = vec![mount("file:///app/a", "/a"), mount("file:///app/b", "/b")];
    let dirs = vec![true, true];
    let ro = TriggerLoader::new("/app".to_string(), false);
    let rw = TriggerLoader::new("/app".to_string(), true);
    let mut b1: Vec<PreopenDir> = Vec::new();
    let mut b2: Vec<PreopenDir> = Vec::new();
    assert_eq!(ro.mount_files(&mut b1, &files, &dirs), Ok(()));
    assert_eq!(rw.mount_files(&mut b2, &files, &dirs), Ok(()));
    assert_eq!(b1.len(), 2);
    assert_eq!(b2.len(), 2);
    for i in 0..2 {
        assert_eq!(b1[i].host_path, b2[i].host_path);
        assert_eq!(b1[i].guest_path, b2[i].guest_path);
        assert_eq!(b1[i].mode, AccessMode::ReadOnly);
        assert_eq!(b2[i].mode, AccessMode::ReadWrite);
    }
    assert_eq!(ro.mode(), AccessMode::ReadOnly);
    assert_eq!(rw.mode(), AccessMode::ReadWrite);
}

#[test]
fn mount_source_resolves_against_working_dir() {
    let loader = TriggerLoader::new("/work".to_string(), false);
    assert_eq!(loader.mount_source(&mount("file:///app/data", "/d")), Ok("/app/data".to_string()));
    assert_eq!(
        loader.mount_source(&FileMount { source: None, path: "/d".to_string() }),
        Err(LoadError::MissingSourceField)
    );
}

#[test]
fn write_flag_keeps_the_failing_entry() {
    let files = vec![mount("file:///app/a", "/a"), mount("file:///app/b", "/b"), mount("file:///app/c", "/c")];
    let dirs = vec![true, false, true];
    let ro = TriggerLoader::new("/app".to_string(), false);
    let rw = TriggerLoader::new("/app".to_string(), true);
    let mut b1: Vec<PreopenDir> = Vec::new();
    let mut b2: Vec<PreopenDir> = Vec::new();
    assert_eq!(ro.mount_files(&mut b1, &files, &dirs), Err(LoadError::NotADirectory));
    assert_eq!(rw.mount_files(&mut b2, &files, &dirs), Err(LoadError::NotADirectory));
    assert_eq!(b1.len(), 1);
    assert_eq!(b2.len(), 1);
    assert_eq!(b1[0].host_path, b2[0].host_path);
    assert_eq!(b1[0].mode, AccessMode::ReadOnly);
    assert_eq!(b2[0].mode, AccessMode::ReadWrite);
}

#[test]
fn conflicting_worlds_are_a_resolution_error() {
    let mut resolve = wit_parser::Resolve::new();
    resolve.push_str("spin.wit", "package fermyon:spin;\nworld platform { import foo: func(); }\n").unwrap();
    resolve
        .push_str(
            "wasi.wit",
            "package wasmtime:wasi;\nworld preview1-adapter-reactor { import foo: interface { f: func(); } }\n",
        )
        .unwrap();
    assert_eq!(TargetWorld::new(resolve).err(), Some(LoadError::ContractResolution));
}

#[test]
fn file_url_host_and_escapes() {
    assert_eq!(parse_file_url("file://localhost/app/comp.wasm"), Ok("/app/comp.wasm".to_string()));
    assert_eq!(parse_file_url("file:///a%20b"), Ok("/a b".to_string()));
    assert_eq!(parse_file_url("file:///a%2Fb%41"), Ok("/a/bA".to_string()));
    assert_eq!(parse_file_url("file:///a%zz%4"), Ok("/a%zz%4".to_string()));
    assert_eq!(parse_file_url("file:///caf%C3%A9"), Err(LoadError::InvalidSource));
    assert_eq!(parse_file_url("file://otherhost/a"), Err(LoadError::InvalidSource));
    assert_eq!(parse_file_url("file://localhost"), Err(LoadError::InvalidSource));
}
