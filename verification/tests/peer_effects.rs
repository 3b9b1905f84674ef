use renodx_core::peer_effects::{
    overlapping_paths, EndpointExpectation, FileIntent, PeerEffectAccumulator, PeerEffectError,
    PeerEffectGroup, PeerEndpointRole, VerifiedPeerFile,
};
use sha2::{Digest, Sha256};

fn path(value: &str) -> String {
    value.to_owned()
}

fn file(identity: &str, digest: char, length: u64) -> VerifiedPeerFile {
    VerifiedPeerFile::new_with_length(identity.to_owned(), digest.to_string().repeat(64), length)
}

fn file_for_bytes(identity: &str, bytes: &[u8]) -> VerifiedPeerFile {
    VerifiedPeerFile::new_with_length(
        identity.to_owned(),
        hex::encode(Sha256::digest(bytes)),
        bytes.len() as u64,
    )
}

#[test]
fn final_program_has_addon_sidecar_host_and_typed_ini_order() {
    let mut accumulator = PeerEffectAccumulator::new();
    accumulator
        .create(PeerEffectGroup::Config, path("C:/Game/ReShade.ini"), b"ini".to_vec())
        .expect("config");
    accumulator
        .acquire_host(
            path("C:/Game/ReShade64.dll"),
            path("C:/Game/ReShade64.dll.bak"),
            &file_for_bytes("host", b"old"),
            b"old".to_vec(),
            b"new".to_vec(),
        )
        .expect("host");
    accumulator
        .create(PeerEffectGroup::Addon, path("C:/Game/renodx.addon64"), b"addon".to_vec())
        .expect("addon");

    let effects = accumulator.finalize().expect("effects");
    let endpoints = &effects.endpoints;
    assert_eq!(endpoints.len(), 4);
    assert_eq!(endpoints[0].role, PeerEndpointRole::Disjoint);
    assert_eq!(endpoints[0].path.as_str(), "C:/Game/renodx.addon64");
    assert_eq!(endpoints[1].role, PeerEndpointRole::Disjoint);
    assert_eq!(endpoints[1].path.as_str(), "C:/Game/ReShade64.dll.bak");
    assert_eq!(endpoints[2].role, PeerEndpointRole::TopologyDownstream);
    assert_eq!(endpoints[2].path.as_str(), "C:/Game/ReShade64.dll");
    assert_eq!(endpoints[3].role, PeerEndpointRole::ReshadeIni);
    assert_eq!(endpoints[3].path.as_str(), "C:/Game/ReShade.ini");
    assert_eq!(effects.payloads.len(), endpoints.len());
    assert_eq!(effects.game_intents.len(), endpoints.len());
    assert_eq!(
        effects.game_intents[0],
        FileIntent {
            live_path: "C:/Game/renodx.addon64".to_owned(),
            before: None,
            after: Some(b"addon".to_vec()),
        }
    );
    assert_eq!(
        effects.game_intents[1],
        FileIntent {
            live_path: "C:/Game/ReShade64.dll.bak".to_owned(),
            before: None,
            after: Some(b"old".to_vec()),
        }
    );
    assert_eq!(
        effects.game_intents[2],
        FileIntent {
            live_path: "C:/Game/ReShade64.dll".to_owned(),
            before: Some(b"old".to_vec()),
            after: Some(b"new".to_vec()),
        }
    );
    assert_eq!(
        effects.game_intents[3],
        FileIntent {
            live_path: "C:/Game/ReShade.ini".to_owned(),
            before: None,
            after: Some(b"ini".to_vec()),
        }
    );
}

#[test]
fn replace_rejects_before_bytes_that_do_not_match_the_sealed_file() {
    let mut accumulator = PeerEffectAccumulator::new();
    let target = path("C:/Game/renodx.addon64");
    let error = accumulator
        .replace(
            PeerEffectGroup::Addon,
            target.clone(),
            &file_for_bytes("addon", b"sealed"),
            b"different".to_vec(),
            b"new".to_vec(),
        )
        .expect_err("mismatched before bytes must fail closed");
    assert_eq!(error, PeerEffectError::BeforeImageMismatch(target));
}

#[test]
fn host_acquisition_rejects_a_retained_image_that_differs_from_bytes() {
    let mut accumulator = PeerEffectAccumulator::new();
    let error = accumulator
        .acquire_host(
            path("C:/Game/ReShade64.dll"),
            path("C:/Game/ReShade64.dll.bak"),
            &file("host", 'a', 3),
            b"different".to_vec(),
            b"new".to_vec(),
        )
        .expect_err("image mismatch must fail closed");
    assert!(matches!(error, PeerEffectError::BeforeImageMismatch(_)));
}

#[test]
fn duplicate_effect_is_rejected_instead_of_silently_coalesced() {
    let mut accumulator = PeerEffectAccumulator::new();
    let target = path("C:/Game/renodx.addon64");
    accumulator
        .create(PeerEffectGroup::Addon, target.clone(), b"addon".to_vec())
        .expect("first effect");

    let error = accumulator
        .create(PeerEffectGroup::Addon, target.clone(), b"addon".to_vec())
        .expect_err("duplicate effect must fail closed");

    assert_eq!(error, PeerEffectError::DuplicatePath(target));
}

#[test]
fn same_path_with_other_bytes_conflicts() {
    let mut accumulator = PeerEffectAccumulator::new();
    accumulator
        .create(PeerEffectGroup::Addon, path("C:/Game/renodx.addon64"), b"one".to_vec())
        .expect("first effect");
    let error = accumulator
        .create(PeerEffectGroup::Addon, path("c:\\game\\RENODX.addon64"), b"two".to_vec())
        .expect_err("same normalized path must fail closed");
    assert_eq!(error, PeerEffectError::ConflictingPath(path("c:\\game\\RENODX.addon64")));
}

#[test]
fn nested_paths_are_rejected_as_overlapping() {
    let mut accumulator = PeerEffectAccumulator::new();
    accumulator
        .create(PeerEffectGroup::Addon, path("C:/Game/mods"), b"one".to_vec())
        .expect("first effect");
    let error = accumulator
        .create(PeerEffectGroup::Config, path("C:/Game/mods/ReShade.ini"), b"two".to_vec())
        .expect_err("nested path must fail closed");
    assert_eq!(
        error,
        PeerEffectError::OverlappingBundle(path("C:/Game/mods"), path("C:/Game/mods/ReShade.ini"))
    );
    assert!(overlapping_paths("C:/Game", "c:\\game\\x.dll"));
    assert!(!overlapping_paths("C:/Game", "C:/Games/x.dll"));
}

#[test]
fn host_acquisition_rejects_the_same_or_nested_pair_paths() {
    let mut accumulator = PeerEffectAccumulator::new();
    let error = accumulator
        .acquire_host(
            path("C:/Game/ReShade64.dll"),
            path("c:/game/reshade64.DLL"),
            &file_for_bytes("host", b"old"),
            b"old".to_vec(),
            b"new".to_vec(),
        )
        .expect_err("same pair path must fail closed");
    assert_eq!(error, PeerEffectError::SamePairPath(path("C:/Game/ReShade64.dll")));

    let error = accumulator
        .acquire_host(
            path("C:/Game/ReShade64.dll"),
            path("C:/Game/ReShade64.dll/backup"),
            &file_for_bytes("host", b"old"),
            b"old".to_vec(),
            b"new".to_vec(),
        )
        .expect_err("nested pair path must fail closed");
    assert_eq!(
        error,
        PeerEffectError::OverlappingPaths(
            path("C:/Game/ReShade64.dll"),
            path("C:/Game/ReShade64.dll/backup")
        )
    );
}

#[test]
fn empty_program_is_refused() {
    let accumulator = PeerEffectAccumulator::new();
    assert_eq!(accumulator.finalize().err(), Some(PeerEffectError::EmptyProgram));
}

#[test]
fn two_hosts_are_refused() {
    let mut accumulator = PeerEffectAccumulator::new();
    accumulator
        .create(PeerEffectGroup::Host, path("C:/Game/dxgi.dll"), b"a".to_vec())
        .expect("first host");
    accumulator
        .create(PeerEffectGroup::Host, path("C:/Game/d3d11.dll"), b"b".to_vec())
        .expect("second host");
    assert_eq!(accumulator.finalize().err(), Some(PeerEffectError::InvalidHostCardinality(2)));
}

#[test]
fn replace_keeps_the_sealed_image_as_its_expectation() {
    let mut accumulator = PeerEffectAccumulator::new();
    let sealed = file_for_bytes("addon", b"sealed");
    accumulator
        .replace(
            PeerEffectGroup::Addon,
            path("C:/Game/renodx.addon64"),
            &sealed,
            b"sealed".to_vec(),
            b"fresh".to_vec(),
        )
        .expect("replace");
    let effects = accumulator.finalize().expect("effects");
    assert_eq!(effects.endpoints[0].before, EndpointExpectation::File(sealed));
    assert_eq!(effects.endpoints[0].after.sha256, hex::encode(Sha256::digest(b"fresh")));
    assert_eq!(effects.endpoints[0].after.length, 5);
    assert_eq!(effects.payloads[0], Some(b"fresh".to_vec()));
    assert_eq!(effects.game_intents[0].before, Some(b"sealed".to_vec()));
}

#[test]
fn program_order_does_not_depend_on_collection_order() {
    let mut first = PeerEffectAccumulator::new();
    first.create(PeerEffectGroup::Config, path("C:/G/b.ini"), b"1".to_vec()).unwrap();
    first.create(PeerEffectGroup::Addon, path("C:/G/z.addon64"), b"2".to_vec()).unwrap();
    first.create(PeerEffectGroup::Addon, path("C:/G/A.addon64"), b"3".to_vec()).unwrap();
    let mut second = PeerEffectAccumulator::new();
    second.create(PeerEffectGroup::Addon, path("C:/G/A.addon64"), b"3".to_vec()).unwrap();
    second.create(PeerEffectGroup::Addon, path("C:/G/z.addon64"), b"2".to_vec()).unwrap();
    second.create(PeerEffectGroup::Config, path("C:/G/b.ini"), b"1".to_vec()).unwrap();
    let a = first.finalize().unwrap();
    let b = second.finalize().unwrap();
    assert_eq!(a.endpoints, b.endpoints);
    assert_eq!(a.payloads, b.payloads);
    assert_eq!(a.game_intents, b.game_intents);
    assert_eq!(a.endpoints[0].path, "C:/G/A.addon64");
    assert_eq!(a.endpoints[1].path, "C:/G/z.addon64");
    assert_eq!(a.endpoints[2].path, "C:/G/b.ini");
}
