use renodx_core::errors::ServiceError;
use renodx_core::game_participants::{plan_game_participants, update_text_current, ParticipantFacts};
use renodx_core::install_plan::FileOp;
use renodx_core::reshade::{IniSectionRemoval, MergeStrategy};
use renodx_core::uninstall_plan::FileRead;

const ADDON: &str = "C:/Game/renodx.addon";

fn replace() -> FileOp {
    FileOp::Replace { name: "renodx.addon".to_owned(), bytes: vec![1, 2, 3] }
}

fn update() -> FileOp {
    FileOp::UpdateText {
        name: "ReShade.ini".to_owned(),
        default: String::new(),
        strategy: MergeStrategy::IniRemoveKeys {
            sections: vec![IniSectionRemoval { name: "ADDON".to_owned(), keys: Vec::new() }],
        },
    }
}

#[test]
fn replace_reads_only_its_touched_path() {
    let facts = vec![ParticipantFacts { path: Ok(ADDON.to_owned()), before: FileRead::Missing, updated: None }];
    let (files, created) = plan_game_participants(&vec![replace()], &facts).expect("touched path plan");
    assert_eq!(files.len(), 1);
    assert_eq!(files[0].live_path, ADDON);
    assert_eq!(files[0].before, None);
    assert_eq!(files[0].after, Some(vec![1, 2, 3]));
    assert_eq!(created, vec![ADDON.to_owned()]);
}

#[test]
fn replace_records_existing_target_as_owned_like_engine() {
    let facts =
        vec![ParticipantFacts { path: Ok(ADDON.to_owned()), before: FileRead::Bytes(vec![9, 8]), updated: None }];
    let (files, created) = plan_game_participants(&vec![replace()], &facts).expect("touched path plan");
    assert_eq!(files[0].before, Some(vec![9, 8]));
    assert_eq!(created, vec![ADDON.to_owned()]);
}

#[test]
fn update_uses_existing_case_and_lossy_utf8_like_engine() {
    let existing = "C:/Game/reshade.INI";
    let original = vec![b'[', 0xff, b']', b'\n'];
    let current = update_text_current(&Some(original.clone()), "");
    assert_eq!(current, "[\u{FFFD}]\n");
    assert_eq!(update_text_current(&None, "default"), "default");
    let facts = vec![ParticipantFacts {
        path: Ok(existing.to_owned()),
        before: FileRead::Bytes(original.clone()),
        updated: Some(current.clone().into_bytes()),
    }];
    let (files, created) = plan_game_participants(&vec![update()], &facts).expect("update plan");
    assert_eq!(files[0].live_path, existing);
    assert_eq!(files[0].before, Some(original));
    assert!(String::from_utf8(files[0].after.clone().expect("after")).is_ok());
    assert!(created.is_empty());
}

#[test]
fn an_update_of_an_absent_file_is_recorded_as_created() {
    let facts = vec![
        ParticipantFacts { path: Ok(ADDON.to_owned()), before: FileRead::Missing, updated: None },
        ParticipantFacts {
            path: Ok("C:/Game/ReShade.ini".to_owned()),
            before: FileRead::Missing,
            updated: Some(b"[ADDON]\n".to_vec()),
        },
    ];
    let (files, created) = plan_game_participants(&vec![replace(), update()], &facts).expect("plan");
    assert_eq!(files.len(), 2);
    assert_eq!(files[1].after, Some(b"[ADDON]\n".to_vec()));
    assert_eq!(created, vec![ADDON.to_owned(), "C:/Game/ReShade.ini".to_owned()]);
}

#[test]
fn unsupported_operations_fail_closed() {
    let facts = vec![ParticipantFacts { path: Ok(ADDON.to_owned()), before: FileRead::Missing, updated: None }];
    let error = plan_game_participants(
        &vec![FileOp::Create { name: "unexpected.bin".to_owned(), bytes: vec![1] }],
        &facts,
    )
    .expect_err("unsupported operation");
    match error {
        ServiceError::InvalidInput(m) => assert_eq!(
            m,
            "RenoDX Vulkan combined planning supports only Replace and UpdateText operations"
        ),
        other => panic!("unexpected {other:?}"),
    }
}

#[test]
fn the_first_refused_participant_refuses_the_plan() {
    let facts = vec![
        ParticipantFacts { path: Ok(ADDON.to_owned()), before: FileRead::NotRegular, updated: None },
        ParticipantFacts {
            path: Err(ServiceError::InvalidInput("bad name".to_owned())),
            before: FileRead::Missing,
            updated: None,
        },
    ];
    let error = plan_game_participants(&vec![replace(), update()], &facts).expect_err("not regular");
    match error {
        ServiceError::InvalidInput(m) => assert_eq!(m, format!("cannot replace `{ADDON}`: not a regular file")),
        other => panic!("unexpected {other:?}"),
    }
    let facts = vec![ParticipantFacts {
        path: Ok(ADDON.to_owned()),
        before: FileRead::Failed("read failed".to_owned()),
        updated: None,
    }];
    match plan_game_participants(&vec![replace()], &facts).expect_err("read") {
        ServiceError::Failed(m) => assert_eq!(m, "read failed"),
        other => panic!("unexpected {other:?}"),
    }
}
