use openharmony_ability::error::AbilityError;
use openharmony_ability::plugins::cursor::{CursorBridgePlugin, CursorState, WindowIdResponse};
use openharmony_ability::plugins::filedrop::{
    clear_filedrop_callback, set_filedrop_callback, DropAck, FileDropBridgePlugin,
    FileDropEventKind,
};
use openharmony_ability::plugins::filelaunch::{
    clear_filelaunch_callback, set_filelaunch_callback, FileLaunchAck, FileLaunchBridgePlugin,
    FileLaunchData,
};
use openharmony_ability::plugins::ime::{
    ImeAck, ImeAttachRequest, ImeBridgePlugin, ImeDeleteLeft, ImeDeleteRight, ImeDetachRequest,
    ImeEvent, ImeEventKind, ImeFunctionKey, ImeInsertText, ImeKeyboardStatus, ImePreviewText,
    ImeRequest, KeyboardStatus,
};
use openharmony_ability::plugins::openbysys::{
    open_request, reveal_request, validate_path, OpenBySysBridgePlugin, OpenRequest, OpenResponse,
    RevealRequest, RevealResponse,
};
use openharmony_ability::plugins::pinch::{
    clear_pinch_callback, set_pinch_callback, PinchAck, PinchBridgePlugin, PinchPhase,
};
use openharmony_ability::plugins::BridgeContextRequirement;

#[test]
fn ime_plugin_targets_the_ui_context() {
    assert_eq!(ImeBridgePlugin::ID, "ohos.ime");
    assert_eq!(
        ImeBridgePlugin::required_contexts(),
        vec![BridgeContextRequirement::UiContext]
    );
}

#[test]
fn ime_event_contracts_use_stable_type_names() {
    assert_eq!(ImeInsertText::TYPE_NAME, "ohos.ime.InsertText");
    assert_eq!(ImeDeleteLeft::TYPE_NAME, "ohos.ime.DeleteLeft");
    assert_eq!(ImeFunctionKey::TYPE_NAME, "ohos.ime.FunctionKey");
    assert_eq!(ImeKeyboardStatus::TYPE_NAME, "ohos.ime.KeyboardStatus");
    assert_eq!(ImeAck::TYPE_NAME, "ohos.ime.Ack");
    assert_eq!(ImeAttachRequest::TYPE_NAME, "ohos.ime.AttachRequest");
    assert_eq!(
        ImeBridgePlugin::CURSOR_REQUEST_TYPE_NAME,
        "ohos.ime.CursorRequest"
    );
}

#[test]
fn ime_detach_request_has_a_stable_type_name() {
    assert_eq!(ImeDetachRequest::TYPE_NAME, "ohos.ime.DetachRequest");
}

#[test]
fn openbysys_uses_stable_named_napi_contracts() {
    assert_eq!(OpenRequest::TYPE_NAME, "ohos.openbysys.OpenRequest");
    assert_eq!(OpenResponse::TYPE_NAME, "ohos.openbysys.OpenResponse");
    assert_eq!(RevealRequest::TYPE_NAME, "ohos.openbysys.RevealRequest");
    assert_eq!(RevealResponse::TYPE_NAME, "ohos.openbysys.RevealResponse");
}

#[test]
fn path_must_be_absolute_and_non_empty() {
    assert!(validate_path("/storage/Users/currentUser/Documents").is_ok());
    assert!(validate_path("").is_err());
    assert!(validate_path("   ").is_err());
    assert!(validate_path("relative/dir").is_err());
}

#[test]
fn responses_reject_a_refusal() {
    assert!(OpenResponse { accepted: true }.ensure().is_ok());
    assert!(OpenResponse { accepted: false }.ensure().is_err());
    assert!(RevealResponse { accepted: true }.ensure().is_ok());
    assert!(RevealResponse { accepted: false }.ensure().is_err());
}

#[test]
fn path_errors_name_the_problem() {
    assert_eq!(validate_path(" \t\n"), Err(AbilityError::EmptyPath));
    assert_eq!(validate_path("\u{3000}"), Err(AbilityError::EmptyPath));
    assert_eq!(validate_path(" /leading-space"), Err(AbilityError::RelativePath));
    assert_eq!(validate_path("file:///data"), Err(AbilityError::RelativePath));
    assert_eq!(validate_path("/"), Ok(()));
    assert_eq!(
        OpenResponse { accepted: false }.ensure(),
        Err(AbilityError::OpenRejected)
    );
    assert_eq!(
        RevealResponse { accepted: false }.ensure(),
        Err(AbilityError::RevealRejected)
    );
}

#[test]
fn requests_carry_validated_paths() {
    let request = open_request("/data/a.txt".to_string()).unwrap();
    assert_eq!(request.path, "/data/a.txt");
    assert!(open_request("a.txt".to_string()).is_err());
    let request = reveal_request("/data".to_string()).unwrap();
    assert_eq!(request.path, "/data");
    assert_eq!(
        reveal_request(String::new()).err(),
        Some(AbilityError::EmptyPath)
    );
    assert_eq!(OpenBySysBridgePlugin::ID, "ohos.openbysys");
    assert_eq!(OpenBySysBridgePlugin::OPEN_FILE_ACTION, "open-file");
    assert_eq!(OpenBySysBridgePlugin::REVEAL_FILE_ACTION, "reveal-file");
    assert_eq!(
        OpenBySysBridgePlugin::required_contexts(),
        vec![BridgeContextRequirement::Ability]
    );
}

#[test]
fn ime_events_route_by_name() {
    assert_eq!(ImeBridgePlugin::event_kind("insert-text"), Ok(ImeEventKind::InsertText));
    assert_eq!(ImeBridgePlugin::event_kind("delete-left"), Ok(ImeEventKind::DeleteLeft));
    assert_eq!(ImeBridgePlugin::event_kind("delete-right"), Ok(ImeEventKind::DeleteRight));
    assert_eq!(ImeBridgePlugin::event_kind("function-key"), Ok(ImeEventKind::FunctionKey));
    assert_eq!(
        ImeBridgePlugin::event_kind("keyboard-status"),
        Ok(ImeEventKind::KeyboardStatus)
    );
    assert_eq!(ImeBridgePlugin::event_kind("preview-text"), Ok(ImeEventKind::PreviewText));
    let error = ImeBridgePlugin::event_kind("paste").unwrap_err();
    assert_eq!(
        error.reason(),
        "Unsupported ohos.ime main-thread event 'paste'"
    );
}

#[test]
fn ime_requests_become_input_events() {
    match ImeBridgePlugin::input_event(ImeRequest::InsertText(ImeInsertText {
        text: "你好".to_string(),
    })) {
        Some(ImeEvent::TextInputEvent(data)) => assert_eq!(data.text, "你好"),
        other => panic!("unexpected {other:?}"),
    }
    assert!(matches!(
        ImeBridgePlugin::input_event(ImeRequest::DeleteLeft(ImeDeleteLeft { length: -3 })),
        Some(ImeEvent::BackspaceEvent(0))
    ));
    assert!(matches!(
        ImeBridgePlugin::input_event(ImeRequest::DeleteLeft(ImeDeleteLeft { length: 2 })),
        Some(ImeEvent::BackspaceEvent(2))
    ));
    assert!(matches!(
        ImeBridgePlugin::input_event(ImeRequest::DeleteRight(ImeDeleteRight { length: -1 })),
        Some(ImeEvent::DeleteRightEvent(0))
    ));
    assert!(matches!(
        ImeBridgePlugin::input_event(ImeRequest::FunctionKey(ImeFunctionKey { key: 6 })),
        Some(ImeEvent::EnterEvent(6))
    ));
    assert!(matches!(
        ImeBridgePlugin::input_event(ImeRequest::KeyboardStatus(ImeKeyboardStatus { status: 2 })),
        Some(ImeEvent::ImeStatusEvent(KeyboardStatus::Show))
    ));
    assert!(matches!(
        ImeBridgePlugin::input_event(ImeRequest::KeyboardStatus(ImeKeyboardStatus { status: 1 })),
        Some(ImeEvent::ImeStatusEvent(KeyboardStatus::Hide))
    ));
    assert!(ImeBridgePlugin::input_event(ImeRequest::PreviewText(ImePreviewText {
        text: "ni".to_string(),
        start: 0,
        end: 2,
    }))
    .is_none());
    assert!(ImeBridgePlugin::ack().accepted);
}

#[test]
fn cursor_plugin_remembers_and_forgets_the_window() {
    assert_eq!(CursorBridgePlugin::ID, "ohos.cursor");
    assert_eq!(WindowIdResponse::TYPE_NAME, "ohos.cursor.WindowIdResponse");
    assert_eq!(
        CursorBridgePlugin::required_contexts(),
        vec![BridgeContextRequirement::WindowStage]
    );
    let mut state = CursorState::new();
    let mut calls = Vec::new();
    assert!(!state.set_cursor_style(3, |w, s| {
        calls.push((w, s));
        0
    }));
    assert!(calls.is_empty());
    assert!(CursorBridgePlugin::on_main_thread_event(&mut state, "other", 5).is_err());
    assert_eq!(state.window_id(), None);
    let response = CursorBridgePlugin::on_main_thread_event(&mut state, "window-id", 42).unwrap();
    assert!(response.accepted);
    assert_eq!(state.window_id(), Some(42));
    assert!(state.set_cursor_style(3, |w, s| {
        calls.push((w, s));
        0
    }));
    assert!(!state.set_cursor_style(4, |w, s| {
        calls.push((w, s));
        401
    }));
    assert_eq!(calls, vec![(42, 3), (42, 4)]);
    CursorBridgePlugin::on_window_stage_destroyed(&mut state);
    assert_eq!(state.window_id(), None);
}

#[test]
fn filedrop_routes_the_drag_stream() {
    assert_eq!(FileDropBridgePlugin::ID, "ohos.filedrop");
    assert_eq!(DropAck::TYPE_NAME, "ohos.filedrop.DropAck");
    assert_eq!(FileDropBridgePlugin::event_kind("drag-enter"), Ok(FileDropEventKind::Enter));
    assert_eq!(FileDropBridgePlugin::event_kind("drag-move"), Ok(FileDropEventKind::Move));
    assert_eq!(FileDropBridgePlugin::event_kind("drop-files"), Ok(FileDropEventKind::Drop));
    assert!(FileDropBridgePlugin::event_kind("drag-leave").is_err());
    assert!(FileDropBridgePlugin::ack().accepted);
    let mut slot: Option<u8> = None;
    set_filedrop_callback(&mut slot, 1);
    assert_eq!(slot, Some(1));
    clear_filedrop_callback(&mut slot);
    assert_eq!(slot, None);
}

#[test]
fn filelaunch_accepts_only_its_event() {
    assert_eq!(FileLaunchBridgePlugin::ID, "ohos.filelaunch");
    assert_eq!(FileLaunchData::TYPE_NAME, "ohos.filelaunch.FileLaunchData");
    assert_eq!(FileLaunchAck::TYPE_NAME, "ohos.filelaunch.FileLaunchAck");
    assert!(FileLaunchBridgePlugin::check_event("file-launch").is_ok());
    assert_eq!(
        FileLaunchBridgePlugin::check_event("file-open").unwrap_err().reason(),
        "Unsupported ohos.filelaunch main-thread event 'file-open'"
    );
    let mut slot: Option<&str> = None;
    set_filelaunch_callback(&mut slot, "handler");
    assert_eq!(slot, Some("handler"));
    clear_filelaunch_callback(&mut slot);
    assert!(slot.is_none());
}

#[test]
fn pinch_phases_follow_event_names() {
    assert_eq!(PinchBridgePlugin::ID, "ohos.pinch");
    assert_eq!(PinchAck::TYPE_NAME, "ohos.pinch.PinchAck");
    assert_eq!(PinchBridgePlugin::phase_of("pinch-begin"), Ok(PinchPhase::Begin));
    assert_eq!(PinchBridgePlugin::phase_of("pinch-update"), Ok(PinchPhase::Update));
    assert_eq!(PinchBridgePlugin::phase_of("pinch-end"), Ok(PinchPhase::End));
    assert!(PinchBridgePlugin::phase_of("pinch").is_err());
    let mut slot: Option<u8> = Some(3);
    clear_pinch_callback(&mut slot);
    assert_eq!(slot, None);
    set_pinch_callback(&mut slot, 4);
    assert_eq!(slot, Some(4));
}
