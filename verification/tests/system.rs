use std::cell::RefCell;

use openharmony_ability::child_process::{
    kill_result, register_result, spawn_native_child_process, ChildProcessError,
};
use openharmony_ability::clipboard::{
    image_type_id, image_types, plan_write, read_content_with, write_content_with,
    ClipboardContent, ClipboardImage, PlannedRecord,
};
use openharmony_ability::file_uri::{
    activate_permission, ensure_root_authorized, path_from_uri, permission_policy,
    persist_permission, releases_error_result, PermissionCall, PermissionPolicy,
    OPERATION_MODE_READ_WRITE,
};
use openharmony_ability::hotkey::{
    set_hotkey_triggered_handler, HotkeyRegistry, INPUT_OCCUPIED_BY_SYSTEM,
    INPUT_PARAMETER_ERROR, INPUT_SUCCESS, MAX_SUBSCRIPTIONS,
};
use openharmony_ability::input::{
    axis_tool_type, device_modifiers, map_axis_phase, AxisAction, AxisToolType, DeviceModifiers,
    ScrollPhase,
};
use openharmony_ability::timer::{timeout_ms, OpenHarmonyTimer};
use openharmony_ability::window_control::{
    minimize_main_window, show_and_focus_main_window, terminate_ability, AbilityActions,
    WindowActions,
};

#[test]
fn hotkey_register_is_idempotent_and_bounded() {
    let mut registry: HotkeyRegistry<u32> = HotkeyRegistry::new();
    let mut added = Vec::new();
    let refused = |_: usize| -> Result<u32, i32> { panic!("a refused request reached the system") };
    assert_eq!(registry.register(&[], 10, refused), Err(INPUT_PARAMETER_ERROR));
    assert_eq!(registry.register(&[1, 2, 3], 10, refused), Err(INPUT_PARAMETER_ERROR));
    assert_eq!(
        registry.register(&[2072], 2017, |slot| {
            added.push(slot);
            Ok(100)
        }),
        Ok(())
    );
    assert_eq!(registry.find(&[2072], 2017), Some(0));
    // Subscribing again is a no-op that reports success.
    assert_eq!(
        registry.register(&[2072], 2017, |slot| {
            added.push(slot);
            Ok(101)
        }),
        Ok(())
    );
    assert_eq!(added, vec![0]);
    assert_eq!(registry.keys_for_slot(0), Some((vec![2072], 2017)));
    assert_eq!(registry.keys_for_slot(1), None);
    assert_eq!(registry.keys_for_slot(99), None);
}

#[test]
fn hotkey_system_refusal_leaves_the_slot_free() {
    let mut registry: HotkeyRegistry<u32> = HotkeyRegistry::new();
    assert_eq!(
        registry.register(&[2072, 2045], 2038, |_| Err(INPUT_OCCUPIED_BY_SYSTEM)),
        Err(INPUT_OCCUPIED_BY_SYSTEM)
    );
    assert_eq!(registry.find(&[2072, 2045], 2038), None);
    assert_eq!(registry.first_free(), Some(0));
}

#[test]
fn hotkey_slots_run_out() {
    let mut registry: HotkeyRegistry<usize> = HotkeyRegistry::new();
    for key in 0..MAX_SUBSCRIPTIONS as i32 {
        assert_eq!(registry.register(&[2072], key, |slot| Ok(slot)), Ok(()));
    }
    assert_eq!(registry.first_free(), None);
    assert_eq!(registry.register(&[2072], 100, |slot| Ok(slot)), Err(INPUT_PARAMETER_ERROR));
    // Freeing a slot makes it the next one used.
    let mut removed = Vec::new();
    assert_eq!(
        registry.unregister(&[2072], 3, |slot, hotkey| {
            removed.push((slot, hotkey));
            INPUT_SUCCESS
        }),
        Ok(())
    );
    assert_eq!(removed, vec![(3, 3)]);
    assert_eq!(registry.first_free(), Some(3));
    assert_eq!(registry.register(&[2072], 100, |slot| Ok(slot)), Ok(()));
    assert_eq!(registry.find(&[2072], 100), Some(3));
}

#[test]
fn hotkey_unregister_reports_system_errors_and_ignores_unknown() {
    let mut registry: HotkeyRegistry<u8> = HotkeyRegistry::new();
    let mut called = false;
    assert_eq!(
        registry.unregister(&[2072], 1, |_, _| {
            called = true;
            INPUT_SUCCESS
        }),
        Ok(())
    );
    assert!(!called);
    registry.register(&[2072], 1, |_| Ok(9)).unwrap();
    assert_eq!(registry.unregister(&[2072], 1, |_, _| 401), Err(401));
    // The slot is freed even when the system reports an error.
    assert_eq!(registry.find(&[2072], 1), None);
}

#[test]
fn hotkey_handler_is_replaced() {
    let mut handler: Option<u8> = Some(1);
    set_hotkey_triggered_handler(&mut handler, 2);
    assert_eq!(handler, Some(2));
}

#[test]
fn permission_calls_need_a_c_string() {
    let mut seen = Vec::new();
    assert!(persist_permission("file://docs/a", |call: PermissionCall, policy: PermissionPolicy| {
        seen.push((call, policy.uri, policy.length, policy.operation_mode));
        0
    }));
    assert!(!activate_permission("file://docs/a", |call: PermissionCall, _: PermissionPolicy| {
        assert_eq!(call, PermissionCall::Activate);
        13900001
    }));
    assert!(!persist_permission("bad\0uri", |_: PermissionCall, _: PermissionPolicy| -> i32 {
        panic!("must not be called")
    }));
    assert_eq!(
        seen,
        vec![(PermissionCall::Persist, "file://docs/a".to_string(), 13, 3)]
    );
}

#[test]
fn permission_policy_counts_bytes_and_asks_read_write() {
    let policy = permission_policy("file://docs/é");
    assert_eq!(policy.uri, "file://docs/é");
    assert_eq!(policy.length, 14);
    assert_eq!(policy.operation_mode, OPERATION_MODE_READ_WRITE);
    assert_eq!(OPERATION_MODE_READ_WRITE, 3);
    assert!(releases_error_result(0, true, 2));
    assert!(!releases_error_result(0, false, 2));
    assert!(!releases_error_result(0, true, 0));
    assert!(!releases_error_result(1, true, 2));
}

#[test]
fn path_from_uri_persists_then_converts() {
    let mut steps = Vec::new();
    let path = path_from_uri(
        "file://docs/storage/a.txt",
        |call: PermissionCall, _: PermissionPolicy| {
            assert_eq!(call, PermissionCall::Persist);
            steps.push("persist");
            0
        },
        |_| Some("/storage/Users/currentUser/a.txt".to_string()),
    );
    assert_eq!(path.as_deref(), Some("/storage/Users/currentUser/a.txt"));
    assert_eq!(steps, vec!["persist"]);
    assert_eq!(
        path_from_uri("x\0", |_: PermissionCall, _: PermissionPolicy| 0, |_| Some("y".to_string())),
        None
    );
    assert_eq!(
        path_from_uri("file://docs/b", |_: PermissionCall, _: PermissionPolicy| 1, |_| None),
        None
    );
}

#[test]
fn sandbox_roots_are_left_alone() {
    let root = ensure_root_authorized(
        "/data/storage/el2/base/project",
        |_| panic!("no conversion for sandbox paths"),
        |_: PermissionCall, _: PermissionPolicy| -> i32 { panic!("no activation for sandbox paths") },
        |_| panic!("no conversion for sandbox paths"),
    );
    assert_eq!(root, "/data/storage/el2/base/project");
}

#[test]
fn public_roots_are_reactivated() {
    let path = "/storage/Users/currentUser/Documents/proj";
    let root = ensure_root_authorized(
        path,
        |p| Some(format!("file://docs{p}")),
        |_: PermissionCall, _: PermissionPolicy| 0,
        |_| Some("/storage/Users/currentUser/Documents/proj-resolved".to_string()),
    );
    assert_eq!(root, "/storage/Users/currentUser/Documents/proj-resolved");
    let refused = ensure_root_authorized(
        path,
        |p| Some(p.to_string()),
        |_: PermissionCall, _: PermissionPolicy| 1,
        |_| None,
    );
    assert_eq!(refused, path);
    let no_uri = ensure_root_authorized(path, |_| None, |_: PermissionCall, _: PermissionPolicy| 0, |_| None);
    assert_eq!(no_uri, path);
    let unresolved = ensure_root_authorized(
        path,
        |p| Some(p.to_string()),
        |_: PermissionCall, _: PermissionPolicy| 0,
        |_| None,
    );
    assert_eq!(unresolved, path);
}

#[test]
fn clipboard_plan_lays_out_records() {
    let content = ClipboardContent {
        plain_text: "hello".to_string(),
        html: Some("<b>hello</b>".to_string()),
        images: vec![
            ClipboardImage {
                data: vec![1, 2, 3],
                mime_type: "image/png".to_string(),
            },
            ClipboardImage {
                data: vec![4],
                mime_type: "image/tiff".to_string(),
            },
        ],
    };
    let plan = plan_write(&content);
    assert!(plan.complete);
    assert_eq!(
        plan.records,
        vec![
            PlannedRecord::Text {
                plain_text: true,
                html: true
            },
            PlannedRecord::Image { image: 0 },
            PlannedRecord::Image { image: 1 },
        ]
    );
}

#[test]
fn clipboard_plan_drops_what_cannot_travel() {
    let content = ClipboardContent {
        plain_text: String::new(),
        html: Some(String::new()),
        images: vec![
            ClipboardImage {
                data: vec![1],
                mime_type: "image/gif".to_string(),
            },
            ClipboardImage {
                data: Vec::new(),
                mime_type: "image/jpeg".to_string(),
            },
            ClipboardImage {
                data: vec![2],
                mime_type: "image/jpeg".to_string(),
            },
        ],
    };
    let plan = plan_write(&content);
    assert!(!plan.complete);
    assert_eq!(plan.records, vec![PlannedRecord::Image { image: 2 }]);

    let empty = plan_write(&ClipboardContent::default());
    assert!(!empty.complete);
    assert!(empty.records.is_empty());

    let nul_text = ClipboardContent {
        plain_text: "a\0b".to_string(),
        html: None,
        images: Vec::new(),
    };
    let plan = plan_write(&nul_text);
    assert!(!plan.complete);
    assert!(plan.records.is_empty());
}

#[test]
fn clipboard_image_types_table() {
    assert_eq!(image_type_id("image/png"), Some("general.png"));
    assert_eq!(image_type_id("image/jpeg"), Some("general.jpeg"));
    assert_eq!(image_type_id("image/tiff"), Some("general.tiff"));
    assert_eq!(image_type_id("image/webp"), None);
    assert_eq!(
        image_types(),
        vec![
            ("image/png", "general.png"),
            ("image/jpeg", "general.jpeg"),
            ("image/tiff", "general.tiff")
        ]
    );
}

#[test]
fn window_actions_dispatch_only_when_registered() {
    let actions = WindowActions {
        minimize: "minimize",
        show_and_focus: "show",
    };
    let mut calls = Vec::new();
    assert!(!minimize_main_window::<&str, _>(None, |a| calls.push(*a)));
    assert!(minimize_main_window(Some(&actions), |a| calls.push(*a)));
    assert!(show_and_focus_main_window(Some(&actions), |a| calls.push(*a)));
    let ability = AbilityActions { terminate: "terminate" };
    assert!(terminate_ability(Some(&ability), |a| calls.push(*a)));
    assert!(!terminate_ability::<&str, _>(None, |a| calls.push(*a)));
    assert_eq!(calls, vec!["minimize", "show", "terminate"]);
}

#[test]
fn timer_timeout_and_handle() {
    assert_eq!(timeout_ms(0), 1);
    assert_eq!(timeout_ms(250), 250);
    assert_eq!(timeout_ms(u64::MAX as u128 + 2), 1);
    assert!(OpenHarmonyTimer::from_handle(-1).is_none());
    assert_eq!(OpenHarmonyTimer::from_handle(7).unwrap().handle(), 7);
}

#[test]
fn child_process_codes() {
    assert_eq!(
        spawn_native_child_process("libagent.so:Main", "--port 1", |_, _| (0, 4242)),
        Ok(4242)
    );
    assert_eq!(
        spawn_native_child_process("libagent.so:Main", "", |_, _| (16000061, 0)),
        Err(ChildProcessError::StartFailed(16000061))
    );
    assert_eq!(
        spawn_native_child_process("lib\0", "", |_, _| panic!("must not start")),
        Err(ChildProcessError::EntryHasNul)
    );
    assert_eq!(
        spawn_native_child_process("lib.so:Main", "a\0", |_, _| panic!("must not start")),
        Err(ChildProcessError::ParamsHaveNul)
    );
    assert_eq!(kill_result(0), Ok(()));
    assert_eq!(kill_result(5), Err(ChildProcessError::KillFailed(5)));
    assert_eq!(register_result(0), Ok(()));
    assert_eq!(register_result(7), Err(ChildProcessError::RegisterFailed(7)));
}

#[test]
fn input_vocabulary() {
    assert_eq!(map_axis_phase(AxisAction::Begin), Some(ScrollPhase::Begin));
    assert_eq!(map_axis_phase(AxisAction::Update), Some(ScrollPhase::Update));
    assert_eq!(map_axis_phase(AxisAction::End), Some(ScrollPhase::End));
    assert_eq!(map_axis_phase(AxisAction::Cancel), None);
    assert_eq!(map_axis_phase(AxisAction::Unknown), None);
    assert_eq!(axis_tool_type(true), AxisToolType::Touchpad);
    assert_eq!(axis_tool_type(false), AxisToolType::Mouse);
    assert_eq!(device_modifiers(None), DeviceModifiers::default());
    assert_eq!(
        device_modifiers(Some((true, false, true))),
        DeviceModifiers {
            control: true,
            shift: false,
            alt: true
        }
    );
}

/// One record of an in-memory pasteboard.
#[derive(Clone, Debug, Default, PartialEq)]
struct MemoryRecord {
    plain_text: Option<String>,
    html: Option<String>,
    entries: Vec<(String, Vec<u8>)>,
}

/// An in-memory pasteboard: records are built at their plan index, then added in
/// index order, then published.
#[derive(Default)]
struct MemoryPasteboard {
    built: Vec<Option<MemoryRecord>>,
    added: Vec<MemoryRecord>,
    published: Vec<MemoryRecord>,
    refuse_set: bool,
}

impl MemoryPasteboard {
    fn keep(&mut self, index: usize, record: MemoryRecord) {
        if self.built.len() <= index {
            self.built.resize(index + 1, None);
        }
        self.built[index] = Some(record);
    }

    fn build_text_record(&mut self, index: usize, plain_text: Option<&str>, html: Option<&str>) -> bool {
        self.keep(
            index,
            MemoryRecord {
                plain_text: plain_text.map(str::to_string),
                html: html.map(str::to_string),
                entries: Vec::new(),
            },
        );
        true
    }

    fn build_image_record(&mut self, index: usize, type_id: &str, data: &[u8]) -> bool {
        self.keep(
            index,
            MemoryRecord {
                plain_text: None,
                html: None,
                entries: vec![(type_id.to_string(), data.to_vec())],
            },
        );
        true
    }

    fn add_records(&mut self, count: usize) -> bool {
        let mut added = Vec::new();
        for index in 0..count {
            match self.built.get(index).cloned().flatten() {
                Some(record) => added.push(record),
                None => return false,
            }
        }
        self.added = added;
        self.built.clear();
        true
    }

    fn set_data(&mut self) -> bool {
        if self.refuse_set {
            return false;
        }
        self.published = std::mem::take(&mut self.added);
        true
    }
}

impl MemoryPasteboard {
    fn primary_plain_text(&mut self) -> Option<String> {
        self.published.iter().find_map(|r| r.plain_text.clone())
    }

    fn record_count(&mut self) -> usize {
        self.published.len()
    }

    fn record_html(&mut self, record: usize) -> Option<String> {
        self.published[record].html.clone()
    }

    fn record_entry(&mut self, record: usize, type_id: &str) -> Option<Vec<u8>> {
        self.published[record]
            .entries
            .iter()
            .find(|(t, _)| t == type_id)
            .map(|(_, data)| data.clone())
    }
}

/// Writes `content` through the steps of `board`.
fn write_to(board: &RefCell<MemoryPasteboard>, content: &ClipboardContent) -> bool {
    write_content_with(
        content,
        |index, plain_text, html| board.borrow_mut().build_text_record(index, plain_text, html),
        |index, type_id, data| board.borrow_mut().build_image_record(index, type_id, data),
        |count| board.borrow_mut().add_records(count),
        || board.borrow_mut().set_data(),
    )
}

/// Reads the content published on `board`.
fn read_from(board: &RefCell<MemoryPasteboard>) -> ClipboardContent {
    read_content_with(
        || board.borrow_mut().primary_plain_text(),
        || board.borrow_mut().record_count(),
        |record| board.borrow_mut().record_html(record),
        |record, type_id| board.borrow_mut().record_entry(record, type_id),
    )
}

#[test]
fn clipboard_write_then_read_gives_every_flavour_back() {
    let content = ClipboardContent {
        plain_text: "hello".to_string(),
        html: Some("<b>hello</b>".to_string()),
        images: vec![
            ClipboardImage {
                data: vec![1, 2, 3],
                mime_type: "image/jpeg".to_string(),
            },
            ClipboardImage {
                data: vec![9],
                mime_type: "image/png".to_string(),
            },
        ],
    };
    let board = RefCell::new(MemoryPasteboard::default());
    assert!(write_to(&board, &content));
    assert_eq!(board.borrow().published.len(), 3);
    assert_eq!(
        board.borrow().published[1].entries,
        vec![("general.jpeg".to_string(), vec![1, 2, 3])]
    );

    let read = read_from(&board);
    assert_eq!(read.plain_text, "hello");
    assert_eq!(read.html.as_deref(), Some("<b>hello</b>"));
    assert_eq!(read.images.len(), 2);
    assert_eq!(read.images[0].mime_type, "image/jpeg");
    assert_eq!(read.images[0].data, vec![1, 2, 3]);
    assert_eq!(read.images[1].mime_type, "image/png");
    assert_eq!(read.images[1].data, vec![9]);
}

#[test]
fn clipboard_write_fails_on_a_dropped_flavour_or_a_refusal() {
    let board = RefCell::new(MemoryPasteboard::default());
    let gif = ClipboardContent {
        plain_text: "caption".to_string(),
        html: None,
        images: vec![ClipboardImage {
            data: vec![1],
            mime_type: "image/gif".to_string(),
        }],
    };
    assert!(!write_to(&board, &gif));
    assert!(board.borrow().published.is_empty());

    assert!(!write_to(&board, &ClipboardContent::default()));

    let refusing = RefCell::new(MemoryPasteboard {
        refuse_set: true,
        ..MemoryPasteboard::default()
    });
    let text = ClipboardContent {
        plain_text: "x".to_string(),
        html: None,
        images: Vec::new(),
    };
    assert!(!write_to(&refusing, &text));
    assert!(refusing.borrow().published.is_empty());
}

#[test]
fn clipboard_read_skips_empty_entries_and_missing_text() {
    let board = RefCell::new(MemoryPasteboard {
        published: vec![
            MemoryRecord {
                plain_text: None,
                html: None,
                entries: vec![
                    ("general.png".to_string(), Vec::new()),
                    ("general.tiff".to_string(), vec![7]),
                ],
            },
            MemoryRecord::default(),
        ],
        ..MemoryPasteboard::default()
    });
    let read = read_from(&board);
    assert_eq!(read.plain_text, "");
    assert_eq!(read.html, None);
    assert_eq!(read.images.len(), 1);
    assert_eq!(read.images[0].mime_type, "image/tiff");
    assert_eq!(read.images[0].data, vec![7]);
}
