use driver_protocol::command::{
    buttons_held_after, CommandKind, DriverCommand, DriverCommandCr3ShenanigansDisable,
    DriverCommandCr3ShenanigansEnable, DriverCommandInitialize, DriverCommandInputKeyboard,
    DriverCommandInputMouse, DriverCommandMemoryRead, DriverCommandMemoryWrite,
    DriverCommandMetricsReportSend, DriverCommandProcessList, DriverCommandProcessModules,
    DriverCommandProcessProtection, InitializeResult, KeyboardState, MouseState,
    ProcessProtectionMode, VersionInfo,
};
use driver_protocol::result::CommandResult;
use driver_protocol::types::{DirectoryTableType, DriverFeature, MemoryAccessResult};
use driver_protocol::PROTOCOL_VERSION;

const ALL_KINDS: [CommandKind; 11] = [
    CommandKind::Initialize,
    CommandKind::ProcessList,
    CommandKind::ProcessModules,
    CommandKind::MemoryRead,
    CommandKind::MemoryWrite,
    CommandKind::InputKeyboard,
    CommandKind::InputMouse,
    CommandKind::MetricsReportSend,
    CommandKind::ProcessProtection,
    CommandKind::Cr3ShenanigansEnable,
    CommandKind::Cr3ShenanigansDisable,
];

#[test]
fn command_ids_are_fixed() {
    assert_eq!(DriverCommandInitialize::COMMAND_ID, 0x00);
    assert_eq!(DriverCommandProcessList::COMMAND_ID, 0x01);
    assert_eq!(DriverCommandProcessModules::COMMAND_ID, 0x02);
    assert_eq!(DriverCommandMemoryRead::COMMAND_ID, 0x03);
    assert_eq!(DriverCommandMemoryWrite::COMMAND_ID, 0x04);
    assert_eq!(DriverCommandInputKeyboard::COMMAND_ID, 0x05);
    assert_eq!(DriverCommandInputMouse::COMMAND_ID, 0x06);
    assert_eq!(DriverCommandMetricsReportSend::COMMAND_ID, 0x07);
    assert_eq!(DriverCommandProcessProtection::COMMAND_ID, 0x08);
    assert_eq!(DriverCommandCr3ShenanigansEnable::COMMAND_ID, 0x09);
    assert_eq!(DriverCommandCr3ShenanigansDisable::COMMAND_ID, 0x0A);
    assert_eq!(PROTOCOL_VERSION, 3);
}

#[test]
fn command_ids_form_a_bijection() {
    for (i, a) in ALL_KINDS.iter().enumerate() {
        assert_eq!(CommandKind::from_id(a.id()), Some(*a));
        assert_eq!(a.id(), a.id());
        for b in ALL_KINDS.iter().skip(i + 1) {
            assert_ne!(a.id(), b.id());
        }
    }
    assert_eq!(CommandKind::MemoryRead.id(), DriverCommandMemoryRead::COMMAND_ID);
    assert_eq!(CommandKind::from_id(0x0B), None);
    assert_eq!(CommandKind::from_id(u32::MAX), None);
}

#[test]
fn command_result_values_are_fixed() {
    assert_eq!(CommandResult::Error().bits(), 0x00);
    assert_eq!(CommandResult::Success().bits(), 0x01);
    assert_eq!(CommandResult::CommandInvalid().bits(), 0x10);
    assert_eq!(CommandResult::CommandParameterInvalid().bits(), 0x11);
    assert_eq!(CommandResult::CommandFeatureUnsupported().bits(), 0x12);
    assert!(CommandResult::from_bits_retain(1).is_success());
    assert!(!CommandResult::from_bits_retain(0x11).is_success());
    assert_eq!(CommandResult::from_bits_retain(0x12), CommandResult::CommandFeatureUnsupported());
    assert!(CommandResult::Success() < CommandResult::CommandInvalid());
}

#[test]
fn feature_bits_are_fixed() {
    assert_eq!(DriverFeature::ProcessList().bits(), 0x01);
    assert_eq!(DriverFeature::ProcessModules().bits(), 0x02);
    assert_eq!(DriverFeature::ProcessProtectionKernel().bits(), 0x04);
    assert_eq!(DriverFeature::ProcessProtectionZenith().bits(), 0x08);
    assert_eq!(DriverFeature::MemoryRead().bits(), 0x100);
    assert_eq!(DriverFeature::MemoryWrite().bits(), 0x200);
    assert_eq!(DriverFeature::InputKeyboard().bits(), 0x1_0000);
    assert_eq!(DriverFeature::InputMouse().bits(), 0x2_0000);
    assert_eq!(DriverFeature::Metrics().bits(), 0x100_0000);
    assert_eq!(DriverFeature::DttExplicit().bits(), 0x200_1000);
    assert_eq!(DriverFeature::CR3Sshenanigans().bits(), 0x400_0000);
}

#[test]
fn feature_set_operations() {
    let rw = DriverFeature::MemoryRead().union(DriverFeature::MemoryWrite());
    assert_eq!(rw.bits(), 0x300);
    assert!(rw.contains(DriverFeature::MemoryRead()));
    assert!(rw.contains(DriverFeature::MemoryWrite()));
    assert!(!rw.contains(DriverFeature::InputMouse()));
    assert!(rw.intersects(DriverFeature::MemoryRead().union(DriverFeature::InputMouse())));
    assert!(!rw.contains(DriverFeature::MemoryRead().union(DriverFeature::InputMouse())));
    assert!(rw.contains(DriverFeature::empty()));
    assert!(DriverFeature::empty().is_empty());

    // both bits of the explicit directory table feature are needed
    let half = DriverFeature::from_bits_retain(0x1000);
    assert!(!half.contains(DriverFeature::DttExplicit()));
    assert!(half.intersects(DriverFeature::DttExplicit()));

    let mut set = DriverFeature::empty();
    set.insert(DriverFeature::Metrics());
    set.insert(DriverFeature::ProcessList());
    assert_eq!(set.bits(), 0x100_0001);
}

#[test]
fn command_gating_by_features() {
    let rw = DriverFeature::MemoryRead().union(DriverFeature::MemoryWrite());
    assert!(CommandKind::Initialize.is_supported_by(DriverFeature::empty()));
    assert!(CommandKind::MemoryRead.is_supported_by(rw));
    assert!(CommandKind::MemoryWrite.is_supported_by(rw));
    assert!(!CommandKind::ProcessList.is_supported_by(rw));
    assert!(CommandKind::ProcessProtection.is_supported_by(DriverFeature::ProcessProtectionZenith()));
    assert!(CommandKind::ProcessProtection.is_supported_by(DriverFeature::ProcessProtectionKernel()));
    assert!(!CommandKind::ProcessProtection.is_supported_by(rw));
    assert!(CommandKind::Cr3ShenanigansDisable.is_supported_by(DriverFeature::CR3Sshenanigans()));
    assert_eq!(CommandKind::InputMouse.required_features(), DriverFeature::InputMouse());
}

#[test]
fn payload_defaults() {
    let init = DriverCommandInitialize::default();
    assert_eq!(init.client_protocol_version, 0);
    assert_eq!(init.driver_protocol_version, 0);
    assert_eq!(init.result, InitializeResult::Unavailable);
    assert_eq!(init.driver_features, DriverFeature::empty());
    assert_eq!(init.client_version.application_name, [0u8; 0x20]);

    let read = DriverCommandMemoryRead::default();
    assert_eq!(read.result, MemoryAccessResult::ProcessUnknown);
    assert_eq!(read.directory_table_type, DirectoryTableType::Default);
    assert_eq!(read.count, 0);
    let write = DriverCommandMemoryWrite::default();
    assert_eq!(write.result, MemoryAccessResult::ProcessUnknown);

    let modules = DriverCommandProcessModules::default();
    assert!(modules.process_unknown);
    assert_eq!(modules.buffer_capacity, 0);
    let list = DriverCommandProcessList::default();
    assert_eq!(list.process_count, 0);

    assert_eq!(DriverCommandInputKeyboard::default().state_count, 0);
    assert_eq!(DriverCommandInputMouse::default().state_count, 0);
    assert_eq!(DriverCommandMetricsReportSend::default().report_payload_length, 0);
    assert_eq!(DriverCommandProcessProtection::default().mode, ProcessProtectionMode::Disabled);
    assert!(!DriverCommandCr3ShenanigansEnable::default().success);
    let _ = DriverCommandCr3ShenanigansDisable::default();
    assert_eq!(KeyboardState::default(), KeyboardState { scane_code: 0, down: false });
    assert_eq!(VersionInfo::default().version_major, 0);
}

#[test]
fn truncation_is_detected_by_the_client() {
    let list = DriverCommandProcessList { buffer_capacity: 2, process_count: 5 };
    assert!(list.is_truncated());
    let list = DriverCommandProcessList { buffer_capacity: 5, process_count: 5 };
    assert!(!list.is_truncated());
    let mut modules = DriverCommandProcessModules::default();
    modules.buffer_capacity = 1;
    modules.module_count = 2;
    assert!(modules.is_truncated());
}

#[test]
fn protection_and_directory_table_features() {
    assert_eq!(ProcessProtectionMode::Disabled.required_feature(), DriverFeature::empty());
    assert_eq!(ProcessProtectionMode::Kernel.required_feature(), DriverFeature::ProcessProtectionKernel());
    assert_eq!(ProcessProtectionMode::Zenith.required_feature(), DriverFeature::ProcessProtectionZenith());
    assert_eq!(DirectoryTableType::Default.required_feature(), DriverFeature::empty());
    assert_eq!(
        DirectoryTableType::Explicit { directory_table_base: 0x1aa000 }.required_feature(),
        DriverFeature::DttExplicit()
    );
    assert_eq!(DirectoryTableType::Cr3Shenanigans.required_feature(), DriverFeature::CR3Sshenanigans());
}

fn mouse(buttons: [Option<bool>; 5]) -> MouseState {
    MouseState { buttons, hwheel: false, wheel: false, last_x: 0, last_y: 0 }
}

#[test]
fn mouse_reports_apply_in_order() {
    let press_left = mouse([Some(true), None, None, None, None]);
    let release_left_press_right = mouse([Some(false), Some(true), None, None, None]);
    let nothing = mouse([None; 5]);
    assert_eq!(press_left.apply_buttons([false; 5]), [true, false, false, false, false]);
    assert_eq!(nothing.apply_buttons([true, false, true, false, true]), [true, false, true, false, true]);
    let states = [press_left, release_left_press_right, nothing];
    assert_eq!(buttons_held_after([false, false, false, false, true], &states), [false, true, false, false, true]);
    assert_eq!(buttons_held_after([false; 5], &states[..1]), [true, false, false, false, false]);
    assert_eq!(buttons_held_after([true; 5], &[]), [true; 5]);
}
