use ovr_core::errors::InputErrorCode;
use ovr_core::input::{
    action_set_or_null, c_name, reported, string_bits, ActionHandle, ActionSetHandle,
    ActiveActionSet, InputString, InputValueHandle, OriginInfo,
};
use ovr_core::TrackedDeviceIndex;

#[test]
fn handles_convert_to_and_from_the_runtime_number() {
    let set = ActionSetHandle::from(0x1122_3344_5566_7788);
    assert_eq!(set, ActionSetHandle(0x1122_3344_5566_7788));
    assert_eq!(u64::from(set), 0x1122_3344_5566_7788);

    let action = ActionHandle::from(42);
    assert_eq!(u64::from(action), 42);
    assert_eq!(action, ActionHandle::from(42));
    assert_ne!(action, ActionHandle::from(43));

    let source: InputValueHandle = u64::MAX.into();
    assert_eq!(source.0, u64::MAX);
    let number: u64 = source.into();
    assert_eq!(number, u64::MAX);
}

#[test]
fn bits_of_no_part_are_zero() {
    assert_eq!(string_bits(&[]), 0);
}

#[test]
fn each_part_has_its_own_bit() {
    assert_eq!(string_bits(&[InputString::Hand]), 1);
    assert_eq!(string_bits(&[InputString::ControllerType]), 2);
    assert_eq!(string_bits(&[InputString::InputSource]), 4);
}

#[test]
fn bits_of_several_parts_add_up() {
    assert_eq!(string_bits(&[InputString::Hand, InputString::ControllerType]), 3);
    assert_eq!(string_bits(&[InputString::InputSource, InputString::Hand]), 5);
    assert_eq!(string_bits(&[InputString::ControllerType, InputString::InputSource]), 6);
    assert_eq!(
        string_bits(&[InputString::InputSource, InputString::ControllerType, InputString::Hand]),
        7
    );
}

#[test]
fn a_part_named_twice_counts_once() {
    assert_eq!(string_bits(&[InputString::Hand, InputString::Hand]), 1);
    assert_eq!(
        string_bits(&[
            InputString::InputSource,
            InputString::ControllerType,
            InputString::InputSource,
            InputString::ControllerType,
        ]),
        6
    );
}

#[test]
fn a_name_gets_its_terminator() {
    assert_eq!(c_name("/actions/main").unwrap(), b"/actions/main\0".to_vec());
    assert_eq!(c_name("").unwrap(), vec![0u8]);
    assert_eq!(c_name("gr\u{fc}n").unwrap(), vec![b'g', b'r', 0xC3, 0xBC, b'n', 0]);
}

#[test]
fn a_name_with_a_nul_is_an_invalid_parameter() {
    for name in ["\0", "a\0b", "\0tail", "head\0"] {
        let err = c_name(name).unwrap_err();
        assert_eq!(err.inner(), InputErrorCode::InvalidParam);
        assert_eq!(err.description(), "InvalidParam");
    }
}

#[test]
fn no_action_set_is_the_null_handle() {
    assert_eq!(action_set_or_null(None), 0);
    assert_eq!(action_set_or_null(Some(ActionSetHandle(17))), 17);
    assert_eq!(action_set_or_null(Some(ActionSetHandle(0))), 0);
    assert_eq!(action_set_or_null(Some(ActionSetHandle(u64::MAX))), u64::MAX);
}

#[test]
fn reported_entries_are_the_first_ones() {
    let entries = vec!['a', 'b', 'c', 'd'];
    assert_eq!(reported(entries.clone(), 0), Vec::<char>::new());
    assert_eq!(reported(entries.clone(), 1), vec!['a']);
    assert_eq!(reported(entries.clone(), 3), vec!['a', 'b', 'c']);
    assert_eq!(reported(entries.clone(), 4), entries);
}

#[test]
fn more_entries_reported_than_there_are_gives_all() {
    assert_eq!(reported(vec![1u8, 2, 3], 16), vec![1, 2, 3]);
    assert_eq!(reported(vec![1u8, 2, 3], u32::MAX), vec![1, 2, 3]);
    assert_eq!(reported(Vec::<u8>::new(), 2), Vec::<u8>::new());
}

#[test]
fn action_sets_and_origins_hold_plain_values() {
    let set = ActiveActionSet {
        action_set: ActionSetHandle(1),
        restricted_to_device: InputValueHandle(0),
        secondary_action_set: ActionSetHandle(0),
        priority: -3,
    };
    let copy = set;
    assert_eq!(copy, set);
    assert_eq!(copy.priority, -3);

    let mut name = [0u8; 128];
    name[..4].copy_from_slice(b"grip");
    let origin = OriginInfo {
        device_path: InputValueHandle(9),
        tracked_device_index: TrackedDeviceIndex(3),
        render_model_component_name: name,
    };
    assert_eq!(origin.tracked_device_index, TrackedDeviceIndex(3));
    assert_eq!(&origin.render_model_component_name[..5], b"grip\0");
}
