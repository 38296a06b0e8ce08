//! The event bridge and the buttons adapter built on it.

use libtock::buttons::{Button, ButtonState, ButtonsDriverFactory, RecordedState};
use libtock::callback::dispatch;
use libtock::events::{EventRecord, RecordId};
use libtock::kernel::{Kernel, SyscallEvent};

#[test]
fn marker_strictly_alternates_between_two_values() {
    let mut factory = ButtonsDriverFactory;
    let mut context = factory.create_context();
    assert_eq!(context.callback.record.record_id, RecordId::A);
    dispatch(&mut context.callback, 0, 1, 0);
    assert_eq!(context.callback.record.record_id, RecordId::B);
    dispatch(&mut context.callback, 1, 0, 0);
    assert_eq!(context.callback.record.record_id, RecordId::A);
    dispatch(&mut context.callback, 2, 1, 0);
    assert_eq!(context.callback.record.record_id, RecordId::B);
    // A delivery that encodes no press or release leaves the marker alone.
    dispatch(&mut context.callback, 2, 7, 0);
    assert_eq!(context.callback.record.record_id, RecordId::B);
}

#[test]
fn waiter_never_resumes_while_the_marker_is_unchanged() {
    let mut record: EventRecord<u8> = EventRecord::new(0);
    let mut listener = record.listen();
    assert_eq!(listener.poll(&record), None);
    assert_eq!(listener.poll(&record), None);
    record.record(42);
    assert_eq!(listener.poll(&record), Some(42));
    // The wake re-captured the marker: the same event is not seen as new twice.
    assert_eq!(listener.poll(&record), None);
}

#[test]
fn two_listeners_wait_independently() {
    let mut record: EventRecord<u8> = EventRecord::new(0);
    let mut first = record.listen();
    record.record(1);
    let mut late = record.listen();
    assert_eq!(first.poll(&record), Some(1));
    assert_eq!(late.poll(&record), None);
}

#[test]
fn waiter_for_button_two_skips_the_button_zero_press() {
    let mut factory = ButtonsDriverFactory;
    let mut context = factory.create_context();
    let button_two = Button { button_num: 2 };
    let mut listener = context.callback.listen();
    dispatch(&mut context.callback, 0, 1, 0);
    // Woken by the wrong button: does not resume, but re-captures the marker.
    assert!(!button_two.poll_pressed_event(&context.callback, &mut listener));
    dispatch(&mut context.callback, 2, 1, 0);
    assert!(button_two.poll_pressed_event(&context.callback, &mut listener));
}

#[test]
fn poll_expected_event_distinguishes_press_from_release() {
    let mut factory = ButtonsDriverFactory;
    let mut context = factory.create_context();
    let mut listener = context.callback.listen();
    dispatch(&mut context.callback, 2, 0, 0);
    assert!(!context
        .callback
        .poll_expected_event(&mut listener, RecordedState::Pressed(2)));
    dispatch(&mut context.callback, 2, 1, 0);
    assert!(context
        .callback
        .poll_expected_event(&mut listener, RecordedState::Pressed(2)));
}

#[test]
fn end_to_end_button_press_reaches_only_its_waiter() {
    // Subscribe the callback target to driver 3 (buttons), operation 0; the
    // kernel reports four buttons and accepts the subscription.
    let mut kernel = Kernel::scripted(vec![4, 0]);
    let mut factory = ButtonsDriverFactory;
    let mut context = factory.create_context();
    let driver = context.init_driver(&mut kernel).unwrap();
    assert_eq!(kernel.event_at(0), SyscallEvent::Command {
        driver_number: 3,
        command_number: 0,
        arg1: 0,
        arg2: 0,
    });
    assert_eq!(kernel.event_at(1), SyscallEvent::Subscribe {
        driver_number: 3,
        subscribe_number: 0,
    });

    let mut waiting_for_two = context.callback.listen();
    let mut waiting_for_one = context.callback.listen();

    // The kernel delivers "button 2 pressed" through the trampoline.
    dispatch(&mut context.callback, 2, 1, 0);

    // The task awaiting "button 2 pressed" resumes with (Pressed, 2).
    assert_eq!(
        context.callback.poll_any_event(&mut waiting_for_two),
        Some((ButtonState::Pressed, 2))
    );
    // The task awaiting "button 1 pressed" remains suspended.
    let button_one = Button { button_num: 1 };
    assert!(!button_one.poll_pressed_event(&context.callback, &mut waiting_for_one));

    driver.release(&mut kernel);
    assert_eq!(kernel.event_at(2), SyscallEvent::SubscribeForget {
        driver_number: 3,
        subscribe_number: 0,
    });
}

#[test]
fn buttons_iteration_hands_out_each_button_once() {
    let mut kernel = Kernel::scripted(vec![3, 0]);
    let mut factory = ButtonsDriverFactory;
    let mut context = factory.create_context();
    let mut driver = context.init_driver(&mut kernel).unwrap();
    let mut buttons = driver.buttons();
    let mut numbers = Vec::new();
    while let Some(button) = buttons.next() {
        numbers.push(button.button_num);
    }
    assert_eq!(numbers, vec![0, 1, 2]);
    assert!(buttons.next().is_none());
}

#[test]
fn button_commands_and_read_map_codes_exactly() {
    let mut kernel = Kernel::scripted(vec![1, 0, -3, 0, 0]);
    let button = Button { button_num: 2 };
    assert_eq!(button.read(&mut kernel), Ok(ButtonState::Pressed));
    assert_eq!(button.read(&mut kernel), Ok(ButtonState::Released));
    match button.read(&mut kernel) {
        Err(libtock::result::TockError::Command(e)) => {
            assert_eq!(e.driver_number, 3);
            assert_eq!(e.command_number, 3);
            assert_eq!(e.arg1, 2);
            assert_eq!(e.return_code, -3);
        }
        other => panic!("expected the command error, got {:?}", other),
    }
    assert_eq!(button.enable_interrupt(&mut kernel), Ok(()));
    assert_eq!(button.disable_interrupt(&mut kernel), Ok(()));
    assert_eq!(kernel.event_at(3), SyscallEvent::Command {
        driver_number: 3,
        command_number: 1,
        arg1: 2,
        arg2: 0,
    });
    assert_eq!(kernel.event_at(4), SyscallEvent::Command {
        driver_number: 3,
        command_number: 2,
        arg1: 2,
        arg2: 0,
    });
}

#[test]
fn init_driver_surfaces_the_failing_step() {
    let mut kernel = Kernel::scripted(vec![-11]);
    let mut factory = ButtonsDriverFactory;
    let mut context = factory.create_context();
    match context.init_driver(&mut kernel) {
        Err(libtock::result::TockError::Command(e)) => assert_eq!(e.return_code, -11),
        other => panic!("expected the count to fail, got {:?}", other.map(|_| ())),
    }
    let mut kernel = Kernel::scripted(vec![4, -12]);
    match context.init_driver(&mut kernel) {
        Err(libtock::result::TockError::Subscribe(e)) => assert_eq!(e.return_code, -12),
        other => panic!("expected the subscribe to fail, got {:?}", other.map(|_| ())),
    }
}

#[test]
fn button_state_from_maps_the_two_codes() {
    assert_eq!(ButtonState::from(0), ButtonState::Released);
    assert_eq!(ButtonState::from(1), ButtonState::Pressed);
}
