//! The ADC, console and BLE adapters, observed through the kernel double.

use libtock::adc::{with_callback, Adc, AdcBuffer};
use libtock::callback::{dispatch, LastPair};
use libtock::console::ConsoleDriver;
use libtock::kernel::{Kernel, SyscallEvent};
use libtock::result::TockError;
use libtock::simple_ble::{BleAdvertisingDriver, BleCallback, BleDriver};
use libtock::syscalls;

fn log_of(kernel: &Kernel) -> Vec<SyscallEvent> {
    let mut events = Vec::new();
    let mut i = 0;
    while i < kernel.log_len() {
        events.push(kernel.event_at(i));
        i += 1;
    }
    events
}

#[test]
fn adc_init_reports_the_channel_count() {
    let mut kernel = Kernel::scripted(vec![4, 0]);
    let mut target = with_callback(LastPair::new());
    let adc = target.init(&mut kernel).unwrap();
    assert_eq!(adc.count(), 4);
    assert_eq!(
        log_of(&kernel),
        vec![
            SyscallEvent::Command { driver_number: 5, command_number: 0, arg1: 0, arg2: 0 },
            SyscallEvent::Subscribe { driver_number: 5, subscribe_number: 0 },
        ]
    );
}

#[test]
fn adc_init_surfaces_a_rejected_count() {
    let mut kernel = Kernel::scripted(vec![-8]);
    let mut target = with_callback(LastPair::new());
    match target.init(&mut kernel) {
        Err(TockError::Command(e)) => {
            assert_eq!(e.driver_number, 5);
            assert_eq!(e.return_code, -8);
        }
        other => panic!("expected the count to fail, got {:?}", other.map(|_| ())),
    }
}

#[test]
fn adc_sampling_commands_reach_the_kernel_in_order() {
    let mut kernel = Kernel::scripted(vec![2, 0]);
    let mut target = with_callback(LastPair::new());
    let adc = target.init(&mut kernel).unwrap();
    adc.sample(&mut kernel, 1).unwrap();
    adc.sample_continuous(&mut kernel, 0).unwrap();
    adc.sample_continuous_buffered(&mut kernel, 1, 250).unwrap();
    adc.sample_continuous_buffered_alt(&mut kernel, 0, 125).unwrap();
    adc.stop(&mut kernel).unwrap();
    let log = log_of(&kernel);
    assert_eq!(
        &log[2..],
        &[
            SyscallEvent::Command { driver_number: 5, command_number: 1, arg1: 1, arg2: 0 },
            SyscallEvent::Command { driver_number: 5, command_number: 2, arg1: 0, arg2: 0 },
            SyscallEvent::Command { driver_number: 5, command_number: 3, arg1: 1, arg2: 250 },
            SyscallEvent::Command { driver_number: 5, command_number: 4, arg1: 0, arg2: 125 },
            SyscallEvent::Command { driver_number: 5, command_number: 5, arg1: 0, arg2: 0 },
        ]
    );
}

#[test]
fn adc_release_stops_sampling_and_forgets_the_callback() {
    let mut kernel = Kernel::scripted(vec![2, 0]);
    let mut target = with_callback(LastPair::new());
    let adc = target.init(&mut kernel).unwrap();
    adc.release(&mut kernel);
    let log = log_of(&kernel);
    assert_eq!(
        &log[2..],
        &[
            SyscallEvent::Command { driver_number: 5, command_number: 5, arg1: 0, arg2: 0 },
            SyscallEvent::SubscribeForget { driver_number: 5, subscribe_number: 0 },
        ]
    );
}

#[test]
fn adc_buffers_are_granted_at_the_driver_size() {
    let mut kernel = Kernel::new();
    let memory = Adc::init_buffer(&mut kernel, AdcBuffer::new()).unwrap();
    assert_eq!(memory.len(), 128);
    let _ = memory.release(&mut kernel);
    let alt = Adc::init_alt_buffer(&mut kernel, AdcBuffer::new()).unwrap();
    assert_eq!(
        log_of(&kernel),
        vec![
            SyscallEvent::Allow { driver_number: 5, allow_number: 0, len: 128 },
            SyscallEvent::AllowRevoke { driver_number: 5, allow_number: 0 },
            SyscallEvent::Allow { driver_number: 5, allow_number: 1, len: 128 },
        ]
    );
    let _ = alt.release(&mut kernel);
}

#[test]
fn console_write_flushes_in_chunks_of_sixty_four() {
    let mut kernel = Kernel::new();
    let mut console = ConsoleDriver.create_console();
    let text = vec![b'x'; 100];
    console.write(&mut kernel, &text).unwrap();
    let expected_chunk = |len: usize| {
        vec![
            SyscallEvent::Allow { driver_number: 1, allow_number: 1, len },
            SyscallEvent::Subscribe { driver_number: 1, subscribe_number: 1 },
            SyscallEvent::Command { driver_number: 1, command_number: 1, arg1: len, arg2: 0 },
            SyscallEvent::SubscribeForget { driver_number: 1, subscribe_number: 1 },
            SyscallEvent::AllowRevoke { driver_number: 1, allow_number: 1 },
        ]
    };
    let mut expected = expected_chunk(64);
    expected.extend(expected_chunk(36));
    assert_eq!(log_of(&kernel), expected);
}

#[test]
fn console_write_of_nothing_issues_no_trap() {
    let mut kernel = Kernel::new();
    let mut console = ConsoleDriver.create_console();
    console.write(&mut kernel, &[]).unwrap();
    assert_eq!(kernel.log_len(), 0);
}

#[test]
fn console_write_stops_at_the_first_rejected_step() {
    // The first chunk goes through (five traps, all answered success); the
    // second chunk's write command is rejected.
    let mut kernel = Kernel::scripted(vec![0, 0, 0, 0, 0, 0, 0, -7]);
    let mut console = ConsoleDriver.create_console();
    let text = vec![b'y'; 70];
    match console.write(&mut kernel, &text) {
        Err(TockError::Command(e)) => {
            assert_eq!(e.arg1, 6);
            assert_eq!(e.return_code, -7);
        }
        other => panic!("expected the write command to fail, got {:?}", other),
    }
    // The failing chunk still released its subscription and its grant.
    let log = log_of(&kernel);
    assert_eq!(log.len(), 10);
    assert_eq!(
        log[8],
        SyscallEvent::SubscribeForget { driver_number: 1, subscribe_number: 1 }
    );
    assert_eq!(log[9], SyscallEvent::AllowRevoke { driver_number: 1, allow_number: 1 });
}

#[test]
fn console_write_surfaces_a_rejected_grant() {
    let mut kernel = Kernel::scripted(vec![-4]);
    let mut console = ConsoleDriver.create_console();
    match console.write(&mut kernel, &[1, 2, 3]) {
        Err(TockError::Allow(e)) => assert_eq!(e.return_code, -4),
        other => panic!("expected the grant to fail, got {:?}", other),
    }
    assert_eq!(kernel.log_len(), 1);
}

#[test]
fn ble_advertising_writes_the_payload_into_the_granted_buffer() {
    let mut kernel = Kernel::new();
    let buffer = BleAdvertisingDriver::create_advertising_buffer();
    assert_eq!(buffer.len(), 39);
    let payload = [1u8, 2, 3, 4];
    let memory = BleAdvertisingDriver::initialize(&mut kernel, 300, &payload, buffer).unwrap();
    let mut seen = vec![0u8; 39];
    memory.read_bytes(&mut seen);
    let mut expected = vec![0u8; 39];
    expected[..4].copy_from_slice(&payload);
    assert_eq!(seen, expected);
    assert_eq!(
        log_of(&kernel),
        vec![
            SyscallEvent::Allow { driver_number: 0x30000, allow_number: 0, len: 39 },
            SyscallEvent::Command {
                driver_number: 0x30000,
                command_number: 0,
                arg1: 2,
                arg2: 300,
            },
        ]
    );
    let _ = memory.release(&mut kernel);
}

#[test]
fn ble_advertising_revokes_the_grant_when_the_start_is_rejected() {
    let mut kernel = Kernel::scripted(vec![0, -5]);
    let buffer = BleAdvertisingDriver::create_advertising_buffer();
    match BleAdvertisingDriver::initialize(&mut kernel, 300, &[1], buffer) {
        Err(TockError::Command(e)) => assert_eq!(e.return_code, -5),
        other => panic!("expected the start to fail, got {:?}", other.map(|_| ())),
    }
    assert_eq!(
        log_of(&kernel)[2],
        SyscallEvent::AllowRevoke { driver_number: 0x30000, allow_number: 0 }
    );
}

#[test]
fn ble_scanning_shares_the_buffer_and_starts_the_scan() {
    let mut kernel = Kernel::new();
    let buffer = BleDriver::create_scan_buffer();
    let memory = BleDriver::share_memory(&mut kernel, buffer).unwrap();
    let mut callback = BleCallback::new(LastPair::new());
    let subscription = BleDriver::start(&mut kernel, &mut callback).unwrap();
    assert_eq!(
        log_of(&kernel),
        vec![
            SyscallEvent::Allow { driver_number: 0x30000, allow_number: 1, len: 39 },
            SyscallEvent::Subscribe { driver_number: 0x30000, subscribe_number: 0 },
            SyscallEvent::Command { driver_number: 0x30000, command_number: 5, arg1: 1, arg2: 0 },
        ]
    );
    subscription.release(&mut kernel);
    let _ = memory.release(&mut kernel);
}

#[test]
fn ble_start_forgets_the_subscription_when_the_scan_is_rejected() {
    let mut kernel = Kernel::scripted(vec![0, -6]);
    let mut callback = BleCallback::new(LastPair::new());
    match BleDriver::start(&mut kernel, &mut callback) {
        Err(TockError::Command(e)) => assert_eq!(e.return_code, -6),
        other => panic!("expected the scan to fail, got {:?}", other.map(|_| ())),
    }
    assert_eq!(
        log_of(&kernel)[2],
        SyscallEvent::SubscribeForget { driver_number: 0x30000, subscribe_number: 0 }
    );
}

#[test]
fn pair_consumers_receive_the_adapter_specific_arguments() {
    // The ADC adapter drops the first argument and forwards (channel, value).
    let mut adc_target = with_callback(LastPair::new());
    dispatch(&mut adc_target, 99, 2, 4095);
    assert_eq!(adc_target.callback, LastPair { seen: true, a: 2, b: 4095 });
    // The BLE adapter forwards the first two arguments.
    let mut ble_target = BleCallback::new(LastPair::new());
    dispatch(&mut ble_target, 5, 6, 99);
    assert_eq!(ble_target.callback, LastPair { seen: true, a: 5, b: 6 });
}

#[test]
fn gateway_success_is_owed_when_the_kernel_accepts() {
    // An unscripted kernel answers every trap with success: every gateway
    // call must succeed.
    let mut kernel = Kernel::new();
    assert!(syscalls::command(&mut kernel, 1, 1, 1, 1).is_ok());
    assert!(syscalls::subscribe_fn(&mut kernel, 1, 1).is_ok());
    assert!(syscalls::allow(&mut kernel, 1, 1, vec![1]).map(|m| m.release(&mut kernel)).is_ok());
}
