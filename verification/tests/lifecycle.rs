use max7219_matrix::driver::{
    Lifecycle, Max7219, DEFAULT_DECODE_MODE, DEFAULT_DISPLAY_TEST, DEFAULT_INTENSITY,
    DEFAULT_SCAN_LIMIT, NORMAL_OPERATION,
};
use max7219_matrix::chain::MAX_DEVICES;
use max7219_matrix::error::Error;
use max7219_matrix::led_matrix::LedMatrix;
use max7219_matrix::transport::{Transmission, TransferOutcome};

fn deliver(transmission: &mut Transmission) -> Vec<Vec<u8>> {
    let mut frames = Vec::new();
    while let Some(frame) = transmission.next_frame() {
        frames.push(frame.clone());
        transmission.record(TransferOutcome::Delivered);
    }
    frames
}

fn ready_matrix(count: usize) -> LedMatrix {
    let mut driver = Max7219::new(count).unwrap();
    let mut transmission = driver.init();
    deliver(&mut transmission);
    driver.complete_init(&transmission).unwrap();
    LedMatrix::from_driver(driver, count).unwrap()
}

#[test]
fn a_new_driver_is_uninitialized() {
    let driver = Max7219::new(4).unwrap();
    assert_eq!(driver.lifecycle(), Lifecycle::Uninitialized);
    assert_eq!(driver.device_count(), 4);
    assert_eq!(driver.chain().device_count(), 4);
}

#[test]
fn a_driver_needs_a_valid_device_count() {
    assert!(matches!(Max7219::new(0), Err(Error::InvalidDeviceCount)));
    assert!(matches!(Max7219::new(MAX_DEVICES + 1), Err(Error::InvalidDeviceCount)));
}

#[test]
fn init_defaults_are_the_documented_ones() {
    assert_eq!(NORMAL_OPERATION, 0x01);
    assert_eq!(DEFAULT_DECODE_MODE, 0x00);
    assert_eq!(DEFAULT_DISPLAY_TEST, 0x00);
    assert_eq!(DEFAULT_SCAN_LIMIT, 0x07);
    assert_eq!(DEFAULT_INTENSITY, 0x08);
}

#[test]
fn init_sends_five_broadcasts_to_one_device() {
    let driver = Max7219::new(1).unwrap();
    let mut transmission = driver.init();
    assert_eq!(transmission.frame_len(), 2);
    assert_eq!(transmission.frame_count(), 5);
    let frames = deliver(&mut transmission);
    assert_eq!(
        frames,
        vec![
            vec![0x0C, 0x01],
            vec![0x09, 0x00],
            vec![0x0F, 0x00],
            vec![0x0B, 0x07],
            vec![0x0A, 0x08],
        ]
    );
}

#[test]
fn init_sends_five_broadcasts_to_three_devices() {
    let driver = Max7219::new(3).unwrap();
    let mut transmission = driver.init();
    assert_eq!(transmission.frame_len(), 6);
    let frames = deliver(&mut transmission);
    assert_eq!(
        frames,
        vec![
            vec![0x0C, 0x01, 0x0C, 0x01, 0x0C, 0x01],
            vec![0x09, 0x00, 0x09, 0x00, 0x09, 0x00],
            vec![0x0F, 0x00, 0x0F, 0x00, 0x0F, 0x00],
            vec![0x0B, 0x07, 0x0B, 0x07, 0x0B, 0x07],
            vec![0x0A, 0x08, 0x0A, 0x08, 0x0A, 0x08],
        ]
    );
}

#[test]
fn init_alone_changes_no_state() {
    let driver = Max7219::new(2).unwrap();
    let _ = driver.init();
    assert_eq!(driver.lifecycle(), Lifecycle::Uninitialized);
}

#[test]
fn a_delivered_init_initializes_the_driver() {
    let mut driver = Max7219::new(2).unwrap();
    let mut transmission = driver.init();
    deliver(&mut transmission);
    assert_eq!(driver.complete_init(&transmission), Ok(()));
    assert_eq!(driver.lifecycle(), Lifecycle::Initialized);
}

#[test]
fn an_unfinished_init_is_refused() {
    let mut driver = Max7219::new(2).unwrap();
    let mut transmission = driver.init();
    assert_eq!(driver.complete_init(&transmission), Err(Error::DriverNotInitialized));
    transmission.record(TransferOutcome::Delivered);
    transmission.record(TransferOutcome::Delivered);
    transmission.record(TransferOutcome::Delivered);
    transmission.record(TransferOutcome::Delivered);
    assert_eq!(driver.complete_init(&transmission), Err(Error::DriverNotInitialized));
    assert_eq!(driver.lifecycle(), Lifecycle::Uninitialized);
    transmission.record(TransferOutcome::Delivered);
    assert_eq!(driver.complete_init(&transmission), Ok(()));
    assert_eq!(driver.lifecycle(), Lifecycle::Initialized);
}

#[test]
fn a_faulted_init_is_a_transport_error() {
    let mut driver = Max7219::new(1).unwrap();
    let mut transmission = driver.init();
    transmission.record(TransferOutcome::Delivered);
    transmission.record(TransferOutcome::Fault);
    assert_eq!(driver.complete_init(&transmission), Err(Error::TransportError));
    assert_eq!(driver.lifecycle(), Lifecycle::Uninitialized);
}

#[test]
fn a_faulted_reinit_forgets_the_configuration() {
    let mut driver = Max7219::new(1).unwrap();
    let mut first = driver.init();
    deliver(&mut first);
    driver.complete_init(&first).unwrap();
    let mut second = driver.init();
    second.record(TransferOutcome::Fault);
    assert_eq!(driver.complete_init(&second), Err(Error::TransportError));
    assert_eq!(driver.lifecycle(), Lifecycle::Uninitialized);
}

#[test]
fn only_the_init_frames_initialize() {
    let mut driver = Max7219::new(1).unwrap();
    let mut other = driver.set_intensity(3).unwrap();
    deliver(&mut other);
    assert_eq!(driver.complete_init(&other), Err(Error::DriverNotInitialized));
    assert_eq!(driver.lifecycle(), Lifecycle::Uninitialized);

    let longer = Max7219::new(2).unwrap();
    let mut foreign = longer.init();
    deliver(&mut foreign);
    assert_eq!(driver.complete_init(&foreign), Err(Error::DriverNotInitialized));
    assert_eq!(driver.lifecycle(), Lifecycle::Uninitialized);
}

#[test]
fn a_refused_report_keeps_an_initialized_driver() {
    let mut driver = Max7219::new(1).unwrap();
    let mut transmission = driver.init();
    deliver(&mut transmission);
    driver.complete_init(&transmission).unwrap();
    let unfinished = driver.init();
    assert_eq!(driver.complete_init(&unfinished), Err(Error::DriverNotInitialized));
    assert_eq!(driver.lifecycle(), Lifecycle::Initialized);
}

#[test]
fn set_intensity_broadcasts_one_frame() {
    let driver = Max7219::new(2).unwrap();
    let mut transmission = driver.set_intensity(0x0F).unwrap();
    assert_eq!(transmission.frame_count(), 1);
    assert_eq!(deliver(&mut transmission), vec![vec![0x0A, 0x0F, 0x0A, 0x0F]]);
    let mut dim = driver.set_intensity(0).unwrap();
    assert_eq!(deliver(&mut dim), vec![vec![0x0A, 0x00, 0x0A, 0x00]]);
}

#[test]
fn set_intensity_refuses_values_above_fifteen() {
    let driver = Max7219::new(2).unwrap();
    assert!(matches!(driver.set_intensity(16), Err(Error::InvalidRegisterValue)));
    assert!(matches!(driver.set_intensity(255), Err(Error::InvalidRegisterValue)));
}

#[test]
fn a_matrix_must_match_the_chain() {
    let driver = Max7219::new(4).unwrap();
    assert!(matches!(LedMatrix::from_driver(driver, 1), Err(Error::InvalidDeviceCount)));
    let driver = Max7219::new(1).unwrap();
    assert!(matches!(LedMatrix::from_driver(driver, 4), Err(Error::InvalidDeviceCount)));
    let driver = Max7219::new(1).unwrap();
    assert!(matches!(LedMatrix::from_driver(driver, 0), Err(Error::InvalidDeviceCount)));
    let driver = Max7219::new(4).unwrap();
    let matrix = LedMatrix::from_driver(driver, 4).unwrap();
    assert_eq!(matrix.device_count(), 4);
    assert_eq!(matrix.framebuffer().device_count(), 4);
    assert_eq!(matrix.driver().device_count(), 4);
}

#[test]
fn a_matrix_is_ready_once_the_chain_is_initialized() {
    let matrix = ready_matrix(2);
    assert_eq!(matrix.lifecycle(), Lifecycle::Ready);
    assert_eq!(matrix.driver().lifecycle(), Lifecycle::Initialized);
}

#[test]
fn a_matrix_can_be_initialized_after_it_was_made() {
    let driver = Max7219::new(1).unwrap();
    let mut matrix = LedMatrix::from_driver(driver, 1).unwrap();
    assert_eq!(matrix.lifecycle(), Lifecycle::Uninitialized);
    let mut transmission = matrix.init();
    assert_eq!(deliver(&mut transmission).len(), 5);
    assert_eq!(matrix.complete_init(&transmission), Ok(()));
    assert_eq!(matrix.lifecycle(), Lifecycle::Ready);
    assert_eq!(matrix.set_pixel(0, 0, true), Ok(()));
}

#[test]
fn nothing_is_drawn_before_the_matrix_is_ready() {
    let driver = Max7219::new(2).unwrap();
    let mut matrix = LedMatrix::from_driver(driver, 2).unwrap();
    assert_eq!(matrix.set_pixel(0, 0, true), Err(Error::DriverNotInitialized));
    assert_eq!(matrix.draw_pixel(0, 0, true), Err(Error::DriverNotInitialized));
    assert_eq!(matrix.write_raw_digit(0, 0, 0xFF), Err(Error::DriverNotInitialized));
    assert_eq!(matrix.clear_buffer(), Err(Error::DriverNotInitialized));
    assert!(matches!(matrix.flush(), Err(Error::DriverNotInitialized)));
    for device in 0..2usize {
        for digit in 0..8u8 {
            assert_eq!(matrix.framebuffer().read_raw_digit(device, digit), Ok(0));
        }
    }
}

#[test]
fn the_state_is_reported_before_the_bounds() {
    let driver = Max7219::new(1).unwrap();
    let mut matrix = LedMatrix::from_driver(driver, 1).unwrap();
    assert_eq!(matrix.set_pixel(8, 0, true), Err(Error::DriverNotInitialized));
    assert_eq!(matrix.draw_pixel(-1, 0, true), Err(Error::DriverNotInitialized));
    assert_eq!(matrix.write_raw_digit(1, 8, 0), Err(Error::DriverNotInitialized));
}

#[test]
fn a_failed_init_leaves_the_matrix_unready() {
    let driver = Max7219::new(1).unwrap();
    let mut matrix = LedMatrix::from_driver(driver, 1).unwrap();
    let mut transmission = matrix.init();
    transmission.record(TransferOutcome::Fault);
    assert_eq!(matrix.complete_init(&transmission), Err(Error::TransportError));
    assert_eq!(matrix.lifecycle(), Lifecycle::Uninitialized);
    assert_eq!(matrix.set_pixel(0, 0, true), Err(Error::DriverNotInitialized));
}
