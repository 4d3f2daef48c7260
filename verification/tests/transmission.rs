use max7219_matrix::chain::DeviceChain;
use max7219_matrix::error::Error;
use max7219_matrix::framebuffer::Framebuffer;
use max7219_matrix::transport::{Transmission, TransferOutcome};

fn sample() -> Transmission {
    let mut framebuffer = Framebuffer::new(1).unwrap();
    for digit in 0..8u8 {
        framebuffer.write_raw_digit(0, digit, 0xA0 + digit).unwrap();
    }
    framebuffer.flush(&DeviceChain::new(1).unwrap()).unwrap()
}

#[test]
fn a_fresh_transmission_offers_its_first_frame() {
    let transmission = sample();
    assert_eq!(transmission.delivered(), 0);
    assert!(!transmission.faulted());
    assert_eq!(transmission.frame_count(), 8);
    assert_eq!(transmission.frame_len(), 2);
    assert_eq!(transmission.result(), None);
    assert_eq!(transmission.next_frame(), Some(&vec![0x01, 0xA0]));
    assert_eq!(transmission.next_frame(), Some(&vec![0x01, 0xA0]));
}

#[test]
fn deliveries_walk_through_the_frames_in_order() {
    let mut transmission = sample();
    for digit in 0..8u8 {
        assert_eq!(transmission.delivered(), digit as usize);
        assert_eq!(transmission.result(), None);
        assert_eq!(transmission.next_frame(), Some(&vec![digit + 1, 0xA0 + digit]));
        transmission.record(TransferOutcome::Delivered);
    }
    assert_eq!(transmission.delivered(), 8);
    assert_eq!(transmission.next_frame(), None);
    assert_eq!(transmission.result(), Some(Ok(())));
    assert!(!transmission.faulted());
}

#[test]
fn a_fault_ends_the_transmission() {
    let mut transmission = sample();
    transmission.record(TransferOutcome::Delivered);
    transmission.record(TransferOutcome::Delivered);
    transmission.record(TransferOutcome::Fault);
    assert!(transmission.faulted());
    assert_eq!(transmission.delivered(), 2);
    assert_eq!(transmission.next_frame(), None);
    assert_eq!(transmission.result(), Some(Err(Error::TransportError)));
}

#[test]
fn nothing_is_sent_again_after_a_fault() {
    let mut transmission = sample();
    transmission.record(TransferOutcome::Fault);
    transmission.record(TransferOutcome::Delivered);
    transmission.record(TransferOutcome::Delivered);
    assert!(transmission.faulted());
    assert_eq!(transmission.delivered(), 0);
    assert_eq!(transmission.next_frame(), None);
    assert_eq!(transmission.result(), Some(Err(Error::TransportError)));
}

#[test]
fn a_fault_on_the_last_frame_is_a_failure() {
    let mut transmission = sample();
    for _ in 0..7 {
        transmission.record(TransferOutcome::Delivered);
    }
    transmission.record(TransferOutcome::Fault);
    assert_eq!(transmission.delivered(), 7);
    assert_eq!(transmission.result(), Some(Err(Error::TransportError)));
}

#[test]
fn reports_after_the_end_change_nothing() {
    let mut transmission = sample();
    for _ in 0..8 {
        transmission.record(TransferOutcome::Delivered);
    }
    transmission.record(TransferOutcome::Delivered);
    transmission.record(TransferOutcome::Fault);
    assert_eq!(transmission.delivered(), 8);
    assert!(!transmission.faulted());
    assert_eq!(transmission.result(), Some(Ok(())));
}

#[test]
fn carries_compares_frame_by_frame() {
    let transmission = sample();
    let mut frames: Vec<Vec<u8>> = (0..8u8).map(|digit| vec![digit + 1, 0xA0 + digit]).collect();
    assert!(transmission.carries(&frames));
    frames[5][1] ^= 1;
    assert!(!transmission.carries(&frames));
    frames[5][1] ^= 1;
    frames.pop();
    assert!(!transmission.carries(&frames));
    frames.push(vec![0x08]);
    assert!(!transmission.carries(&frames));
    assert!(!transmission.carries(&Vec::new()));
}
