use audio_relay::error::Error;
use audio_relay::exchange::{BufferExchange, BufferLease};
use audio_relay::format::AudioFormat;
use audio_relay::session::Mode;

fn float_stereo() -> AudioFormat {
    AudioFormat { sample_rate: 48000, bits_per_sample: 32, channel_count: 2 }
}

fn lease_of(exchange: &mut BufferExchange, frames: u32) -> BufferLease {
    match exchange.acquire(0, frames) {
        Ok(lease) => lease,
        Err(error) => panic!("acquire failed: {:?}", error),
    }
}

#[test]
fn render_poll_gives_what_the_padding_leaves() {
    let exchange: BufferExchange = BufferExchange::new(Mode::Render, 4800, float_stereo());
    assert_eq!(exchange.capacity(), 4800u32);
    assert_eq!(exchange.poll(0), 4800u32);
    assert_eq!(exchange.poll(4320), 480u32);
    assert_eq!(exchange.poll(4799), 1u32);
}

#[test]
fn render_poll_gives_nothing_when_the_buffer_is_full() {
    let exchange: BufferExchange = BufferExchange::new(Mode::Render, 4800, float_stereo());
    assert_eq!(exchange.poll(4800), 0u32);
    assert_eq!(exchange.poll(4801), 0u32);
    assert_eq!(exchange.poll(u32::MAX), 0u32);
    let none: BufferExchange = BufferExchange::new(Mode::Render, 0, float_stereo());
    assert_eq!(none.poll(0), 0u32);
}

#[test]
fn capture_poll_gives_the_packet() {
    let exchange: BufferExchange = BufferExchange::new(Mode::Capture, 4800, float_stereo());
    assert_eq!(exchange.poll(0), 0u32);
    assert_eq!(exchange.poll(480), 480u32);
    assert_eq!(exchange.poll(9600), 9600u32);
}

#[test]
fn acquire_puts_a_lease_in_flight_and_release_ends_it() {
    let mut exchange: BufferExchange = BufferExchange::new(Mode::Capture, 4800, float_stereo());
    assert_eq!(exchange.in_flight(), None);
    let lease: BufferLease = lease_of(&mut exchange, 480);
    assert_eq!(lease.frames(), 480u32);
    assert_eq!(exchange.in_flight(), Some(480u32));
    assert_eq!(exchange.release(lease, 0), Ok(()));
    assert_eq!(exchange.in_flight(), None);
}

#[test]
fn a_second_acquire_fails_while_a_lease_is_in_flight() {
    let mut exchange: BufferExchange = BufferExchange::new(Mode::Render, 4800, float_stereo());
    let lease: BufferLease = lease_of(&mut exchange, 480);
    assert_eq!(exchange.acquire(0, 240).err(), Some(Error::ResourceAcquisitionFailed));
    assert_eq!(exchange.in_flight(), Some(480u32));
    assert_eq!(exchange.release(lease, 0), Ok(()));
    let next: BufferLease = lease_of(&mut exchange, 240);
    assert_eq!(exchange.in_flight(), Some(240u32));
    assert_eq!(exchange.release(next, 0), Ok(()));
}

#[test]
fn acquire_fails_on_a_failure_status_or_an_empty_grant() {
    let mut exchange: BufferExchange = BufferExchange::new(Mode::Capture, 4800, float_stereo());
    assert_eq!(exchange.acquire(-1, 480).err(), Some(Error::ResourceAcquisitionFailed));
    assert_eq!(exchange.in_flight(), None);
    assert_eq!(exchange.acquire(0, 0).err(), Some(Error::ResourceAcquisitionFailed));
    assert_eq!(exchange.in_flight(), None);
}

#[test]
fn a_failed_release_still_ends_the_lease() {
    let mut exchange: BufferExchange = BufferExchange::new(Mode::Capture, 4800, float_stereo());
    let lease: BufferLease = lease_of(&mut exchange, 480);
    assert_eq!(exchange.release(lease, -1), Err(Error::ResourceAcquisitionFailed));
    assert_eq!(exchange.in_flight(), None);
}

#[test]
fn a_lease_that_is_not_in_flight_is_refused() {
    let mut first: BufferExchange = BufferExchange::new(Mode::Capture, 4800, float_stereo());
    let mut second: BufferExchange = BufferExchange::new(Mode::Capture, 4800, float_stereo());
    let foreign: BufferLease = lease_of(&mut first, 480);
    assert_eq!(second.release(foreign, 0), Err(Error::ResourceAcquisitionFailed));
    assert_eq!(second.in_flight(), None);
    let own: BufferLease = lease_of(&mut second, 240);
    let other: BufferLease = BufferExchange::new(Mode::Capture, 1, float_stereo())
        .acquire(0, 480)
        .ok()
        .expect("lease");
    assert_eq!(second.release(other, 0), Err(Error::ResourceAcquisitionFailed));
    assert_eq!(second.in_flight(), Some(240u32));
    assert_eq!(second.release(own, 0), Ok(()));
}

#[test]
fn writing_a_lease_off_ends_it() {
    let mut exchange: BufferExchange = BufferExchange::new(Mode::Render, 4800, float_stereo());
    let lease: BufferLease = lease_of(&mut exchange, 480);
    exchange.write_off(lease);
    assert_eq!(exchange.in_flight(), None);
}

#[test]
fn transfer_length_is_native_on_capture_and_wire_on_render() {
    let mut capture: BufferExchange = BufferExchange::new(Mode::Capture, 4800, float_stereo());
    let lease: BufferLease = lease_of(&mut capture, 480);
    assert_eq!(capture.transfer_len(&lease), 3840u64);
    assert_eq!(capture.forfeit(&lease), 480u32);
    let mut render: BufferExchange = BufferExchange::new(Mode::Render, 4800, float_stereo());
    let lease: BufferLease = lease_of(&mut render, 480);
    assert_eq!(render.transfer_len(&lease), 1920u64);
    assert_eq!(render.forfeit(&lease), 0u32);
}

#[test]
fn convert_turns_captured_floats_into_wire_pcm() {
    let mut capture: BufferExchange = BufferExchange::new(Mode::Capture, 4800, float_stereo());
    let lease: BufferLease = lease_of(&mut capture, 1);
    let native: Vec<u8> = vec![0x00, 0x00, 0x80, 0x3f, 0x00, 0x00, 0x80, 0xbf];
    assert_eq!(capture.convert(&lease, native), Some(vec![0xffu8, 0x7f, 0x01, 0x80]));
}

#[test]
fn convert_turns_wire_pcm_into_floats_to_render() {
    let mut render: BufferExchange = BufferExchange::new(Mode::Render, 4800, float_stereo());
    let lease: BufferLease = lease_of(&mut render, 1);
    let wire: Vec<u8> = vec![0xff, 0x7f, 0x01, 0x80];
    assert_eq!(
        render.convert(&lease, wire),
        Some(vec![0x00u8, 0x00, 0x80, 0x3f, 0x00, 0x00, 0x80, 0xbf])
    );
}

#[test]
fn convert_refuses_bytes_that_do_not_fill_the_lease() {
    let mut capture: BufferExchange = BufferExchange::new(Mode::Capture, 4800, float_stereo());
    let lease: BufferLease = lease_of(&mut capture, 2);
    assert_eq!(capture.convert(&lease, vec![0u8; 8]), None);
    assert_eq!(capture.convert(&lease, vec![0u8; 17]), None);
    assert_eq!(capture.convert(&lease, Vec::new()), None);
    assert_eq!(capture.convert(&lease, vec![0u8; 16]), Some(vec![0u8; 8]));
}
