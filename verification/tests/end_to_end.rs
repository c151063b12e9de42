use audio_relay::format::AudioFormat;
use audio_relay::network::{Dispatch, NetworkRelay};
use audio_relay::session::{DeviceSession, Mode, Teardown};
use audio_relay::stream::{Action, AudioLoop, Event, Outcome, Step};

fn capture_block(capture: &mut AudioLoop, frames: u32, data: Vec<u8>) -> Vec<u8> {
    let polled: Step = capture.step(Event::Polled { status: 0, reading: frames });
    assert_eq!(polled.action, Action::Acquire { frames });
    let acquired: Step = capture.step(Event::Acquired { status: 0, granted: frames });
    assert_eq!(acquired.action, Action::Transfer { bytes: data.len() as u64 });
    let moved: Step = capture.step(Event::Transferred { data });
    assert_eq!(moved.action, Action::Release { frames });
    let released: Step = capture.step(Event::Released { status: 0 });
    assert_eq!(released.action, Action::Poll);
    moved.payload
}

#[test]
fn two_subscribers_receive_identical_1920_byte_blocks() {
    let format: AudioFormat = AudioFormat::new(48000, 16, 2).expect("format");
    assert_eq!(format.block_len(10), 1920u64);
    let session: DeviceSession =
        DeviceSession::open(Mode::Capture, 0, 0, format).ok().expect("session");
    let mut capture: AudioLoop = AudioLoop::new(session, 4800);
    assert_eq!(capture.step(Event::Begin).action, Action::Start);
    assert_eq!(capture.step(Event::Started { status: 0 }).action, Action::Poll);

    let mut relay: NetworkRelay = NetworkRelay::new(true).ok().expect("relay");
    let first: u64 = relay.accept().expect("first subscriber");
    let second: u64 = relay.accept().expect("second subscriber");
    let mut received_first: Vec<Vec<u8>> = Vec::new();
    let mut received_second: Vec<Vec<u8>> = Vec::new();
    let mut emitted: Vec<Vec<u8>> = Vec::new();

    let mut round: u32 = 0;
    while round < 50 {
        let mut data: Vec<u8> = Vec::new();
        let mut n: u32 = 0;
        while n < 1920 {
            data.push((n.wrapping_mul(31).wrapping_add(round) % 251) as u8);
            n += 1;
        }
        let block: Vec<u8> = capture_block(&mut capture, 480, data.clone());
        assert_eq!(block.len(), 1920usize);
        assert_eq!(block, data);
        emitted.push(block.clone());
        match relay.dispatch(Some(block)) {
            Dispatch::Broadcast { block, subscribers } => {
                assert_eq!(subscribers, vec![first, second]);
                for id in subscribers {
                    if id == first {
                        received_first.push(block.clone());
                    } else {
                        received_second.push(block.clone());
                    }
                }
                relay.settle(&Vec::new());
            },
            _ => panic!("no broadcast with a block pending"),
        }
        round += 1;
    }
    assert_eq!(received_first, emitted);
    assert_eq!(received_second, emitted);

    capture.request_shutdown();
    assert_eq!(
        capture.step(Event::Polled { status: 0, reading: 0 }).action,
        Action::Stop { teardown: Teardown::HaltAndRelease, outcome: Outcome::Shutdown }
    );
}

#[test]
fn float_capture_reaches_the_wire_as_pcm_and_plays_back_as_the_same_floats() {
    let device: AudioFormat = AudioFormat::new(48000, 32, 2).expect("format");
    let capture_session: DeviceSession =
        DeviceSession::open(Mode::Capture, 0, 0, device).ok().expect("session");
    let mut capture: AudioLoop = AudioLoop::new(capture_session, 4800);
    assert_eq!(capture.step(Event::Begin).action, Action::Start);
    assert_eq!(capture.step(Event::Started { status: 0 }).action, Action::Poll);

    let mut samples: Vec<i16> = Vec::new();
    let mut n: i32 = 0;
    while n < 960 {
        samples.push((n * 67 - 32768) as i16);
        n += 1;
    }
    let mut native: Vec<u8> = Vec::new();
    for sample in &samples {
        native.extend_from_slice(&(*sample as f32 / 32767.0f32).to_le_bytes());
    }
    let block: Vec<u8> = capture_block(&mut capture, 480, native.clone());
    assert_eq!(block.len(), 1920usize);
    let mut expected: Vec<u8> = Vec::new();
    for sample in &samples {
        expected.extend_from_slice(&sample.to_le_bytes());
    }
    assert_eq!(block, expected);

    let render_session: DeviceSession =
        DeviceSession::open(Mode::Render, 0, 0, device).ok().expect("session");
    let mut render: AudioLoop = AudioLoop::new(render_session, 480);
    assert_eq!(render.step(Event::Begin).action, Action::Acquire { frames: 480 });
    assert_eq!(
        render.step(Event::Acquired { status: 0, granted: 480 }).action,
        Action::Transfer { bytes: 1920 }
    );
    let filled: Step = render.step(Event::Transferred { data: block });
    assert_eq!(filled.action, Action::Release { frames: 480 });
    assert_eq!(filled.payload, native);
}
