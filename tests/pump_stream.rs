use kftray_relay::{Pump, PumpAction, PumpPhase, ReadOutcome, CHUNK_SIZE};

/// Copies `data` into a fresh read buffer, as a socket read would.
fn read_into(buf: &mut Vec<u8>, data: &[u8]) -> ReadOutcome {
    buf[..data.len()].copy_from_slice(data);
    ReadOutcome::Bytes(data.len())
}

/// Runs a pump over `chunks` then a clean close; returns what it wrote.
fn relay(chunks: &[&[u8]]) -> (Vec<u8>, PumpPhase) {
    let mut pump = Pump::new();
    let mut buf = Pump::read_buffer();
    let mut out = Vec::new();
    for chunk in chunks {
        let outcome = read_into(&mut buf, chunk);
        match pump.on_read(&buf, outcome) {
            PumpAction::Forward(bytes) => out.extend_from_slice(&bytes),
            other => panic!("unexpected action {:?}", other),
        }
        assert!(matches!(pump.on_write(true), PumpAction::ReadNext));
    }
    assert!(matches!(pump.on_read(&buf, ReadOutcome::Bytes(0)), PumpAction::Stop));
    (out, pump.phase())
}

#[test]
fn read_buffer_is_one_zeroed_chunk() {
    let buf = Pump::read_buffer();
    assert_eq!(buf.len(), 4096);
    assert_eq!(CHUNK_SIZE, 4096);
    assert!(buf.iter().all(|b| *b == 0));
}

#[test]
fn forwards_exactly_the_bytes_read() {
    let mut pump = Pump::new();
    let mut buf = Pump::read_buffer();
    buf[..5].copy_from_slice(b"hello");
    buf[5] = b'!';
    match pump.on_read(&buf, ReadOutcome::Bytes(5)) {
        PumpAction::Forward(bytes) => assert_eq!(bytes, b"hello".to_vec()),
        other => panic!("unexpected action {:?}", other),
    }
    assert_eq!(pump.phase(), PumpPhase::Writing);
}

#[test]
fn stream_arrives_unchanged_and_in_order() {
    let (out, phase) = relay(&[b"abc", b"defg", b"h"]);
    assert_eq!(out, b"abcdefgh".to_vec());
    assert_eq!(phase, PumpPhase::Closed);
}

#[test]
fn full_chunk_is_forwarded_whole() {
    let big: Vec<u8> = (0..4096u32).map(|i| (i % 251) as u8).collect();
    let (out, phase) = relay(&[&big]);
    assert_eq!(out, big);
    assert_eq!(phase, PumpPhase::Closed);
}

#[test]
fn immediate_close_forwards_nothing() {
    let (out, phase) = relay(&[]);
    assert!(out.is_empty());
    assert_eq!(phase, PumpPhase::Closed);
}

#[test]
fn read_error_fails_the_pump() {
    let mut pump = Pump::new();
    let buf = Pump::read_buffer();
    assert!(matches!(pump.on_read(&buf, ReadOutcome::Error), PumpAction::Fail));
    assert_eq!(pump.phase(), PumpPhase::Failed);
}

#[test]
fn exhausted_write_fails_the_pump() {
    let mut pump = Pump::new();
    let mut buf = Pump::read_buffer();
    let outcome = read_into(&mut buf, b"x");
    assert!(matches!(pump.on_read(&buf, outcome), PumpAction::Forward(_)));
    assert!(matches!(pump.on_write(false), PumpAction::Fail));
    assert_eq!(pump.phase(), PumpPhase::Failed);
}

/// A client sends a message through the relay to an echo target and reads
/// the same bytes back: one pump per direction, the target echoing what
/// the first pump delivered.
#[test]
fn echo_target_returns_identical_bytes() {
    let message = "test message through proxy";
    let (to_target, phase) = relay(&[message.as_bytes()]);
    assert_eq!(phase, PumpPhase::Closed);
    let (back_to_client, phase) = relay(&[&to_target]);
    assert_eq!(phase, PumpPhase::Closed);
    assert_eq!(message.as_bytes(), &back_to_client[..]);
}
