use ads131m::spi::{decode_word, encode_word, MockTransfer, Transfer};
use ads131m::Error;

const NEVER: usize = usize::MAX;

#[test]
fn word_codec_two_byte() {
    assert_eq!(encode_word(&[0x12, 0x34], 2), 0x1234);
    assert_eq!(decode_word(0x1234, 2), vec![0x12, 0x34]);
    assert_eq!(encode_word(&[0xAB], 1), 0xAB);
    assert_eq!(decode_word(0xAB, 1), vec![0xAB]);
}

#[test]
fn two_byte_transfer_equal_lengths() {
    let mut bus = MockTransfer::new(true, vec![0xAABB, 0xCCDD], 0, NEVER, NEVER);
    let send = [0x12, 0x34, 0x56, 0x78];
    let mut receive = vec![0u8; 4];
    assert_eq!(bus.transfer(&send, &mut receive), Ok(()));
    assert_eq!(bus.sent_words(), &vec![0x1234, 0x5678]);
    assert_eq!(receive, vec![0xAA, 0xBB, 0xCC, 0xDD]);
}

#[test]
fn send_shorter_than_receive_pads_zero_words() {
    let mut bus = MockTransfer::new(true, vec![0xAABB, 0xCCDD, 0xEEFF], 0, NEVER, NEVER);
    let send = [0x12, 0x34];
    let mut receive = vec![0u8; 6];
    assert_eq!(bus.transfer(&send, &mut receive), Ok(()));
    assert_eq!(bus.sent_words(), &vec![0x1234, 0x0000, 0x0000]);
    assert_eq!(receive, vec![0xAA, 0xBB, 0xCC, 0xDD, 0xEE, 0xFF]);
}

#[test]
fn receive_shorter_than_send_discards_extra_words() {
    let mut bus = MockTransfer::new(true, vec![0xAABB, 0xCCDD, 0xEEFF], 0, NEVER, NEVER);
    let send = [0x12, 0x34, 0x56, 0x78, 0x9A, 0xBC];
    let mut receive = vec![0u8; 2];
    assert_eq!(bus.transfer(&send, &mut receive), Ok(()));
    // All three outbound words go out; only the first fills `receive`.
    assert_eq!(bus.sent_words(), &vec![0x1234, 0x5678, 0x9ABC]);
    assert_eq!(receive, vec![0xAA, 0xBB]);
}

#[test]
fn one_byte_transfer() {
    let mut bus = MockTransfer::new(false, vec![0x11, 0x22, 0x33], 0, NEVER, NEVER);
    let send = [0xDE, 0xAD];
    let mut receive = vec![0u8; 3];
    assert_eq!(bus.transfer(&send, &mut receive), Ok(()));
    assert_eq!(bus.sent_words(), &vec![0xDE, 0xAD, 0x00]);
    assert_eq!(receive, vec![0x11, 0x22, 0x33]);
}

#[test]
fn stalled_bus_still_completes() {
    // The first attempts report "would block"; the engine retries the cached
    // word without losing or reordering anything.
    let mut bus = MockTransfer::new(true, vec![0xAABB, 0xCCDD], 5, NEVER, NEVER);
    let send = [0x12, 0x34, 0x56, 0x78];
    let mut receive = vec![0u8; 4];
    assert_eq!(bus.transfer(&send, &mut receive), Ok(()));
    assert_eq!(bus.sent_words(), &vec![0x1234, 0x5678]);
    assert_eq!(receive, vec![0xAA, 0xBB, 0xCC, 0xDD]);
}

#[test]
fn write_error_aborts_transfer() {
    // The bus fails hard when accepting its second word: the transfer stops
    // there, with exactly one word sent and nothing further attempted.
    let mut bus = MockTransfer::new(true, vec![0xAABB, 0xCCDD], 0, 1, NEVER);
    let send = [0x12, 0x34, 0x56, 0x78];
    let mut receive = vec![0u8; 4];
    assert_eq!(bus.transfer(&send, &mut receive), Err(Error::SpiIOError));
    assert_eq!(bus.sent_words(), &vec![0x1234]);
}

#[test]
fn read_error_aborts_transfer() {
    // The bus fails hard on the first read: one word was already written,
    // `receive` is left untouched, and no further word goes out.
    let mut bus = MockTransfer::new(true, vec![0xAABB, 0xCCDD], 0, NEVER, 0);
    let send = [0x12, 0x34, 0x56, 0x78];
    let mut receive = vec![0u8; 4];
    assert_eq!(bus.transfer(&send, &mut receive), Err(Error::SpiIOError));
    assert_eq!(bus.sent_words(), &vec![0x1234]);
    assert_eq!(receive, vec![0, 0, 0, 0]);
}

#[test]
fn inbound_script_exhaustion_reads_zero_words() {
    let mut bus = MockTransfer::new(true, vec![0xAABB], 0, NEVER, NEVER);
    let send = [0x12, 0x34, 0x56, 0x78];
    let mut receive = vec![0xFFu8; 4];
    assert_eq!(bus.transfer(&send, &mut receive), Ok(()));
    assert_eq!(receive, vec![0xAA, 0xBB, 0x00, 0x00]);
}

#[test]
fn zero_length_transfer_succeeds_without_bus_activity() {
    // Both buffers empty: the transfer is owed success, and the bus is never
    // touched, even though this script would fail the very first operation.
    let mut bus = MockTransfer::new(true, vec![], 0, 0, 0);
    let send: [u8; 0] = [];
    let mut receive: Vec<u8> = vec![];
    assert_eq!(bus.transfer(&send, &mut receive), Ok(()));
    assert_eq!(bus.sent_words(), &Vec::<u16>::new());
}
