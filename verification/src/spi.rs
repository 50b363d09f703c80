//! The word codec and the duplex transfer engine.
//!
//! A bus moves fixed-size words of 1 or 2 bytes (big-endian when 2). The
//! platform layer supplies a non-blocking, word-at-a-time, full-duplex
//! primitive as an implementation of [`WordTransfer`]; its ghost model is the
//! sequence of words the bus has accepted for transmit (`sent`) and the
//! sequence of words handed out by reads (`taken`). Every type implementing
//! [`WordTransfer`] gets [`Transfer`], a pipelined full-buffer duplex
//! transfer that keeps the transmit path exactly one word ahead of receive.
//! Connecting a concrete SPI peripheral means implementing [`WordTransfer`]
//! over its word operations; that platform glue lives outside this core,
//! which itself ships only the scripted [`MockTransfer`].

use vstd::prelude::*;
use vstd::pervasive::VecAdditionalExecFns;

use crate::Error;

verus! {

/// The larger of two lengths.
pub open spec fn spec_max(a: int, b: int) -> int {
    if a >= b {
        a
    } else {
        b
    }
}

/// The byte of `send` at index `i`, zero past the end.
pub open spec fn spec_padded_byte(send: Seq<u8>, i: int) -> u8 {
    if 0 <= i < send.len() {
        send[i]
    } else {
        0
    }
}

/// The bus word carrying bytes `i * wl .. (i + 1) * wl` of `send`,
/// zero-padded past the end of `send`; big-endian when `wl` is 2.
pub open spec fn spec_out_word(send: Seq<u8>, wl: int, i: int) -> u16 {
    if wl == 1 {
        spec_padded_byte(send, i) as u16
    } else {
        ((spec_padded_byte(send, 2 * i) as int) * 256 + (spec_padded_byte(send, 2 * i + 1) as int))
            as u16
    }
}

/// The first `n` outbound words of a transfer sending `send`.
pub open spec fn spec_out_words(send: Seq<u8>, wl: int, n: int) -> Seq<u16> {
    Seq::new(n as nat, |i: int| spec_out_word(send, wl, i))
}

/// Byte `j` of word `w` under word length `wl`; big-endian when `wl` is 2.
pub open spec fn spec_word_byte(w: u16, wl: int, j: int) -> u8 {
    if wl == 2 && j == 0 {
        (w / 256) as u8
    } else {
        (w % 256) as u8
    }
}

/// How many words a transfer of the given buffer lengths moves in each
/// direction: the longer buffer, in words.
pub open spec fn spec_word_count(send_len: int, recv_len: int, wl: int) -> int {
    spec_max(send_len, recv_len) / wl
}

/// The bytes of `recv` covered by the inbound words `words` hold those words'
/// bytes, in order, big-endian within each word.
pub open spec fn spec_recv_bytes(recv: Seq<u8>, words: Seq<u16>, wl: int) -> bool {
    forall|i: int|
        0 <= i < recv.len() && i < words.len() * wl ==> recv[i] == spec_word_byte(
            words[i / wl],
            wl,
            i % wl,
        )
}

/// Encode one bus word from a byte buffer of exactly the word length;
/// big-endian for 2-byte words.
///
/// Handing a buffer of any other length is a caller bug, excluded here rather
/// than tolerated.
pub fn encode_word(buf: &[u8], word_len: usize) -> (w: u16)
    requires
        word_len == 1 || word_len == 2,
        buf@.len() == word_len,
    ensures
        w == spec_out_word(buf@, word_len as int, 0),
{
    if word_len == 1 {
        buf[0] as u16
    } else {
        (buf[0] as u16) * 256 + (buf[1] as u16)
    }
}

/// Decode one bus word into its bytes, the exact inverse of [`encode_word`];
/// big-endian for 2-byte words.
pub fn decode_word(w: u16, word_len: usize) -> (buf: Vec<u8>)
    requires
        word_len == 1 || word_len == 2,
        word_len == 1 ==> w < 256,
    ensures
        buf@.len() == word_len,
        forall|j: int| 0 <= j < word_len ==> buf@[j] == spec_word_byte(w, word_len as int, j),
{
    let mut buf: Vec<u8> = Vec::new();
    if word_len == 1 {
        buf.push((w % 256) as u8);
    } else {
        buf.push((w / 256) as u8);
        buf.push((w % 256) as u8);
    }
    buf
}

/// Round trip: decoding the word encoded from a buffer of the word length
/// yields the buffer's bytes back.
pub proof fn lemma_word_codec_round(bytes: Seq<u8>, wl: int)
    requires
        wl == 1 || wl == 2,
        bytes.len() == wl,
    ensures
        forall|j: int|
            0 <= j < wl ==> #[trigger] spec_word_byte(spec_out_word(bytes, wl, 0), wl, j)
                == bytes[j],
{
    let w = spec_out_word(bytes, wl, 0);
    if wl == 2 {
        assert(w == (bytes[0] as u16) * 256 + (bytes[1] as u16));
        assert(spec_word_byte(w, 2, 0) == bytes[0]);
        assert(spec_word_byte(w, 2, 1) == bytes[1]);
    }
}

/// Round trip the other way: encoding the bytes decoded from a word yields
/// the word back. On a 1-byte bus every word is below 256.
pub proof fn lemma_word_codec_round_word(w: u16, wl: int)
    requires
        wl == 1 || wl == 2,
        wl == 1 ==> w < 256,
    ensures
        spec_out_word(Seq::new(wl as nat, |j: int| spec_word_byte(w, wl, j)), wl, 0) == w,
{
    let bytes = Seq::new(wl as nat, |j: int| spec_word_byte(w, wl, j));
    if wl == 2 {
        assert(bytes[0] == (w / 256) as u8);
        assert(bytes[1] == (w % 256) as u8);
    }
}

/// Outcome of one non-blocking attempt to write a word.
#[derive(Debug, Clone, Copy, PartialEq, Eq, Structural)]
pub enum WriteStep {
    /// The bus accepted the word.
    Done,
    /// The bus cannot take a word right now; retry later.
    Block,
    /// The bus failed hard.
    Fail(Error),
}

/// Outcome of one non-blocking attempt to read a word.
#[derive(Debug, Clone, Copy, PartialEq, Eq, Structural)]
pub enum ReadStep {
    /// The bus handed out this word.
    Word(u16),
    /// No word is available yet; retry later.
    Block,
    /// The bus failed hard.
    Fail(Error),
}

/// Trait for interacting with a full-duplex interface word by word.
///
/// The ghost model of a bus is a pair of word sequences: `sent` holds every
/// word the bus has accepted for transmit, `taken` every word a read has
/// handed out. The word length is 1 or 2 bytes, fixed for the life of the
/// bus; on a 1-byte bus every word is below 256.
pub trait WordTransfer: Sized {
    /// Length of a word in bytes, as the contracts see it.
    spec fn word_len_spec(&self) -> int;

    /// The words this bus has accepted for transmit, oldest first.
    spec fn sent(&self) -> Seq<u16>;

    /// The words reads have handed out, oldest first.
    spec fn taken(&self) -> Seq<u16>;

    /// Ghost bound on consecutive "would block" answers: every blocking
    /// answer strictly consumes it, so the bus cannot block forever. Any
    /// successful operation may replenish it.
    spec fn progress_budget(&self) -> nat;

    /// Length of a word in bytes
    fn word_len(&self) -> (n: usize)
        ensures
            n == self.word_len_spec(),
            1 <= n <= 2,
    ;

    /// Attempt to write a word
    fn write_word(&mut self, word: u16) -> (r: WriteStep)
        requires
            old(self).word_len_spec() == 1 ==> word < 256,
        ensures
            final(self).word_len_spec() == old(self).word_len_spec(),
            final(self).taken() == old(self).taken(),
            r is Done ==> final(self).sent() == old(self).sent().push(word),
            !(r is Done) ==> final(self).sent() == old(self).sent(),
            r is Block ==> final(self).progress_budget() < old(self).progress_budget(),
    ;

    /// Attempt to read a word
    ///
    /// A word must have been written and not yet read back; full-duplex
    /// reads only return what a write shifted in.
    fn read_word(&mut self) -> (r: ReadStep)
        requires
            old(self).taken().len() < old(self).sent().len(),
        ensures
            final(self).word_len_spec() == old(self).word_len_spec(),
            final(self).sent() == old(self).sent(),
            r matches ReadStep::Word(w) ==> final(self).taken() == old(self).taken().push(w) && (
            final(self).word_len_spec() == 1 ==> w < 256),
            !(r is Word) ==> final(self).taken() == old(self).taken(),
            r is Block ==> final(self).progress_budget() < old(self).progress_budget(),
    ;
}

/// A type that can make SPI transfers
pub trait Transfer: WordTransfer {
    /// Perform a SPI transaction on the interface
    ///
    /// The transaction will be the length of the `send` or `receive` buffer,
    /// whichever is longer. If `send` is shorter than `receive`, the
    /// remaining words are sent as zeros. If `receive` is shorter than
    /// `send`, the remaining inbound words are still pulled off the bus and
    /// discarded.
    ///
    /// Both buffer lengths must be a multiple of the word length, and the bus
    /// must be quiescent (every word sent has been read back); a violation is
    /// a caller bug, excluded here rather than tolerated.
    ///
    /// A hard bus error in either direction aborts the transfer immediately:
    /// exactly the words written so far stand, no further word is attempted,
    /// and `receive` may be left partially populated.
    fn transfer(&mut self, send: &[u8], receive: &mut Vec<u8>) -> (r: Result<(), Error>)
        requires
            old(self).sent().len() == old(self).taken().len(),
            send@.len() as int % old(self).word_len_spec() == 0,
            old(receive)@.len() as int % old(self).word_len_spec() == 0,
        ensures
            final(self).word_len_spec() == old(self).word_len_spec(),
            final(receive)@.len() == old(receive)@.len(),
            final(self).taken().take(old(self).taken().len() as int) == old(self).taken(),
            spec_recv_bytes(
                final(receive)@,
                final(self).taken().skip(old(self).taken().len() as int),
                old(self).word_len_spec(),
            ),
            forall|i: int|
                (final(self).taken().len() - old(self).taken().len()) * old(self).word_len_spec() <= i
                    < old(receive)@.len() ==> final(receive)@[i] == old(receive)@[i],
            r is Ok ==> final(self).sent() == old(self).sent() + spec_out_words(
                send@,
                old(self).word_len_spec(),
                spec_word_count(
                    send@.len() as int,
                    old(receive)@.len() as int,
                    old(self).word_len_spec(),
                ),
            ),
            r is Ok ==> final(self).taken().len() == old(self).taken().len() + spec_word_count(
                send@.len() as int,
                old(receive)@.len() as int,
                old(self).word_len_spec(),
            ),
            r is Err ==> exists|k: int|
                0 <= k <= spec_word_count(
                    send@.len() as int,
                    old(receive)@.len() as int,
                    old(self).word_len_spec(),
                ) && final(self).sent() == old(self).sent() + #[trigger] spec_out_words(
                    send@,
                    old(self).word_len_spec(),
                    k,
                ) && final(self).taken().len() <= old(self).taken().len() + k,
            spec_word_count(
                send@.len() as int,
                old(receive)@.len() as int,
                old(self).word_len_spec(),
            ) == 0 ==> r is Ok,
    ;
}

impl<T: WordTransfer> Transfer for T {
    fn transfer(&mut self, send: &[u8], receive: &mut Vec<u8>) -> (r: Result<(), Error>) {
        let wl = self.word_len();
        if wl == 1 {
            transfer_one_byte(self, send, receive)
        } else {
            transfer_two_byte(self, send, receive)
        }
    }
}

/// The transfer engine for a bus with 1-byte words.
#[verifier::loop_isolation(false)]
fn transfer_one_byte<T: WordTransfer>(bus: &mut T, send: &[u8], receive: &mut Vec<u8>) -> (r:
    Result<(), Error>)
    requires
        old(bus).word_len_spec() == 1,
        old(bus).sent().len() == old(bus).taken().len(),
    ensures
        final(bus).word_len_spec() == 1,
        final(receive)@.len() == old(receive)@.len(),
        final(bus).taken().take(old(bus).taken().len() as int) == old(bus).taken(),
        spec_recv_bytes(final(receive)@, final(bus).taken().skip(old(bus).taken().len() as int), 1),
        forall|i: int|
            final(bus).taken().len() - old(bus).taken().len() <= i < old(receive)@.len() ==> final(receive)@[i] == old(receive)@[i],
        r is Ok ==> final(bus).sent() == old(bus).sent() + spec_out_words(
            send@,
            1,
            spec_max(send@.len() as int, old(receive)@.len() as int),
        ),
        r is Ok ==> final(bus).taken().len() == old(bus).taken().len() + spec_max(
            send@.len() as int,
            old(receive)@.len() as int,
        ),
        r is Err ==> exists|k: int|
            0 <= k <= spec_max(send@.len() as int, old(receive)@.len() as int) && final(bus).sent() == old(
                bus,
            ).sent() + #[trigger] spec_out_words(send@, 1, k) && final(bus).taken().len() <= old(
                bus,
            ).taken().len() + k,
        spec_max(send@.len() as int, old(receive)@.len() as int) == 0 ==> r is Ok,
{
    let send_len = send.len();
    let recv_len = receive.len();
    let total = if send_len >= recv_len {
        send_len
    } else {
        recv_len
    };
    let ghost sent0 = bus.sent();
    let ghost taken0 = bus.taken();
    let ghost recv0 = receive@;
    let mut words_written: usize = 0;
    let mut words_read: usize = 0;
    let mut word_cache: Option<u16> = None;
    while words_written < total || words_read < total
        invariant
            bus.word_len_spec() == 1,
            send@.len() == send_len,
            receive@.len() == recv_len,
            recv0.len() == recv_len,
            total == spec_max(send_len as int, recv_len as int),
            words_read <= words_written <= total,
            bus.sent() == sent0 + spec_out_words(send@, 1, words_written as int),
            bus.taken().len() == taken0.len() + words_read,
            bus.taken().take(taken0.len() as int) == taken0,
            word_cache matches Some(w) ==> words_written < total && w == spec_out_word(
                send@,
                1,
                words_written as int,
            ),
            spec_recv_bytes(receive@, bus.taken().skip(taken0.len() as int), 1),
            forall|i: int| words_read <= i < recv_len ==> receive@[i] == recv0[i],
        decreases total - words_written + (total - words_read), bus.progress_budget(),
    {
        if words_written < total {
            let word: u16 = match word_cache {
                Some(w) => w,
                None => {
                    if words_written < send_len {
                        send[words_written] as u16
                    } else {
                        0
                    }
                },
            };
            word_cache = None;
            match bus.write_word(word) {
                WriteStep::Done => {
                    proof {
                        assert(spec_out_words(send@, 1, words_written + 1) =~= spec_out_words(
                            send@,
                            1,
                            words_written as int,
                        ).push(spec_out_word(send@, 1, words_written as int)));
                        assert(sent0 + spec_out_words(send@, 1, words_written + 1) =~= (sent0
                            + spec_out_words(send@, 1, words_written as int)).push(word));
                    }
                    words_written = words_written + 1;
                },
                WriteStep::Block => {
                    word_cache = Some(word);
                },
                WriteStep::Fail(e) => {
                    proof {
                        assert(bus.sent() == sent0 + spec_out_words(
                            send@,
                            1,
                            words_written as int,
                        ));
                    }
                    return Err(e);
                },
            }
        }
        if words_written > words_read && words_read < total {
            match bus.read_word() {
                ReadStep::Word(w) => {
                    proof {
                        assert(bus.taken().skip(taken0.len() as int) =~= bus.taken().take(
                            bus.taken().len() - 1,
                        ).skip(taken0.len() as int).push(w));
                        assert(bus.taken().take(taken0.len() as int) =~= taken0);
                    }
                    if words_read < recv_len {
                        receive.set(words_read, (w % 256) as u8);
                    }
                    words_read = words_read + 1;
                },
                ReadStep::Block => {},
                ReadStep::Fail(e) => {
                    return Err(e);
                },
            }
        }
    }
    Ok(())
}

/// The transfer engine for a bus with 2-byte words.
#[verifier::loop_isolation(false)]
fn transfer_two_byte<T: WordTransfer>(bus: &mut T, send: &[u8], receive: &mut Vec<u8>) -> (r:
    Result<(), Error>)
    requires
        old(bus).word_len_spec() == 2,
        old(bus).sent().len() == old(bus).taken().len(),
        send@.len() % 2 == 0,
        old(receive)@.len() % 2 == 0,
    ensures
        final(bus).word_len_spec() == 2,
        final(receive)@.len() == old(receive)@.len(),
        final(bus).taken().take(old(bus).taken().len() as int) == old(bus).taken(),
        spec_recv_bytes(final(receive)@, final(bus).taken().skip(old(bus).taken().len() as int), 2),
        forall|i: int|
            (final(bus).taken().len() - old(bus).taken().len()) * 2 <= i < old(receive)@.len() ==> final(receive)@[i] == old(receive)@[i],
        r is Ok ==> final(bus).sent() == old(bus).sent() + spec_out_words(
            send@,
            2,
            spec_max(send@.len() as int, old(receive)@.len() as int) / 2,
        ),
        r is Ok ==> final(bus).taken().len() == old(bus).taken().len() + spec_max(
            send@.len() as int,
            old(receive)@.len() as int,
        ) / 2,
        r is Err ==> exists|k: int|
            0 <= k <= spec_max(send@.len() as int, old(receive)@.len() as int) / 2 && final(bus).sent()
                == old(bus).sent() + #[trigger] spec_out_words(send@, 2, k) && final(bus).taken().len()
                <= old(bus).taken().len() + k,
        spec_max(send@.len() as int, old(receive)@.len() as int) / 2 == 0 ==> r is Ok,
{
    let send_len = send.len();
    let recv_len = receive.len();
    let total = if send_len >= recv_len {
        send_len
    } else {
        recv_len
    };
    let n = total / 2;
    let ghost sent0 = bus.sent();
    let ghost taken0 = bus.taken();
    let ghost recv0 = receive@;
    let mut words_written: usize = 0;
    let mut words_read: usize = 0;
    let mut word_cache: Option<u16> = None;
    while words_written < n || words_read < n
        invariant
            bus.word_len_spec() == 2,
            send@.len() == send_len,
            receive@.len() == recv_len,
            recv0.len() == recv_len,
            send_len % 2 == 0,
            recv_len % 2 == 0,
            total == spec_max(send_len as int, recv_len as int),
            n == total / 2,
            2 * n == total,
            words_read <= words_written <= n,
            bus.sent() == sent0 + spec_out_words(send@, 2, words_written as int),
            bus.taken().len() == taken0.len() + words_read,
            bus.taken().take(taken0.len() as int) == taken0,
            word_cache matches Some(w) ==> words_written < n && w == spec_out_word(
                send@,
                2,
                words_written as int,
            ),
            spec_recv_bytes(receive@, bus.taken().skip(taken0.len() as int), 2),
            forall|i: int| 2 * words_read <= i < recv_len ==> receive@[i] == recv0[i],
        decreases n - words_written + (n - words_read), bus.progress_budget(),
    {
        if words_written < n {
            let word: u16 = match word_cache {
                Some(w) => w,
                None => {
                    let base = 2 * words_written;
                    let b0 = if base < send_len {
                        send[base]
                    } else {
                        0
                    };
                    let b1 = if base + 1 < send_len {
                        send[base + 1]
                    } else {
                        0
                    };
                    (b0 as u16) * 256 + (b1 as u16)
                },
            };
            word_cache = None;
            match bus.write_word(word) {
                WriteStep::Done => {
                    proof {
                        assert(spec_out_words(send@, 2, words_written + 1) =~= spec_out_words(
                            send@,
                            2,
                            words_written as int,
                        ).push(spec_out_word(send@, 2, words_written as int)));
                        assert(sent0 + spec_out_words(send@, 2, words_written + 1) =~= (sent0
                            + spec_out_words(send@, 2, words_written as int)).push(word));
                    }
                    words_written = words_written + 1;
                },
                WriteStep::Block => {
                    word_cache = Some(word);
                },
                WriteStep::Fail(e) => {
                    return Err(e);
                },
            }
        }
        if words_written > words_read && words_read < n {
            match bus.read_word() {
                ReadStep::Word(w) => {
                    proof {
                        assert(bus.taken().skip(taken0.len() as int) =~= bus.taken().take(
                            bus.taken().len() - 1,
                        ).skip(taken0.len() as int).push(w));
                        assert(bus.taken().take(taken0.len() as int) =~= taken0);
                    }
                    let base = 2 * words_read;
                    if base < recv_len {
                        receive.set(base, (w / 256) as u8);
                    }
                    if base + 1 < recv_len {
                        receive.set(base + 1, (w % 256) as u8);
                    }
                    words_read = words_read + 1;
                },
                ReadStep::Block => {},
                ReadStep::Fail(e) => {
                    return Err(e);
                },
            }
        }
    }
    Ok(())
}

/// A scripted in-memory bus for exercising the transfer engine.
///
/// Words written are logged and can be inspected afterwards; reads are served
/// from a prepared list of inbound words, zero once the list is exhausted.
/// The script can make the first attempts report "would block" and can fail
/// hard at a chosen write or read index.
pub struct MockTransfer {
    two_byte_words: bool,
    inbound: Vec<u16>,
    reads_served: usize,
    written: Vec<u16>,
    stall_attempts: usize,
    fail_write_at: usize,
    fail_read_at: usize,
}

impl MockTransfer {
    /// The inbound word a read at position `i` hands out: the scripted word
    /// (masked to one byte on a 1-byte bus), zero past the script's end.
    pub closed spec fn spec_inbound_word(&self, i: int) -> u16 {
        if 0 <= i < self.inbound@.len() {
            if self.two_byte_words {
                self.inbound@[i]
            } else {
                (self.inbound@[i] % 256) as u16
            }
        } else {
            0
        }
    }

    /// A fresh scripted bus with nothing sent or taken yet.
    ///
    /// The first `stall_attempts` operations report "would block"; the write
    /// accepting word number `fail_write_at` and the read serving word number
    /// `fail_read_at` fail hard instead (pass `usize::MAX` for a bus that
    /// never fails).
    pub fn new(
        two_byte_words: bool,
        inbound: Vec<u16>,
        stall_attempts: usize,
        fail_write_at: usize,
        fail_read_at: usize,
    ) -> (r: MockTransfer)
        ensures
            r.word_len_spec() == if two_byte_words {
                2int
            } else {
                1int
            },
            r.sent() == Seq::<u16>::empty(),
            r.taken() == Seq::<u16>::empty(),
            r.progress_budget() == stall_attempts as nat,
            forall|i: int|
                #[trigger] r.spec_inbound_word(i) == (if 0 <= i < inbound@.len() {
                    if two_byte_words {
                        inbound@[i]
                    } else {
                        (inbound@[i] % 256) as u16
                    }
                } else {
                    0u16
                }),
    {
        let r = MockTransfer {
            two_byte_words,
            inbound,
            reads_served: 0,
            written: Vec::new(),
            stall_attempts,
            fail_write_at,
            fail_read_at,
        };
        proof {
            assert(r.taken() =~= Seq::<u16>::empty());
        }
        r
    }

    /// The words this bus has accepted for transmit, for inspection.
    pub fn sent_words(&self) -> (r: &Vec<u16>)
        ensures
            r@ == self.sent(),
    {
        &self.written
    }
}

impl WordTransfer for MockTransfer {
    closed spec fn word_len_spec(&self) -> int {
        if self.two_byte_words {
            2
        } else {
            1
        }
    }

    closed spec fn sent(&self) -> Seq<u16> {
        self.written@
    }

    closed spec fn taken(&self) -> Seq<u16> {
        Seq::new(self.reads_served as nat, |i: int| self.spec_inbound_word(i))
    }

    closed spec fn progress_budget(&self) -> nat {
        self.stall_attempts as nat
    }

    fn word_len(&self) -> (n: usize) {
        if self.two_byte_words {
            2
        } else {
            1
        }
    }

    fn write_word(&mut self, word: u16) -> (r: WriteStep) {
        if self.stall_attempts > 0 {
            self.stall_attempts = self.stall_attempts - 1;
            proof {
                assert(self.taken() =~= old(self).taken());
            }
            WriteStep::Block
        } else if self.written.len() == self.fail_write_at {
            WriteStep::Fail(Error::SpiIOError)
        } else {
            self.written.push(word);
            proof {
                assert(self.taken() =~= old(self).taken());
            }
            WriteStep::Done
        }
    }

    fn read_word(&mut self) -> (r: ReadStep) {
        if self.stall_attempts > 0 {
            self.stall_attempts = self.stall_attempts - 1;
            proof {
                assert(self.taken() =~= old(self).taken());
            }
            ReadStep::Block
        } else if self.reads_served == self.fail_read_at {
            ReadStep::Fail(Error::SpiIOError)
        } else {
            let sent_count = self.written.len();
            let raw = if self.reads_served < self.inbound.len() {
                self.inbound[self.reads_served]
            } else {
                0
            };
            let w = if self.two_byte_words {
                raw
            } else {
                raw % 256
            };
            self.reads_served = self.reads_served + 1;
            proof {
                assert(self.taken() =~= old(self).taken().push(w));
            }
            ReadStep::Word(w)
        }
    }
}

} // verus!
