//! The buffer between guest memory and the TLS session.
//!
//! Plaintext cannot move between volatile guest memory and the session
//! directly, so each transfer is staged in a buffer that is kept from one
//! transfer to the next. The session and guest memory themselves are reached
//! through the functions that a transfer is given.

use std::io;

use vstd::prelude::*;

verus! {

/// The most bytes that one transfer moves, and the most that the buffer ever
/// holds. This keeps the reusable buffer from growing without bound.
pub const BUF_SIZE: usize = 64 * 1024;

/// The number of bytes that a transfer with a guest slice of `slice_len` bytes
/// stages.
pub open spec fn transfer_len(slice_len: nat) -> nat {
    if slice_len < BUF_SIZE {
        slice_len
    } else {
        BUF_SIZE as nat
    }
}

/// `bytes`, filled up with zeros to at least `len` bytes.
pub open spec fn staged(bytes: Seq<u8>, len: nat) -> Seq<u8> {
    if bytes.len() < len {
        bytes + Seq::new((len - bytes.len()) as nat, |i: int| 0u8)
    } else {
        bytes
    }
}

/// `bytes` after `data` was written over its front.
pub open spec fn overwritten(bytes: Seq<u8>, data: Seq<u8>) -> Seq<u8> {
    data + bytes.skip(data.len() as int)
}

/// The bytes that a transfer with a guest slice of `slice_len` bytes offers for
/// filling, with a buffer that holds `bytes`.
pub open spec fn window_of(bytes: Seq<u8>, slice_len: nat) -> Seq<u8> {
    staged(bytes, transfer_len(slice_len)).take(transfer_len(slice_len) as int)
}

/// The buffer of a transfer with a guest slice of `slice_len` bytes once its
/// window was filled with `window`, with a buffer that held `bytes`.
pub open spec fn filled_with(bytes: Seq<u8>, slice_len: nat, window: Seq<u8>) -> Seq<u8> {
    overwritten(staged(bytes, transfer_len(slice_len)), window)
}

/// What a transfer copies to a guest slice of `slice_len` bytes once the session
/// filled its window with `window` and reported `received` bytes, with a buffer
/// that held `bytes`.
pub open spec fn copied_out(
    bytes: Seq<u8>,
    slice_len: nat,
    window: Seq<u8>,
    received: nat,
) -> Seq<u8> {
    filled_with(bytes, slice_len, window).take(received as int)
}

/// The buffer after such a transfer. It is emptied unless no bytes were received,
/// be it that there were none or that the session failed.
pub open spec fn after_read(
    bytes: Seq<u8>,
    slice_len: nat,
    window: Seq<u8>,
    received: nat,
) -> Seq<u8> {
    if received > 0 {
        Seq::empty()
    } else {
        filled_with(bytes, slice_len, window)
    }
}

/// The buffer after a transfer from a guest slice of `slice_len` bytes that filled
/// its window with `window`, with a buffer that held `bytes`. It is emptied if the
/// window was `sent`.
pub open spec fn after_write(
    bytes: Seq<u8>,
    slice_len: nat,
    window: Seq<u8>,
    sent: bool,
) -> Seq<u8> {
    if sent {
        Seq::empty()
    } else {
        filled_with(bytes, slice_len, window)
    }
}

/// A reusable buffer for transfers between guest memory and a TLS session.
pub struct VolatileBuffer {
    bytes: Vec<u8>,
}

impl View for VolatileBuffer {
    type V = Seq<u8>;

    closed spec fn view(&self) -> Seq<u8> {
        self.bytes@
    }
}

impl VolatileBuffer {
    /// The buffer never holds more than [`BUF_SIZE`] bytes.
    pub open spec fn inv(&self) -> bool {
        self@.len() <= BUF_SIZE
    }

    /// An empty buffer.
    pub fn new() -> (buffer: Self)
        ensures
            buffer.inv(),
            buffer@ == Seq::<u8>::empty(),
    {
        VolatileBuffer { bytes: Vec::new() }
    }

    /// The number of bytes that the buffer holds.
    pub fn len(&self) -> (len: usize)
        ensures
            len == self@.len(),
    {
        self.bytes.len()
    }

    /// The number of bytes to stage for a guest slice of `slice_len` bytes. The
    /// buffer is filled up with zeros to hold at least as many.
    fn stage(&mut self, slice_len: usize) -> (len: usize)
        requires
            old(self).inv(),
        ensures
            final(self).inv(),
            len == transfer_len(slice_len as nat),
            final(self)@ == staged(old(self)@, transfer_len(slice_len as nat)),
    {
        let len: usize = if slice_len < BUF_SIZE {
            slice_len
        } else {
            BUF_SIZE
        };
        if self.bytes.len() < len {
            self.bytes.resize(len, 0);
        }
        len
    }

    /// The first `len` bytes of the buffer, to be filled.
    fn window(&mut self, len: usize) -> (window: &mut [u8])
        requires
            len <= old(self)@.len(),
        ensures
            window@ == old(self)@.take(len as int),
            final(self)@ == final(window)@ + old(self)@.skip(len as int),
    {
        let (window, _rest) = self.bytes.as_mut_slice().split_at_mut(len);
        window
    }

    /// The first `n` bytes of the buffer.
    fn filled(&self, n: usize) -> (filled: &[u8])
        requires
            n <= self@.len(),
        ensures
            filled@ == self@.take(n as int),
    {
        let (filled, _rest) = self.bytes.as_slice().split_at(n);
        filled
    }

    /// Moves plaintext from the session to a guest slice of `slice_len` bytes
    /// and returns how many bytes were moved.
    ///
    /// `read` reads from the session into the slice that it is given, and
    /// `copy_out` copies the slice that it is given to guest memory. With an
    /// empty guest slice neither is called, and `copy_out` is called only with
    /// bytes that `read` reported. It is required that `read` reports no more
    /// bytes than the buffer holds; a reader reports no more than it was given
    /// room for, which is less or equal.
    pub fn read_volatile<R, C>(&mut self, slice_len: usize, read: R, copy_out: C) -> (result:
        Result<usize, io::Error>) where
        R: FnOnce(&mut [u8]) -> Result<usize, io::Error>,
        C: FnOnce(&[u8]),

        requires
            old(self).inv(),
            forall|window: &mut [u8]|
                slice_len > 0 && window@ == window_of(old(self)@, slice_len as nat)
                    ==> #[trigger] read.requires((window,)),
            forall|window: &mut [u8], outcome: Result<usize, io::Error>|
                slice_len > 0 && window@ == window_of(old(self)@, slice_len as nat)
                    && #[trigger] read.ensures((window,), outcome) ==> final(window)@.len()
                    == window@.len() && (outcome matches Ok(n) ==> n <= staged(
                    old(self)@,
                    transfer_len(slice_len as nat),
                ).len()),
            forall|window: &mut [u8], n: usize, data: &[u8]|
                slice_len > 0 && window@ == window_of(old(self)@, slice_len as nat)
                    && #[trigger] read.ensures((window,), Ok(n)) && n > 0 && data@
                    == copied_out(old(self)@, slice_len as nat, final(window)@, n as nat)
                    ==> #[trigger] copy_out.requires((data,)),
        ensures
            final(self).inv(),
            slice_len == 0 ==> result == Ok::<usize, io::Error>(0) && final(self)@ == old(self)@,
            slice_len > 0 ==> exists|window: &mut [u8]| #[trigger]
                read.ensures((window,), result) && window@ == window_of(
                    old(self)@,
                    slice_len as nat,
                ) && match result {
                    Ok(n) => {
                        &&& n > 0 ==> exists|data: &[u8]| #[trigger]
                            copy_out.ensures((data,), ()) && data@ == copied_out(
                                old(self)@,
                                slice_len as nat,
                                final(window)@,
                                n as nat,
                            )
                        &&& final(self)@ == after_read(
                            old(self)@,
                            slice_len as nat,
                            final(window)@,
                            n as nat,
                        )
                    },
                    Err(_) => final(self)@ == after_read(
                        old(self)@,
                        slice_len as nat,
                        final(window)@,
                        0,
                    ),
                },
    {
        let len = self.stage(slice_len);
        if len == 0 {
            return Ok(0);
        }
        let outcome = read(self.window(len));
        match outcome {
            Ok(n) => {
                if n == 0 {
                    return Ok(0);
                }
                copy_out(self.filled(n));
                self.bytes.clear();
                Ok(n)
            },
            Err(error) => Err(error),
        }
    }

    /// Moves plaintext from a guest slice of `slice_len` bytes to the session
    /// and returns how many bytes the session took.
    ///
    /// `copy_in` copies guest memory to the slice that it is given and says how
    /// many bytes that were, and `write` writes the slice that it is given to
    /// the session. With an empty guest slice neither is called.
    pub fn write_volatile<C, W>(&mut self, slice_len: usize, copy_in: C, write: W) -> (result:
        Result<usize, io::Error>) where
        C: FnOnce(&mut [u8]) -> usize,
        W: FnOnce(&[u8]) -> Result<usize, io::Error>,

        requires
            old(self).inv(),
            forall|window: &mut [u8]|
                slice_len > 0 && window@ == window_of(old(self)@, slice_len as nat)
                    ==> #[trigger] copy_in.requires((window,)),
            forall|window: &mut [u8], copied: usize|
                slice_len > 0 && window@ == window_of(old(self)@, slice_len as nat)
                    && #[trigger] copy_in.ensures((window,), copied) ==> final(window)@.len()
                    == window@.len(),
            forall|window: &mut [u8], copied: usize, data: &[u8]|
                slice_len > 0 && window@ == window_of(old(self)@, slice_len as nat)
                    && #[trigger] copy_in.ensures((window,), copied) && copied > 0 && data@
                    == final(window)@ ==> #[trigger] write.requires((data,)),
        ensures
            final(self).inv(),
            slice_len == 0 ==> result == Ok::<usize, io::Error>(0) && final(self)@ == old(self)@,
            slice_len > 0 ==> exists|window: &mut [u8], copied: usize| #[trigger]
                copy_in.ensures((window,), copied) && window@ == window_of(
                    old(self)@,
                    slice_len as nat,
                ) && if copied == 0 {
                    &&& result == Ok::<usize, io::Error>(0)
                    &&& final(self)@ == after_write(
                        old(self)@,
                        slice_len as nat,
                        final(window)@,
                        false,
                    )
                } else {
                    exists|data: &[u8]| #[trigger]
                        write.ensures((data,), result) && data@ == final(window)@ && final(self)@
                            == after_write(
                            old(self)@,
                            slice_len as nat,
                            final(window)@,
                            result is Ok,
                        )
                },
    {
        let len = self.stage(slice_len);
        if len == 0 {
            return Ok(0);
        }
        let copied = copy_in(self.window(len));
        if copied == 0 {
            return Ok(0);
        }
        proof {
            lemma_front();
        }
        let outcome = write(self.filled(len));
        match outcome {
            Ok(n) => {
                self.bytes.clear();
                Ok(n)
            },
            Err(error) => Err(error),
        }
    }
}

/// What is put in front of other bytes is what stands at the front.
proof fn lemma_front()
    ensures
        forall|front: Seq<u8>, back: Seq<u8>, n: int|
            0 <= n <= front.len() ==> #[trigger] (front + back).take(n) == front.take(n),
        forall|front: Seq<u8>| #[trigger] front.take(front.len() as int) == front,
{
    assert forall|front: Seq<u8>, back: Seq<u8>, n: int| 0 <= n <= front.len() implies #[trigger] (
    front + back).take(n) == front.take(n) by {
        assert((front + back).take(n) =~= front.take(n));
    }
    assert forall|front: Seq<u8>| #[trigger] front.take(front.len() as int) == front by {
        assert(front.take(front.len() as int) =~= front);
    }
}

/// Once a transfer has emptied the buffer, the next one offers nothing but zeros
/// for filling: no plaintext is left over from one transfer to the next.
pub proof fn law_window_is_clean(slice_len: nat)
    ensures
        window_of(Seq::<u8>::empty(), slice_len) == Seq::new(
            transfer_len(slice_len),
            |i: int| 0u8,
        ),
{
}

/// What a transfer copies to guest memory is what the session put into the window
/// that it was offered, and nothing else that the buffer holds, as long as the
/// session reports no more bytes than it was offered room for. It is then at most
/// as long as the guest slice.
pub proof fn law_only_received_bytes_are_copied(
    bytes: Seq<u8>,
    slice_len: nat,
    window: Seq<u8>,
    received: nat,
)
    requires
        window.len() == transfer_len(slice_len),
        received <= window.len(),
    ensures
        copied_out(bytes, slice_len, window, received) == window.take(received as int),
        received <= slice_len,
{
    lemma_front();
}

/// For a guest slice that fits into the buffer, a transfer does what a plain read
/// into a slice with the same bytes does, whatever the buffer held: the session is
/// offered as much room, and whatever bytes it puts there end up at the front of
/// the slice, with the rest of the slice as it was.
pub proof fn law_a_transfer_agrees_with_a_plain_read(
    bytes: Seq<u8>,
    slice: Seq<u8>,
    received: Seq<u8>,
)
    requires
        0 < slice.len() <= BUF_SIZE,
        received.len() <= slice.len(),
    ensures
        ({
            let offered = window_of(bytes, slice.len());
            let window = overwritten(offered, received);
            &&& offered.len() == slice.len()
            &&& overwritten(slice, copied_out(bytes, slice.len(), window, received.len()))
                == overwritten(slice, received)
        }),
{
    let window = overwritten(window_of(bytes, slice.len()), received);
    law_only_received_bytes_are_copied(bytes, slice.len(), window, received.len());
    assert(window.take(received.len() as int) =~= received);
}

/// Whatever the buffer held, filling the window of a transfer keeps it within
/// [`BUF_SIZE`] and the filled bytes stand at its front.
pub proof fn law_filling_keeps_the_bound(bytes: Seq<u8>, slice_len: nat, window: Seq<u8>)
    requires
        bytes.len() <= BUF_SIZE,
        window.len() == transfer_len(slice_len),
    ensures
        filled_with(bytes, slice_len, window).len() <= BUF_SIZE,
        filled_with(bytes, slice_len, window).take(window.len() as int) == window,
{
}

/// One use of a stream.
pub enum Transfer {
    /// A guest slice of `slice_len` bytes was to be filled. The session filled the
    /// window with `window` and reported `received` bytes, or none if it failed.
    ReadVolatile { slice_len: nat, window: Seq<u8>, received: nat },
    /// The guest slice `slice` was to be sent. The window was filled with `window`
    /// and handed to the session, which took that many bytes of it, or `None` if it
    /// was not handed over or if the session failed.
    WriteVolatile { slice: Seq<u8>, window: Seq<u8>, taken: Option<nat> },
    /// The session handed over `data` directly.
    Read { data: Seq<u8> },
    /// The session was handed `slice` directly and took that many bytes of it, or
    /// `None` if it failed.
    Write { slice: Seq<u8>, taken: Option<nat> },
}

impl Transfer {
    /// The window was kept at its length, and no more bytes were reported than it
    /// has room for. What is handed to the session from guest memory was copied
    /// from the front of the guest slice.
    pub open spec fn is_possible(self) -> bool {
        match self {
            Transfer::ReadVolatile { slice_len, window, received } => window.len() == transfer_len(
                slice_len,
            ) && received <= window.len(),
            Transfer::WriteVolatile { slice, window, taken } => {
                &&& window.len() == transfer_len(slice.len())
                &&& taken matches Some(n) ==> n <= window.len() && window == slice.take(
                    window.len() as int,
                )
            },
            Transfer::Read { .. } => true,
            Transfer::Write { slice, taken } => taken matches Some(n) ==> n <= slice.len(),
        }
    }

    /// The bytes that the session handed over.
    pub open spec fn received(self) -> Seq<u8> {
        match self {
            Transfer::ReadVolatile { window, received, .. } => window.take(received as int),
            Transfer::Read { data } => data,
            _ => Seq::empty(),
        }
    }

    /// The bytes that the user of the stream got, with a buffer that held `bytes`.
    pub open spec fn delivered(self, bytes: Seq<u8>) -> Seq<u8> {
        match self {
            Transfer::ReadVolatile { slice_len, window, received } if slice_len > 0 => copied_out(
                bytes,
                slice_len,
                window,
                received,
            ),
            Transfer::Read { data } => data,
            _ => Seq::empty(),
        }
    }

    /// The buffer afterwards, if it held `bytes`.
    pub open spec fn next_buffer(self, bytes: Seq<u8>) -> Seq<u8> {
        match self {
            Transfer::ReadVolatile { slice_len, window, received } if slice_len > 0 => after_read(
                bytes,
                slice_len,
                window,
                received,
            ),
            Transfer::WriteVolatile { slice, window, taken } if slice.len() > 0 => after_write(
                bytes,
                slice.len(),
                window,
                taken is Some,
            ),
            _ => bytes,
        }
    }

    /// The bytes that the session took.
    pub open spec fn sent(self) -> Seq<u8> {
        match self {
            Transfer::WriteVolatile { window, taken: Some(n), .. } => window.take(n as int),
            Transfer::Write { slice, taken: Some(n) } => slice.take(n as int),
            _ => Seq::empty(),
        }
    }

    /// The bytes that the user of the stream wrote, as far as the stream reports
    /// them as written.
    pub open spec fn written(self) -> Seq<u8> {
        match self {
            Transfer::WriteVolatile { slice, taken: Some(n), .. } => slice.take(n as int),
            Transfer::Write { slice, taken: Some(n) } => slice.take(n as int),
            _ => Seq::empty(),
        }
    }
}

/// The buffer after these transfers, if it held `bytes` before.
pub open spec fn buffer_after(bytes: Seq<u8>, transfers: Seq<Transfer>) -> Seq<u8>
    decreases transfers.len(),
{
    if transfers.len() == 0 {
        bytes
    } else {
        transfers.last().next_buffer(buffer_after(bytes, transfers.drop_last()))
    }
}

/// The bytes that the user of a stream got from these transfers, in order, if the
/// buffer held `bytes` before.
pub open spec fn delivered_by(bytes: Seq<u8>, transfers: Seq<Transfer>) -> Seq<u8>
    decreases transfers.len(),
{
    if transfers.len() == 0 {
        Seq::empty()
    } else {
        let before = transfers.drop_last();
        delivered_by(bytes, before) + transfers.last().delivered(buffer_after(bytes, before))
    }
}

/// The bytes that the session handed over in these transfers, in order.
pub open spec fn received_by(transfers: Seq<Transfer>) -> Seq<u8>
    decreases transfers.len(),
{
    if transfers.len() == 0 {
        Seq::empty()
    } else {
        received_by(transfers.drop_last()) + transfers.last().received()
    }
}

/// The bytes that the session took in these transfers, in order.
pub open spec fn sent_by(transfers: Seq<Transfer>) -> Seq<u8>
    decreases transfers.len(),
{
    if transfers.len() == 0 {
        Seq::empty()
    } else {
        sent_by(transfers.drop_last()) + transfers.last().sent()
    }
}

/// The bytes that the user of a stream wrote in these transfers, in order, as far
/// as the stream reports them as written.
pub open spec fn written_by(transfers: Seq<Transfer>) -> Seq<u8>
    decreases transfers.len(),
{
    if transfers.len() == 0 {
        Seq::empty()
    } else {
        written_by(transfers.drop_last()) + transfers.last().written()
    }
}

/// Whatever transfers there are, completed or not, and whatever the buffer held,
/// the user of a stream gets what the session hands over: no byte is lost, repeated
/// or left over from an earlier transfer. So if the session hands over the
/// plaintext of the peer in order, the user gets a prefix of it.
pub proof fn law_no_byte_is_lost_or_repeated(
    bytes: Seq<u8>,
    transfers: Seq<Transfer>,
    plaintext: Seq<u8>,
)
    requires
        forall|i: int| 0 <= i < transfers.len() ==> (#[trigger] transfers[i]).is_possible(),
    ensures
        delivered_by(bytes, transfers) == received_by(transfers),
        received_by(transfers).is_prefix_of(plaintext) ==> delivered_by(
            bytes,
            transfers,
        ).is_prefix_of(plaintext),
    decreases transfers.len(),
{
    if transfers.len() > 0 {
        let before = transfers.drop_last();
        let last = transfers.last();
        assert(forall|i: int| 0 <= i < before.len() ==> before[i] == transfers[i]);
        law_no_byte_is_lost_or_repeated(bytes, before, plaintext);
        assert(transfers[transfers.len() - 1].is_possible());
        if let Transfer::ReadVolatile { slice_len, window, received } = last {
            law_only_received_bytes_are_copied(
                buffer_after(bytes, before),
                slice_len,
                window,
                received,
            );
            if slice_len == 0 {
                assert(last.received() =~= Seq::empty());
            }
        }
    }
}

/// Whatever transfers there are, completed or not, the session takes what the user
/// of a stream is told was written, and nothing else: of each slice the front, as
/// long as reported, one after the other.
pub proof fn law_what_is_reported_as_written_is_sent(transfers: Seq<Transfer>)
    requires
        forall|i: int| 0 <= i < transfers.len() ==> (#[trigger] transfers[i]).is_possible(),
    ensures
        sent_by(transfers) == written_by(transfers),
    decreases transfers.len(),
{
    if transfers.len() > 0 {
        let before = transfers.drop_last();
        let last = transfers.last();
        assert(forall|i: int| 0 <= i < before.len() ==> before[i] == transfers[i]);
        law_what_is_reported_as_written_is_sent(before);
        assert(transfers[transfers.len() - 1].is_possible());
        if let Transfer::WriteVolatile { slice, window, taken: Some(n) } = last {
            assert(window.take(n as int) =~= slice.take(n as int));
        }
    }
}

/// What one end of a channel reads is what the other end wrote, whatever the
/// transfers on both ends and whatever their buffers held, if the channel keeps the
/// order: what the session of the one end hands over is a prefix of what the session
/// of the other took. If all of it was handed over, all that was written is read.
/// Either end may be the client.
pub proof fn law_what_is_read_is_what_was_written(
    writer: Seq<Transfer>,
    bytes: Seq<u8>,
    reader: Seq<Transfer>,
)
    requires
        forall|i: int| 0 <= i < writer.len() ==> (#[trigger] writer[i]).is_possible(),
        forall|i: int| 0 <= i < reader.len() ==> (#[trigger] reader[i]).is_possible(),
        received_by(reader).is_prefix_of(sent_by(writer)),
    ensures
        delivered_by(bytes, reader).is_prefix_of(written_by(writer)),
        received_by(reader).len() == sent_by(writer).len() ==> delivered_by(bytes, reader)
            == written_by(writer),
{
    law_what_is_reported_as_written_is_sent(writer);
    law_no_byte_is_lost_or_repeated(bytes, reader, sent_by(writer));
}

/// The buffer stays within [`BUF_SIZE`] throughout, whatever transfers there are,
/// completed or not.
pub proof fn law_the_bound_holds_throughout(bytes: Seq<u8>, transfers: Seq<Transfer>)
    requires
        bytes.len() <= BUF_SIZE,
        forall|i: int| 0 <= i < transfers.len() ==> (#[trigger] transfers[i]).is_possible(),
    ensures
        buffer_after(bytes, transfers).len() <= BUF_SIZE,
    decreases transfers.len(),
{
    if transfers.len() > 0 {
        let before = transfers.drop_last();
        assert(forall|i: int| 0 <= i < before.len() ==> before[i] == transfers[i]);
        law_the_bound_holds_throughout(bytes, before);
        assert(transfers[transfers.len() - 1].is_possible());
    }
}

/// A transfer is as long as the guest slice and the buffer allow, whichever is less:
/// as long as the slice up to 64 KiB, and 64 KiB from there on. So only an empty slice
/// is not filled at all.
pub proof fn law_a_transfer_is_as_long_as_it_can_be(slice_len: nat)
    ensures
        transfer_len(slice_len) <= slice_len,
        transfer_len(slice_len) <= 65536,
        transfer_len(slice_len) == slice_len || transfer_len(slice_len) == 65536,
        transfer_len(slice_len) == 0 <==> slice_len == 0,
{
}

/// The window of a transfer is as long as the guest slice and the buffer allow. It
/// shows what the buffer held, and zeros where it held nothing.
pub proof fn law_a_window_shows_the_buffer(bytes: Seq<u8>, slice_len: nat)
    ensures
        window_of(bytes, slice_len).len() == if slice_len <= 65536 {
            slice_len
        } else {
            65536
        },
        forall|i: int|
            0 <= i < window_of(bytes, slice_len).len() ==> (#[trigger] window_of(
                bytes,
                slice_len,
            )[i]) == if i < bytes.len() {
                bytes[i]
            } else {
                0
            },
{
}

/// Filling the window of a transfer changes the front of the buffer and leaves the rest
/// as it was. The buffer grows only if it was shorter than the window.
pub proof fn law_filling_changes_the_front_alone(bytes: Seq<u8>, slice_len: nat, window: Seq<u8>)
    requires
        window.len() == transfer_len(slice_len),
    ensures
        filled_with(bytes, slice_len, window).len() == if bytes.len() < window.len() {
            window.len()
        } else {
            bytes.len()
        },
        forall|i: int|
            0 <= i < filled_with(bytes, slice_len, window).len() ==> (#[trigger] filled_with(
                bytes,
                slice_len,
                window,
            )[i]) == if i < window.len() {
                window[i]
            } else {
                bytes[i]
            },
{
}

/// The buffer is emptied by a transfer that moved bytes. One that moved none leaves in
/// it what was put into its window, in front of what it held before.
pub proof fn law_only_moved_bytes_leave_the_buffer(
    bytes: Seq<u8>,
    slice_len: nat,
    window: Seq<u8>,
    received: nat,
)
    requires
        window.len() == transfer_len(slice_len),
    ensures
        received > 0 ==> after_read(bytes, slice_len, window, received).len() == 0,
        after_write(bytes, slice_len, window, true).len() == 0,
        bytes.len() >= window.len() ==> after_read(bytes, slice_len, window, 0) == window
            + bytes.skip(window.len() as int),
        bytes.len() <= window.len() ==> after_read(bytes, slice_len, window, 0) == window,
        after_write(bytes, slice_len, window, false) == after_read(bytes, slice_len, window, 0),
{
}

/// A transfer from the session fills guest memory with what the session put into the
/// window, all of it and nothing else, and returns what the session returned. The
/// session is offered as much room as the guest slice and the buffer have, at least one
/// byte unless the slice is empty. Afterwards the buffer is empty if bytes moved, and
/// otherwise holds what the session put there, in front of what it held.
pub proof fn law_a_read_moves_what_the_session_received<R, C>(
    buffer: &mut VolatileBuffer,
    slice_len: usize,
    read: R,
    copy_out: C,
    result: Result<usize, io::Error>,
) where R: FnOnce(&mut [u8]) -> Result<usize, io::Error>, C: FnOnce(&[u8])
    requires
        call_ensures(
            VolatileBuffer::read_volatile::<R, C>,
            (buffer, slice_len, read, copy_out),
            result,
        ),
        forall|window: &mut [u8], outcome: Result<usize, io::Error>| #[trigger]
            read.ensures((window,), outcome) ==> final(window)@.len() == window@.len() && (
            outcome matches Ok(n) ==> n <= window@.len()),
    ensures
        final(buffer)@.len() <= 65536,
        slice_len == 0 ==> result == Ok::<usize, io::Error>(0) && final(buffer)@ == old(buffer)@,
        slice_len > 0 ==> exists|window: &mut [u8]| #[trigger]
            read.ensures((window,), result) && {
                &&& window@.len() == if slice_len <= 65536 {
                    slice_len
                } else {
                    65536
                }
                &&& forall|i: int|
                    0 <= i < window@.len() ==> #[trigger] window@[i] == if i < old(
                        buffer,
                    )@.len() {
                        old(buffer)@[i]
                    } else {
                        0
                    }
                &&& result matches Ok(n) ==> n <= slice_len && (n > 0 ==> final(buffer)@.len() == 0
                    && exists|data: &[u8]| #[trigger]
                    copy_out.ensures((data,), ()) && data@ == final(window)@.take(n as int))
                &&& result is Err || result->Ok_0 == 0 ==> forall|i: int|
                    0 <= i < final(buffer)@.len() ==> #[trigger] final(buffer)@[i] == if i
                        < window@.len() {
                        final(window)@[i]
                    } else {
                        old(buffer)@[i]
                    }
            },
{
    lemma_front();
}

/// A transfer to the session hands over what was copied from guest memory into the
/// window, the whole window and nothing else, and returns what the session returned. As
/// much is copied as the guest slice and the buffer have room for, at least one byte
/// unless the slice is empty. If nothing was copied, nothing is handed over. Afterwards
/// the buffer is empty, unless nothing was handed over or the session failed: then it
/// holds what was copied, in front of what it held.
pub proof fn law_a_write_moves_what_the_guest_wrote<C, W>(
    buffer: &mut VolatileBuffer,
    slice_len: usize,
    copy_in: C,
    write: W,
    result: Result<usize, io::Error>,
) where C: FnOnce(&mut [u8]) -> usize, W: FnOnce(&[u8]) -> Result<usize, io::Error>
    requires
        call_ensures(
            VolatileBuffer::write_volatile::<C, W>,
            (buffer, slice_len, copy_in, write),
            result,
        ),
        forall|window: &mut [u8], copied: usize| #[trigger]
            copy_in.ensures((window,), copied) ==> final(window)@.len() == window@.len(),
    ensures
        final(buffer)@.len() <= 65536,
        slice_len == 0 ==> result == Ok::<usize, io::Error>(0) && final(buffer)@ == old(buffer)@,
        slice_len > 0 ==> exists|window: &mut [u8], copied: usize| #[trigger]
            copy_in.ensures((window,), copied) && {
                &&& window@.len() == if slice_len <= 65536 {
                    slice_len
                } else {
                    65536
                }
                &&& copied == 0 ==> result == Ok::<usize, io::Error>(0)
                &&& copied > 0 ==> exists|data: &[u8]| #[trigger]
                    write.ensures((data,), result) && data@ == final(window)@
                &&& copied > 0 && result is Ok ==> final(buffer)@.len() == 0
                &&& copied == 0 || result is Err ==> forall|i: int|
                    0 <= i < final(buffer)@.len() ==> #[trigger] final(buffer)@[i] == if i
                        < window@.len() {
                        final(window)@[i]
                    } else {
                        old(buffer)@[i]
                    }
            },
{
}

} // verus!
