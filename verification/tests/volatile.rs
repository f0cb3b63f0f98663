use std::io::{Error, ErrorKind};

use migration_tls::volatile::{VolatileBuffer, BUF_SIZE};

fn fill(window: &mut [u8], byte: u8) {
    for slot in window.iter_mut() {
        *slot = byte;
    }
}

#[test]
fn the_buffer_is_bounded_by_64_kib() {
    assert_eq!(BUF_SIZE, 65536);
}

#[test]
fn an_empty_slice_moves_nothing_and_calls_nobody() {
    let mut buffer = VolatileBuffer::new();
    let read = buffer.read_volatile(0, |_| panic!("read"), |_| panic!("copied"));
    assert_eq!(read.unwrap(), 0);
    let written = buffer.write_volatile(0, |_| panic!("copied"), |_| panic!("written"));
    assert_eq!(written.unwrap(), 0);
    assert_eq!(buffer.len(), 0);
}

#[test]
fn a_read_copies_exactly_what_was_received() {
    let mut buffer = VolatileBuffer::new();
    let mut guest = Vec::new();
    let read = buffer.read_volatile(
        10,
        |window| {
            assert_eq!(window, [0u8; 10]);
            fill(window, 0xee);
            window[..3].copy_from_slice(b"abc");
            Ok(3)
        },
        |data| guest.extend_from_slice(data),
    );
    assert_eq!(read.unwrap(), 3);
    assert_eq!(guest, b"abc");
    assert_eq!(buffer.len(), 0);
}

#[test]
fn a_read_at_the_end_of_the_stream_copies_nothing() {
    let mut buffer = VolatileBuffer::new();
    let read = buffer.read_volatile(4, |_| Ok(0), |_| panic!("copied"));
    assert_eq!(read.unwrap(), 0);
    assert_eq!(buffer.len(), 4);
}

#[test]
fn a_failed_read_is_reported_and_copies_nothing() {
    let mut buffer = VolatileBuffer::new();
    let read = buffer.read_volatile(
        4,
        |_| Err(Error::from(ErrorKind::WouldBlock)),
        |_| panic!("copied"),
    );
    assert_eq!(read.unwrap_err().kind(), ErrorKind::WouldBlock);
    assert_eq!(buffer.len(), 4);
}

#[test]
fn a_large_slice_is_moved_in_parts() {
    let mut buffer = VolatileBuffer::new();
    let mut guest = Vec::new();
    let read = buffer.read_volatile(
        BUF_SIZE + 1,
        |window| {
            assert_eq!(window.len(), BUF_SIZE);
            fill(window, 7);
            Ok(window.len())
        },
        |data| guest.extend_from_slice(data),
    );
    assert_eq!(read.unwrap(), BUF_SIZE);
    assert_eq!(guest, vec![7u8; BUF_SIZE]);

    let mut sent = Vec::new();
    let written = buffer.write_volatile(
        usize::MAX,
        |window| {
            fill(window, 8);
            window.len()
        },
        |data| {
            sent.extend_from_slice(data);
            Ok(1000)
        },
    );
    assert_eq!(written.unwrap(), 1000);
    assert_eq!(sent, vec![8u8; BUF_SIZE]);
    assert_eq!(buffer.len(), 0);
}

#[test]
fn a_write_sends_what_was_copied() {
    let mut buffer = VolatileBuffer::new();
    let mut sent = Vec::new();
    let written = buffer.write_volatile(
        4,
        |window| {
            window.copy_from_slice(b"ping");
            4
        },
        |data| {
            sent.extend_from_slice(data);
            Ok(2)
        },
    );
    assert_eq!(written.unwrap(), 2);
    assert_eq!(sent, b"ping");
    assert_eq!(buffer.len(), 0);
}

#[test]
fn a_write_of_nothing_is_not_sent() {
    let mut buffer = VolatileBuffer::new();
    let written = buffer.write_volatile(4, |_| 0, |_| panic!("written"));
    assert_eq!(written.unwrap(), 0);
    assert_eq!(buffer.len(), 4);
}

#[test]
fn a_failed_write_is_reported() {
    let mut buffer = VolatileBuffer::new();
    let written = buffer.write_volatile(
        4,
        |window| window.len(),
        |_| Err(Error::from(ErrorKind::BrokenPipe)),
    );
    assert_eq!(written.unwrap_err().kind(), ErrorKind::BrokenPipe);
    assert_eq!(buffer.len(), 4);
}

#[test]
fn no_plaintext_is_left_over_after_a_completed_transfer() {
    let mut buffer = VolatileBuffer::new();
    let read = buffer.read_volatile(
        8,
        |window| {
            fill(window, 0x55);
            Ok(8)
        },
        |_| (),
    );
    assert_eq!(read.unwrap(), 8);
    let read = buffer.read_volatile(
        16,
        |window| {
            assert_eq!(window, [0u8; 16]);
            Ok(0)
        },
        |_| panic!("copied"),
    );
    assert_eq!(read.unwrap(), 0);
}

#[test]
fn a_buffer_that_was_not_emptied_keeps_its_bytes() {
    let mut buffer = VolatileBuffer::new();
    let read = buffer.read_volatile(
        2,
        |window| {
            fill(window, 9);
            Ok(0)
        },
        |_| panic!("copied"),
    );
    assert_eq!(read.unwrap(), 0);
    let read = buffer.read_volatile(
        4,
        |window| {
            assert_eq!(window, [9, 9, 0, 0]);
            Ok(4)
        },
        |data| assert_eq!(data, [9, 9, 0, 0]),
    );
    assert_eq!(read.unwrap(), 4);
}

/// A session that hands over `plaintext`, and that fails where it is told to.
fn receive(
    buffer: &mut VolatileBuffer,
    plaintext: &mut &[u8],
    slice: &mut [u8],
    fails: bool,
) -> Result<usize, Error> {
    let len = slice.len();
    buffer.read_volatile(
        len,
        |window| {
            if fails {
                fill(window, 0xee);
                return Err(Error::from(ErrorKind::WouldBlock));
            }
            let n = window.len().min(plaintext.len()).min(3);
            window[..n].copy_from_slice(&plaintext[..n]);
            *plaintext = &plaintext[n..];
            Ok(n)
        },
        |data| slice[..data.len()].copy_from_slice(data),
    )
}

#[test]
fn no_byte_is_lost_or_repeated_over_many_transfers() {
    let sent: Vec<u8> = (1..=20).collect();
    let mut plaintext = sent.as_slice();
    let mut buffer = VolatileBuffer::new();
    let mut delivered = Vec::new();
    for (len, fails) in [(9, true), (2, false), (7, false), (0, false), (5, true), (1, false)] {
        let mut slice = vec![0u8; len];
        if let Ok(n) = receive(&mut buffer, &mut plaintext, &mut slice, fails) {
            delivered.extend_from_slice(&slice[..n]);
        }
        let refused = buffer.write_volatile(
            4,
            |window| {
                fill(window, 0xdd);
                window.len()
            },
            |_| Err(Error::from(ErrorKind::WouldBlock)),
        );
        assert!(refused.is_err());
        assert!(buffer.len() <= BUF_SIZE);
    }
    assert_eq!(delivered, [1, 2, 3, 4, 5, 6]);
    assert_eq!(plaintext, &sent[6..]);
}

#[test]
fn a_transfer_agrees_with_a_plain_read() {
    let sent = [1u8, 2];
    let mut plaintext = sent.as_slice();
    let mut buffer = VolatileBuffer::new();
    let mut slice = [7u8; 5];
    let n = receive(&mut buffer, &mut plaintext, &mut slice, false).unwrap();
    let mut plain = [7u8; 5];
    let mut session = sent.as_slice();
    assert_eq!(std::io::Read::read(&mut session, &mut plain).unwrap(), n);
    assert_eq!(slice, plain);
}
