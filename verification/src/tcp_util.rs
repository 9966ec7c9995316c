use vstd::prelude::*;
use vstd::seq_lib::*;
use vstd::slice::slice_subrange;
use bytes::BytesMut;
use crate::backend::FrontSink;
use crate::buffer::bytes_extend;
use crate::buffer::bytes_view;
use crate::net::NetStream;
use crate::net::ReadOutcome;
use crate::net::WriteOutcome;
use crate::net::stream_read_once;
use crate::net::stream_write_once;

verus! {

/// How many read chunks one readiness notification may drain before the
/// helper yields back to the event loop. The bound only makes each pass
/// provably finite; it lies far beyond any backlog a socket buffer can
/// hold, so in practice every drain ends at would-block.
pub const READ_BURST: usize = 16777216;

/// Partial-write-aware send helper: writes leading bytes of `data` to
/// the socket until all are out or the socket stops accepting bytes,
/// holding any unwritten remainder in `send_buffer` — also on a hard
/// write failure, which is reported by returning false. Never reorders
/// or drops a byte: socket plus buffer always account for all of
/// `data`, in order.
pub(crate) fn tcp_send(conn: &mut NetStream, send_buffer: &mut BytesMut, data: &[u8]) -> (ok: bool)
    requires
        bytes_view(*old(send_buffer)) == Seq::<u8>::empty(),
    ensures
        old(conn).written().is_prefix_of(final(conn).written()),
        final(conn).written() + bytes_view(*final(send_buffer)) == old(conn).written() + data@,
{
    let mut offset: usize = 0;
    while offset < data.len()
        invariant
            offset <= data@.len(),
            conn.written() == old(conn).written() + data@.subrange(0, offset as int),
            bytes_view(*send_buffer) == Seq::<u8>::empty(),
        decreases data@.len() - offset,
    {
        let remaining = slice_subrange(data, offset, data.len());
        match stream_write_once(conn, remaining) {
            WriteOutcome::Written(n) => {
                proof {
                    assert(data@.subrange(0, offset as int) + data@.subrange(
                        offset as int,
                        offset + n,
                    ) =~= data@.subrange(0, offset + n));
                    assert(remaining@.subrange(0, n as int) =~= data@.subrange(
                        offset as int,
                        offset + n,
                    ));
                }
                if n == 0 {
                    // The socket accepted nothing: treat it as backpressure.
                    bytes_extend(send_buffer, remaining);
                    proof {
                        assert(data@.subrange(0, offset as int) + data@.subrange(
                            offset as int,
                            data@.len() as int,
                        ) =~= data@);
                    }
                    return true;
                }
                offset = offset + n;
            },
            WriteOutcome::WouldBlock => {
                bytes_extend(send_buffer, remaining);
                proof {
                    assert(data@.subrange(0, offset as int) + data@.subrange(
                        offset as int,
                        data@.len() as int,
                    ) =~= data@);
                }
                return true;
            },
            WriteOutcome::Failed => {
                bytes_extend(send_buffer, remaining);
                proof {
                    assert(data@.subrange(0, offset as int) + data@.subrange(
                        offset as int,
                        data@.len() as int,
                    ) =~= data@);
                }
                return false;
            },
        }
    }
    proof {
        assert(data@.subrange(0, data@.len() as int) =~= data@);
    }
    true
}

/// Non-blocking read helper: drains the socket into the scratch buffer,
/// forwarding each chunk to the front connection's send path, until the
/// socket would block or the per-notification burst bound is reached.
/// Returns false when the peer closed or a read failed. Writes nothing
/// to the socket.
pub(crate) fn tcp_read<F: FrontSink>(conn: &mut NetStream, buffer: &mut Vec<u8>, front: &mut F) -> (
    ok: bool)
    requires
        old(buffer)@.len() > 0,
    ensures
        final(conn).written() == old(conn).written(),
        final(buffer)@.len() == old(buffer)@.len(),
{
    let mut burst: usize = READ_BURST;
    while burst > 0
        invariant
            buffer@.len() == old(buffer)@.len(),
            buffer@.len() > 0,
            conn.written() == old(conn).written(),
        decreases burst,
    {
        burst = burst - 1;
        match stream_read_once(conn, buffer) {
            ReadOutcome::Data(n) => {
                let chunk = slice_subrange(buffer.as_slice(), 0, n);
                front.enqueue(chunk);
            },
            ReadOutcome::WouldBlock => {
                return true;
            },
            ReadOutcome::Closed => {
                return false;
            },
            ReadOutcome::Failed => {
                return false;
            },
        }
    }
    true
}

} // verus!
