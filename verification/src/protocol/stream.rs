use vstd::prelude::*;
use vstd::bytes::{spec_u32_from_le_bytes, spec_u32_to_le_bytes, u32_from_le_bytes, u32_to_le_bytes, lemma_auto_spec_u32_to_from_le_bytes};
use vstd::slice::{slice_subrange, slice_to_vec};

verus! {

/// Number of bytes in the length prefix that precedes every packet on a sequenced stream.
pub const HEADER_LEN: usize = 4;

/// Why a packet cannot be put on a sequenced stream.
#[derive(Debug, PartialEq, Eq, Structural)]
pub enum StreamError {
    /// The packet is longer than a `u32` length prefix can describe.
    PacketTooLarge,
}

/// The length prefix of a packet of `len` bytes: `len` as a little-endian `u32`.
pub open spec fn spec_header(len: nat) -> Seq<u8> {
    spec_u32_to_le_bytes(len as u32)
}

/// Whether a packet of `len` bytes can be framed.
pub open spec fn fits_in_header(len: nat) -> bool {
    len <= u32::MAX
}

/// The bytes that a sequenced stream writes for one packet: its length prefix, then the packet.
pub open spec fn spec_frame(packet: Seq<u8>) -> Seq<u8> {
    spec_header(packet.len()) + packet
}

/// The bytes that a sequenced stream writes for a series of packets, one frame after another.
pub open spec fn spec_frames(packets: Seq<Seq<u8>>) -> Seq<u8>
    decreases packets.len(),
{
    if packets.len() == 0 {
        Seq::empty()
    } else {
        spec_frame(packets[0]) + spec_frames(packets.drop_first())
    }
}

/// The payload length that a 4-byte little-endian prefix announces.
pub open spec fn spec_payload_length(header: Seq<u8>) -> nat {
    spec_u32_from_le_bytes(header) as nat
}

/// The first frame of `bytes`, if it is complete: its payload and the number of bytes it takes.
pub open spec fn spec_split_frame(bytes: Seq<u8>) -> Option<(Seq<u8>, nat)> {
    if bytes.len() < 4 {
        None
    } else {
        let n = spec_payload_length(bytes.subrange(0, 4));
        if bytes.len() < 4 + n {
            None
        } else {
            Some((bytes.subrange(4, 4 + n as int), (4 + n) as nat))
        }
    }
}

/// The length prefix for a packet of `len` bytes, as `SequencedWrite::send` writes it.
pub fn frame_header(len: usize) -> (res: Result<Vec<u8>, StreamError>)
    ensures
        match res {
            Ok(header) => fits_in_header(len as nat) && header@ == spec_header(len as nat)
                && header@.len() == 4,
            Err(e) => !fits_in_header(len as nat) && e == StreamError::PacketTooLarge,
        },
{
    if len > 0xffff_ffffusize {
        Err(StreamError::PacketTooLarge)
    } else {
        let n: u32 = len as u32;
        Ok(u32_to_le_bytes(n))
    }
}

/// The payload length announced by a length prefix, as `SequencedRead::recv` reads it.
pub fn payload_length(header: &[u8]) -> (n: usize)
    requires
        header@.len() == HEADER_LEN,
    ensures
        n as nat == spec_payload_length(header@),
{
    let n: u32 = u32_from_le_bytes(header);
    n as usize
}

/// The byte contents of a list of packets.
pub open spec fn packet_views(packets: Seq<Vec<u8>>) -> Seq<Seq<u8>> {
    packets.map_values(|p: Vec<u8>| p@)
}

/// All complete frames at the start of `bytes`, in order.
pub open spec fn spec_split_all(bytes: Seq<u8>) -> Seq<Seq<u8>>
    decreases bytes.len(),
{
    match spec_split_frame(bytes) {
        None => Seq::empty(),
        Some((payload, used)) => if 0 < used <= bytes.len() {
            seq![payload] + spec_split_all(bytes.subrange(used as int, bytes.len() as int))
        } else {
            Seq::empty()
        },
    }
}

/// How many bytes the complete frames at the start of `bytes` take.
pub open spec fn spec_consumed(bytes: Seq<u8>) -> nat
    decreases bytes.len(),
{
    match spec_split_frame(bytes) {
        None => 0,
        Some((payload, used)) => if 0 < used <= bytes.len() {
            used + spec_consumed(bytes.subrange(used as int, bytes.len() as int))
        } else {
            0
        },
    }
}

/// The frame of one packet, length prefix first, as `SequencedWrite::send` puts it on the wire.
pub fn frame_packet(packet: &[u8]) -> (res: Result<Vec<u8>, StreamError>)
    ensures
        match res {
            Ok(bytes) => fits_in_header(packet@.len()) && bytes@ == spec_frame(packet@),
            Err(e) => !fits_in_header(packet@.len()) && e == StreamError::PacketTooLarge,
        },
{
    match frame_header(packet.len()) {
        Err(e) => Err(e),
        Ok(header) => {
            let mut bytes = header;
            let mut body = slice_to_vec(packet);
            bytes.append(&mut body);
            Ok(bytes)
        },
    }
}

/// The first complete frame of `bytes`, as `SequencedRead::recv` takes it off the wire:
/// the payload and the number of bytes the frame takes; `None` while the frame is incomplete.
pub fn split_frame(bytes: &[u8]) -> (res: Option<(Vec<u8>, usize)>)
    ensures
        match res {
            None => spec_split_frame(bytes@) is None,
            Some((payload, used)) => spec_split_frame(bytes@) == Some((payload@, used as nat)),
        },
{
    if bytes.len() < HEADER_LEN {
        return None;
    }
    let n = payload_length(slice_subrange(bytes, 0, HEADER_LEN));
    if bytes.len() - HEADER_LEN < n {
        None
    } else {
        let payload = slice_to_vec(slice_subrange(bytes, HEADER_LEN, HEADER_LEN + n));
        Some((payload, HEADER_LEN + n))
    }
}

/// All complete frames at the start of `bytes`, in order, and the number of bytes they take;
/// what successive reads of a sequenced stream return.
pub fn split_frames(bytes: &[u8]) -> (res: (Vec<Vec<u8>>, usize))
    ensures
        packet_views(res.0@) == spec_split_all(bytes@),
        res.1 as nat == spec_consumed(bytes@),
        res.1 <= bytes@.len(),
        spec_frames(packet_views(res.0@)) == bytes@.subrange(0, res.1 as int),
        spec_split_frame(bytes@.subrange(res.1 as int, bytes@.len() as int)) is None,
{
    let mut packets: Vec<Vec<u8>> = Vec::new();
    let mut offset: usize = 0;
    assert(bytes@.subrange(0, bytes@.len() as int) =~= bytes@);
    assert(packet_views(packets@) =~= Seq::<Seq<u8>>::empty());
    loop
        invariant
            offset <= bytes@.len(),
            packet_views(packets@) + spec_split_all(bytes@.subrange(offset as int, bytes@.len() as int))
                == spec_split_all(bytes@),
            offset + spec_consumed(bytes@.subrange(offset as int, bytes@.len() as int))
                == spec_consumed(bytes@),
        decreases bytes@.len() - offset,
    {
        let rest = slice_subrange(bytes, offset, bytes.len());
        match split_frame(rest) {
            None => {
                proof {
                    lemma_consumed_bytes_are_the_frames(bytes@);
                }
                return (packets, offset);
            },
            Some((payload, used)) => {
                let ghost old_packets = packet_views(packets@);
                let ghost tail = rest@.subrange(used as int, rest@.len() as int);
                assert(tail =~= bytes@.subrange(offset + used, bytes@.len() as int));
                packets.push(payload);
                assert(packet_views(packets@) =~= old_packets.push(payload@));
                assert(spec_split_all(rest@) == seq![payload@] + spec_split_all(tail));
                assert(old_packets.push(payload@) + spec_split_all(tail)
                    =~= old_packets + (seq![payload@] + spec_split_all(tail)));
                offset = offset + used;
            },
        }
    }
}

/// Whether every packet of a series can be framed.
pub open spec fn all_fit(packets: Seq<Seq<u8>>) -> bool {
    forall|i: int| 0 <= i < packets.len() ==> fits_in_header(#[trigger] packets[i].len())
}

/// A reader takes back exactly the packet that a writer framed, whatever bytes follow it.
pub proof fn lemma_split_frame_of_frame(packet: Seq<u8>, rest: Seq<u8>)
    requires
        fits_in_header(packet.len()),
    ensures
        spec_split_frame(spec_frame(packet) + rest) == Some((packet, (HEADER_LEN + packet.len()) as nat)),
{
    lemma_auto_spec_u32_to_from_le_bytes();
    let bytes = spec_frame(packet) + rest;
    let header = spec_header(packet.len());
    assert(header.len() == 4);
    assert(bytes.subrange(0, 4) =~= header);
    assert(spec_payload_length(header) == packet.len());
    assert(bytes.subrange(4, 4 + packet.len() as int) =~= packet);
}

/// What a reader takes off the wire is exactly one frame: the bytes it consumes are the frame of
/// the payload it returns.
pub proof fn lemma_split_frame_is_a_frame(bytes: Seq<u8>)
    requires
        spec_split_frame(bytes) is Some,
    ensures
        ({
            let (payload, used) = spec_split_frame(bytes)->0;
            &&& fits_in_header(payload.len())
            &&& used == HEADER_LEN + payload.len()
            &&& bytes.subrange(0, used as int) == spec_frame(payload)
        }),
{
    lemma_auto_spec_u32_to_from_le_bytes();
    let header = bytes.subrange(0, 4);
    let (payload, used) = spec_split_frame(bytes)->0;
    assert(payload.len() == spec_payload_length(header));
    assert(spec_header(payload.len()) == header);
    assert(bytes.subrange(0, used as int) =~= spec_frame(payload));
}

/// What a reader consumes of a byte stream is exactly the frames of the packets it returns, one
/// after another: nothing is skipped and nothing of an incomplete frame is taken; what it leaves
/// holds no complete frame at its start.
pub proof fn lemma_consumed_bytes_are_the_frames(bytes: Seq<u8>)
    ensures
        spec_consumed(bytes) <= bytes.len(),
        spec_frames(spec_split_all(bytes)) == bytes.subrange(0, spec_consumed(bytes) as int),
        spec_split_frame(bytes.subrange(spec_consumed(bytes) as int, bytes.len() as int)) is None,
    decreases bytes.len(),
{
    match spec_split_frame(bytes) {
        None => {
            assert(spec_split_all(bytes) =~= Seq::<Seq<u8>>::empty());
            assert(spec_frames(spec_split_all(bytes)) =~= Seq::<u8>::empty());
            assert(bytes.subrange(0, 0) =~= Seq::<u8>::empty());
            assert(bytes.subrange(0, bytes.len() as int) =~= bytes);
        },
        Some((payload, used)) => {
            lemma_split_frame_is_a_frame(bytes);
            let tail = bytes.subrange(used as int, bytes.len() as int);
            lemma_consumed_bytes_are_the_frames(tail);
            let rest = spec_split_all(tail);
            let c = spec_consumed(tail);
            assert(spec_split_all(bytes) == seq![payload] + rest);
            assert(spec_consumed(bytes) == (used + c) as int);
            let all = seq![payload] + rest;
            assert(all[0] == payload);
            assert(all.drop_first() =~= rest);
            assert(spec_frames(all) == spec_frame(payload) + spec_frames(rest));
            assert(bytes.subrange(0, used as int) == spec_frame(payload));
            assert(tail.subrange(0, c as int) =~= bytes.subrange(used as int, (used + c) as int));
            assert(bytes.subrange(0, ((used + c) as int) as int) =~= bytes.subrange(0, used as int)
                + bytes.subrange(used as int, (used + c) as int));
            assert(tail.subrange(c as int, tail.len() as int)
                =~= bytes.subrange((used + c) as int, bytes.len() as int));
        },
    }
}

/// A reader of a sequenced stream gets back the packets that were framed onto it, in the order
/// they were sent, and uses up every byte of their frames.
pub proof fn lemma_split_all_frames(packets: Seq<Seq<u8>>)
    requires
        all_fit(packets),
    ensures
        spec_split_all(spec_frames(packets)) == packets,
        spec_consumed(spec_frames(packets)) == spec_frames(packets).len(),
    decreases packets.len(),
{
    if packets.len() == 0 {
        assert(spec_frames(packets) =~= Seq::<u8>::empty());
        assert(spec_split_all(spec_frames(packets)) =~= packets);
    } else {
        let first = packets[0];
        let tail = packets.drop_first();
        assert(fits_in_header(packets[0].len()));
        assert(all_fit(tail)) by {
            assert forall|i: int| 0 <= i < tail.len() implies fits_in_header(#[trigger] tail[i].len()) by {
                assert(tail[i] == packets[i + 1]);
            }
        }
        lemma_split_all_frames(tail);
        let bytes = spec_frames(packets);
        assert(bytes == spec_frame(first) + spec_frames(tail));
        lemma_split_frame_of_frame(first, spec_frames(tail));
        lemma_auto_spec_u32_to_from_le_bytes();
        let used = HEADER_LEN + first.len();
        assert(spec_frame(first).len() == used);
        assert(bytes.subrange(used as int, bytes.len() as int) =~= spec_frames(tail));
        assert(seq![first] + tail =~= packets);
    }
}

} // verus!
