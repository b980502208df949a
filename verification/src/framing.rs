//! Message framing over the USB bulk pipe. A logical message may span
//! several raw packets; every packet but the last carries exactly the
//! maximum packet size, and the end of the message is signalled by a final
//! short packet — an explicitly empty one when the message length is an
//! exact multiple of the packet size, so the boundary is never ambiguous.

use vstd::prelude::*;

verus! {

/// Maximum size of one raw USB bulk packet.
pub const MAX_PACKET_SIZE: usize = 64;

/// The views of a sequence of byte vectors.
pub open spec fn spec_views(ps: Seq<Vec<u8>>) -> Seq<Seq<u8>> {
    ps.map_values(|p: Vec<u8>| p@)
}

/// The packets of one message: full packets, then one final short packet
/// (possibly empty) that signals the end of the message.
pub open spec fn spec_packets(msg: Seq<u8>) -> Seq<Seq<u8>>
    decreases msg.len(),
{
    if msg.len() < MAX_PACKET_SIZE {
        seq![msg]
    } else {
        seq![msg.take(MAX_PACKET_SIZE as int)] + spec_packets(msg.skip(MAX_PACKET_SIZE as int))
    }
}

/// The message a sequence of packets reassembles to: their concatenation.
pub open spec fn spec_unpackets(ps: Seq<Seq<u8>>) -> Seq<u8>
    decreases ps.len(),
{
    if ps.len() == 0 {
        Seq::empty()
    } else {
        ps[0] + spec_unpackets(ps.skip(1))
    }
}

/// Appending one packet extends the reassembled message by its bytes.
proof fn lemma_unpackets_snoc(ps: Seq<Seq<u8>>, p: Seq<u8>)
    ensures
        spec_unpackets(ps + seq![p]) == spec_unpackets(ps) + p,
    decreases ps.len(),
{
    if ps.len() == 0 {
        assert((ps + seq![p])[0] == p);
        assert((ps + seq![p]).skip(1) =~= Seq::<Seq<u8>>::empty());
        assert(spec_unpackets(Seq::<Seq<u8>>::empty()) == Seq::<u8>::empty());
        assert(spec_unpackets(ps + seq![p]) =~= spec_unpackets(ps) + p);
    } else {
        assert((ps + seq![p]).skip(1) =~= ps.skip(1) + seq![p]);
        lemma_unpackets_snoc(ps.skip(1), p);
        assert((ps + seq![p])[0] == ps[0]);
        assert(spec_unpackets(ps + seq![p]) =~= spec_unpackets(ps) + p);
    }
}

/// Reassembling the packets of a message gives the message back.
pub proof fn lemma_packets_round_trip(msg: Seq<u8>)
    ensures
        spec_unpackets(spec_packets(msg)) == msg,
    decreases msg.len(),
{
    if msg.len() < MAX_PACKET_SIZE {
        assert(spec_packets(msg) == seq![msg]);
        assert(seq![msg].skip(1) =~= Seq::<Seq<u8>>::empty());
        assert(spec_unpackets(Seq::<Seq<u8>>::empty()) == Seq::<u8>::empty());
        assert(seq![msg][0] == msg);
        assert(spec_unpackets(spec_packets(msg)) =~= msg);
    } else {
        let head = msg.take(MAX_PACKET_SIZE as int);
        let tail = msg.skip(MAX_PACKET_SIZE as int);
        lemma_packets_round_trip(tail);
        assert((seq![head] + spec_packets(tail)).skip(1) =~= spec_packets(tail));
        assert((seq![head] + spec_packets(tail))[0] == head);
        assert(head + tail =~= msg);
    }
}

/// Every packet but the last is full, and the last is short: the message
/// boundary is always recognizable from the packet sizes alone.
pub proof fn lemma_packets_shape(msg: Seq<u8>)
    ensures
        spec_packets(msg).len() >= 1,
        forall|i: int|
            0 <= i < spec_packets(msg).len() - 1 ==> #[trigger] spec_packets(msg)[i].len()
                == MAX_PACKET_SIZE,
        spec_packets(msg)[spec_packets(msg).len() - 1].len() < MAX_PACKET_SIZE,
    decreases msg.len(),
{
    if msg.len() < MAX_PACKET_SIZE {
    } else {
        let tail = msg.skip(MAX_PACKET_SIZE as int);
        lemma_packets_shape(tail);
        let ps = spec_packets(msg);
        assert(ps == seq![msg.take(MAX_PACKET_SIZE as int)] + spec_packets(tail));
        assert(forall|i: int|
            1 <= i < ps.len() ==> ps[i] == #[trigger] spec_packets(tail)[i - 1]);
    }
}

/// Copies the bytes of `v` from `from` (inclusive) to `to` (exclusive).
fn copy_range(v: &Vec<u8>, from: usize, to: usize) -> (r: Vec<u8>)
    requires
        from <= to <= v@.len(),
    ensures
        r@ == v@.subrange(from as int, to as int),
{
    let mut r: Vec<u8> = Vec::new();
    let mut i: usize = from;
    while i < to
        invariant
            from <= i <= to <= v@.len(),
            r@ == v@.subrange(from as int, i as int),
        decreases to - i,
    {
        r.push(v[i]);
        assert(r@ =~= v@.subrange(from as int, i as int + 1));
        i = i + 1;
    }
    r
}

/// Splits one message into the packets to transmit, in order.
pub fn packetize(msg: &Vec<u8>) -> (ps: Vec<Vec<u8>>)
    ensures
        spec_views(ps@) == spec_packets(msg@),
{
    let mut ps: Vec<Vec<u8>> = Vec::new();
    let mut pos: usize = 0;
    proof {
        assert(msg@.skip(0) =~= msg@);
        assert(spec_views(ps@) =~= Seq::<Seq<u8>>::empty());
        assert(spec_packets(msg@) =~= spec_views(ps@) + spec_packets(msg@.skip(pos as int)));
    }
    while msg.len() - pos >= MAX_PACKET_SIZE
        invariant
            pos <= msg@.len(),
            spec_packets(msg@) == spec_views(ps@) + spec_packets(msg@.skip(pos as int)),
        decreases msg@.len() - pos,
    {
        let ghost rem = msg@.skip(pos as int);
        let chunk = copy_range(msg, pos, pos + MAX_PACKET_SIZE);
        ps.push(chunk);
        proof {
            assert(rem.take(MAX_PACKET_SIZE as int) =~= msg@.subrange(
                pos as int,
                pos as int + MAX_PACKET_SIZE as int,
            ));
            assert(rem.skip(MAX_PACKET_SIZE as int) =~= msg@.skip(
                pos as int + MAX_PACKET_SIZE as int,
            ));
            assert(spec_views(ps@) =~= spec_views(ps@.drop_last()) + seq![chunk@]);
            assert(spec_packets(msg@) =~= spec_views(ps@) + spec_packets(
                msg@.skip(pos as int + MAX_PACKET_SIZE as int),
            ));
        }
        pos = pos + MAX_PACKET_SIZE;
    }
    let ghost rem = msg@.skip(pos as int);
    let tail = copy_range(msg, pos, msg.len());
    ps.push(tail);
    proof {
        assert(tail@ =~= rem);
        assert(spec_packets(rem) == seq![rem]);
        assert(spec_views(ps@) =~= spec_views(ps@.drop_last()) + seq![tail@]);
        assert(spec_views(ps@) =~= spec_packets(msg@));
    }
    ps
}

/// True exactly when a received packet ends the message: it is short.
pub fn is_final_packet(p: &Vec<u8>) -> (r: bool)
    ensures
        r == (p@.len() < MAX_PACKET_SIZE),
{
    p.len() < MAX_PACKET_SIZE
}

/// Reassembles received packets into the logical message they carried.
pub fn reassemble(ps: &Vec<Vec<u8>>) -> (msg: Vec<u8>)
    ensures
        msg@ == spec_unpackets(spec_views(ps@)),
{
    let mut msg: Vec<u8> = Vec::new();
    let mut i: usize = 0;
    proof {
        assert(spec_views(ps@).take(0) =~= Seq::<Seq<u8>>::empty());
    }
    while i < ps.len()
        invariant
            i <= ps@.len(),
            msg@ == spec_unpackets(spec_views(ps@).take(i as int)),
        decreases ps@.len() - i,
    {
        let ghost before = spec_views(ps@).take(i as int);
        let part = copy_range(&ps[i], 0, ps[i].len());
        proof {
            assert(part@ =~= ps@[i as int]@);
        }
        let mut j: usize = 0;
        let ghost msnap = msg@;
        while j < part.len()
            invariant
                j <= part@.len(),
                msg@ == msnap + part@.take(j as int),
            decreases part@.len() - j,
        {
            msg.push(part[j]);
            assert(msg@ =~= msnap + part@.take(j as int + 1));
            j = j + 1;
        }
        proof {
            assert(part@.take(part@.len() as int) =~= part@);
            lemma_unpackets_snoc(before, ps@[i as int]@);
            assert(spec_views(ps@).take(i as int + 1) =~= before + seq![ps@[i as int]@]);
        }
        i = i + 1;
    }
    proof {
        assert(spec_views(ps@).take(ps@.len() as int) =~= spec_views(ps@));
    }
    msg
}

} // verus!
