//! The frame stream: each frame's events, frame after frame.
use vstd::prelude::*;
use crate::event::{
    PortId, frame_end, frame_end_bytes, frame_post, frame_pre, frame_start, frame_start_bytes, gated,
    item, item_bytes, item_ready, port_of, post_bytes, post_ready, pre_bytes, pre_ready,
};
use crate::model::{FIRST_FRAME_INDEX, Frame, Item, NUM_PORTS, Port, PortData};
use crate::version::{Version, version};

verus! {

/// The largest number of frames whose indices all fit in 32 bits.
pub const MAX_FRAMES: usize = 2_147_483_771;

/// The index of the `i`-th frame of a game.
pub open spec fn frame_index(i: int) -> i32 {
    (FIRST_FRAME_INDEX + i) as i32
}

/// The key of an entity at port number `port` of frame `index`.
pub open spec fn entity(index: i32, port: int, is_follower: bool) -> PortId {
    PortId { index, port: port_of(port as u8)->Some_0, is_follower }
}

/// One port's events for a frame: the leader's pre-frame record, the
/// follower's, then the leader's post-frame record and the follower's.
pub open spec fn port_bytes(d: PortData, v: Version, index: i32, port: int) -> Seq<u8> {
    pre_bytes(d.leader.pre, v, entity(index, port, false)) + match d.follower {
        Some(f) => pre_bytes(f.pre, v, entity(index, port, true)),
        None => seq![],
    } + post_bytes(d.leader.post, v, entity(index, port, false)) + match d.follower {
        Some(f) => post_bytes(f.post, v, entity(index, port, true)),
        None => seq![],
    }
}

/// The events of the listed ports, in port order.
pub open spec fn ports_bytes(ps: Seq<PortData>, v: Version, index: i32) -> Seq<u8>
    decreases ps.len(),
{
    if ps.len() == 0 {
        seq![]
    } else {
        ports_bytes(ps.drop_last(), v, index) + port_bytes(ps.last(), v, index, ps.len() - 1)
    }
}

/// The events of the listed items, in order.
pub open spec fn items_bytes(is: Seq<Item>, v: Version, index: i32) -> Seq<u8>
    decreases is.len(),
{
    if is.len() == 0 {
        seq![]
    } else {
        items_bytes(is.drop_last(), v, index) + item_bytes(is.last(), v, index)
    }
}

/// A frame's events: frame-start (from 2.2), the ports', the items' and
/// frame-end (from 3.0).
pub open spec fn frame_bytes(f: Frame, v: Version, index: i32) -> Seq<u8> {
    gated(v.since(2, 2), frame_start_bytes(f.start.unwrap(), index)) + ports_bytes(f.ports@, v, index)
        + gated(v.since(3, 0), items_bytes(f.items.unwrap()@, v, index)) + gated(
        v.since(3, 0),
        frame_end_bytes(f.end.unwrap(), v, index),
    )
}

/// The events of the listed frames, the first at `FIRST_FRAME_INDEX`.
pub open spec fn frames_bytes(fs: Seq<Frame>, v: Version) -> Seq<u8>
    decreases fs.len(),
{
    if fs.len() == 0 {
        seq![]
    } else {
        frames_bytes(fs.drop_last(), v) + frame_bytes(fs.last(), v, frame_index(fs.len() - 1))
    }
}

/// The records of a port's entities have what version `v` requires.
pub open spec fn port_ready(d: PortData, v: Version) -> bool {
    &&& pre_ready(d.leader.pre, v)
    &&& post_ready(d.leader.post, v)
    &&& d.follower is Some ==> pre_ready(d.follower->Some_0.pre, v) && post_ready(
        d.follower->Some_0.post,
        v,
    )
}

/// A frame holds `port_count` ports and every record that version `v`
/// requires.
pub open spec fn frame_ready(f: Frame, v: Version, port_count: nat) -> bool {
    &&& f.ports@.len() == port_count
    &&& forall|j: int| 0 <= j < f.ports@.len() ==> port_ready(#[trigger] f.ports@[j], v)
    &&& v.since(2, 2) ==> f.start is Some
    &&& v.since(3, 0) ==> f.items is Some && f.end is Some
    &&& v.since(3, 0) ==> forall|k: int|
        0 <= k < f.items->Some_0@.len() ==> item_ready(#[trigger] f.items->Some_0@[k], v)
    &&& v.since(3, 7) ==> f.end->Some_0.latest_finalized_frame is Some
}

fn port_at(n: usize) -> (p: Port)
    requires
        n < NUM_PORTS,
    ensures
        p == port_of(n as u8)->Some_0,
{
    if n == 0 {
        Port::First
    } else if n == 1 {
        Port::Second
    } else if n == 2 {
        Port::Third
    } else {
        Port::Fourth
    }
}

fn put_port_data(out: &mut Vec<u8>, d: &PortData, v: Version, index: i32, port: usize)
    requires
        port < NUM_PORTS,
        port_ready(*d, v),
    ensures
        final(out)@ == old(out)@ + port_bytes(*d, v, index, port as int),
{
    let ghost start = out@;
    let p = port_at(port);
    let leader = PortId { index, port: p, is_follower: false };
    let follower = PortId { index, port: p, is_follower: true };
    frame_pre(out, &d.leader.pre, v, leader);
    let ghost s0 = out@;
    match &d.follower {
        Some(f) => frame_pre(out, &f.pre, v, follower),
        None => {},
    }
    let ghost s1 = out@;
    frame_post(out, &d.leader.post, v, leader);
    let ghost s2 = out@;
    match &d.follower {
        Some(f) => frame_post(out, &f.post, v, follower),
        None => {},
    }
    assert(out@ =~= start + port_bytes(*d, v, index, port as int));
}

fn put_ports(out: &mut Vec<u8>, ps: &Vec<PortData>, v: Version, index: i32)
    requires
        ps@.len() <= NUM_PORTS,
        forall|j: int| 0 <= j < ps@.len() ==> port_ready(#[trigger] ps@[j], v),
    ensures
        final(out)@ == old(out)@ + ports_bytes(ps@, v, index),
{
    let ghost start = out@;
    let mut j: usize = 0;
    while j < ps.len()
        invariant
            j <= ps@.len() <= NUM_PORTS,
            forall|k: int| 0 <= k < ps@.len() ==> port_ready(#[trigger] ps@[k], v),
            out@ == start + ports_bytes(ps@.take(j as int), v, index),
        decreases ps@.len() - j,
    {
        put_port_data(out, &ps[j], v, index, j);
        assert(ps@.take(j as int + 1).drop_last() =~= ps@.take(j as int));
        j = j + 1;
        assert(out@ =~= start + ports_bytes(ps@.take(j as int), v, index));
    }
    assert(ps@.take(ps@.len() as int) =~= ps@);
}

fn put_items(out: &mut Vec<u8>, is: &Vec<Item>, v: Version, index: i32)
    requires
        forall|k: int| 0 <= k < is@.len() ==> item_ready(#[trigger] is@[k], v),
    ensures
        final(out)@ == old(out)@ + items_bytes(is@, v, index),
{
    let ghost start = out@;
    let mut k: usize = 0;
    while k < is.len()
        invariant
            k <= is@.len(),
            forall|m: int| 0 <= m < is@.len() ==> item_ready(#[trigger] is@[m], v),
            out@ == start + items_bytes(is@.take(k as int), v, index),
        decreases is@.len() - k,
    {
        item(out, &is[k], v, index);
        assert(is@.take(k as int + 1).drop_last() =~= is@.take(k as int));
        k = k + 1;
        assert(out@ =~= start + items_bytes(is@.take(k as int), v, index));
    }
    assert(is@.take(is@.len() as int) =~= is@);
}

fn put_frame(out: &mut Vec<u8>, f: &Frame, v: Version, index: i32)
    requires
        f.ports@.len() <= NUM_PORTS,
        frame_ready(*f, v, f.ports@.len()),
    ensures
        final(out)@ == old(out)@ + frame_bytes(*f, v, index),
{
    let ghost start = out@;
    if v.at_least(version(2, 2)) {
        frame_start(out, f.start.as_ref().unwrap(), index);
    }
    let ghost s0 = out@;
    assert(s0 =~= start + gated(v.since(2, 2), frame_start_bytes(f.start.unwrap(), index)));
    put_ports(out, &f.ports, v, index);
    let ghost s1 = out@;
    if v.at_least(version(3, 0)) {
        put_items(out, f.items.as_ref().unwrap(), v, index);
    }
    let ghost s2 = out@;
    assert(s2 =~= s1 + gated(v.since(3, 0), items_bytes(f.items.unwrap()@, v, index)));
    if v.at_least(version(3, 0)) {
        frame_end(out, f.end.as_ref().unwrap(), v, index);
    }
    assert(out@ =~= s2 + gated(v.since(3, 0), frame_end_bytes(f.end.unwrap(), v, index)));
    assert(out@ =~= start + frame_bytes(*f, v, index));
}

/// Appends the events of all frames, numbering them from
/// `FIRST_FRAME_INDEX`.
pub fn frames(out: &mut Vec<u8>, fs: &Vec<Frame>, v: Version, port_count: usize)
    requires
        1 <= port_count <= NUM_PORTS,
        fs@.len() <= MAX_FRAMES,
        forall|i: int| 0 <= i < fs@.len() ==> frame_ready(#[trigger] fs@[i], v, port_count as nat),
    ensures
        final(out)@ == old(out)@ + frames_bytes(fs@, v),
{
    let ghost start = out@;
    let mut i: usize = 0;
    while i < fs.len()
        invariant
            i <= fs@.len() <= MAX_FRAMES,
            1 <= port_count <= NUM_PORTS,
            forall|m: int| 0 <= m < fs@.len() ==> frame_ready(#[trigger] fs@[m], v, port_count as nat),
            out@ == start + frames_bytes(fs@.take(i as int), v),
        decreases fs@.len() - i,
    {
        let index: i32 = (i as i64 + FIRST_FRAME_INDEX as i64) as i32;
        assert(index == frame_index(i as int));
        put_frame(out, &fs[i], v, index);
        assert(fs@.take(i as int + 1).drop_last() =~= fs@.take(i as int));
        i = i + 1;
        assert(out@ =~= start + frames_bytes(fs@.take(i as int), v));
    }
    assert(fs@.take(fs@.len() as int) =~= fs@);
}

} // verus!
