//! Laws of the encoding, proved over the specifications of the encoders.
use vstd::prelude::*;
use crate::envelope::{StartEncoding, game_bytes};
use crate::bytes::{be32, be_i32, from_be32, lemma_be32_round_trip, zeros};
use crate::event::{
    PortId, bool_byte, frame_end_bytes, game_end_bytes, gated, item_bytes, post_base_bytes, post_bytes,
    port_of, post_state_bytes, pre_bytes, velocity_bytes,
};
use crate::gate::{
    frame_end_size, frame_post_size, frame_pre_size, game_end_size, game_start_size, item_size,
};
use crate::model::{FrameEnd, End, Game, Item, NUM_PORTS, PortData, Post, Pre, Start, Player};
use crate::stream::{entity, ports_bytes};
use crate::start::{
    empty_ports, empty_slots, fixed_bytes, game_start_bytes, header_bytes, start_payload, trailer_bytes, name_tags_bytes, netplays_bytes, players_bytes, start_texts_fit,
    ucf_bytes, NAME_TAG_SIZE, NETPLAY_CODE_SIZE, NETPLAY_NAME_SIZE,
};
use crate::text::text_fits;
use crate::version::Version;

verus! {

/// `a` is the start of `b`.
pub open spec fn is_prefix(a: Seq<u8>, b: Seq<u8>) -> bool {
    a.len() <= b.len() && b.subrange(0, a.len() as int) == a
}

/// A pre-frame record written at a version is the start of the same record
/// written at any later version.
pub proof fn lemma_pre_grows(p: Pre, v1: Version, v2: Version, id: PortId)
    requires
        v2.spec_at_least(v1),
    ensures
        is_prefix(pre_bytes(p, v1, id), pre_bytes(p, v2, id)),
{
    reveal(pre_bytes);
    assert(pre_bytes(p, v2, id).subrange(0, pre_bytes(p, v1, id).len() as int) =~= pre_bytes(p, v1, id));
}

proof fn lemma_gated_step(x1: Seq<u8>, x2: Seq<u8>, c1: bool, c2: bool, a: Seq<u8>)
    requires
        is_prefix(x1, x2),
        c1 ==> c2,
        c1 ==> x1 == x2,
    ensures
        is_prefix(x1 + gated(c1, a), x2 + gated(c2, a)),
        c1 ==> x1 + gated(c1, a) == x2 + gated(c2, a),
{
    if !c1 {
        assert(x1 + gated(c1, a) =~= x1);
        assert((x2 + gated(c2, a)).subrange(0, x1.len() as int) =~= x2.subrange(0, x1.len() as int));
    } else {
        let y = x2 + gated(c2, a);
        assert(y.subrange(0, y.len() as int) =~= y);
    }
}

/// A post-frame record written at a version is the start of the same record
/// written at any later version.
pub proof fn lemma_post_grows(p: Post, v1: Version, v2: Version, id: PortId)
    requires
        v2.spec_at_least(v1),
    ensures
        is_prefix(post_bytes(p, v1, id), post_bytes(p, v2, id)),
{
    reveal(post_bytes);
    let x = post_base_bytes(p, id);
    assert(x.subrange(0, x.len() as int) =~= x);
    let a0 = be32(p.state_age.unwrap());
    let a1 = post_state_bytes(p);
    let a2 = seq![p.hurtbox_state.unwrap()];
    let a3 = velocity_bytes(p.velocities.unwrap(), p.airborne.unwrap());
    let a4 = be32(p.hitlag.unwrap());
    lemma_gated_step(x, x, v1.since(0, 2), v2.since(0, 2), a0);
    let y1 = x + gated(v1.since(0, 2), a0);
    let y2 = x + gated(v2.since(0, 2), a0);
    lemma_gated_step(y1, y2, v1.since(2, 0), v2.since(2, 0), a1);
    let z1 = y1 + gated(v1.since(2, 0), a1);
    let z2 = y2 + gated(v2.since(2, 0), a1);
    lemma_gated_step(z1, z2, v1.since(2, 1), v2.since(2, 1), a2);
    let w1 = z1 + gated(v1.since(2, 1), a2);
    let w2 = z2 + gated(v2.since(2, 1), a2);
    lemma_gated_step(w1, w2, v1.since(3, 5), v2.since(3, 5), a3);
    let u1 = w1 + gated(v1.since(3, 5), a3);
    let u2 = w2 + gated(v2.since(3, 5), a3);
    lemma_gated_step(u1, u2, v1.since(3, 8), v2.since(3, 8), a4);
}

/// An item record written at a version is the start of the same record
/// written at any later version.
pub proof fn lemma_item_grows(i: Item, v1: Version, v2: Version, index: i32)
    requires
        v2.spec_at_least(v1),
    ensures
        is_prefix(item_bytes(i, v1, index), item_bytes(i, v2, index)),
{
    reveal(item_bytes);
    assert(item_bytes(i, v2, index).subrange(0, item_bytes(i, v1, index).len() as int) =~= item_bytes(
        i,
        v1,
        index,
    ));
}

/// A frame-end record written at a version is the start of the same record
/// written at any later version.
pub proof fn lemma_frame_end_grows(e: FrameEnd, v1: Version, v2: Version, index: i32)
    requires
        v2.spec_at_least(v1),
    ensures
        is_prefix(frame_end_bytes(e, v1, index), frame_end_bytes(e, v2, index)),
{
    assert(frame_end_bytes(e, v2, index).subrange(0, frame_end_bytes(e, v1, index).len() as int)
        =~= frame_end_bytes(e, v1, index));
}

/// A session-end record written at a version is the start of the same record
/// written at any later version.
pub proof fn lemma_game_end_grows(e: End, v1: Version, v2: Version)
    requires
        v2.spec_at_least(v1),
    ensures
        is_prefix(game_end_bytes(e, v1), game_end_bytes(e, v2)),
{
    assert(game_end_bytes(e, v2).subrange(0, game_end_bytes(e, v1).len() as int) =~= game_end_bytes(
        e,
        v1,
    ));
}

proof fn lemma_trailer_grows(s1: Start, s2: Start)
    requires
        s1.players == s2.players,
        s1.is_pal == s2.is_pal,
        s1.is_frozen_ps == s2.is_frozen_ps,
        s1.scene == s2.scene,
        s2.version.spec_at_least(s1.version),
    ensures
        is_prefix(trailer_bytes(s1), trailer_bytes(s2)),
{
    let v1 = s1.version;
    let v2 = s2.version;
    let x = Seq::<u8>::empty();
    assert(x.subrange(0, 0) =~= x);
    let ps = s1.players@;
    let e = empty_ports(s1);
    let a0 = ucf_bytes(ps) + zeros(8 * e);
    let a1 = name_tags_bytes(ps) + zeros(16 * e);
    let a2 = seq![bool_byte(s1.is_pal.unwrap())];
    let a3 = seq![bool_byte(s1.is_frozen_ps.unwrap())];
    let a4 = seq![s1.scene.unwrap().minor, s1.scene.unwrap().major];
    let a5 = netplays_bytes(ps) + zeros(41 * e);
    lemma_gated_step(x, x, v1.since(1, 0), v2.since(1, 0), a0);
    let y1 = x + gated(v1.since(1, 0), a0);
    let y2 = x + gated(v2.since(1, 0), a0);
    lemma_gated_step(y1, y2, v1.since(1, 3), v2.since(1, 3), a1);
    let z1 = y1 + gated(v1.since(1, 3), a1);
    let z2 = y2 + gated(v2.since(1, 3), a1);
    lemma_gated_step(z1, z2, v1.since(1, 5), v2.since(1, 5), a2);
    let w1 = z1 + gated(v1.since(1, 5), a2);
    let w2 = z2 + gated(v2.since(1, 5), a2);
    lemma_gated_step(w1, w2, v1.since(2, 0), v2.since(2, 0), a3);
    let u1 = w1 + gated(v1.since(2, 0), a3);
    let u2 = w2 + gated(v2.since(2, 0), a3);
    lemma_gated_step(u1, u2, v1.since(3, 7), v2.since(3, 7), a4);
    let t1 = u1 + gated(v1.since(3, 7), a4);
    let t2 = u2 + gated(v2.since(3, 7), a4);
    lemma_gated_step(t1, t2, v1.since(3, 9), v2.since(3, 9), a5);
    assert(trailer_bytes(s1) =~= t1 + gated(v1.since(3, 9), a5));
    assert(trailer_bytes(s2) =~= t2 + gated(v2.since(3, 9), a5));
}

/// A session-start payload rebuilt at a version, after its version triple,
/// is the start of the same record's payload at any later version, after
/// its version triple.
pub proof fn lemma_start_grows(s1: Start, s2: Start)
    requires
        s2 == (Start { version: s2.version, ..s1 }),
        s2.version.spec_at_least(s1.version),
    ensures
        is_prefix(
            start_payload(s1).subrange(3, start_payload(s1).len() as int),
            start_payload(s2).subrange(3, start_payload(s2).len() as int),
        ),
{
    reveal(header_bytes);
    let f1 = fixed_bytes(s1);
    let f2 = fixed_bytes(s2);
    let x = f1.subrange(3, f1.len() as int);
    assert(x =~= f2.subrange(3, f2.len() as int));
    lemma_trailer_grows(s1, s2);
    let t1 = trailer_bytes(s1);
    let t2 = trailer_bytes(s2);
    assert(start_payload(s1).subrange(3, start_payload(s1).len() as int) =~= x + t1);
    assert(start_payload(s2).subrange(3, start_payload(s2).len() as int) =~= x + t2);
    assert((x + t2).subrange(0, (x + t1).len() as int) =~= x + t2.subrange(0, t1.len() as int));
}

/// Payload sizes never shrink as the version grows.
pub proof fn lemma_sizes_grow(v1: Version, v2: Version)
    requires
        v2.spec_at_least(v1),
    ensures
        game_start_size(v1) <= game_start_size(v2),
        game_end_size(v1) <= game_end_size(v2),
        frame_pre_size(v1) <= frame_pre_size(v2),
        frame_post_size(v1) <= frame_post_size(v2),
        item_size(v1) <= item_size(v2),
        frame_end_size(v1) <= frame_end_size(v2),
{
}

/// Every pre-frame event is its tag and the declared pre-frame payload size.
pub proof fn lemma_pre_size(p: Pre, v: Version, id: PortId)
    ensures
        pre_bytes(p, v, id).len() == 1 + frame_pre_size(v),
{
    reveal(pre_bytes);
}

/// Every post-frame event is its tag and the declared post-frame payload
/// size.
pub proof fn lemma_post_size(p: Post, v: Version, id: PortId)
    ensures
        post_bytes(p, v, id).len() == 1 + frame_post_size(v),
{
    reveal(post_bytes);
}

/// Every item event is its tag and the declared item payload size.
pub proof fn lemma_item_size(i: Item, v: Version, index: i32)
    ensures
        item_bytes(i, v, index).len() == 1 + item_size(v),
{
    reveal(item_bytes);
}

/// Every frame-end event is its tag and the declared frame-end payload size.
pub proof fn lemma_frame_end_size(e: FrameEnd, v: Version, index: i32)
    ensures
        frame_end_bytes(e, v, index).len() == 1 + frame_end_size(v),
{
}

/// Every session-end event is its tag and the declared session-end payload
/// size.
pub proof fn lemma_game_end_size(e: End, v: Version)
    ensures
        game_end_bytes(e, v).len() == 1 + game_end_size(v),
{
}

proof fn lemma_players_len(ps: Seq<Player>)
    ensures
        players_bytes(ps).len() == 36 * ps.len(),
    decreases ps.len(),
{
    if ps.len() > 0 {
        lemma_players_len(ps.drop_last());
    }
}

proof fn lemma_empty_slots_len(n: nat)
    ensures
        empty_slots(n).len() == 36 * n,
    decreases n,
{
    if n > 0 {
        lemma_empty_slots_len((n - 1) as nat);
    }
}

proof fn lemma_ucf_len(ps: Seq<Player>)
    ensures
        ucf_bytes(ps).len() == 8 * ps.len(),
    decreases ps.len(),
{
    if ps.len() > 0 {
        lemma_ucf_len(ps.drop_last());
    }
}

proof fn lemma_name_tags_len(ps: Seq<Player>)
    requires
        forall|i: int|
            0 <= i < ps.len() ==> text_fits((#[trigger] ps[i]).name_tag.unwrap()@, NAME_TAG_SIZE as nat),
    ensures
        name_tags_bytes(ps).len() == 16 * ps.len(),
    decreases ps.len(),
{
    if ps.len() > 0 {
        let q = ps.drop_last();
        assert forall|i: int| 0 <= i < q.len() implies text_fits(
            (#[trigger] q[i]).name_tag.unwrap()@,
            NAME_TAG_SIZE as nat,
        ) by {
            assert(q[i] == ps[i]);
        }
        lemma_name_tags_len(q);
        assert(text_fits(ps[ps.len() - 1].name_tag.unwrap()@, NAME_TAG_SIZE as nat));
    }
}

proof fn lemma_netplays_len(ps: Seq<Player>)
    requires
        forall|i: int|
            0 <= i < ps.len() ==> text_fits(
                (#[trigger] ps[i]).netplay.unwrap().name@,
                NETPLAY_NAME_SIZE as nat,
            ) && text_fits(ps[i].netplay.unwrap().code@, NETPLAY_CODE_SIZE as nat),
    ensures
        netplays_bytes(ps).len() == 41 * ps.len(),
    decreases ps.len(),
{
    if ps.len() > 0 {
        let q = ps.drop_last();
        assert forall|i: int| 0 <= i < q.len() implies text_fits(
            (#[trigger] q[i]).netplay.unwrap().name@,
            NETPLAY_NAME_SIZE as nat,
        ) && text_fits(q[i].netplay.unwrap().code@, NETPLAY_CODE_SIZE as nat) by {
            assert(q[i] == ps[i]);
        }
        lemma_netplays_len(q);
        assert(text_fits(ps[ps.len() - 1].netplay.unwrap().name@, NETPLAY_NAME_SIZE as nat));
    }
}

/// A session-start event rebuilt field by field is its tag and the declared
/// session-start payload size, whatever the number of players: empty slots
/// take as many bytes as filled ones.
pub proof fn lemma_start_size(s: Start)
    requires
        s.players@.len() <= NUM_PORTS,
        start_texts_fit(s),
    ensures
        game_start_bytes(s).len() == 1 + game_start_size(s.version),
{
    reveal(header_bytes);
    let ps = s.players@;
    let v = s.version;
    lemma_players_len(ps);
    lemma_empty_slots_len((6 - ps.len()) as nat);
    lemma_ucf_len(ps);
    if v.since(1, 3) {
        lemma_name_tags_len(ps);
    }
    if v.since(3, 9) {
        lemma_netplays_len(ps);
    }
}

/// Two session-start records at one version, each with at most one player
/// per port and fitting texts, give events of one length, however many
/// players each lists.
pub proof fn lemma_start_padding(s1: Start, s2: Start)
    requires
        s1.version == s2.version,
        s1.players@.len() <= NUM_PORTS,
        s2.players@.len() <= NUM_PORTS,
        start_texts_fit(s1),
        start_texts_fit(s2),
    ensures
        game_start_bytes(s1).len() == game_start_bytes(s2).len(),
{
    lemma_start_size(s1);
    lemma_start_size(s2);
}

/// Within a frame the ports come one after the other, in port order, and
/// each port's records are its leader's pre-frame record, its follower's,
/// its leader's post-frame record, its follower's: a port's pre-frame
/// records precede its post-frame records, which precede the next port's
/// records.
pub proof fn lemma_port_order(ps: Seq<PortData>, v: Version, index: i32, j: int)
    requires
        0 <= j < ps.len(),
    ensures
        ports_bytes(ps.take(j + 1), v, index) == ports_bytes(ps.take(j), v, index) + pre_bytes(
            ps[j].leader.pre,
            v,
            entity(index, j, false),
        ) + match ps[j].follower {
            Some(f) => pre_bytes(f.pre, v, entity(index, j, true)),
            None => seq![],
        } + post_bytes(ps[j].leader.post, v, entity(index, j, false)) + match ps[j].follower {
            Some(f) => post_bytes(f.post, v, entity(index, j, true)),
            None => seq![],
        },
{
    assert(ps.take(j + 1).drop_last() =~= ps.take(j));
}

proof fn lemma_i32_round_trip(n: i32)
    ensures
        from_be32(be_i32(n)) as i32 == n,
{
    lemma_be32_round_trip(n as u32);
    assert((n as u32) as i32 == n) by (bit_vector);
}

/// The key of an entity is read back from bytes 1 to 7 of its pre-frame
/// event: the frame index, the port number and the follower flag.
pub proof fn lemma_pre_key_readable(p: Pre, v: Version, id: PortId)
    ensures
        from_be32(pre_bytes(p, v, id).subrange(1, 5)) as i32 == id.index,
        port_of(pre_bytes(p, v, id)[5]) == Some(id.port),
        pre_bytes(p, v, id)[6] == bool_byte(id.is_follower),
{
    reveal(pre_bytes);
    assert(pre_bytes(p, v, id).subrange(1, 5) =~= be_i32(id.index));
    lemma_i32_round_trip(id.index);
}

/// The key of an entity is read back from bytes 1 to 7 of its post-frame
/// event: the frame index, the port number and the follower flag.
pub proof fn lemma_post_key_readable(p: Post, v: Version, id: PortId)
    ensures
        from_be32(post_bytes(p, v, id).subrange(1, 5)) as i32 == id.index,
        port_of(post_bytes(p, v, id)[5]) == Some(id.port),
        post_bytes(p, v, id)[6] == bool_byte(id.is_follower),
{
    reveal(post_bytes);
    assert(post_bytes(p, v, id).subrange(1, 5) =~= be_i32(id.index));
    lemma_i32_round_trip(id.index);
}

/// The encoding is a function of the game: equal games give equal bytes.
pub proof fn lemma_deterministic(g1: Game, g2: Game, enc: StartEncoding)
    requires
        g1 == g2,
    ensures
        game_bytes(g1, enc) == game_bytes(g2, enc),
{
}

} // verus!
