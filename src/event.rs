//! The encoders of the per-frame events and of the session-end event.
use vstd::prelude::*;
use crate::bytes::{be16, be32, be_i32, le40, put_all, put_i32, put_le40, put_u16, put_u32, put_u8};
use crate::error::UnparseError;
use crate::gate::Event;
use crate::model::{Direction, End, FrameEnd, FrameStart, Item, Port, Post, Pre, NO_PORT, port_byte};
use crate::version::{Version, version};

verus! {

/// The key that ties a pre- or post-frame record to its entity.
#[derive(Clone, Copy, Debug, PartialEq, Eq, Structural)]
pub struct PortId {
    pub index: i32,
    pub port: Port,
    pub is_follower: bool,
}

/// The port with wire number `n`, if there is one.
pub open spec fn port_of(n: u8) -> Option<Port> {
    if n == 0 {
        Some(Port::First)
    } else if n == 1 {
        Some(Port::Second)
    } else if n == 2 {
        Some(Port::Third)
    } else if n == 3 {
        Some(Port::Fourth)
    } else {
        None
    }
}

impl PortId {
    /// The key of port number `port` at frame `index`; fails on a number
    /// that is not a port's.
    pub fn new(index: i32, port: u8, is_follower: bool) -> (r: Result<PortId, UnparseError>)
        ensures
            port < 4 <==> r is Ok,
            r is Ok ==> r->Ok_0 == (PortId { index, port: port_of(port)->Some_0, is_follower }),
            r is Ok ==> r->Ok_0.port.spec_index() == port,
            r is Err ==> r == Err::<PortId, UnparseError>(UnparseError::InvalidPort),
    {
        let p = if port == 0 {
            Port::First
        } else if port == 1 {
            Port::Second
        } else if port == 2 {
            Port::Third
        } else if port == 3 {
            Port::Fourth
        } else {
            return Err(UnparseError::InvalidPort);
        };
        Ok(PortId { index, port: p, is_follower })
    }
}

/// A flag as one byte.
pub open spec fn bool_byte(b: bool) -> u8 {
    if b { 1 } else { 0 }
}

fn put_bool(out: &mut Vec<u8>, b: bool)
    ensures
        final(out)@ == old(out)@.push(bool_byte(b)),
{
    put_u8(out, if b { 1 } else { 0 });
}

fn put_port(out: &mut Vec<u8>, p: Option<Port>)
    ensures
        final(out)@ == old(out)@.push(port_byte(p)),
{
    put_u8(
        out,
        match p {
            Some(p) => p.index(),
            None => NO_PORT,
        },
    );
}

/// `b` where `present` holds, else nothing.
pub open spec fn gated(present: bool, b: Seq<u8>) -> Seq<u8> {
    if present { b } else { seq![] }
}

/// The three bytes that open a pre- or post-frame payload after its tag.
pub open spec fn id_bytes(id: PortId) -> Seq<u8> {
    be_i32(id.index) + seq![id.port.spec_index(), bool_byte(id.is_follower)]
}

fn put_id(out: &mut Vec<u8>, id: PortId)
    ensures
        final(out)@ == old(out)@ + id_bytes(id),
{
    put_i32(out, id.index);
    put_u8(out, id.port.index());
    put_bool(out, id.is_follower);
    assert(final(out)@ =~= old(out)@ + id_bytes(id));
}

/// The session-end event.
pub open spec fn game_end_bytes(e: End, v: Version) -> Seq<u8> {
    seq![Event::GameEnd.spec_code(), e.method] + gated(
        v.since(2, 0),
        seq![port_byte(e.lras_initiator.unwrap())],
    )
}

/// Appends the session-end event.
pub fn game_end(out: &mut Vec<u8>, e: &End, v: Version)
    requires
        v.since(2, 0) ==> e.lras_initiator is Some,
    ensures
        final(out)@ == old(out)@ + game_end_bytes(*e, v),
{
    put_u8(out, Event::GameEnd.code());
    put_u8(out, e.method);
    if v.at_least(version(2, 0)) {
        put_port(out, e.lras_initiator.unwrap());
    }
    assert(final(out)@ =~= old(out)@ + game_end_bytes(*e, v));
}

/// The frame-start event.
pub open spec fn frame_start_bytes(s: FrameStart, index: i32) -> Seq<u8> {
    seq![Event::FrameStart.spec_code()] + be_i32(index) + be32(s.random_seed)
}

/// Appends the frame-start event of frame `index`.
pub fn frame_start(out: &mut Vec<u8>, s: &FrameStart, index: i32)
    ensures
        final(out)@ == old(out)@ + frame_start_bytes(*s, index),
{
    put_u8(out, Event::FrameStart.code());
    put_i32(out, index);
    put_u32(out, s.random_seed);
    assert(final(out)@ =~= old(out)@ + frame_start_bytes(*s, index));
}

/// The fields that a pre-frame record needs at version `v` are present.
pub open spec fn pre_ready(p: Pre, v: Version) -> bool {
    &&& v.since(1, 2) ==> p.raw_analog_x is Some
    &&& v.since(1, 4) ==> p.damage is Some
}

/// The pre-frame event.
#[verifier::opaque]
pub open spec fn pre_bytes(p: Pre, v: Version, id: PortId) -> Seq<u8> {
    seq![Event::FramePre.spec_code()] + id_bytes(id) + be32(p.random_seed) + be16(p.state) + be32(
        p.position.x,
    ) + be32(p.position.y) + be32(p.direction.spec_bits()) + be32(p.joystick.x) + be32(p.joystick.y)
        + be32(p.cstick.x) + be32(p.cstick.y) + be32(p.triggers_logical) + be32(p.buttons_logical)
        + be16(p.buttons_physical) + be32(p.triggers_physical_l) + be32(p.triggers_physical_r)
        + gated(v.since(1, 2), seq![p.raw_analog_x.unwrap()]) + gated(
        v.since(1, 4),
        be32(p.damage.unwrap()),
    )
}

/// Appends the pre-frame event of the entity `id`.
pub fn frame_pre(out: &mut Vec<u8>, p: &Pre, v: Version, id: PortId)
    requires
        pre_ready(*p, v),
    ensures
        final(out)@ == old(out)@ + pre_bytes(*p, v, id),
{
    reveal(pre_bytes);
    let ghost start = out@;
    put_u8(out, Event::FramePre.code());
    put_id(out, id);
    put_u32(out, p.random_seed);
    put_u16(out, p.state);
    put_u32(out, p.position.x);
    put_u32(out, p.position.y);
    put_u32(out, p.direction.bits());
    put_u32(out, p.joystick.x);
    put_u32(out, p.joystick.y);
    put_u32(out, p.cstick.x);
    put_u32(out, p.cstick.y);
    put_u32(out, p.triggers_logical);
    put_u32(out, p.buttons_logical);
    put_u16(out, p.buttons_physical);
    put_u32(out, p.triggers_physical_l);
    put_u32(out, p.triggers_physical_r);
    let ghost base = out@;
    if v.at_least(version(1, 2)) {
        put_u8(out, p.raw_analog_x.unwrap());
    }
    let ghost mid = out@;
    assert(mid =~= base + gated(v.since(1, 2), seq![p.raw_analog_x.unwrap()]));
    if v.at_least(version(1, 4)) {
        put_u32(out, p.damage.unwrap());
    }
    assert(out@ =~= mid + gated(v.since(1, 4), be32(p.damage.unwrap())));
    assert(out@ =~= start + pre_bytes(*p, v, id));
}

/// The fields that a post-frame record needs at version `v` are present.
pub open spec fn post_ready(p: Post, v: Version) -> bool {
    &&& v.since(0, 2) ==> p.state_age is Some
    &&& v.since(2, 0) ==> {
        &&& p.flags is Some
        &&& p.misc_as is Some
        &&& p.airborne is Some
        &&& p.ground is Some
        &&& p.jumps is Some
        &&& p.l_cancel is Some
    }
    &&& v.since(2, 1) ==> p.hurtbox_state is Some
    &&& v.since(3, 5) ==> p.velocities is Some && p.airborne is Some
    &&& v.since(3, 8) ==> p.hitlag is Some
}

/// The L-cancel outcome as a byte: 0 for none, 1 for success, 2 for failure.
pub open spec fn l_cancel_byte(l: Option<bool>) -> u8 {
    match l {
        Some(true) => 1,
        Some(false) => 2,
        None => 0,
    }
}

/// The five velocity fields. The autogenous x velocity goes in the first
/// field for an airborne entity and in the fifth for a grounded one; the
/// other of the two holds zero.
pub open spec fn velocity_bytes(vel: crate::model::Velocities, airborne: bool) -> Seq<u8> {
    be32(if airborne { vel.autogenous.x } else { 0 }) + be32(vel.autogenous.y) + be32(vel.knockback.x)
        + be32(vel.knockback.y) + be32(if airborne { 0 } else { vel.autogenous.x })
}

/// The part of the post-frame event that every version has.
pub open spec fn post_base_bytes(p: Post, id: PortId) -> Seq<u8> {
    seq![Event::FramePost.spec_code()] + id_bytes(id) + seq![p.character] + be16(p.state) + be32(
        p.position.x,
    ) + be32(p.position.y) + be32(p.direction.spec_bits()) + be32(p.damage) + be32(p.shield) + seq![
        match p.last_attack_landed {
            Some(a) => a,
            None => 0u8,
        },
        p.combo_count,
        port_byte(p.last_hit_by),
        p.stocks,
    ]
}

/// The fields of the post-frame event added in 2.0.
pub open spec fn post_state_bytes(p: Post) -> Seq<u8> {
    le40(p.flags.unwrap()) + be32(p.misc_as.unwrap()) + seq![bool_byte(p.airborne.unwrap())] + be16(
        p.ground.unwrap(),
    ) + seq![p.jumps.unwrap(), l_cancel_byte(p.l_cancel.unwrap())]
}

/// The post-frame event.
#[verifier::opaque]
pub open spec fn post_bytes(p: Post, v: Version, id: PortId) -> Seq<u8> {
    post_base_bytes(p, id) + gated(v.since(0, 2), be32(p.state_age.unwrap())) + gated(
        v.since(2, 0),
        post_state_bytes(p),
    ) + gated(v.since(2, 1), seq![p.hurtbox_state.unwrap()]) + gated(
        v.since(3, 5),
        velocity_bytes(p.velocities.unwrap(), p.airborne.unwrap()),
    ) + gated(v.since(3, 8), be32(p.hitlag.unwrap()))
}

fn put_post_base(out: &mut Vec<u8>, p: &Post, id: PortId)
    ensures
        final(out)@ == old(out)@ + post_base_bytes(*p, id),
{
    put_u8(out, Event::FramePost.code());
    put_id(out, id);
    put_u8(out, p.character);
    put_u16(out, p.state);
    put_u32(out, p.position.x);
    put_u32(out, p.position.y);
    put_u32(out, p.direction.bits());
    put_u32(out, p.damage);
    put_u32(out, p.shield);
    put_u8(
        out,
        match p.last_attack_landed {
            Some(a) => a,
            None => 0u8,
        },
    );
    put_u8(out, p.combo_count);
    put_port(out, p.last_hit_by);
    put_u8(out, p.stocks);
    assert(final(out)@ =~= old(out)@ + post_base_bytes(*p, id));
}

fn put_post_state(out: &mut Vec<u8>, p: &Post)
    requires
        p.flags is Some,
        p.misc_as is Some,
        p.airborne is Some,
        p.ground is Some,
        p.jumps is Some,
        p.l_cancel is Some,
    ensures
        final(out)@ == old(out)@ + post_state_bytes(*p),
{
    put_le40(out, p.flags.unwrap());
    put_u32(out, p.misc_as.unwrap());
    put_bool(out, p.airborne.unwrap());
    put_u16(out, p.ground.unwrap());
    put_u8(out, p.jumps.unwrap());
    put_u8(
        out,
        match p.l_cancel.unwrap() {
            Some(true) => 1,
            Some(false) => 2,
            None => 0,
        },
    );
    assert(final(out)@ =~= old(out)@ + post_state_bytes(*p));
}

fn put_velocities(out: &mut Vec<u8>, vel: &crate::model::Velocities, airborne: bool)
    ensures
        final(out)@ == old(out)@ + velocity_bytes(*vel, airborne),
{
    put_u32(out, if airborne { vel.autogenous.x } else { 0 });
    put_u32(out, vel.autogenous.y);
    put_u32(out, vel.knockback.x);
    put_u32(out, vel.knockback.y);
    put_u32(out, if airborne { 0 } else { vel.autogenous.x });
    assert(final(out)@ =~= old(out)@ + velocity_bytes(*vel, airborne));
}

/// Appends the post-frame event of the entity `id`.
pub fn frame_post(out: &mut Vec<u8>, p: &Post, v: Version, id: PortId)
    requires
        post_ready(*p, v),
    ensures
        final(out)@ == old(out)@ + post_bytes(*p, v, id),
{
    reveal(post_bytes);
    let ghost start = out@;
    put_post_base(out, p, id);
    let ghost s0 = out@;
    if v.at_least(version(0, 2)) {
        put_u32(out, p.state_age.unwrap());
    }
    let ghost s1 = out@;
    assert(s1 =~= s0 + gated(v.since(0, 2), be32(p.state_age.unwrap())));
    if v.at_least(version(2, 0)) {
        put_post_state(out, p);
    }
    let ghost s2 = out@;
    assert(s2 =~= s1 + gated(v.since(2, 0), post_state_bytes(*p)));
    if v.at_least(version(2, 1)) {
        put_u8(out, p.hurtbox_state.unwrap());
    }
    let ghost s3 = out@;
    assert(s3 =~= s2 + gated(v.since(2, 1), seq![p.hurtbox_state.unwrap()]));
    if v.at_least(version(3, 5)) {
        put_velocities(out, &p.velocities.unwrap(), p.airborne.unwrap());
    }
    let ghost s4 = out@;
    assert(s4 =~= s3 + gated(v.since(3, 5), velocity_bytes(p.velocities.unwrap(), p.airborne.unwrap())));
    if v.at_least(version(3, 8)) {
        put_u32(out, p.hitlag.unwrap());
    }
    assert(out@ =~= s4 + gated(v.since(3, 8), be32(p.hitlag.unwrap())));
    assert(out@ =~= start + post_bytes(*p, v, id));
}

/// The fields that an item record needs at version `v` are present.
pub open spec fn item_ready(i: Item, v: Version) -> bool {
    &&& v.since(3, 2) ==> i.misc is Some
    &&& v.since(3, 6) ==> i.owner is Some
}

/// The bits of an item's direction: zero where it has none.
pub open spec fn item_direction_bits(d: Option<Direction>) -> u32 {
    match d {
        Some(d) => d.spec_bits(),
        None => 0,
    }
}

/// The item event.
#[verifier::opaque]
pub open spec fn item_bytes(i: Item, v: Version, index: i32) -> Seq<u8> {
    seq![Event::Item.spec_code()] + be_i32(index) + be16(i.item_type) + seq![i.state] + be32(
        item_direction_bits(i.direction),
    ) + be32(i.velocity.x) + be32(i.velocity.y) + be32(i.position.x) + be32(i.position.y) + be16(
        i.damage,
    ) + be32(i.timer) + be32(i.id) + gated(v.since(3, 2), i.misc.unwrap()@) + gated(
        v.since(3, 6),
        seq![port_byte(i.owner.unwrap())],
    )
}

/// Appends the item event of frame `index`.
pub fn item(out: &mut Vec<u8>, i: &Item, v: Version, index: i32)
    requires
        item_ready(*i, v),
    ensures
        final(out)@ == old(out)@ + item_bytes(*i, v, index),
{
    reveal(item_bytes);
    let ghost start = out@;
    put_u8(out, Event::Item.code());
    put_i32(out, index);
    put_u16(out, i.item_type);
    put_u8(out, i.state);
    put_u32(
        out,
        match i.direction {
            Some(d) => d.bits(),
            None => 0,
        },
    );
    put_u32(out, i.velocity.x);
    put_u32(out, i.velocity.y);
    put_u32(out, i.position.x);
    put_u32(out, i.position.y);
    put_u16(out, i.damage);
    put_u32(out, i.timer);
    put_u32(out, i.id);
    let ghost base = out@;
    if v.at_least(version(3, 2)) {
        let misc = i.misc.unwrap();
        put_all(out, misc.as_slice());
    }
    let ghost mid = out@;
    assert(mid =~= base + gated(v.since(3, 2), i.misc.unwrap()@));
    if v.at_least(version(3, 6)) {
        put_port(out, i.owner.unwrap());
    }
    assert(out@ =~= mid + gated(v.since(3, 6), seq![port_byte(i.owner.unwrap())]));
    assert(out@ =~= start + item_bytes(*i, v, index));
}

/// The frame-end event.
pub open spec fn frame_end_bytes(e: FrameEnd, v: Version, index: i32) -> Seq<u8> {
    seq![Event::FrameEnd.spec_code()] + be_i32(index) + gated(
        v.since(3, 7),
        be_i32(e.latest_finalized_frame.unwrap()),
    )
}

/// Appends the frame-end event of frame `index`.
pub fn frame_end(out: &mut Vec<u8>, e: &FrameEnd, v: Version, index: i32)
    requires
        v.since(3, 7) ==> e.latest_finalized_frame is Some,
    ensures
        final(out)@ == old(out)@ + frame_end_bytes(*e, v, index),
{
    let ghost start = out@;
    put_u8(out, Event::FrameEnd.code());
    put_i32(out, index);
    let ghost base = out@;
    if v.at_least(version(3, 7)) {
        put_i32(out, e.latest_finalized_frame.unwrap());
    }
    assert(out@ =~= base + gated(v.since(3, 7), be_i32(e.latest_finalized_frame.unwrap())));
    assert(out@ =~= start + frame_end_bytes(*e, v, index));
}

} // verus!
