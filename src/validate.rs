//! Checks that a game holds every field its version requires.
use vstd::prelude::*;
use crate::event::{item_ready, post_ready, pre_ready};
use crate::model::{Frame, Game, Item, NUM_PORTS, Player, PortData, Post, Pre, Start};
use crate::start::{player_ready, start_ready};
use crate::stream::{frame_ready, port_ready};
use crate::version::{Version, version};

verus! {

/// Every frame holds `port_count` ports.
pub open spec fn ports_consistent(fs: Seq<Frame>, port_count: nat) -> bool {
    forall|i: int| 0 <= i < fs.len() ==> (#[trigger] fs[i]).ports@.len() == port_count
}

/// Whether the pre-frame record has what version `v` requires.
pub fn check_pre(p: &Pre, v: Version) -> (r: bool)
    ensures
        r == pre_ready(*p, v),
{
    (!v.at_least(version(1, 2)) || p.raw_analog_x.is_some()) && (!v.at_least(version(1, 4))
        || p.damage.is_some())
}

/// Whether the post-frame record has what version `v` requires.
pub fn check_post(p: &Post, v: Version) -> (r: bool)
    ensures
        r == post_ready(*p, v),
{
    (!v.at_least(version(0, 2)) || p.state_age.is_some()) && (!v.at_least(version(2, 0)) || (
    p.flags.is_some() && p.misc_as.is_some() && p.airborne.is_some() && p.ground.is_some()
        && p.jumps.is_some() && p.l_cancel.is_some())) && (!v.at_least(version(2, 1))
        || p.hurtbox_state.is_some()) && (!v.at_least(version(3, 5)) || (p.velocities.is_some()
        && p.airborne.is_some())) && (!v.at_least(version(3, 8)) || p.hitlag.is_some())
}

/// Whether the item record has what version `v` requires.
pub fn check_item(i: &Item, v: Version) -> (r: bool)
    ensures
        r == item_ready(*i, v),
{
    (!v.at_least(version(3, 2)) || i.misc.is_some()) && (!v.at_least(version(3, 6))
        || i.owner.is_some())
}

fn check_port(d: &PortData, v: Version) -> (r: bool)
    ensures
        r == port_ready(*d, v),
{
    check_pre(&d.leader.pre, v) && check_post(&d.leader.post, v) && match &d.follower {
        Some(f) => check_pre(&f.pre, v) && check_post(&f.post, v),
        None => true,
    }
}

/// Whether the frame holds `port_count` ports and every record that version
/// `v` requires.
pub fn check_frame(f: &Frame, v: Version, port_count: usize) -> (r: bool)
    ensures
        r == frame_ready(*f, v, port_count as nat),
{
    if f.ports.len() != port_count {
        return false;
    }
    let mut j: usize = 0;
    while j < f.ports.len()
        invariant
            j <= f.ports@.len(),
            forall|k: int| 0 <= k < j ==> port_ready(#[trigger] f.ports@[k], v),
        decreases f.ports@.len() - j,
    {
        if !check_port(&f.ports[j], v) {
            return false;
        }
        j = j + 1;
    }
    if v.at_least(version(2, 2)) && f.start.is_none() {
        return false;
    }
    if v.at_least(version(3, 0)) {
        match (&f.items, &f.end) {
            (Some(items), Some(end)) => {
                let mut k: usize = 0;
                while k < items.len()
                    invariant
                        k <= items@.len(),
                        v.since(3, 0),
                        f.items is Some && f.items->Some_0 == *items,
                        forall|m: int| 0 <= m < k ==> item_ready(#[trigger] items@[m], v),
                    decreases items@.len() - k,
                {
                    if !check_item(&items[k], v) {
                        return false;
                    }
                    k = k + 1;
                }
                if v.at_least(version(3, 7)) && end.latest_finalized_frame.is_none() {
                    return false;
                }
            },
            _ => {
                return false;
            },
        }
    }
    true
}

fn check_player(p: &Player, v: Version) -> (r: bool)
    ensures
        r == player_ready(*p, v),
{
    (!v.at_least(version(1, 0)) || p.ucf.is_some()) && (!v.at_least(version(1, 3))
        || p.name_tag.is_some()) && (!v.at_least(version(3, 9)) || p.netplay.is_some())
}

/// Whether the start record has what its version requires and lists no more
/// players than there are ports.
pub fn check_start(s: &Start) -> (r: bool)
    ensures
        r == start_ready(*s),
{
    let v = s.version;
    if s.players.len() > NUM_PORTS {
        return false;
    }
    if v.at_least(version(1, 5)) && s.is_pal.is_none() {
        return false;
    }
    if v.at_least(version(2, 0)) && s.is_frozen_ps.is_none() {
        return false;
    }
    if v.at_least(version(3, 7)) && s.scene.is_none() {
        return false;
    }
    let mut i: usize = 0;
    while i < s.players.len()
        invariant
            i <= s.players@.len(),
            v == s.version,
            forall|k: int| 0 <= k < i ==> player_ready(#[trigger] s.players@[k], v),
        decreases s.players@.len() - i,
    {
        if !check_player(&s.players[i], v) {
            return false;
        }
        i = i + 1;
    }
    true
}

/// Whether every frame holds `port_count` ports.
pub fn check_port_counts(fs: &Vec<Frame>, port_count: usize) -> (r: bool)
    ensures
        r == ports_consistent(fs@, port_count as nat),
{
    let mut i: usize = 0;
    while i < fs.len()
        invariant
            i <= fs@.len(),
            forall|k: int| 0 <= k < i ==> (#[trigger] fs@[k]).ports@.len() == port_count,
        decreases fs@.len() - i,
    {
        if fs[i].ports.len() != port_count {
            return false;
        }
        i = i + 1;
    }
    true
}

/// Whether every frame has what version `v` requires.
pub fn check_frames(fs: &Vec<Frame>, v: Version, port_count: usize) -> (r: bool)
    ensures
        r == (forall|i: int| 0 <= i < fs@.len() ==> frame_ready(#[trigger] fs@[i], v, port_count as nat)),
{
    let mut i: usize = 0;
    while i < fs.len()
        invariant
            i <= fs@.len(),
            forall|k: int| 0 <= k < i ==> frame_ready(#[trigger] fs@[k], v, port_count as nat),
        decreases fs@.len() - i,
    {
        if !check_frame(&fs[i], v, port_count) {
            return false;
        }
        i = i + 1;
    }
    true
}

} // verus!
