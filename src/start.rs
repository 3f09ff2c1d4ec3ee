//! The session-start event: rebuilt field by field, or replayed from the
//! captured bytes.
use vstd::prelude::*;
use crate::bytes::{be16, be32, put_all, put_range, put_u16, put_u32, put_u8, put_zeros, zeros};
use crate::error::UnparseError;
use crate::event::{bool_byte, gated};
use crate::gate::Event;
use crate::model::{MAX_PLAYERS, NUM_PORTS, Player, Start};
use crate::text::{text_field, text_fits, write_shift_jis};
use crate::version::version;

verus! {

/// The player type that marks an empty slot.
pub const EMPTY_PLAYER_TYPE: u8 = 3;

/// The byte budget of a name tag.
pub const NAME_TAG_SIZE: usize = 16;

/// The byte budget of a netplay name.
pub const NETPLAY_NAME_SIZE: usize = 31;

/// The byte budget of a netplay code.
pub const NETPLAY_CODE_SIZE: usize = 10;

/// The fields of the start record that its version requires are present, and
/// it lists no more players than there are ports.
pub open spec fn start_ready(s: Start) -> bool {
    let v = s.version;
    let ps = s.players@;
    &&& ps.len() <= NUM_PORTS
    &&& v.since(1, 5) ==> s.is_pal is Some
    &&& v.since(2, 0) ==> s.is_frozen_ps is Some
    &&& v.since(3, 7) ==> s.scene is Some
    &&& forall|i: int| 0 <= i < ps.len() ==> player_ready(#[trigger] ps[i], v)
}

/// The fields of a player that version `v` requires are present.
pub open spec fn player_ready(p: Player, v: crate::version::Version) -> bool {
    &&& v.since(1, 0) ==> p.ucf is Some
    &&& v.since(1, 3) ==> p.name_tag is Some
    &&& v.since(3, 9) ==> p.netplay is Some
}

/// Every text field that the start record's version writes fits its budget.
pub open spec fn start_texts_fit(s: Start) -> bool {
    let v = s.version;
    let ps = s.players@;
    forall|i: int|
        0 <= i < ps.len() ==> {
            &&& v.since(1, 3) ==> text_fits(
                (#[trigger] ps[i]).name_tag.unwrap()@,
                NAME_TAG_SIZE as nat,
            )
            &&& v.since(3, 9) ==> text_fits(ps[i].netplay.unwrap().name@, NETPLAY_NAME_SIZE as nat)
                && text_fits(ps[i].netplay.unwrap().code@, NETPLAY_CODE_SIZE as nat)
        }
}

/// The fixed fields before the player blocks.
#[verifier::opaque]
pub open spec fn header_bytes(s: Start) -> Seq<u8> {
    let u = s.unmapped@;
    seq![s.version.major, s.version.minor, s.version.revision, 0u8] + s.bitfield@ + u.subrange(0, 2)
        + seq![bool_byte(s.is_raining_bombs)] + u.subrange(2, 3) + seq![bool_byte(s.is_teams)]
        + u.subrange(3, 5) + seq![s.item_spawn_frequency as u8, s.self_destruct_score as u8]
        + u.subrange(5, 6) + be16(s.stage) + be32(s.timer) + u.subrange(6, 21)
        + s.item_spawn_bitfield@ + u.subrange(21, 29) + be32(s.damage_ratio) + u.subrange(29, 73)
}

/// One player's block of 36 bytes.
pub open spec fn player_bytes(p: Player) -> Seq<u8> {
    let u = p.unmapped@;
    seq![p.character, p.player_type, p.stocks, p.costume] + u.subrange(0, 3) + seq![
        match p.team {
            Some(t) => t.shade,
            None => 0u8,
        },
        p.handicap,
        match p.team {
            Some(t) => t.color,
            None => 0u8,
        },
    ] + u.subrange(3, 5) + seq![p.bitfield] + u.subrange(5, 7) + seq![
        match p.cpu_level {
            Some(c) => c,
            None => 0u8,
        },
    ] + u.subrange(7, 11) + be32(p.offense_ratio) + be32(p.defense_ratio) + be32(p.model_scale)
        + u.subrange(11, 15)
}

/// The blocks of the listed players.
pub open spec fn players_bytes(ps: Seq<Player>) -> Seq<u8>
    decreases ps.len(),
{
    if ps.len() == 0 {
        seq![]
    } else {
        players_bytes(ps.drop_last()) + player_bytes(ps.last())
    }
}

/// The block of an empty player slot.
pub open spec fn empty_slot() -> Seq<u8> {
    seq![0u8, EMPTY_PLAYER_TYPE] + zeros(34)
}

/// `n` empty player blocks.
pub open spec fn empty_slots(n: nat) -> Seq<u8>
    decreases n,
{
    if n == 0 {
        seq![]
    } else {
        empty_slots((n - 1) as nat) + empty_slot()
    }
}

/// One player's UCF settings: dash-back, then shield-drop, zero where unset.
pub open spec fn ucf_player_bytes(p: Player) -> Seq<u8> {
    let u = p.ucf.unwrap();
    be32(
        match u.dash_back {
            Some(d) => d,
            None => 0u32,
        },
    ) + be32(
        match u.shield_drop {
            Some(d) => d,
            None => 0u32,
        },
    )
}

/// The UCF settings of the listed players.
pub open spec fn ucf_bytes(ps: Seq<Player>) -> Seq<u8>
    decreases ps.len(),
{
    if ps.len() == 0 {
        seq![]
    } else {
        ucf_bytes(ps.drop_last()) + ucf_player_bytes(ps.last())
    }
}

/// The name tags of the listed players.
pub open spec fn name_tags_bytes(ps: Seq<Player>) -> Seq<u8>
    decreases ps.len(),
{
    if ps.len() == 0 {
        seq![]
    } else {
        name_tags_bytes(ps.drop_last()) + text_field(ps.last().name_tag.unwrap()@, NAME_TAG_SIZE as nat)
    }
}

/// One player's netplay name and code.
pub open spec fn netplay_player_bytes(p: Player) -> Seq<u8> {
    text_field(p.netplay.unwrap().name@, NETPLAY_NAME_SIZE as nat) + text_field(
        p.netplay.unwrap().code@,
        NETPLAY_CODE_SIZE as nat,
    )
}

/// The netplay identities of the listed players.
pub open spec fn netplays_bytes(ps: Seq<Player>) -> Seq<u8>
    decreases ps.len(),
{
    if ps.len() == 0 {
        seq![]
    } else {
        netplays_bytes(ps.drop_last()) + netplay_player_bytes(ps.last())
    }
}

/// The fields before the version-gated sections: header, player blocks
/// padded with empty slots, random seed.
pub open spec fn fixed_bytes(s: Start) -> Seq<u8> {
    header_bytes(s) + players_bytes(s.players@) + empty_slots((MAX_PLAYERS - s.players@.len()) as nat)
        + be32(s.random_seed)
}

/// The number of ports with no player.
pub open spec fn empty_ports(s: Start) -> nat {
    (NUM_PORTS - s.players@.len()) as nat
}

/// The UCF section (from 1.0), zero-filled for empty ports.
pub open spec fn ucf_section(s: Start) -> Seq<u8> {
    gated(s.version.since(1, 0), ucf_bytes(s.players@) + zeros(8 * empty_ports(s)))
}

/// The name-tag section (from 1.3), zero-filled for empty ports.
pub open spec fn name_tag_section(s: Start) -> Seq<u8> {
    gated(s.version.since(1, 3), name_tags_bytes(s.players@) + zeros(16 * empty_ports(s)))
}

/// The region flag (from 1.5), the frozen-stage flag (from 2.0) and the scene
/// (from 3.7).
pub open spec fn flags_section(s: Start) -> Seq<u8> {
    let v = s.version;
    gated(v.since(1, 5), seq![bool_byte(s.is_pal.unwrap())]) + gated(
        v.since(2, 0),
        seq![bool_byte(s.is_frozen_ps.unwrap())],
    ) + gated(v.since(3, 7), seq![s.scene.unwrap().minor, s.scene.unwrap().major])
}

/// The netplay section (from 3.9), zero-filled for empty ports.
pub open spec fn netplay_section(s: Start) -> Seq<u8> {
    gated(s.version.since(3, 9), netplays_bytes(s.players@) + zeros(41 * empty_ports(s)))
}

/// The version-gated sections of the session-start payload.
pub open spec fn trailer_bytes(s: Start) -> Seq<u8> {
    ucf_section(s) + name_tag_section(s) + flags_section(s) + netplay_section(s)
}

/// The session-start payload, rebuilt field by field.
pub open spec fn start_payload(s: Start) -> Seq<u8> {
    fixed_bytes(s) + trailer_bytes(s)
}

/// The session-start event, rebuilt field by field.
pub open spec fn game_start_bytes(s: Start) -> Seq<u8> {
    seq![Event::GameStart.spec_code()] + start_payload(s)
}

/// The session-start event, replaying the captured payload.
pub open spec fn game_start_raw_bytes(s: Start) -> Seq<u8> {
    seq![Event::GameStart.spec_code()] + s.raw_bytes@
}

fn put_header(out: &mut Vec<u8>, s: &Start)
    ensures
        final(out)@ == old(out)@ + header_bytes(*s),
{
    reveal(header_bytes);
    let u = s.unmapped.as_slice();
    put_u8(out, s.version.major);
    put_u8(out, s.version.minor);
    put_u8(out, s.version.revision);
    put_u8(out, 0);
    put_all(out, s.bitfield.as_slice());
    put_range(out, u, 0, 2);
    put_u8(out, if s.is_raining_bombs { 1 } else { 0 });
    put_range(out, u, 2, 3);
    put_u8(out, if s.is_teams { 1 } else { 0 });
    put_range(out, u, 3, 5);
    put_u8(out, s.item_spawn_frequency as u8);
    put_u8(out, s.self_destruct_score as u8);
    put_range(out, u, 5, 6);
    put_u16(out, s.stage);
    put_u32(out, s.timer);
    put_range(out, u, 6, 21);
    put_all(out, s.item_spawn_bitfield.as_slice());
    put_range(out, u, 21, 29);
    put_u32(out, s.damage_ratio);
    put_range(out, u, 29, 73);
    assert(final(out)@ =~= old(out)@ + header_bytes(*s));
}

fn put_player(out: &mut Vec<u8>, p: &Player)
    ensures
        final(out)@ == old(out)@ + player_bytes(*p),
{
    let u = p.unmapped.as_slice();
    put_u8(out, p.character);
    put_u8(out, p.player_type);
    put_u8(out, p.stocks);
    put_u8(out, p.costume);
    put_range(out, u, 0, 3);
    put_u8(
        out,
        match p.team {
            Some(t) => t.shade,
            None => 0u8,
        },
    );
    put_u8(out, p.handicap);
    put_u8(
        out,
        match p.team {
            Some(t) => t.color,
            None => 0u8,
        },
    );
    put_range(out, u, 3, 5);
    put_u8(out, p.bitfield);
    put_range(out, u, 5, 7);
    put_u8(
        out,
        match p.cpu_level {
            Some(c) => c,
            None => 0u8,
        },
    );
    put_range(out, u, 7, 11);
    put_u32(out, p.offense_ratio);
    put_u32(out, p.defense_ratio);
    put_u32(out, p.model_scale);
    put_range(out, u, 11, 15);
    assert(final(out)@ =~= old(out)@ + player_bytes(*p));
}

fn put_players(out: &mut Vec<u8>, ps: &Vec<Player>)
    requires
        ps@.len() <= MAX_PLAYERS,
    ensures
        final(out)@ == old(out)@ + players_bytes(ps@) + empty_slots((MAX_PLAYERS - ps@.len()) as nat),
{
    let ghost start = out@;
    let mut i: usize = 0;
    while i < ps.len()
        invariant
            i <= ps@.len(),
            out@ == start + players_bytes(ps@.take(i as int)),
        decreases ps@.len() - i,
    {
        put_player(out, &ps[i]);
        assert(ps@.take(i as int + 1).drop_last() =~= ps@.take(i as int));
        i = i + 1;
        assert(out@ =~= start + players_bytes(ps@.take(i as int)));
    }
    assert(ps@.take(ps@.len() as int) =~= ps@);
    let ghost mid = out@;
    let mut j: usize = ps.len();
    while j < MAX_PLAYERS
        invariant
            ps@.len() <= j <= MAX_PLAYERS,
            out@ == mid + empty_slots((j - ps@.len()) as nat),
        decreases MAX_PLAYERS - j,
    {
        put_u8(out, 0);
        put_u8(out, EMPTY_PLAYER_TYPE);
        put_zeros(out, 34);
        j = j + 1;
        assert(out@ =~= mid + empty_slots((j - ps@.len()) as nat));
    }
    assert(out@ =~= start + players_bytes(ps@) + empty_slots((MAX_PLAYERS - ps@.len()) as nat));
}

fn put_ucf(out: &mut Vec<u8>, ps: &Vec<Player>)
    requires
        forall|i: int| 0 <= i < ps@.len() ==> (#[trigger] ps@[i]).ucf is Some,
    ensures
        final(out)@ == old(out)@ + ucf_bytes(ps@),
{
    let ghost start = out@;
    let mut i: usize = 0;
    while i < ps.len()
        invariant
            i <= ps@.len(),
            forall|k: int| 0 <= k < ps@.len() ==> (#[trigger] ps@[k]).ucf is Some,
            out@ == start + ucf_bytes(ps@.take(i as int)),
        decreases ps@.len() - i,
    {
        let u = ps[i].ucf.unwrap();
        put_u32(
            out,
            match u.dash_back {
                Some(d) => d,
                None => 0u32,
            },
        );
        put_u32(
            out,
            match u.shield_drop {
                Some(d) => d,
                None => 0u32,
            },
        );
        assert(ps@.take(i as int + 1).drop_last() =~= ps@.take(i as int));
        i = i + 1;
        assert(out@ =~= start + ucf_bytes(ps@.take(i as int)));
    }
    assert(ps@.take(ps@.len() as int) =~= ps@);
}

fn put_name_tags(out: &mut Vec<u8>, ps: &Vec<Player>) -> (r: Result<(), UnparseError>)
    requires
        forall|i: int| 0 <= i < ps@.len() ==> (#[trigger] ps@[i]).name_tag is Some,
    ensures
        r is Ok <==> forall|i: int|
            0 <= i < ps@.len() ==> text_fits(
                (#[trigger] ps@[i]).name_tag.unwrap()@,
                NAME_TAG_SIZE as nat,
            ),
        r is Ok ==> final(out)@ == old(out)@ + name_tags_bytes(ps@),
        r is Err ==> r == Err::<(), UnparseError>(UnparseError::TextTooLong),
{
    let ghost start = out@;
    let mut i: usize = 0;
    while i < ps.len()
        invariant
            i <= ps@.len(),
            forall|k: int| 0 <= k < ps@.len() ==> (#[trigger] ps@[k]).name_tag is Some,
            forall|k: int|
                0 <= k < i ==> text_fits(
                    (#[trigger] ps@[k]).name_tag.unwrap()@,
                    NAME_TAG_SIZE as nat,
                ),
            out@ == start + name_tags_bytes(ps@.take(i as int)),
        decreases ps@.len() - i,
    {
        let tag = ps[i].name_tag.as_ref().unwrap();
        let r = write_shift_jis(out, tag, NAME_TAG_SIZE);
        if r.is_err() {
            return r;
        }
        assert(ps@.take(i as int + 1).drop_last() =~= ps@.take(i as int));
        i = i + 1;
        assert(out@ =~= start + name_tags_bytes(ps@.take(i as int)));
    }
    assert(ps@.take(ps@.len() as int) =~= ps@);
    Ok(())
}

fn put_netplays(out: &mut Vec<u8>, ps: &Vec<Player>) -> (r: Result<(), UnparseError>)
    requires
        forall|i: int| 0 <= i < ps@.len() ==> (#[trigger] ps@[i]).netplay is Some,
    ensures
        r is Ok <==> forall|i: int|
            0 <= i < ps@.len() ==> text_fits(
                (#[trigger] ps@[i]).netplay.unwrap().name@,
                NETPLAY_NAME_SIZE as nat,
            ) && text_fits(ps@[i].netplay.unwrap().code@, NETPLAY_CODE_SIZE as nat),
        r is Ok ==> final(out)@ == old(out)@ + netplays_bytes(ps@),
        r is Err ==> r == Err::<(), UnparseError>(UnparseError::TextTooLong),
{
    let ghost start = out@;
    let mut i: usize = 0;
    while i < ps.len()
        invariant
            i <= ps@.len(),
            forall|k: int| 0 <= k < ps@.len() ==> (#[trigger] ps@[k]).netplay is Some,
            forall|k: int|
                0 <= k < i ==> text_fits(
                    (#[trigger] ps@[k]).netplay.unwrap().name@,
                    NETPLAY_NAME_SIZE as nat,
                ) && text_fits(ps@[k].netplay.unwrap().code@, NETPLAY_CODE_SIZE as nat),
            out@ == start + netplays_bytes(ps@.take(i as int)),
        decreases ps@.len() - i,
    {
        let netplay = ps[i].netplay.as_ref().unwrap();
        let r = write_shift_jis(out, &netplay.name, NETPLAY_NAME_SIZE);
        if r.is_err() {
            return r;
        }
        let r = write_shift_jis(out, &netplay.code, NETPLAY_CODE_SIZE);
        if r.is_err() {
            return r;
        }
        assert(ps@.take(i as int + 1).drop_last() =~= ps@.take(i as int));
        i = i + 1;
        assert(out@ =~= start + netplays_bytes(ps@.take(i as int)));
    }
    assert(ps@.take(ps@.len() as int) =~= ps@);
    Ok(())
}

fn put_fixed(out: &mut Vec<u8>, s: &Start)
    requires
        s.players@.len() <= NUM_PORTS,
    ensures
        final(out)@ == old(out)@ + fixed_bytes(*s),
{
    put_header(out, s);
    put_players(out, &s.players);
    put_u32(out, s.random_seed);
    assert(final(out)@ =~= old(out)@ + fixed_bytes(*s));
}

fn put_ucf_section(out: &mut Vec<u8>, s: &Start)
    requires
        start_ready(*s),
    ensures
        final(out)@ == old(out)@ + ucf_section(*s),
{
    let ghost pv = s.players@;
    if s.version.at_least(version(1, 0)) {
        assert forall|i: int| 0 <= i < pv.len() implies (#[trigger] pv[i]).ucf is Some by {
            assert(player_ready(pv[i], s.version));
        }
        put_ucf(out, &s.players);
        put_zeros(out, 8 * (NUM_PORTS - s.players.len()));
    }
    assert(final(out)@ =~= old(out)@ + ucf_section(*s));
}

fn put_name_tag_section(out: &mut Vec<u8>, s: &Start) -> (r: Result<(), UnparseError>)
    requires
        start_ready(*s),
    ensures
        r is Ok <==> (s.version.since(1, 3) ==> forall|i: int|
            0 <= i < s.players@.len() ==> text_fits(
                (#[trigger] s.players@[i]).name_tag.unwrap()@,
                NAME_TAG_SIZE as nat,
            )),
        r is Ok ==> final(out)@ == old(out)@ + name_tag_section(*s),
        r is Err ==> r == Err::<(), UnparseError>(UnparseError::TextTooLong),
{
    let ghost pv = s.players@;
    if s.version.at_least(version(1, 3)) {
        assert forall|i: int| 0 <= i < pv.len() implies (#[trigger] pv[i]).name_tag is Some by {
            assert(player_ready(pv[i], s.version));
        }
        let r = put_name_tags(out, &s.players);
        if r.is_err() {
            return r;
        }
        put_zeros(out, 16 * (NUM_PORTS - s.players.len()));
    }
    assert(final(out)@ =~= old(out)@ + name_tag_section(*s));
    Ok(())
}

fn put_flags_section(out: &mut Vec<u8>, s: &Start)
    requires
        start_ready(*s),
    ensures
        final(out)@ == old(out)@ + flags_section(*s),
{
    let v = s.version;
    if v.at_least(version(1, 5)) {
        put_u8(out, if s.is_pal.unwrap() { 1 } else { 0 });
    }
    if v.at_least(version(2, 0)) {
        put_u8(out, if s.is_frozen_ps.unwrap() { 1 } else { 0 });
    }
    if v.at_least(version(3, 7)) {
        put_u8(out, s.scene.unwrap().minor);
        put_u8(out, s.scene.unwrap().major);
    }
    assert(final(out)@ =~= old(out)@ + flags_section(*s));
}

fn put_netplay_section(out: &mut Vec<u8>, s: &Start) -> (r: Result<(), UnparseError>)
    requires
        start_ready(*s),
    ensures
        r is Ok <==> (s.version.since(3, 9) ==> forall|i: int|
            0 <= i < s.players@.len() ==> text_fits(
                (#[trigger] s.players@[i]).netplay.unwrap().name@,
                NETPLAY_NAME_SIZE as nat,
            ) && text_fits(s.players@[i].netplay.unwrap().code@, NETPLAY_CODE_SIZE as nat)),
        r is Ok ==> final(out)@ == old(out)@ + netplay_section(*s),
        r is Err ==> r == Err::<(), UnparseError>(UnparseError::TextTooLong),
{
    let ghost pv = s.players@;
    if s.version.at_least(version(3, 9)) {
        assert forall|i: int| 0 <= i < pv.len() implies (#[trigger] pv[i]).netplay is Some by {
            assert(player_ready(pv[i], s.version));
        }
        let r = put_netplays(out, &s.players);
        if r.is_err() {
            return r;
        }
        put_zeros(out, 41 * (NUM_PORTS - s.players.len()));
    }
    assert(final(out)@ =~= old(out)@ + netplay_section(*s));
    Ok(())
}

/// Appends the session-start event, rebuilt field by field. Fails when a
/// text field does not fit its budget.
pub fn game_start(out: &mut Vec<u8>, s: &Start) -> (r: Result<(), UnparseError>)
    requires
        start_ready(*s),
    ensures
        r is Ok <==> start_texts_fit(*s),
        r is Ok ==> final(out)@ == old(out)@ + game_start_bytes(*s),
        r is Err ==> r == Err::<(), UnparseError>(UnparseError::TextTooLong),
{
    let ghost start = out@;
    put_u8(out, Event::GameStart.code());
    put_fixed(out, s);
    put_ucf_section(out, s);
    let r = put_name_tag_section(out, s);
    if r.is_err() {
        return r;
    }
    put_flags_section(out, s);
    let r = put_netplay_section(out, s);
    if r.is_err() {
        return r;
    }
    assert(out@ =~= start + game_start_bytes(*s));
    Ok(())
}

/// Appends the session-start event, replaying the captured payload as it
/// stands.
pub fn game_start_raw(out: &mut Vec<u8>, s: &Start)
    ensures
        final(out)@ == old(out)@ + game_start_raw_bytes(*s),
{
    put_u8(out, Event::GameStart.code());
    put_all(out, s.raw_bytes.as_slice());
    assert(final(out)@ =~= old(out)@ + game_start_raw_bytes(*s));
}

} // verus!
