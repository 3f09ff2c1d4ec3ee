use peppi::envelope::{unparse, unparse_with, StartEncoding};
use peppi::error::UnparseError;
use peppi::event::{frame_end, frame_post, frame_pre, frame_start, game_end, item, PortId};
use peppi::gate::{payload_sizes, start_size, Event, PAYLOADS_EVENT_CODE};
use peppi::model::{
    Data, Direction, End, Frame, FrameEnd, FrameStart, Game, Item, MetaValue, Netplay, Player, Point,
    Port, PortData, Post, Pre, Scene, Start, Team, Ucf, Velocities,
};
use peppi::start::game_start;
use peppi::stream::frames;
use peppi::ubjson::put_value;
use peppi::version::{version, Version};

fn ver(major: u8, minor: u8, revision: u8) -> Version {
    Version { major, minor, revision }
}

fn pt(x: f32, y: f32) -> Point {
    Point { x: x.to_bits(), y: y.to_bits() }
}

fn be32(n: u32) -> Vec<u8> {
    n.to_be_bytes().to_vec()
}

fn pre_rec() -> Pre {
    Pre {
        random_seed: 0x0102_0304,
        state: 14,
        position: pt(1.5, -2.0),
        direction: Direction::Right,
        joystick: pt(0.0, 0.5),
        cstick: pt(0.0, 0.0),
        triggers_logical: 0.25f32.to_bits(),
        buttons_logical: 0x8000_0001,
        buttons_physical: 0x0102,
        triggers_physical_l: 0.0f32.to_bits(),
        triggers_physical_r: 1.0f32.to_bits(),
        raw_analog_x: Some(7),
        damage: Some(12.0f32.to_bits()),
    }
}

fn post_rec(airborne: bool) -> Post {
    Post {
        character: 2,
        state: 20,
        position: pt(3.0, 4.0),
        direction: Direction::Left,
        damage: 30.0f32.to_bits(),
        shield: 60.0f32.to_bits(),
        last_attack_landed: Some(5),
        combo_count: 1,
        last_hit_by: None,
        stocks: 4,
        state_age: Some(2.0f32.to_bits()),
        flags: Some(0x0102_0304_0506_0708),
        misc_as: Some(0),
        airborne: Some(airborne),
        ground: Some(3),
        jumps: Some(1),
        l_cancel: Some(None),
        hurtbox_state: Some(0),
        velocities: Some(Velocities { autogenous: pt(2.0, -1.0), knockback: pt(0.5, 0.25) }),
        hitlag: Some(0.0f32.to_bits()),
    }
}

fn item_rec() -> Item {
    Item {
        item_type: 0x63,
        state: 1,
        direction: None,
        velocity: pt(0.0, 0.0),
        position: pt(10.0, 20.0),
        damage: 0,
        timer: 100.0f32.to_bits(),
        id: 9,
        misc: Some([1, 2, 3, 4]),
        owner: Some(Some(Port::Second)),
    }
}

fn player(name_tag: &str) -> Player {
    Player {
        character: 9,
        player_type: 0,
        stocks: 4,
        costume: 1,
        team: None,
        handicap: 9,
        bitfield: 0xc0,
        cpu_level: None,
        offense_ratio: 1.0f32.to_bits(),
        defense_ratio: 1.0f32.to_bits(),
        model_scale: 1.0f32.to_bits(),
        unmapped: [0; 15],
        ucf: Some(Ucf { dash_back: Some(1), shield_drop: None }),
        name_tag: Some(name_tag.to_string()),
        netplay: Some(Netplay { name: "abc".to_string(), code: "ABC#123".to_string() }),
    }
}

fn start_rec(v: Version, players: Vec<Player>) -> Start {
    Start {
        version: v,
        bitfield: [1, 2, 3, 4],
        is_raining_bombs: false,
        is_teams: true,
        item_spawn_frequency: -1,
        self_destruct_score: -1,
        stage: 31,
        timer: 480,
        item_spawn_bitfield: [5, 6, 7, 8, 9],
        damage_ratio: 1.0f32.to_bits(),
        players,
        random_seed: 0xdead_beef,
        unmapped: [0; 73],
        is_pal: Some(false),
        is_frozen_ps: Some(true),
        scene: Some(Scene { minor: 2, major: 8 }),
        raw_bytes: vec![],
    }
}

fn port(follower: bool) -> PortData {
    let d = Data { pre: pre_rec(), post: post_rec(true) };
    PortData { leader: d, follower: if follower { Some(d) } else { None } }
}

fn frame(ports: Vec<PortData>, items: Vec<Item>) -> Frame {
    Frame {
        start: Some(FrameStart { random_seed: 42 }),
        ports,
        items: Some(items),
        end: Some(FrameEnd { latest_finalized_frame: Some(-123) }),
    }
}

fn game(v: Version, port_count: usize, frames: Vec<Frame>) -> Game {
    let players = (0..port_count).map(|_| player("AB")).collect();
    Game {
        start: start_rec(v, players),
        end: End { method: 2, lras_initiator: Some(None) },
        port_count,
        frames,
        metadata: vec![("lastFrame".to_string(), MetaValue::Int(100))],
    }
}

fn id(index: i32) -> PortId {
    PortId::new(index, 0, false).unwrap()
}

#[test]
fn versions_compare_lexicographically() {
    assert!(ver(3, 0, 0).at_least(ver(2, 9, 9)));
    assert!(ver(2, 1, 3).at_least(ver(2, 1, 3)));
    assert!(!ver(2, 1, 2).at_least(ver(2, 1, 3)));
    assert!(!ver(1, 9, 0).at_least(version(2, 0)));
    assert_eq!(version(3, 7), ver(3, 7, 0));
}

#[test]
fn payload_sizes_follow_the_thresholds() {
    let size_of = |v: Version, e: Event| payload_sizes(v, 0).iter().find(|x| x.0 == e).map(|x| x.1);
    assert_eq!(size_of(ver(0, 1, 0), Event::FramePost), Some(33));
    assert_eq!(size_of(ver(0, 2, 0), Event::FramePost), Some(37));
    assert_eq!(size_of(ver(2, 0, 0), Event::FramePost), Some(51));
    assert_eq!(size_of(ver(2, 1, 0), Event::FramePost), Some(52));
    assert_eq!(size_of(ver(3, 5, 0), Event::FramePost), Some(72));
    assert_eq!(size_of(ver(3, 8, 0), Event::FramePost), Some(76));
    assert_eq!(size_of(ver(1, 1, 0), Event::FramePre), Some(58));
    assert_eq!(size_of(ver(1, 2, 0), Event::FramePre), Some(59));
    assert_eq!(size_of(ver(1, 4, 0), Event::FramePre), Some(63));
    assert_eq!(size_of(ver(2, 9, 0), Event::Item), None);
    assert_eq!(size_of(ver(3, 0, 0), Event::Item), Some(37));
    assert_eq!(size_of(ver(3, 2, 0), Event::Item), Some(41));
    assert_eq!(size_of(ver(3, 6, 0), Event::Item), Some(42));
    assert_eq!(size_of(ver(3, 0, 0), Event::FrameEnd), Some(4));
    assert_eq!(size_of(ver(3, 7, 0), Event::FrameEnd), Some(8));
    assert_eq!(size_of(ver(2, 1, 0), Event::FrameStart), None);
    assert_eq!(size_of(ver(2, 2, 0), Event::FrameStart), Some(8));
    assert_eq!(size_of(ver(1, 0, 0), Event::GameEnd), Some(1));
    assert_eq!(size_of(ver(2, 0, 0), Event::GameEnd), Some(2));
}

#[test]
fn start_sizes_follow_the_thresholds() {
    assert_eq!(start_size(ver(0, 1, 0)), 320);
    assert_eq!(start_size(ver(1, 0, 0)), 352);
    assert_eq!(start_size(ver(1, 3, 0)), 416);
    assert_eq!(start_size(ver(3, 7, 0)), 420);
    assert_eq!(start_size(ver(3, 9, 0)), 584);
}

#[test]
fn payload_table_is_declared_in_order() {
    let t = payload_sizes(ver(3, 0, 0), 420);
    let codes: Vec<u8> = t.iter().map(|x| x.0.code()).collect();
    assert_eq!(codes, vec![0x36, 0x37, 0x38, 0x39, 0x3a, 0x3b, 0x3c]);
    assert_eq!(t[0].1, 420);
    assert_eq!(payload_sizes(ver(2, 1, 0), 400).len(), 4);
}

#[test]
fn one_player_start_at_1_0() {
    let mut p = player("");
    p.ucf = Some(Ucf { dash_back: Some(1), shield_drop: Some(2) });
    p.team = Some(Team { color: 2, shade: 1 });
    p.cpu_level = Some(9);
    p.unmapped = [0xaa; 15];
    let mut s = start_rec(ver(1, 0, 0), vec![p.clone()]);
    s.unmapped = [0xbb; 73];
    let mut out = Vec::new();
    assert_eq!(game_start(&mut out, &s), Ok(()));

    let mut e: Vec<u8> = vec![0x36, 1, 0, 0, 0, 1, 2, 3, 4, 0xbb, 0xbb, 0, 0xbb, 1, 0xbb, 0xbb, 0xff, 0xff, 0xbb];
    e.extend_from_slice(&[0, 31]);
    e.extend(be32(480));
    e.extend_from_slice(&[0xbb; 15]);
    e.extend_from_slice(&[5, 6, 7, 8, 9]);
    e.extend_from_slice(&[0xbb; 8]);
    e.extend(be32(1.0f32.to_bits()));
    e.extend_from_slice(&[0xbb; 44]);
    assert_eq!(e.len(), 101);
    e.extend_from_slice(&[9, 0, 4, 1, 0xaa, 0xaa, 0xaa, 1, 9, 2, 0xaa, 0xaa, 0xc0, 0xaa, 0xaa, 9]);
    e.extend_from_slice(&[0xaa; 4]);
    e.extend(be32(0x3f80_0000));
    e.extend(be32(0x3f80_0000));
    e.extend(be32(0x3f80_0000));
    e.extend_from_slice(&[0xaa; 4]);
    for _ in 0..5 {
        e.extend_from_slice(&[0, 3]);
        e.extend_from_slice(&[0; 34]);
    }
    e.extend(be32(0xdead_beef));
    e.extend(be32(1));
    e.extend(be32(2));
    e.extend_from_slice(&[0; 24]);
    assert_eq!(e.len(), 1 + 352);
    assert_eq!(out, e);
}

#[test]
fn start_length_is_independent_of_player_count() {
    for v in [ver(1, 0, 0), ver(1, 3, 0), ver(2, 0, 0), ver(3, 9, 0)] {
        let mut one = Vec::new();
        let mut four = Vec::new();
        game_start(&mut one, &start_rec(v, vec![player("A")])).unwrap();
        let ps = vec![player("A"), player("BB"), player("CCC"), player("DDDD")];
        game_start(&mut four, &start_rec(v, ps)).unwrap();
        assert_eq!(one.len(), four.len());
        assert_eq!(one.len(), 1 + start_size(v) as usize);
    }
}

#[test]
fn name_tag_is_shift_jis_and_padded() {
    let s = start_rec(ver(1, 3, 0), vec![player("\u{3042}")]);
    let mut out = Vec::new();
    game_start(&mut out, &s).unwrap();
    let at = 1 + 352;
    assert_eq!(&out[at..at + 2], &[0x82, 0xa0]);
    assert_eq!(&out[at + 2..at + 16], &[0; 14]);
    assert_eq!(&out[at + 16..at + 64], &[0; 48]);
}

#[test]
fn name_tag_at_its_budget_fits() {
    let s = start_rec(ver(1, 3, 0), vec![player("ABCDEFGHIJKLMNOP")]);
    let mut out = Vec::new();
    assert_eq!(game_start(&mut out, &s), Ok(()));
    assert_eq!(&out[353..369], b"ABCDEFGHIJKLMNOP");
}

#[test]
fn name_tag_over_its_budget_is_rejected() {
    let s = start_rec(ver(1, 3, 0), vec![player("ABCDEFGHIJKLMNOPQ")]);
    let mut out = Vec::new();
    assert_eq!(game_start(&mut out, &s), Err(UnparseError::TextTooLong));
}

#[test]
fn netplay_code_over_its_budget_is_rejected() {
    let mut p = player("A");
    p.netplay = Some(Netplay { name: "n".to_string(), code: "ABCDE#123456".to_string() });
    let mut out = Vec::new();
    assert_eq!(game_start(&mut out, &start_rec(ver(3, 9, 0), vec![p.clone()])), Err(UnparseError::TextTooLong));
    let mut out = Vec::new();
    assert_eq!(game_start(&mut out, &start_rec(ver(3, 8, 0), vec![p])), Ok(()));
}

#[test]
fn post_velocity_airborne() {
    let mut out = Vec::new();
    frame_post(&mut out, &post_rec(true), ver(3, 9, 0), id(0));
    assert_eq!(out.len(), 1 + 76);
    assert_eq!(&out[53..57], &be32(2.0f32.to_bits())[..]);
    assert_eq!(&out[57..61], &be32((-1.0f32).to_bits())[..]);
    assert_eq!(&out[69..73], &be32(0.0f32.to_bits())[..]);
}

#[test]
fn post_velocity_grounded() {
    let mut out = Vec::new();
    frame_post(&mut out, &post_rec(false), ver(3, 9, 0), id(0));
    assert_eq!(&out[53..57], &be32(0.0f32.to_bits())[..]);
    assert_eq!(&out[69..73], &be32(2.0f32.to_bits())[..]);
}

#[test]
fn post_flags_are_low_five_bytes_little_endian() {
    let mut out = Vec::new();
    frame_post(&mut out, &post_rec(true), ver(2, 0, 0), id(0));
    assert_eq!(out.len(), 1 + 51);
    assert_eq!(&out[38..43], &[8, 7, 6, 5, 4]);
    assert_eq!(out[43 + 4 + 1 + 2 + 1], 0);
}

#[test]
fn post_l_cancel_and_sentinels() {
    let mut p = post_rec(true);
    p.l_cancel = Some(Some(false));
    p.last_hit_by = None;
    p.last_attack_landed = None;
    let mut out = Vec::new();
    frame_post(&mut out, &p, ver(2, 0, 0), id(0));
    assert_eq!(out[51], 2);
    assert_eq!(&out[30..34], &[0, 1, 0xff, 4]);
    p.l_cancel = Some(Some(true));
    p.last_hit_by = Some(Port::Third);
    let mut out = Vec::new();
    frame_post(&mut out, &p, ver(2, 0, 0), id(0));
    assert_eq!(out[51], 1);
    assert_eq!(out[32], 2);
}

#[test]
fn post_before_0_2_has_no_state_age() {
    let mut out = Vec::new();
    frame_post(&mut out, &post_rec(true), ver(0, 1, 0), id(0));
    assert_eq!(out.len(), 1 + 33);
}

#[test]
fn pre_layout() {
    let mut out = Vec::new();
    frame_pre(&mut out, &pre_rec(), ver(1, 4, 0), PortId::new(-123, 2, true).unwrap());
    assert_eq!(out.len(), 1 + 63);
    assert_eq!(&out[0..7], &[0x37, 0xff, 0xff, 0xff, 0x85, 2, 1]);
    assert_eq!(&out[7..13], &[1, 2, 3, 4, 0, 14]);
    assert_eq!(&out[21..25], &be32(1.0f32.to_bits())[..]);
    assert_eq!(out[59], 7);
    assert_eq!(&out[60..64], &be32(12.0f32.to_bits())[..]);
    let mut old = Vec::new();
    frame_pre(&mut old, &pre_rec(), ver(1, 1, 0), PortId::new(-123, 2, true).unwrap());
    assert_eq!(old.len(), 1 + 58);
    assert_eq!(&out[..59], &old[..]);
}

#[test]
fn item_trailing_fields() {
    let mut early = Vec::new();
    item(&mut early, &item_rec(), ver(3, 1, 0), 5);
    assert_eq!(early.len(), 1 + 37);
    let mut late = Vec::new();
    item(&mut late, &item_rec(), ver(3, 6, 0), 5);
    assert_eq!(late.len(), 1 + 42);
    assert_eq!(&late[38..42], &[1, 2, 3, 4]);
    assert_eq!(late[42], 1);
    assert_eq!(&late[..38], &early[..]);
    assert_eq!(&late[8..12], &[0, 0, 0, 0]);
}

#[test]
fn item_with_direction_and_no_owner() {
    let mut i = item_rec();
    i.direction = Some(Direction::Left);
    i.owner = Some(None);
    let mut out = Vec::new();
    item(&mut out, &i, ver(3, 6, 0), 5);
    assert_eq!(&out[8..12], &be32((-1.0f32).to_bits())[..]);
    assert_eq!(out[42], 0xff);
}

#[test]
fn frame_start_and_end_layout() {
    let mut out = Vec::new();
    frame_start(&mut out, &FrameStart { random_seed: 7 }, -1);
    assert_eq!(out, vec![0x3a, 0xff, 0xff, 0xff, 0xff, 0, 0, 0, 7]);
    let mut out = Vec::new();
    frame_end(&mut out, &FrameEnd { latest_finalized_frame: Some(3) }, ver(3, 7, 0), 4);
    assert_eq!(out, vec![0x3c, 0, 0, 0, 4, 0, 0, 0, 3]);
    let mut out = Vec::new();
    frame_end(&mut out, &FrameEnd { latest_finalized_frame: None }, ver(3, 6, 0), 4);
    assert_eq!(out, vec![0x3c, 0, 0, 0, 4]);
}

#[test]
fn game_end_layout() {
    let mut out = Vec::new();
    game_end(&mut out, &End { method: 2, lras_initiator: Some(None) }, ver(2, 0, 0));
    assert_eq!(out, vec![0x39, 2, 0xff]);
    let mut out = Vec::new();
    game_end(&mut out, &End { method: 7, lras_initiator: Some(Some(Port::Fourth)) }, ver(3, 0, 0));
    assert_eq!(out, vec![0x39, 7, 3]);
    let mut out = Vec::new();
    game_end(&mut out, &End { method: 3, lras_initiator: None }, ver(1, 0, 0));
    assert_eq!(out, vec![0x39, 3]);
}

#[test]
fn ports_interleave_pre_then_post() {
    let f = frame(vec![port(true), port(false)], vec![item_rec()]);
    let v = ver(3, 0, 0);
    let mut out = Vec::new();
    frames(&mut out, &vec![f], v, 2);
    let mut seen = Vec::new();
    let mut at = 0;
    while at < out.len() {
        let tag = out[at];
        let len = match tag {
            0x3a => 8,
            0x37 => 63,
            0x38 => 52,
            0x3b => 37,
            0x3c => 4,
            _ => panic!("unexpected tag {}", tag),
        };
        if tag == 0x37 || tag == 0x38 {
            seen.push((tag, out[at + 5], out[at + 6]));
        } else {
            seen.push((tag, 0, 0));
        }
        at += 1 + len;
    }
    assert_eq!(
        seen,
        vec![
            (0x3a, 0, 0),
            (0x37, 0, 0),
            (0x37, 0, 1),
            (0x38, 0, 0),
            (0x38, 0, 1),
            (0x37, 1, 0),
            (0x38, 1, 0),
            (0x3b, 0, 0),
            (0x3c, 0, 0),
        ]
    );
}

#[test]
fn frames_count_from_first_index() {
    let v = ver(2, 2, 0);
    let fs = vec![frame(vec![port(false)], vec![]), frame(vec![port(false)], vec![])];
    let mut out = Vec::new();
    frames(&mut out, &fs, v, 1);
    assert_eq!(&out[0..5], &[0x3a, 0xff, 0xff, 0xff, 0x85]);
    let second = 9 + 64 + 53;
    assert_eq!(&out[second..second + 5], &[0x3a, 0xff, 0xff, 0xff, 0x86]);
    assert_eq!(out.len(), 2 * second);
}

#[test]
fn whole_game_envelope() {
    let g = game(ver(3, 0, 0), 1, vec![frame(vec![port(false)], vec![])]);
    let mut out = Vec::new();
    assert_eq!(unparse(&mut out, &g), Ok(()));
    assert_eq!(&out[0..11], &[0x7b, 0x55, 0x03, 0x72, 0x61, 0x77, 0x5b, 0x24, 0x55, 0x23, 0x6c]);
    assert_eq!(&out[11..15], &[0, 0, 0, 0]);
    assert_eq!(&out[15..17], &[PAYLOADS_EVENT_CODE, 22]);
    assert_eq!(&out[17..20], &[0x36, 0x01, 0xa2]);
    assert_eq!(out[38], 0x36);
    assert_eq!(&out[39..42], &[3, 0, 0]);
    let start_end = 38 + 1 + 418;
    assert_eq!(out[start_end], 0x3a);
    let tail: Vec<u8> = vec![
        0x39, 2, 0xff, 0x55, 0x08, b'm', b'e', b't', b'a', b'd', b'a', b't', b'a', 0x7b, 0x55, 9, b'l',
        b'a', b's', b't', b'F', b'r', b'a', b'm', b'e', 0x6c, 0, 0, 0, 100, 0x7d, 0x7d,
    ];
    assert_eq!(&out[out.len() - tail.len()..], &tail[..]);
}

#[test]
fn encoding_is_deterministic() {
    let g = game(ver(3, 9, 0), 2, vec![frame(vec![port(true), port(false)], vec![item_rec()])]);
    let mut a = Vec::new();
    let mut b = Vec::new();
    unparse(&mut a, &g).unwrap();
    unparse(&mut b, &g).unwrap();
    assert_eq!(a, b);
}

#[test]
fn verbatim_start_is_replayed() {
    let mut g = game(ver(1, 0, 0), 1, vec![]);
    g.start.raw_bytes = vec![9, 8, 7];
    let mut out = Vec::new();
    assert_eq!(unparse_with(&mut out, &g, StartEncoding::Verbatim), Ok(()));
    assert_eq!(&out[15..20], &[PAYLOADS_EVENT_CODE, 13, 0x36, 0, 3]);
    assert_eq!(&out[29..33], &[0x36, 9, 8, 7]);
    assert_eq!(&out[33..35], &[0x39, 2]);
}

#[test]
fn verbatim_start_too_long_is_rejected() {
    let mut g = game(ver(1, 0, 0), 1, vec![]);
    g.start.raw_bytes = vec![0; 70000];
    let mut out = Vec::new();
    assert_eq!(unparse_with(&mut out, &g, StartEncoding::Verbatim), Err(UnparseError::StartTooLong));
}

#[test]
fn port_count_errors() {
    let mut out = Vec::new();
    assert_eq!(unparse(&mut out, &game(ver(3, 0, 0), 0, vec![])), Err(UnparseError::PortCount));
    let mut g = game(ver(3, 0, 0), 4, vec![]);
    g.port_count = 5;
    assert_eq!(unparse(&mut out, &g), Err(UnparseError::PortCount));
    let g = game(ver(3, 0, 0), 2, vec![frame(vec![port(false)], vec![])]);
    assert_eq!(unparse(&mut out, &g), Err(UnparseError::PortCount));
    assert!(out.is_empty());
}

#[test]
fn too_many_players_error() {
    let mut g = game(ver(3, 0, 0), 4, vec![]);
    g.start.players.push(player("E"));
    let mut out = Vec::new();
    assert_eq!(unparse(&mut out, &g), Err(UnparseError::TooManyPlayers));
}

#[test]
fn missing_field_error() {
    let mut f = frame(vec![port(false)], vec![]);
    f.ports[0].leader.post.flags = None;
    let mut out = Vec::new();
    assert_eq!(unparse(&mut out, &game(ver(2, 0, 0), 1, vec![f.clone()])), Err(UnparseError::MissingField));
    assert_eq!(unparse(&mut out, &game(ver(1, 9, 0), 1, vec![f])), Ok(()));
    let mut g = game(ver(3, 7, 0), 1, vec![]);
    g.start.scene = None;
    assert_eq!(unparse(&mut Vec::new(), &g), Err(UnparseError::MissingField));
    let mut g = game(ver(2, 0, 0), 1, vec![]);
    g.end.lras_initiator = None;
    assert_eq!(unparse(&mut Vec::new(), &g), Err(UnparseError::MissingField));
}

#[test]
fn text_too_long_error() {
    let mut g = game(ver(1, 3, 0), 1, vec![]);
    g.start.players[0].name_tag = Some("this tag is far too long".to_string());
    assert_eq!(unparse(&mut Vec::new(), &g), Err(UnparseError::TextTooLong));
}

#[test]
fn invalid_port_error() {
    assert_eq!(PortId::new(0, 4, false), Err(UnparseError::InvalidPort));
    let p = PortId::new(0, 3, true).unwrap();
    assert_eq!(p.port, Port::Fourth);
    assert!(p.is_follower);
}

#[test]
fn metadata_values() {
    let mut out = Vec::new();
    put_value(&mut out, &MetaValue::Null).unwrap();
    put_value(&mut out, &MetaValue::Bool(true)).unwrap();
    put_value(&mut out, &MetaValue::Bool(false)).unwrap();
    put_value(&mut out, &MetaValue::Int(-2)).unwrap();
    put_value(&mut out, &MetaValue::Int(1 << 40)).unwrap();
    put_value(&mut out, &MetaValue::Float(1.5f64.to_bits())).unwrap();
    assert_eq!(
        out,
        vec![
            0x5a, 0x54, 0x46, 0x6c, 0xff, 0xff, 0xff, 0xfe, 0x4c, 0, 0, 1, 0, 0, 0, 0, 0, 0x44, 0x3f,
            0xf8, 0, 0, 0, 0, 0, 0,
        ]
    );
}

#[test]
fn metadata_nesting() {
    let v = MetaValue::Object(vec![
        ("a".to_string(), MetaValue::Array(vec![MetaValue::Str("xy".to_string()), MetaValue::Null])),
        ("b".to_string(), MetaValue::Object(vec![])),
    ]);
    let mut out = Vec::new();
    put_value(&mut out, &v).unwrap();
    assert_eq!(
        out,
        vec![
            0x7b, 0x55, 1, b'a', 0x5b, 0x53, 0x55, 2, b'x', b'y', 0x5a, 0x5d, 0x55, 1, b'b', 0x7b, 0x7d,
            0x7d,
        ]
    );
}

#[test]
fn metadata_long_string_length() {
    let s = "z".repeat(300);
    let mut out = Vec::new();
    put_value(&mut out, &MetaValue::Str(s)).unwrap();
    assert_eq!(&out[0..6], &[0x53, 0x6c, 0, 0, 1, 44]);
    assert_eq!(out.len(), 6 + 300);
}
