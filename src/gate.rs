//! Which fields each event kind carries at a version, and the payload sizes
//! that follow from them.
use vstd::prelude::*;
use crate::bytes::{be16, put_u16, put_u8};
use crate::version::Version;

verus! {

/// The kinds of event in the stream.
#[derive(Clone, Copy, Debug, PartialEq, Eq, Structural)]
pub enum Event {
    GameStart,
    FramePre,
    FramePost,
    GameEnd,
    FrameStart,
    Item,
    FrameEnd,
}

/// The tag of the event that declares the payload sizes.
pub const PAYLOADS_EVENT_CODE: u8 = 0x35;

impl Event {
    /// The event's one-byte tag.
    pub open spec fn spec_code(self) -> u8 {
        match self {
            Event::GameStart => 0x36,
            Event::FramePre => 0x37,
            Event::FramePost => 0x38,
            Event::GameEnd => 0x39,
            Event::FrameStart => 0x3a,
            Event::Item => 0x3b,
            Event::FrameEnd => 0x3c,
        }
    }

    /// The event's one-byte tag.
    #[verifier::when_used_as_spec(spec_code)]
    pub fn code(self) -> (r: u8)
        ensures
            r == self.spec_code(),
    {
        match self {
            Event::GameStart => 0x36,
            Event::FramePre => 0x37,
            Event::FramePost => 0x38,
            Event::GameEnd => 0x39,
            Event::FrameStart => 0x3a,
            Event::Item => 0x3b,
            Event::FrameEnd => 0x3c,
        }
    }
}

/// The session-start payload size when it is rebuilt field by field.
pub open spec fn game_start_size(v: Version) -> nat {
    320 + (if v.since(1, 0) { 32nat } else { 0 }) + (if v.since(1, 3) { 64nat } else { 0 }) + (if v.since(
        1,
        5,
    ) {
        1nat
    } else {
        0
    }) + (if v.since(2, 0) { 1nat } else { 0 }) + (if v.since(3, 7) { 2nat } else { 0 }) + (if v.since(
        3,
        9,
    ) {
        164nat
    } else {
        0
    })
}

/// The session-end payload size.
pub open spec fn game_end_size(v: Version) -> nat {
    if v.since(2, 0) { 2 } else { 1 }
}

/// The frame-start payload size.
pub open spec fn frame_start_size(v: Version) -> nat {
    8
}

/// The pre-frame payload size.
pub open spec fn frame_pre_size(v: Version) -> nat {
    if v.since(1, 4) {
        63
    } else if v.since(1, 2) {
        59
    } else {
        58
    }
}

/// The post-frame payload size.
pub open spec fn frame_post_size(v: Version) -> nat {
    if v.since(3, 8) {
        76
    } else if v.since(3, 5) {
        72
    } else if v.since(2, 1) {
        52
    } else if v.since(2, 0) {
        51
    } else if v.since(0, 2) {
        37
    } else {
        33
    }
}

/// The item payload size.
pub open spec fn item_size(v: Version) -> nat {
    if v.since(3, 6) {
        42
    } else if v.since(3, 2) {
        41
    } else {
        37
    }
}

/// The frame-end payload size.
pub open spec fn frame_end_size(v: Version) -> nat {
    if v.since(3, 7) { 8 } else { 4 }
}

/// The declared payload sizes, in the order they are written: the four
/// events that every version has, then frame-start from 2.2, item and
/// frame-end from 3.0. `start_size` is the session-start payload size.
pub open spec fn size_table(v: Version, start_size: u16) -> Seq<(Event, u16)> {
    seq![
        (Event::GameStart, start_size),
        (Event::FramePre, frame_pre_size(v) as u16),
        (Event::FramePost, frame_post_size(v) as u16),
        (Event::GameEnd, game_end_size(v) as u16),
    ] + (if v.since(2, 2) {
        seq![(Event::FrameStart, frame_start_size(v) as u16)]
    } else {
        seq![]
    }) + (if v.since(3, 0) {
        seq![(Event::Item, item_size(v) as u16), (Event::FrameEnd, frame_end_size(v) as u16)]
    } else {
        seq![]
    })
}

/// The bytes of the entries of a size table.
pub open spec fn table_entries_bytes(t: Seq<(Event, u16)>) -> Seq<u8>
    decreases t.len(),
{
    if t.len() == 0 {
        seq![]
    } else {
        table_entries_bytes(t.drop_last()) + seq![t.last().0.spec_code()] + be16(t.last().1)
    }
}

/// The payload-size event: its tag, its length byte, then one entry of three
/// bytes per event kind.
pub open spec fn table_bytes(t: Seq<(Event, u16)>) -> Seq<u8> {
    seq![PAYLOADS_EVENT_CODE, (3 * t.len() + 1) as u8] + table_entries_bytes(t)
}

/// The session-start payload size, when it is rebuilt field by field.
pub fn start_size(v: Version) -> (r: u16)
    ensures
        r == game_start_size(v),
{
    let mut n: u16 = 320;
    if v.at_least(crate::version::version(1, 0)) {
        n = n + 32;
    }
    if v.at_least(crate::version::version(1, 3)) {
        n = n + 64;
    }
    if v.at_least(crate::version::version(1, 5)) {
        n = n + 1;
    }
    if v.at_least(crate::version::version(2, 0)) {
        n = n + 1;
    }
    if v.at_least(crate::version::version(3, 7)) {
        n = n + 2;
    }
    if v.at_least(crate::version::version(3, 9)) {
        n = n + 164;
    }
    n
}

/// The payload sizes declared for version `v`, with `start_size` as the
/// session-start size.
pub fn payload_sizes(v: Version, start_size: u16) -> (r: Vec<(Event, u16)>)
    ensures
        r@ == size_table(v, start_size),
{
    let pre: u16 = if v.at_least(crate::version::version(1, 4)) {
        63
    } else if v.at_least(crate::version::version(1, 2)) {
        59
    } else {
        58
    };
    let post: u16 = if v.at_least(crate::version::version(3, 8)) {
        76
    } else if v.at_least(crate::version::version(3, 5)) {
        72
    } else if v.at_least(crate::version::version(2, 1)) {
        52
    } else if v.at_least(crate::version::version(2, 0)) {
        51
    } else if v.at_least(crate::version::version(0, 2)) {
        37
    } else {
        33
    };
    let end: u16 = if v.at_least(crate::version::version(2, 0)) { 2 } else { 1 };
    let mut r: Vec<(Event, u16)> = Vec::new();
    r.push((Event::GameStart, start_size));
    r.push((Event::FramePre, pre));
    r.push((Event::FramePost, post));
    r.push((Event::GameEnd, end));
    if v.at_least(crate::version::version(2, 2)) {
        r.push((Event::FrameStart, 8));
    }
    if v.at_least(crate::version::version(3, 0)) {
        let item: u16 = if v.at_least(crate::version::version(3, 6)) {
            42
        } else if v.at_least(crate::version::version(3, 2)) {
            41
        } else {
            37
        };
        let frame_end: u16 = if v.at_least(crate::version::version(3, 7)) { 8 } else { 4 };
        r.push((Event::Item, item));
        r.push((Event::FrameEnd, frame_end));
    }
    assert(r@ =~= size_table(v, start_size));
    r
}

/// Appends the payload-size event for table `t`.
pub fn put_table(out: &mut Vec<u8>, t: &Vec<(Event, u16)>)
    requires
        t@.len() <= 7,
    ensures
        final(out)@ == old(out)@ + table_bytes(t@),
{
    let ghost start = out@;
    put_u8(out, PAYLOADS_EVENT_CODE);
    put_u8(out, (t.len() * 3 + 1) as u8);
    let ghost head = out@;
    assert(head =~= start + seq![PAYLOADS_EVENT_CODE, (3 * t@.len() + 1) as u8]);
    let mut i: usize = 0;
    while i < t.len()
        invariant
            i <= t@.len(),
            out@ == head + table_entries_bytes(t@.take(i as int)),
        decreases t@.len() - i,
    {
        let (e, size) = t[i];
        put_u8(out, e.code());
        put_u16(out, size);
        assert(t@.take(i as int + 1).drop_last() =~= t@.take(i as int));
        i = i + 1;
        assert(out@ =~= head + table_entries_bytes(t@.take(i as int)));
    }
    assert(t@.take(t@.len() as int) =~= t@);
    assert(out@ =~= start + table_bytes(t@));
}

} // verus!
