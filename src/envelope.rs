//! The whole stream: envelope, payload sizes, events and metadata.
use vstd::prelude::*;
use crate::bytes::{put_u8, put_zeros, zeros};
use crate::error::UnparseError;
use crate::event::{game_end, game_end_bytes};
use crate::gate::{game_start_size, payload_sizes, put_table, size_table, start_size, table_bytes};
use crate::model::{Game, NUM_PORTS};
use crate::start::{game_start, game_start_bytes, game_start_raw, game_start_raw_bytes, start_ready, start_texts_fit};
use crate::stream::{MAX_FRAMES, frame_ready, frames, frames_bytes};
use crate::ubjson::{entries_bytes, entries_fit, put_entries};
use crate::validate::{check_frames, check_port_counts, check_start, ports_consistent};
use crate::version::version;

verus! {

/// How the session-start event is produced.
#[derive(Clone, Copy, Debug, PartialEq, Eq, Structural)]
pub enum StartEncoding {
    /// Rebuilt field by field from the start record.
    Fields,
    /// The captured payload, replayed as it stands.
    Verbatim,
}

/// The bytes that open the stream: an object whose `raw` field is an array
/// of bytes of the length that follows.
pub open spec fn prologue() -> Seq<u8> {
    seq![0x7bu8, 0x55, 0x03, 0x72, 0x61, 0x77, 0x5b, 0x24, 0x55, 0x23, 0x6c]
}

/// The bytes that open the metadata object: its key, then its brace.
pub open spec fn metadata_prologue() -> Seq<u8> {
    seq![0x55u8, 0x08, 0x6d, 0x65, 0x74, 0x61, 0x64, 0x61, 0x74, 0x61, 0x7b]
}

/// The session-start payload size that is declared.
pub open spec fn declared_start_size(g: Game, enc: StartEncoding) -> u16 {
    match enc {
        StartEncoding::Fields => game_start_size(g.start.version) as u16,
        StartEncoding::Verbatim => g.start.raw_bytes@.len() as u16,
    }
}

/// The session-start event.
pub open spec fn start_event(g: Game, enc: StartEncoding) -> Seq<u8> {
    match enc {
        StartEncoding::Fields => game_start_bytes(g.start),
        StartEncoding::Verbatim => game_start_raw_bytes(g.start),
    }
}

/// The head of the stream: prologue, length, payload sizes.
pub open spec fn head_bytes(g: Game, enc: StartEncoding) -> Seq<u8> {
    prologue() + zeros(4) + table_bytes(size_table(g.start.version, declared_start_size(g, enc)))
}

/// The tail of the stream: the metadata object, then the closing braces of
/// it and of the whole stream.
pub open spec fn tail_bytes(g: Game) -> Seq<u8> {
    metadata_prologue() + entries_bytes(g.metadata@) + seq![0x7du8, 0x7du8]
}

/// The whole encoded game. The four bytes after the prologue are a length
/// that is always written as zero.
#[verifier::opaque]
pub open spec fn game_bytes(g: Game, enc: StartEncoding) -> Seq<u8> {
    let v = g.start.version;
    head_bytes(g, enc) + start_event(g, enc) + frames_bytes(g.frames@, v) + game_end_bytes(g.end, v)
        + tail_bytes(g)
}

/// Every record that the game's version requires is present.
pub open spec fn fields_present(g: Game, enc: StartEncoding) -> bool {
    let v = g.start.version;
    &&& enc == StartEncoding::Fields ==> start_ready(g.start)
    &&& v.since(2, 0) ==> g.end.lras_initiator is Some
    &&& forall|i: int|
        0 <= i < g.frames@.len() ==> frame_ready(#[trigger] g.frames@[i], v, g.port_count as nat)
}

/// The error that encoding the game gives, if any, in the order in which
/// the checks are made.
pub open spec fn unparse_error(g: Game, enc: StartEncoding) -> Option<UnparseError> {
    if !(1 <= g.port_count <= NUM_PORTS && ports_consistent(g.frames@, g.port_count as nat)) {
        Some(UnparseError::PortCount)
    } else if g.start.players@.len() > NUM_PORTS {
        Some(UnparseError::TooManyPlayers)
    } else if g.frames@.len() > MAX_FRAMES {
        Some(UnparseError::FrameIndexOverflow)
    } else if !fields_present(g, enc) {
        Some(UnparseError::MissingField)
    } else if enc == StartEncoding::Verbatim && g.start.raw_bytes@.len() > u16::MAX {
        Some(UnparseError::StartTooLong)
    } else if enc == StartEncoding::Fields && !start_texts_fit(g.start) {
        Some(UnparseError::TextTooLong)
    } else if !entries_fit(g.metadata@) {
        Some(UnparseError::MetadataTooLong)
    } else {
        None
    }
}

fn put_prologue(out: &mut Vec<u8>)
    ensures
        final(out)@ == old(out)@ + prologue() + zeros(4),
{
    put_u8(out, 0x7b);
    put_u8(out, 0x55);
    put_u8(out, 0x03);
    put_u8(out, 0x72);
    put_u8(out, 0x61);
    put_u8(out, 0x77);
    put_u8(out, 0x5b);
    put_u8(out, 0x24);
    put_u8(out, 0x55);
    put_u8(out, 0x23);
    put_u8(out, 0x6c);
    put_zeros(out, 4);
    assert(final(out)@ =~= old(out)@ + prologue() + zeros(4));
}

fn put_metadata_prologue(out: &mut Vec<u8>)
    ensures
        final(out)@ == old(out)@ + metadata_prologue(),
{
    put_u8(out, 0x55);
    put_u8(out, 0x08);
    put_u8(out, 0x6d);
    put_u8(out, 0x65);
    put_u8(out, 0x74);
    put_u8(out, 0x61);
    put_u8(out, 0x64);
    put_u8(out, 0x61);
    put_u8(out, 0x74);
    put_u8(out, 0x61);
    put_u8(out, 0x7b);
    assert(final(out)@ =~= old(out)@ + metadata_prologue());
}

/// Checks the game before anything is written: the errors that come before
/// the text and metadata checks.
fn precheck(g: &Game, enc: StartEncoding) -> (r: Result<(), UnparseError>)
    ensures
        r is Ok <==> !(unparse_error(*g, enc) matches Some(e) && (e == UnparseError::PortCount || e
            == UnparseError::TooManyPlayers || e == UnparseError::FrameIndexOverflow || e
            == UnparseError::MissingField || e == UnparseError::StartTooLong)),
        r is Err ==> unparse_error(*g, enc) == Some(r->Err_0),
{
    let v = g.start.version;
    if !(1 <= g.port_count && g.port_count <= NUM_PORTS && check_port_counts(&g.frames, g.port_count)) {
        return Err(UnparseError::PortCount);
    }
    if g.start.players.len() > NUM_PORTS {
        return Err(UnparseError::TooManyPlayers);
    }
    if g.frames.len() > MAX_FRAMES {
        return Err(UnparseError::FrameIndexOverflow);
    }
    let start_ok = match enc {
        StartEncoding::Fields => check_start(&g.start),
        StartEncoding::Verbatim => true,
    };
    let end_ok = !v.at_least(version(2, 0)) || g.end.lras_initiator.is_some();
    if !(start_ok && end_ok && check_frames(&g.frames, v, g.port_count)) {
        return Err(UnparseError::MissingField);
    }
    if enc == StartEncoding::Verbatim && g.start.raw_bytes.len() > 0xffff {
        return Err(UnparseError::StartTooLong);
    }
    Ok(())
}

fn put_head(out: &mut Vec<u8>, g: &Game, enc: StartEncoding)
    requires
        enc == StartEncoding::Verbatim ==> g.start.raw_bytes@.len() <= u16::MAX,
    ensures
        final(out)@ == old(out)@ + head_bytes(*g, enc),
{
    let v = g.start.version;
    put_prologue(out);
    let size = match enc {
        StartEncoding::Fields => start_size(v),
        StartEncoding::Verbatim => g.start.raw_bytes.len() as u16,
    };
    let table = payload_sizes(v, size);
    put_table(out, &table);
    assert(final(out)@ =~= old(out)@ + head_bytes(*g, enc));
}

fn put_start_event(out: &mut Vec<u8>, g: &Game, enc: StartEncoding) -> (r: Result<(), UnparseError>)
    requires
        enc == StartEncoding::Fields ==> start_ready(g.start),
    ensures
        r is Ok <==> (enc == StartEncoding::Fields ==> start_texts_fit(g.start)),
        r is Ok ==> final(out)@ == old(out)@ + start_event(*g, enc),
        r is Err ==> r == Err::<(), UnparseError>(UnparseError::TextTooLong),
{
    match enc {
        StartEncoding::Fields => game_start(out, &g.start),
        StartEncoding::Verbatim => {
            game_start_raw(out, &g.start);
            Ok(())
        },
    }
}

fn put_tail(out: &mut Vec<u8>, g: &Game) -> (r: Result<(), UnparseError>)
    ensures
        r is Ok <==> entries_fit(g.metadata@),
        r is Ok ==> final(out)@ == old(out)@ + tail_bytes(*g),
        r is Err ==> r == Err::<(), UnparseError>(UnparseError::MetadataTooLong),
{
    put_metadata_prologue(out);
    let r = put_entries(out, &g.metadata);
    if r.is_err() {
        return r;
    }
    put_u8(out, 0x7d);
    put_u8(out, 0x7d);
    assert(final(out)@ =~= old(out)@ + tail_bytes(*g));
    Ok(())
}

/// Appends the encoded game, choosing how the session-start event is made.
/// Fails, with the first error in the order of `unparse_error`, on a game
/// that cannot be encoded; bytes already appended then stay.
pub fn unparse_with(out: &mut Vec<u8>, g: &Game, enc: StartEncoding) -> (r: Result<(), UnparseError>)
    ensures
        r is Ok <==> unparse_error(*g, enc) is None,
        r is Err ==> unparse_error(*g, enc) == Some(r->Err_0),
        r is Ok ==> final(out)@ == old(out)@ + game_bytes(*g, enc),
{
    let pr = precheck(g, enc);
    if let Err(e) = pr {
        return Err(e);
    }
    let ghost start = out@;
    let v = g.start.version;
    put_head(out, g, enc);
    let ghost s0 = out@;
    let r = put_start_event(out, g, enc);
    if let Err(e) = r {
        return Err(e);
    }
    let ghost s1 = out@;
    frames(out, &g.frames, v, g.port_count);
    let ghost s2 = out@;
    game_end(out, &g.end, v);
    let ghost s3 = out@;
    let r = put_tail(out, g);
    if let Err(e) = r {
        return Err(e);
    }
    proof {
        reveal(game_bytes);
        assert(out@ =~= start + game_bytes(*g, enc));
    }
    Ok(())
}

/// Appends the encoded game, rebuilding the session-start event field by
/// field. Fails, with the first error in the order of `unparse_error`, on a
/// game that cannot be encoded; bytes already appended then stay.
pub fn unparse(out: &mut Vec<u8>, g: &Game) -> (r: Result<(), UnparseError>)
    ensures
        r is Ok <==> unparse_error(*g, StartEncoding::Fields) is None,
        r is Err ==> unparse_error(*g, StartEncoding::Fields) == Some(r->Err_0),
        r is Ok ==> final(out)@ == old(out)@ + game_bytes(*g, StartEncoding::Fields),
{
    unparse_with(out, g, StartEncoding::Fields)
}

} // verus!
