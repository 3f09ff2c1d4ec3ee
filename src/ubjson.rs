//! The metadata tree in Universal Binary JSON.
use vstd::prelude::*;
use vstd::utf8::encode_utf8;
use crate::bytes::{be32, be64, be_i32, put_all, put_i32, put_u32, put_u64, put_u8};
use crate::error::UnparseError;
use crate::model::MetaValue;

verus! {

broadcast use vstd::seq::group_seq_axioms, vstd::std_specs::vec::group_vec_axioms;

/// The longest string whose length can be written.
pub const MAX_STR_LEN: usize = 0x7fff_ffff;

/// A length: a one-byte unsigned integer below 256, else a four-byte signed
/// one.
pub open spec fn length_bytes(n: nat) -> Seq<u8> {
    if n < 256 {
        seq![0x55u8, n as u8]
    } else {
        seq![0x6cu8] + be32(n as u32)
    }
}

/// A string's UTF-8 bytes, after their length.
pub open spec fn str_bytes(s: Seq<char>) -> Seq<u8> {
    length_bytes(encode_utf8(s).len()) + encode_utf8(s)
}

/// The string's length can be written.
pub open spec fn str_fits(s: Seq<char>) -> bool {
    encode_utf8(s).len() <= MAX_STR_LEN
}

/// An integer: four bytes where it fits in 32 bits, else eight.
pub open spec fn int_bytes(n: i64) -> Seq<u8> {
    if i32::MIN <= n <= i32::MAX {
        seq![0x6cu8] + be_i32(n as i32)
    } else {
        seq![0x4cu8] + be64(n as u64)
    }
}

/// A value: its type marker, then its contents; arrays and objects closed by
/// their end marker.
pub open spec fn value_bytes(v: MetaValue) -> Seq<u8>
    decreases v,
{
    match v {
        MetaValue::Null => seq![0x5au8],
        MetaValue::Bool(b) => seq![if b { 0x54u8 } else { 0x46u8 }],
        MetaValue::Int(n) => int_bytes(n),
        MetaValue::Float(bits) => seq![0x44u8] + be64(bits),
        MetaValue::Str(s) => seq![0x53u8] + str_bytes(s@),
        MetaValue::Array(a) => seq![0x5bu8] + values_bytes(a@) + seq![0x5du8],
        MetaValue::Object(m) => seq![0x7bu8] + entries_bytes(m@) + seq![0x7du8],
    }
}

/// The listed values, one after the other.
pub open spec fn values_bytes(s: Seq<MetaValue>) -> Seq<u8>
    decreases s,
{
    if s.len() == 0 {
        seq![]
    } else {
        values_bytes(s.subrange(0, s.len() - 1)) + value_bytes(s[s.len() - 1])
    }
}

/// The listed entries of an object: each key's string, then its value.
pub open spec fn entries_bytes(s: Seq<(String, MetaValue)>) -> Seq<u8>
    decreases s,
{
    if s.len() == 0 {
        seq![]
    } else {
        entries_bytes(s.subrange(0, s.len() - 1)) + str_bytes(s[s.len() - 1].0@) + value_bytes(
            s[s.len() - 1].1,
        )
    }
}

/// Every string of the value, keys included, can be written.
pub open spec fn value_fits(v: MetaValue) -> bool
    decreases v,
{
    match v {
        MetaValue::Str(s) => str_fits(s@),
        MetaValue::Array(a) => values_fit(a@),
        MetaValue::Object(m) => entries_fit(m@),
        _ => true,
    }
}

/// Every listed value can be written.
pub open spec fn values_fit(s: Seq<MetaValue>) -> bool
    decreases s,
{
    if s.len() == 0 {
        true
    } else {
        values_fit(s.subrange(0, s.len() - 1)) && value_fits(s[s.len() - 1])
    }
}

/// Every listed entry can be written.
pub open spec fn entries_fit(s: Seq<(String, MetaValue)>) -> bool
    decreases s,
{
    if s.len() == 0 {
        true
    } else {
        entries_fit(s.subrange(0, s.len() - 1)) && str_fits(s[s.len() - 1].0@) && value_fits(
            s[s.len() - 1].1,
        )
    }
}

/// Appends a string's length and UTF-8 bytes; fails, writing nothing, when
/// the length cannot be written.
pub fn put_str(out: &mut Vec<u8>, s: &String) -> (r: Result<(), UnparseError>)
    ensures
        r is Ok <==> str_fits(s@),
        r is Ok ==> final(out)@ == old(out)@ + str_bytes(s@),
        r is Err ==> r == Err::<(), UnparseError>(UnparseError::MetadataTooLong) && final(out)@ == old(
            out,
        )@,
{
    let b = s.as_str().as_bytes();
    assert(b@ == encode_utf8(s@));
    let n = b.len();
    if n > MAX_STR_LEN {
        return Err(UnparseError::MetadataTooLong);
    }
    if n < 256 {
        put_u8(out, 0x55);
        put_u8(out, n as u8);
    } else {
        put_u8(out, 0x6c);
        put_u32(out, n as u32);
    }
    put_all(out, b);
    assert(final(out)@ =~= old(out)@ + str_bytes(s@));
    Ok(())
}

fn put_int(out: &mut Vec<u8>, n: i64)
    ensures
        final(out)@ == old(out)@ + int_bytes(n),
{
    if i32::MIN as i64 <= n && n <= i32::MAX as i64 {
        put_u8(out, 0x6c);
        put_i32(out, n as i32);
    } else {
        put_u8(out, 0x4c);
        put_u64(out, n as u64);
    }
    assert(final(out)@ =~= old(out)@ + int_bytes(n));
}

/// Appends a value; fails when one of its strings is too long.
pub fn put_value(out: &mut Vec<u8>, v: &MetaValue) -> (r: Result<(), UnparseError>)
    ensures
        r is Ok <==> value_fits(*v),
        r is Ok ==> final(out)@ == old(out)@ + value_bytes(*v),
        r is Err ==> r == Err::<(), UnparseError>(UnparseError::MetadataTooLong),
    decreases v,
{
    let ghost start = out@;
    match v {
        MetaValue::Null => put_u8(out, 0x5a),
        MetaValue::Bool(b) => put_u8(out, if *b { 0x54 } else { 0x46 }),
        MetaValue::Int(n) => put_int(out, *n),
        MetaValue::Float(bits) => {
            put_u8(out, 0x44);
            put_u64(out, *bits);
        },
        MetaValue::Str(s) => {
            put_u8(out, 0x53);
            let r = put_str(out, s);
            if r.is_err() {
                return r;
            }
        },
        MetaValue::Array(a) => {
            put_u8(out, 0x5b);
            let ghost head = out@;
            let mut i: usize = 0;
            while i < a.len()
                invariant
                    i <= a@.len(),
                    *v is Array && v->Array_0 == *a,
                    values_fit(a@.subrange(0, i as int)),
                    out@ == head + values_bytes(a@.subrange(0, i as int)),
                decreases a@.len() - i,
            {
                assert(decreases_to!(*v => a@[i as int]));
                let r = put_value(out, &a[i]);
                assert(a@.subrange(0, i as int + 1).subrange(0, i as int) =~= a@.subrange(0, i as int));
                if r.is_err() {
                    assert(!values_fit(a@.subrange(0, i as int + 1)));
                    assert(!values_fit(a@)) by {
                        if values_fit(a@) {
                            lemma_values_fit_prefix(a@, i as int + 1);
                        }
                    }
                    return r;
                }
                i = i + 1;
                assert(out@ =~= head + values_bytes(a@.subrange(0, i as int)));
            }
            assert(a@.subrange(0, a@.len() as int) =~= a@);
            put_u8(out, 0x5d);
        },
        MetaValue::Object(m) => {
            put_u8(out, 0x7b);
            let ghost head = out@;
            let mut i: usize = 0;
            while i < m.len()
                invariant
                    i <= m@.len(),
                    *v is Object && v->Object_0 == *m,
                    entries_fit(m@.subrange(0, i as int)),
                    out@ == head + entries_bytes(m@.subrange(0, i as int)),
                decreases m@.len() - i,
            {
                assert(m@.subrange(0, i as int + 1).subrange(0, i as int) =~= m@.subrange(0, i as int));
                let r = put_str(out, &m[i].0);
                if r.is_err() {
                    assert(!entries_fit(m@)) by {
                        if entries_fit(m@) {
                            lemma_entries_fit_prefix(m@, i as int + 1);
                        }
                    }
                    return r;
                }
                assert(decreases_to!(*v => m@[i as int].1));
                let r = put_value(out, &m[i].1);
                if r.is_err() {
                    assert(!entries_fit(m@)) by {
                        if entries_fit(m@) {
                            lemma_entries_fit_prefix(m@, i as int + 1);
                        }
                    }
                    return r;
                }
                i = i + 1;
                assert(out@ =~= head + entries_bytes(m@.subrange(0, i as int)));
            }
            assert(m@.subrange(0, m@.len() as int) =~= m@);
            put_u8(out, 0x7d);
        },
    }
    assert(out@ =~= start + value_bytes(*v));
    Ok(())
}

/// Values that can be written stay so in every prefix.
proof fn lemma_values_fit_prefix(s: Seq<MetaValue>, n: int)
    requires
        0 <= n <= s.len(),
        values_fit(s),
    ensures
        values_fit(s.subrange(0, n)),
    decreases s.len(),
{
    if n < s.len() {
        assert(s.subrange(0, s.len() - 1).subrange(0, n) =~= s.subrange(0, n));
        lemma_values_fit_prefix(s.subrange(0, s.len() - 1), n);
    } else {
        assert(s.subrange(0, n) =~= s);
    }
}

/// Entries that can be written stay so in every prefix.
proof fn lemma_entries_fit_prefix(s: Seq<(String, MetaValue)>, n: int)
    requires
        0 <= n <= s.len(),
        entries_fit(s),
    ensures
        entries_fit(s.subrange(0, n)),
    decreases s.len(),
{
    if n < s.len() {
        assert(s.subrange(0, s.len() - 1).subrange(0, n) =~= s.subrange(0, n));
        lemma_entries_fit_prefix(s.subrange(0, s.len() - 1), n);
    } else {
        assert(s.subrange(0, n) =~= s);
    }
}

/// Appends the entries of an object, without its braces; fails when one of
/// its strings is too long.
pub fn put_entries(out: &mut Vec<u8>, m: &Vec<(String, MetaValue)>) -> (r: Result<(), UnparseError>)
    ensures
        r is Ok <==> entries_fit(m@),
        r is Ok ==> final(out)@ == old(out)@ + entries_bytes(m@),
        r is Err ==> r == Err::<(), UnparseError>(UnparseError::MetadataTooLong),
{
    let ghost head = out@;
    let mut i: usize = 0;
    while i < m.len()
        invariant
            i <= m@.len(),
            entries_fit(m@.subrange(0, i as int)),
            out@ == head + entries_bytes(m@.subrange(0, i as int)),
        decreases m@.len() - i,
    {
        assert(m@.subrange(0, i as int + 1).subrange(0, i as int) =~= m@.subrange(0, i as int));
        let r = put_str(out, &m[i].0);
        if r.is_err() {
            assert(!entries_fit(m@)) by {
                if entries_fit(m@) {
                    lemma_entries_fit_prefix(m@, i as int + 1);
                }
            }
            return r;
        }
        let r = put_value(out, &m[i].1);
        if r.is_err() {
            assert(!entries_fit(m@)) by {
                if entries_fit(m@) {
                    lemma_entries_fit_prefix(m@, i as int + 1);
                }
            }
            return r;
        }
        i = i + 1;
        assert(out@ =~= head + entries_bytes(m@.subrange(0, i as int)));
    }
    assert(m@.subrange(0, m@.len() as int) =~= m@);
    Ok(())
}

} // verus!
