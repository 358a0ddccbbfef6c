//! Codec 8 Extended: the layout of AVL records and their IO elements.
//!
//! A record is: an 8-byte timestamp (milliseconds since the Unix epoch), a
//! priority byte, a 15-byte GPS block (longitude and latitude as `i32`,
//! altitude and angle as `i16`, a satellite count byte, speed as `i16`), a
//! 2-byte event IO id, a 2-byte property count, then five groups of IO
//! elements. Each group starts with a 2-byte element count; the 1-, 2-, 4-
//! and 8-byte groups hold (2-byte id, value) pairs, and the variable group
//! holds (2-byte id, 2-byte length, that many bytes) triples. Every multi-byte
//! number is big-endian; 2- and 4-byte values are signed.
use chrono::TimeZone;
use vstd::prelude::*;
use crate::parser::io_elements as defs;
use crate::parser::models as m;
use crate::parser::models::{AvlRecord, IoDouble, IoElement, IoGroup, TeltonikaGps};
use crate::parser::reader as rd;
use crate::parser::reader::ByteReader;
use crate::text::push_decimal;
use crate::text::signed_decimal_string;

verus! {

broadcast use vstd::std_specs::hash::group_hash_axioms;

/// The earliest timestamp, in milliseconds, that chrono represents as a
/// `DateTime<Utc>`: January 1 of year -262143, 00:00:00.000 UTC.
pub const MIN_TIMESTAMP_MS: i64 = -8334601228800000i64;

/// The latest timestamp, in milliseconds, that chrono represents as a
/// `DateTime<Utc>`: December 31 of year 262142, 23:59:59.999 UTC.
pub const MAX_TIMESTAMP_MS: i64 = 8210266876799999i64;

/// A timestamp that chrono accepts as a UTC date and time.
pub open spec fn timestamp_in_range(ms: int) -> bool {
    MIN_TIMESTAMP_MS <= ms <= MAX_TIMESTAMP_MS
}

/// chrono's `Utc.timestamp_millis_opt(ms)`, asked whether it gives a single
/// date and time. chrono converts the milliseconds into a day count and
/// succeeds exactly when that day lies between `NaiveDate::MIN` and
/// `NaiveDate::MAX`, which is the range stated here.
#[verifier::external_body]
fn utc_timestamp_exists(ms: i64) -> (b: bool)
    ensures
        b == timestamp_in_range(ms as int),
{
    chrono::Utc.timestamp_millis_opt(ms).single().is_some()
}

/// `hex::encode`: two lowercase hexadecimal digits per byte, high nibble first.
#[verifier::external_body]
pub(crate) fn hex_encode(bytes: &Vec<u8>) -> (s: String)
    ensures
        s@ == crate::text::hex_lower(bytes@),
{
    hex::encode(bytes)
}

/// The groups of IO elements, named by the width of their values.
#[derive(Clone, Copy, Debug, PartialEq, Eq, Structural)]
pub enum IoWidth {
    One,
    Two,
    Four,
    Eight,
    Variable,
}

/// The number of value bytes after the id of an element of the group
/// (for the variable group: the length field).
pub open spec fn width_bytes(w: IoWidth) -> nat {
    match w {
        IoWidth::One => 1,
        IoWidth::Two => 2,
        IoWidth::Four => 4,
        IoWidth::Eight => 8,
        IoWidth::Variable => 2,
    }
}

impl IoWidth {
    /// The number of value bytes after an element's id.
    pub fn byte_len(&self) -> (n: usize)
        ensures
            n == width_bytes(*self),
    {
        match self {
            IoWidth::One => 1,
            IoWidth::Two => 2,
            IoWidth::Four => 4,
            IoWidth::Eight => 8,
            IoWidth::Variable => 2,
        }
    }
}

/// Why a record could not be decoded: the part that the buffer ends inside
/// of, or a timestamp outside the range of dates.
#[derive(Clone, Copy, Debug, PartialEq, Eq, Structural)]
pub enum ParseError {
    TimestampTruncated,
    InvalidTimestamp,
    PriorityTruncated,
    GpsTruncated,
    EventIdTruncated,
    PropertiesCountTruncated,
    /// The element count of a group.
    IoCountTruncated(IoWidth),
    /// An element of a group (for the variable group: its id and length).
    IoTruncated(IoWidth),
    /// The value bytes of a variable-length element.
    VariableIoDataTruncated,
}

/// The text that describes each error.
pub open spec fn error_message(e: ParseError) -> Seq<char> {
    match e {
        ParseError::TimestampTruncated => "Not enough bytes for timestamp"@,
        ParseError::InvalidTimestamp => "Invalid timestamp"@,
        ParseError::PriorityTruncated => "Not enough bytes for priority"@,
        ParseError::GpsTruncated => "Not enough bytes for GPS"@,
        ParseError::EventIdTruncated => "Not enough bytes for event id"@,
        ParseError::PropertiesCountTruncated => "Not enough bytes for properties count"@,
        ParseError::IoCountTruncated(IoWidth::One) => "Not enough bytes for 1-byte IO count"@,
        ParseError::IoCountTruncated(IoWidth::Two) => "Not enough bytes for 2-byte IO count"@,
        ParseError::IoCountTruncated(IoWidth::Four) => "Not enough bytes for 4-byte IO count"@,
        ParseError::IoCountTruncated(IoWidth::Eight) => "Not enough bytes for 8-byte IO count"@,
        ParseError::IoCountTruncated(IoWidth::Variable) => "Not enough bytes for X-byte IO count"@,
        ParseError::IoTruncated(IoWidth::One) => "Not enough bytes for 1-byte IO"@,
        ParseError::IoTruncated(IoWidth::Two) => "Not enough bytes for 2-byte IO"@,
        ParseError::IoTruncated(IoWidth::Four) => "Not enough bytes for 4-byte IO"@,
        ParseError::IoTruncated(IoWidth::Eight) => "Not enough bytes for 8-byte IO"@,
        ParseError::IoTruncated(IoWidth::Variable) => "Not enough bytes for X-byte IO header"@,
        ParseError::VariableIoDataTruncated => "Not enough bytes for X-byte IO data"@,
    }
}

impl ParseError {
    /// The text that describes the error.
    pub fn message(&self) -> (s: &'static str)
        ensures
            s@ == error_message(*self),
    {
        match self {
            ParseError::TimestampTruncated => "Not enough bytes for timestamp",
            ParseError::InvalidTimestamp => "Invalid timestamp",
            ParseError::PriorityTruncated => "Not enough bytes for priority",
            ParseError::GpsTruncated => "Not enough bytes for GPS",
            ParseError::EventIdTruncated => "Not enough bytes for event id",
            ParseError::PropertiesCountTruncated => "Not enough bytes for properties count",
            ParseError::IoCountTruncated(IoWidth::One) => "Not enough bytes for 1-byte IO count",
            ParseError::IoCountTruncated(IoWidth::Two) => "Not enough bytes for 2-byte IO count",
            ParseError::IoCountTruncated(IoWidth::Four) => "Not enough bytes for 4-byte IO count",
            ParseError::IoCountTruncated(IoWidth::Eight) => "Not enough bytes for 8-byte IO count",
            ParseError::IoCountTruncated(IoWidth::Variable) => "Not enough bytes for X-byte IO count",
            ParseError::IoTruncated(IoWidth::One) => "Not enough bytes for 1-byte IO",
            ParseError::IoTruncated(IoWidth::Two) => "Not enough bytes for 2-byte IO",
            ParseError::IoTruncated(IoWidth::Four) => "Not enough bytes for 4-byte IO",
            ParseError::IoTruncated(IoWidth::Eight) => "Not enough bytes for 8-byte IO",
            ParseError::IoTruncated(IoWidth::Variable) => "Not enough bytes for X-byte IO header",
            ParseError::VariableIoDataTruncated => "Not enough bytes for X-byte IO data",
        }
    }
}

/// The element with id `id` and value text `value`, described by the IO
/// definition table: its label, its unit and the name of `key` in its value
/// table, each empty where the table has none; an id missing from the table
/// is labelled `Unknown-` and its decimal number.
pub open spec fn element_view(id: u16, value: Seq<char>, key: i64) -> crate::parser::models::IoElementView {
    match defs::io_definition(id) {
        Some(d) => crate::parser::models::IoElementView {
            id,
            label: d.label,
            value,
            dimension: match d.dimension {
                Some(x) => x,
                None => Seq::empty(),
            },
            value_human: match d.values {
                Some(vs) => if vs.contains_key(key) {
                    vs[key]
                } else {
                    Seq::empty()
                },
                None => Seq::empty(),
            },
        },
        None => crate::parser::models::IoElementView {
            id,
            label: "Unknown-"@ + crate::text::decimal(id as nat),
            value,
            dimension: Seq::empty(),
            value_human: Seq::empty(),
        },
    }
}

/// The label, unit and value name of the element with id `id` whose value
/// is `key`.
pub(crate) fn describe(id: u16, key: i64) -> (r: (String, String, String))
    ensures
        r.0@ == element_view(id, Seq::empty(), key).label,
        r.1@ == element_view(id, Seq::empty(), key).dimension,
        r.2@ == element_view(id, Seq::empty(), key).value_human,
{
    match defs::get_io_element_definition(id) {
        Some(d) => {
            let label = String::from_str(d.label);
            let dimension = match d.dimension {
                Some(x) => String::from_str(x),
                None => String::new(),
            };
            let human = match &d.values {
                Some(vs) => match vs.get(&key) {
                    Some(n) => String::from_str(*n),
                    None => String::new(),
                },
                None => String::new(),
            };
            (label, dimension, human)
        },
        None => {
            let mut label = String::from_str("Unknown-");
            push_decimal(&mut label, id as u128);
            (label, String::new(), String::new())
        },
    }
}

/// The element with id `id` and the numeric value `value`; its value text is
/// the decimal rendering of `value`.
pub fn create_io_element(id: u16, value: i64, _byte_count: u8) -> (e: IoElement)
    ensures
        e@ == element_view(id, crate::text::signed_decimal(value as int), value),
{
    let (label, dimension, value_human) = describe(id, value);
    IoElement { id, label, value: signed_decimal_string(value), dimension, value_human }
}

/// The element with id `id` whose value text is `value_str`, its value
/// named as the number `value_num` is in the definition table.
pub fn create_io_element_from_string(id: u16, value_str: String, value_num: i64) -> (e: IoElement)
    ensures
        e@ == element_view(id, value_str@, value_num),
{
    let (label, dimension, value_human) = describe(id, value_num);
    IoElement { id, label, value: value_str, dimension, value_human }
}

/// The result of decoding a prefix of some bytes: the value and the bytes after it.
pub type Decoded<T> = Result<(T, Seq<u8>), ParseError>;

/// The value of an element of a 1-, 2- or 4-byte group, read from the bytes
/// after its id: unsigned for one byte, two's complement otherwise.
pub open spec fn int_value(w: IoWidth, r: Seq<u8>) -> int {
    match w {
        IoWidth::One => r[0] as int,
        IoWidth::Two => rd::be_i16(r.take(2)),
        _ => rd::be_i32(r.take(4)),
    }
}

/// The first `count` elements of a 1-, 2- or 4-byte group at the start of `s`.
pub open spec fn int_ios(s: Seq<u8>, count: nat, w: IoWidth) -> Decoded<Seq<m::IoElementView>>
    decreases count,
{
    if count == 0 {
        Ok((Seq::empty(), s))
    } else {
        match int_ios(s, (count - 1) as nat, w) {
            Err(e) => Err(e),
            Ok((els, rest)) => if rest.len() < 2 + width_bytes(w) {
                Err(ParseError::IoTruncated(w))
            } else {
                let id = rd::be_uint(rest.take(2)) as u16;
                let v = int_value(w, rest.skip(2));
                let e = element_view(id, crate::text::signed_decimal(v), v as i64);
                Ok((els.push(e), rest.skip(2).skip(width_bytes(w) as int)))
            },
        }
    }
}

/// A 1-, 2- or 4-byte group: its element count, then its elements.
pub open spec fn int_group(s: Seq<u8>, w: IoWidth) -> Decoded<Seq<m::IoElementView>> {
    if s.len() < 2 {
        Err(ParseError::IoCountTruncated(w))
    } else {
        int_ios(s.skip(2), rd::be_uint(s.take(2)), w)
    }
}

/// The first `count` elements of the 8-byte group at the start of `s`.
pub open spec fn double_ios(s: Seq<u8>, count: nat) -> Decoded<Seq<IoDouble>>
    decreases count,
{
    if count == 0 {
        Ok((Seq::empty(), s))
    } else {
        match double_ios(s, (count - 1) as nat) {
            Err(e) => Err(e),
            Ok((els, rest)) => if rest.len() < 10 {
                Err(ParseError::IoTruncated(IoWidth::Eight))
            } else {
                let e = IoDouble {
                    id: rd::be_uint(rest.take(2)) as u16,
                    bits: rd::be_uint(rest.skip(2).take(8)) as u64,
                };
                Ok((els.push(e), rest.skip(2).skip(8)))
            },
        }
    }
}

/// The 8-byte group: its element count, then its elements.
pub open spec fn double_group(s: Seq<u8>) -> Decoded<Seq<IoDouble>> {
    if s.len() < 2 {
        Err(ParseError::IoCountTruncated(IoWidth::Eight))
    } else {
        double_ios(s.skip(2), rd::be_uint(s.take(2)))
    }
}

/// The first `count` elements of the variable-length group at the start of
/// `s`; an element's value text is the hexadecimal rendering of its bytes.
pub open spec fn var_ios(s: Seq<u8>, count: nat) -> Decoded<Seq<m::IoElementView>>
    decreases count,
{
    if count == 0 {
        Ok((Seq::empty(), s))
    } else {
        match var_ios(s, (count - 1) as nat) {
            Err(e) => Err(e),
            Ok((els, rest)) => if rest.len() < 4 {
                Err(ParseError::IoTruncated(IoWidth::Variable))
            } else {
                let id = rd::be_uint(rest.take(2)) as u16;
                let len = rd::be_uint(rest.skip(2).take(2));
                let data = rest.skip(2).skip(2);
                if data.len() < len {
                    Err(ParseError::VariableIoDataTruncated)
                } else {
                    let e = element_view(id, crate::text::hex_lower(data.take(len as int)), 0);
                    Ok((els.push(e), data.skip(len as int)))
                }
            },
        }
    }
}

/// The variable-length group: its element count, then its elements.
pub open spec fn var_group(s: Seq<u8>) -> Decoded<Seq<m::IoElementView>> {
    if s.len() < 2 {
        Err(ParseError::IoCountTruncated(IoWidth::Variable))
    } else {
        var_ios(s.skip(2), rd::be_uint(s.take(2)))
    }
}

/// The five IO element groups of a record, in the order 1, 2, 4, 8 bytes, variable.
pub open spec fn io_groups(s: Seq<u8>) -> Decoded<m::IoGroupView> {
    match int_group(s, IoWidth::One) {
        Err(e) => Err(e),
        Ok((n1, s1)) => match int_group(s1, IoWidth::Two) {
            Err(e) => Err(e),
            Ok((n2, s2)) => match int_group(s2, IoWidth::Four) {
                Err(e) => Err(e),
                Ok((n4, s3)) => match double_group(s3) {
                    Err(e) => Err(e),
                    Ok((n8, s4)) => match var_group(s4) {
                        Err(e) => Err(e),
                        Ok((nx, s5)) => Ok((m::IoGroupView { n1, n2, n4, n8, nx }, s5)),
                    },
                },
            },
        },
    }
}

/// The 15-byte GPS block at the start of `s`.
pub open spec fn gps_block(s: Seq<u8>) -> TeltonikaGps {
    TeltonikaGps {
        longitude: rd::be_i32(s.subrange(0, 4)) as i32,
        latitude: rd::be_i32(s.subrange(4, 8)) as i32,
        altitude: rd::be_i16(s.subrange(8, 10)) as i16,
        angle: rd::be_i16(s.subrange(10, 12)) as i16,
        satellites: s[12],
        speed: rd::be_i16(s.subrange(13, 15)) as i16,
    }
}

/// One AVL record at the start of `s`.
#[verifier::opaque]
pub open spec fn record(s: Seq<u8>) -> Decoded<m::AvlRecordView> {
    if s.len() < 8 {
        Err(ParseError::TimestampTruncated)
    } else if !timestamp_in_range(rd::be_i64(s.take(8))) {
        Err(ParseError::InvalidTimestamp)
    } else {
        let s1 = s.skip(8);
        if s1.len() < 1 {
            Err(ParseError::PriorityTruncated)
        } else {
            let s2 = s1.skip(1);
            if s2.len() < 15 {
                Err(ParseError::GpsTruncated)
            } else {
                let s3 = s2.skip(15);
                if s3.len() < 2 {
                    Err(ParseError::EventIdTruncated)
                } else {
                    let s4 = s3.skip(2);
                    if s4.len() < 2 {
                        Err(ParseError::PropertiesCountTruncated)
                    } else {
                        match io_groups(s4.skip(2)) {
                            Err(e) => Err(e),
                            Ok((g, rest)) => Ok((
                                m::AvlRecordView {
                                    timestamp: rd::be_i64(s.take(8)) as i64,
                                    priority: s1[0],
                                    gps: gps_block(s2),
                                    event_id: rd::be_uint(s3.take(2)) as u16,
                                    io_groups: g,
                                    properties_count: rd::be_uint(s4.take(2)) as u16,
                                },
                                rest,
                            )),
                        }
                    }
                }
            }
        }
    }
}

/// The first `count` records at the start of `s`.
pub open spec fn records(s: Seq<u8>, count: nat) -> Decoded<Seq<m::AvlRecordView>>
    decreases count,
{
    if count == 0 {
        Ok((Seq::empty(), s))
    } else {
        match records(s, (count - 1) as nat) {
            Err(e) => Err(e),
            Ok((rs, rest)) => match record(rest) {
                Err(e) => Err(e),
                Ok((r, rest2)) => Ok((rs.push(r), rest2)),
            },
        }
    }
}

/// Once some elements fail to decode, so does any longer run of them.
proof fn lemma_int_ios_err(s: Seq<u8>, i: nat, n: nat, w: IoWidth)
    requires
        i <= n,
        int_ios(s, i, w) is Err,
    ensures
        int_ios(s, n, w) == int_ios(s, i, w),
    decreases n,
{
    if i < n {
        lemma_int_ios_err(s, i, (n - 1) as nat, w);
    }
}

/// Once some elements fail to decode, so does any longer run of them.
proof fn lemma_double_ios_err(s: Seq<u8>, i: nat, n: nat)
    requires
        i <= n,
        double_ios(s, i) is Err,
    ensures
        double_ios(s, n) == double_ios(s, i),
    decreases n,
{
    if i < n {
        lemma_double_ios_err(s, i, (n - 1) as nat);
    }
}

/// Once some elements fail to decode, so does any longer run of them.
proof fn lemma_var_ios_err(s: Seq<u8>, i: nat, n: nat)
    requires
        i <= n,
        var_ios(s, i) is Err,
    ensures
        var_ios(s, n) == var_ios(s, i),
    decreases n,
{
    if i < n {
        lemma_var_ios_err(s, i, (n - 1) as nat);
    }
}

/// Once some records fail to decode, so does any longer run of them.
proof fn lemma_records_err(s: Seq<u8>, i: nat, n: nat)
    requires
        i <= n,
        records(s, i) is Err,
    ensures
        records(s, n) == records(s, i),
    decreases n,
{
    if i < n {
        lemma_records_err(s, i, (n - 1) as nat);
    }
}

/// Decodes a 1-, 2- or 4-byte group.
fn parse_int_group(buf: &mut ByteReader, w: IoWidth) -> (r: Result<Vec<IoElement>, ParseError>)
    requires
        w == IoWidth::One || w == IoWidth::Two || w == IoWidth::Four,
    ensures
        final(buf).data() == old(buf).data(),
        old(buf).pos() <= final(buf).pos(),
        match int_group(old(buf)@, w) {
            Ok((els, rest)) => r matches Ok(v) && m::elements_view(v@) == els && final(buf)@ == rest,
            Err(e) => r == Err::<Vec<IoElement>, ParseError>(e),
        },
{
    let ghost s0 = buf@;
    let ghost d0 = buf.data();
    let ghost p0 = buf.pos();
    if buf.remaining() < 2 {
        return Err(ParseError::IoCountTruncated(w));
    }
    let count = buf.get_u16();
    let ghost s = buf@;
    let mut out: Vec<IoElement> = Vec::new();
    let mut i: u16 = 0;
    assert(m::elements_view(out@) =~= Seq::empty());
    while i < count
        invariant
            i <= count,
            s0 == old(buf)@,
            s0.len() >= 2,
            s == s0.skip(2),
            count == rd::be_uint(s0.take(2)),
            w == IoWidth::One || w == IoWidth::Two || w == IoWidth::Four,
            d0 == old(buf).data(),
            p0 == old(buf).pos(),
            buf.data() == d0,
            p0 <= buf.pos(),
            int_ios(s, i as nat, w) == Ok::<(Seq<m::IoElementView>, Seq<u8>), ParseError>(
                (m::elements_view(out@), buf@),
            ),
        decreases count - i,
    {
        if buf.remaining() < 2 + w.byte_len() {
            proof {
                lemma_int_ios_err(s, (i + 1) as nat, count as nat, w);
            }
            return Err(ParseError::IoTruncated(w));
        }
        let id = buf.get_u16();
        let value: i64 = match w {
            IoWidth::One => buf.get_u8() as i64,
            IoWidth::Two => buf.get_i16() as i64,
            _ => buf.get_i32() as i64,
        };
        let e = create_io_element(id, value, w.byte_len() as u8);
        let ghost prev = m::elements_view(out@);
        out.push(e);
        proof {
            assert(m::elements_view(out@) =~= prev.push(e@));
        }
        i = i + 1;
    }
    Ok(out)
}

/// Decodes the 8-byte group.
fn parse_double_group(buf: &mut ByteReader) -> (r: Result<Vec<IoDouble>, ParseError>)
    ensures
        final(buf).data() == old(buf).data(),
        old(buf).pos() <= final(buf).pos(),
        match double_group(old(buf)@) {
            Ok((els, rest)) => r matches Ok(v) && v@ == els && final(buf)@ == rest,
            Err(e) => r == Err::<Vec<IoDouble>, ParseError>(e),
        },
{
    let ghost s0 = buf@;
    let ghost d0 = buf.data();
    let ghost p0 = buf.pos();
    if buf.remaining() < 2 {
        return Err(ParseError::IoCountTruncated(IoWidth::Eight));
    }
    let count = buf.get_u16();
    let ghost s = buf@;
    let mut out: Vec<IoDouble> = Vec::new();
    let mut i: u16 = 0;
    assert(out@ =~= Seq::empty());
    while i < count
        invariant
            i <= count,
            s0 == old(buf)@,
            s0.len() >= 2,
            s == s0.skip(2),
            count == rd::be_uint(s0.take(2)),
            d0 == old(buf).data(),
            p0 == old(buf).pos(),
            buf.data() == d0,
            p0 <= buf.pos(),
            double_ios(s, i as nat) == Ok::<(Seq<IoDouble>, Seq<u8>), ParseError>((out@, buf@)),
        decreases count - i,
    {
        if buf.remaining() < 10 {
            proof {
                lemma_double_ios_err(s, (i + 1) as nat, count as nat);
            }
            return Err(ParseError::IoTruncated(IoWidth::Eight));
        }
        let id = buf.get_u16();
        let bits = buf.get_u64();
        out.push(IoDouble { id, bits });
        i = i + 1;
    }
    Ok(out)
}

/// Decodes the variable-length group.
fn parse_var_group(buf: &mut ByteReader) -> (r: Result<Vec<IoElement>, ParseError>)
    ensures
        final(buf).data() == old(buf).data(),
        old(buf).pos() <= final(buf).pos(),
        match var_group(old(buf)@) {
            Ok((els, rest)) => r matches Ok(v) && m::elements_view(v@) == els && final(buf)@ == rest,
            Err(e) => r == Err::<Vec<IoElement>, ParseError>(e),
        },
{
    let ghost s0 = buf@;
    let ghost d0 = buf.data();
    let ghost p0 = buf.pos();
    if buf.remaining() < 2 {
        return Err(ParseError::IoCountTruncated(IoWidth::Variable));
    }
    let count = buf.get_u16();
    let ghost s = buf@;
    let mut out: Vec<IoElement> = Vec::new();
    let mut i: u16 = 0;
    assert(m::elements_view(out@) =~= Seq::empty());
    while i < count
        invariant
            i <= count,
            s0 == old(buf)@,
            s0.len() >= 2,
            s == s0.skip(2),
            count == rd::be_uint(s0.take(2)),
            d0 == old(buf).data(),
            p0 == old(buf).pos(),
            buf.data() == d0,
            p0 <= buf.pos(),
            var_ios(s, i as nat) == Ok::<(Seq<m::IoElementView>, Seq<u8>), ParseError>(
                (m::elements_view(out@), buf@),
            ),
        decreases count - i,
    {
        if buf.remaining() < 4 {
            proof {
                lemma_var_ios_err(s, (i + 1) as nat, count as nat);
            }
            return Err(ParseError::IoTruncated(IoWidth::Variable));
        }
        let id = buf.get_u16();
        let len = buf.get_u16();
        if buf.remaining() < len as usize {
            proof {
                lemma_var_ios_err(s, (i + 1) as nat, count as nat);
            }
            return Err(ParseError::VariableIoDataTruncated);
        }
        let bytes = buf.copy_to_vec(len as usize);
        let text = hex_encode(&bytes);
        let e = create_io_element_from_string(id, text, 0);
        let ghost prev = m::elements_view(out@);
        out.push(e);
        proof {
            assert(m::elements_view(out@) =~= prev.push(e@));
        }
        i = i + 1;
    }
    Ok(out)
}

/// Decodes the five IO element groups of a record.
fn parse_io_elements(buf: &mut ByteReader) -> (r: Result<IoGroup, ParseError>)
    ensures
        final(buf).data() == old(buf).data(),
        old(buf).pos() <= final(buf).pos(),
        match io_groups(old(buf)@) {
            Ok((g, rest)) => r matches Ok(v) && v@ == g && final(buf)@ == rest,
            Err(e) => r == Err::<IoGroup, ParseError>(e),
        },
{
    let n1 = match parse_int_group(buf, IoWidth::One) {
        Ok(v) => v,
        Err(e) => return Err(e),
    };
    let n2 = match parse_int_group(buf, IoWidth::Two) {
        Ok(v) => v,
        Err(e) => return Err(e),
    };
    let n4 = match parse_int_group(buf, IoWidth::Four) {
        Ok(v) => v,
        Err(e) => return Err(e),
    };
    let n8 = match parse_double_group(buf) {
        Ok(v) => v,
        Err(e) => return Err(e),
    };
    let nx = match parse_var_group(buf) {
        Ok(v) => v,
        Err(e) => return Err(e),
    };
    Ok(IoGroup { n1, n2, n4, n8, nx })
}

/// Decodes one AVL record from the front of `buf`. On success the reader
/// stands after the record; in every case the unread bytes are the input
/// with the consumed bytes skipped.
pub fn parse_record(buf: &mut ByteReader) -> (r: Result<AvlRecord, ParseError>)
    ensures
        final(buf).data() == old(buf).data(),
        old(buf).pos() <= final(buf).pos() <= final(buf).data().len(),
        final(buf)@ == old(buf)@.skip(final(buf).pos() - old(buf).pos()),
        match record(old(buf)@) {
            Ok((rec, rest)) => r matches Ok(v) && v@ == rec && final(buf)@ == rest,
            Err(e) => r == Err::<AvlRecord, ParseError>(e),
        },
{
    proof {
        use_type_invariant(&*buf);
    }
    let ghost d0 = buf.data();
    let ghost p0 = buf.pos();
    let r = decode_record(buf);
    proof {
        use_type_invariant(&*buf);
        assert(d0.skip(p0 as int).skip(buf.pos() - p0) =~= d0.skip(buf.pos() as int));
    }
    r
}

/// Decodes one AVL record.
fn decode_record(buf: &mut ByteReader) -> (r: Result<AvlRecord, ParseError>)
    ensures
        final(buf).data() == old(buf).data(),
        old(buf).pos() <= final(buf).pos(),
        match record(old(buf)@) {
            Ok((rec, rest)) => r matches Ok(v) && v@ == rec && final(buf)@ == rest,
            Err(e) => r == Err::<AvlRecord, ParseError>(e),
        },
{
    let ghost s = buf@;
    reveal(record);
    if buf.remaining() < 8 {
        return Err(ParseError::TimestampTruncated);
    }
    let timestamp = buf.get_i64();
    if !utc_timestamp_exists(timestamp) {
        return Err(ParseError::InvalidTimestamp);
    }
    if buf.remaining() < 1 {
        return Err(ParseError::PriorityTruncated);
    }
    let priority = buf.get_u8();
    if buf.remaining() < 15 {
        return Err(ParseError::GpsTruncated);
    }
    let ghost g = buf@;
    let longitude = buf.get_i32();
    let latitude = buf.get_i32();
    let altitude = buf.get_i16();
    let angle = buf.get_i16();
    let satellites = buf.get_u8();
    let speed = buf.get_i16();
    proof {
        assert(g.take(4) =~= g.subrange(0, 4));
        assert(g.skip(4).take(4) =~= g.subrange(4, 8));
        assert(g.skip(4).skip(4).take(2) =~= g.subrange(8, 10));
        assert(g.skip(4).skip(4).skip(2).take(2) =~= g.subrange(10, 12));
        assert(g.skip(4).skip(4).skip(2).skip(2)[0] == g[12]);
        assert(g.skip(4).skip(4).skip(2).skip(2).skip(1).take(2) =~= g.subrange(13, 15));
        assert(buf@ =~= g.skip(15));
    }
    if buf.remaining() < 2 {
        return Err(ParseError::EventIdTruncated);
    }
    let event_id = buf.get_u16();
    if buf.remaining() < 2 {
        return Err(ParseError::PropertiesCountTruncated);
    }
    let properties_count = buf.get_u16();
    let io_groups = match parse_io_elements(buf) {
        Ok(v) => v,
        Err(e) => return Err(e),
    };
    let gps = TeltonikaGps { longitude, latitude, altitude, angle, satellites, speed };
    Ok(AvlRecord { timestamp, priority, gps, event_id, io_groups, properties_count })
}

/// Decodes `number_of_data` consecutive AVL records from `buf`, in order.
/// On success the reader stands after the last record; on failure it has
/// moved forward by some bytes, the unread bytes are what follows them in
/// the input, and the error is that of the first record that does not decode.
pub fn parse(buf: &mut ByteReader, number_of_data: u8) -> (r: Result<Vec<AvlRecord>, ParseError>)
    ensures
        final(buf).data() == old(buf).data(),
        old(buf).pos() <= final(buf).pos() <= final(buf).data().len(),
        final(buf)@ == old(buf)@.skip(final(buf).pos() - old(buf).pos()),
        r matches Ok(v) ==> v.len() == number_of_data,
        match records(old(buf)@, number_of_data as nat) {
            Ok((rs, rest)) => r matches Ok(v) && m::records_view(v@) == rs && final(buf)@ == rest,
            Err(e) => r == Err::<Vec<AvlRecord>, ParseError>(e),
        },
{
    proof {
        use_type_invariant(&*buf);
    }
    let ghost s = buf@;
    let ghost d0 = buf.data();
    let ghost p0 = buf.pos();
    let mut out: Vec<AvlRecord> = Vec::new();
    let mut i: u8 = 0;
    assert(m::records_view(out@) =~= Seq::empty());
    while i < number_of_data
        invariant
            i <= number_of_data,
            s == old(buf)@,
            d0 == old(buf).data(),
            p0 == old(buf).pos(),
            p0 <= d0.len(),
            buf.data() == d0,
            p0 <= buf.pos(),
            records(s, i as nat) == Ok::<(Seq<m::AvlRecordView>, Seq<u8>), ParseError>(
                (m::records_view(out@), buf@),
            ),
        decreases number_of_data - i,
    {
        let rec = match decode_record(buf) {
            Ok(v) => v,
            Err(e) => {
                proof {
                    lemma_records_err(s, (i + 1) as nat, number_of_data as nat);
                    use_type_invariant(&*buf);
                    assert(d0.skip(p0 as int).skip(buf.pos() - p0) =~= d0.skip(buf.pos() as int));
                }
                return Err(e);
            },
        };
        let ghost prev = m::records_view(out@);
        out.push(rec);
        proof {
            assert(m::records_view(out@) =~= prev.push(rec@));
        }
        i = i + 1;
    }
    proof {
        use_type_invariant(&*buf);
        assert(d0.skip(p0 as int).skip(buf.pos() - p0) =~= d0.skip(buf.pos() as int));
        crate::parser::laws::lemma_records_count(s, number_of_data as nat);
    }
    Ok(out)
}

} // verus!
