//! Properties of frame decoding that hold across all inputs.
use vstd::prelude::*;
use crate::parser::codec8e as c;
use crate::parser::io_elements::io_definition;
use crate::parser::io_elements::DefinitionView;
use crate::parser::packet;

verus! {

/// Every frame is understood as exactly one thing: the IMEI handshake (with
/// an IMEI), a data packet (with its records), or an invalid frame (with
/// neither); only an invalid frame carries a reason.
pub proof fn lemma_packet_kinds(buf: Seq<u8>)
    ensures
        packet(buf).is_imei ==> packet(buf).imei is Some && packet(buf).avl_data is None && !packet(buf).invalid,
        packet(buf).avl_data is Some ==> !packet(buf).is_imei && packet(buf).imei is None && !packet(buf).invalid,
        packet(buf).invalid ==> !packet(buf).is_imei && packet(buf).imei is None && packet(buf).avl_data is None,
        packet(buf).is_imei || packet(buf).avl_data is Some || packet(buf).invalid,
        packet(buf).error is Some ==> packet(buf).invalid,
{
}

/// Decoding `count` records, when it succeeds, gives exactly `count` records.
pub proof fn lemma_records_count(s: Seq<u8>, count: nat)
    ensures
        c::records(s, count) matches Ok((rs, _)) ==> rs.len() == count,
    decreases count,
{
    if count > 0 {
        lemma_records_count(s, (count - 1) as nat);
    }
}

/// Each IO element group, when it decodes, holds exactly the number of
/// elements that its count announces.
pub proof fn lemma_groups_hold_announced_counts(s: Seq<u8>, count: nat, w: c::IoWidth)
    ensures
        c::int_ios(s, count, w) matches Ok((els, _)) ==> els.len() == count,
        c::double_ios(s, count) matches Ok((els, _)) ==> els.len() == count,
        c::var_ios(s, count) matches Ok((els, _)) ==> els.len() == count,
    decreases count,
{
    if count > 0 {
        lemma_groups_hold_announced_counts(s, (count - 1) as nat, w);
    }
}

/// A decoded data packet is of Codec 8 Extended and holds as many records
/// as its header announces, the number that its acknowledgement returns.
pub proof fn lemma_data_packet_holds_announced_records(buf: Seq<u8>)
    ensures
        packet(buf).avl_data matches Some(d) ==> d.codec_id == crate::parser::CODEC_8_EXTENDED
            && d.records.len() == d.number_of_data,
{
    if buf.len() >= 8 {
        lemma_records_count(buf.skip(6), buf[5] as nat);
    }
}

/// Taking or dropping a prefix of `s` is the same within `s + t`.
proof fn lemma_prefix_of_append(s: Seq<u8>, t: Seq<u8>, k: int)
    requires
        0 <= k <= s.len(),
    ensures
        (s + t).take(k) == s.take(k),
        (s + t).skip(k) == s.skip(k) + t,
{
    assert((s + t).take(k) =~= s.take(k));
    assert((s + t).skip(k) =~= s.skip(k) + t);
}

proof fn lemma_int_ios_append(s: Seq<u8>, t: Seq<u8>, count: nat, w: c::IoWidth)
    requires
        w == c::IoWidth::One || w == c::IoWidth::Two || w == c::IoWidth::Four,
    ensures
        c::int_ios(s, count, w) matches Ok((els, rest)) ==> c::int_ios(s + t, count, w) == Ok::<
            (Seq<crate::parser::models::IoElementView>, Seq<u8>),
            c::ParseError,
        >((els, rest + t)),
    decreases count,
{
    if count > 0 {
        lemma_int_ios_append(s, t, (count - 1) as nat, w);
        if let Ok((els, rest)) = c::int_ios(s, (count - 1) as nat, w) {
            if rest.len() >= 2 + c::width_bytes(w) {
                lemma_prefix_of_append(rest, t, 2);
                let r = rest.skip(2);
                lemma_prefix_of_append(r, t, c::width_bytes(w) as int);
                if r.len() >= 2 {
                    lemma_prefix_of_append(r, t, 2);
                }
                if r.len() >= 4 {
                    lemma_prefix_of_append(r, t, 4);
                }
                assert((r + t)[0] == r[0]);
                assert(c::int_value(w, (rest + t).skip(2)) == c::int_value(w, r));
            }
        }
    }
}

proof fn lemma_double_ios_append(s: Seq<u8>, t: Seq<u8>, count: nat)
    ensures
        c::double_ios(s, count) matches Ok((els, rest)) ==> c::double_ios(s + t, count) == Ok::<
            (Seq<crate::parser::models::IoDouble>, Seq<u8>),
            c::ParseError,
        >((els, rest + t)),
    decreases count,
{
    if count > 0 {
        lemma_double_ios_append(s, t, (count - 1) as nat);
        if let Ok((els, rest)) = c::double_ios(s, (count - 1) as nat) {
            if rest.len() >= 10 {
                lemma_prefix_of_append(rest, t, 2);
                lemma_prefix_of_append(rest.skip(2), t, 8);
            }
        }
    }
}

proof fn lemma_var_ios_append(s: Seq<u8>, t: Seq<u8>, count: nat)
    ensures
        c::var_ios(s, count) matches Ok((els, rest)) ==> c::var_ios(s + t, count) == Ok::<
            (Seq<crate::parser::models::IoElementView>, Seq<u8>),
            c::ParseError,
        >((els, rest + t)),
    decreases count,
{
    if count > 0 {
        lemma_var_ios_append(s, t, (count - 1) as nat);
        if let Ok((els, rest)) = c::var_ios(s, (count - 1) as nat) {
            if rest.len() >= 4 {
                lemma_prefix_of_append(rest, t, 2);
                lemma_prefix_of_append(rest.skip(2), t, 2);
                let data = rest.skip(2).skip(2);
                let len = crate::parser::reader::be_uint(rest.skip(2).take(2));
                if data.len() >= len {
                    lemma_prefix_of_append(data, t, len as int);
                }
            }
        }
    }
}

proof fn lemma_io_groups_append(s: Seq<u8>, t: Seq<u8>)
    ensures
        c::io_groups(s) matches Ok((g, rest)) ==> c::io_groups(s + t) == Ok::<
            (crate::parser::models::IoGroupView, Seq<u8>),
            c::ParseError,
        >((g, rest + t)),
{
    if let Ok((n1, s1)) = c::int_group(s, c::IoWidth::One) {
        lemma_prefix_of_append(s, t, 2);
        lemma_int_ios_append(s.skip(2), t, crate::parser::reader::be_uint(s.take(2)), c::IoWidth::One);
        if let Ok((n2, s2)) = c::int_group(s1, c::IoWidth::Two) {
            lemma_prefix_of_append(s1, t, 2);
            lemma_int_ios_append(s1.skip(2), t, crate::parser::reader::be_uint(s1.take(2)), c::IoWidth::Two);
            if let Ok((n4, s3)) = c::int_group(s2, c::IoWidth::Four) {
                lemma_prefix_of_append(s2, t, 2);
                lemma_int_ios_append(
                    s2.skip(2),
                    t,
                    crate::parser::reader::be_uint(s2.take(2)),
                    c::IoWidth::Four,
                );
                if let Ok((n8, s4)) = c::double_group(s3) {
                    lemma_prefix_of_append(s3, t, 2);
                    lemma_double_ios_append(s3.skip(2), t, crate::parser::reader::be_uint(s3.take(2)));
                    if let Ok((nx, s5)) = c::var_group(s4) {
                        lemma_prefix_of_append(s4, t, 2);
                        lemma_var_ios_append(s4.skip(2), t, crate::parser::reader::be_uint(s4.take(2)));
                    }
                }
            }
        }
    }
}

/// Bytes after a record do not change how it decodes: the same record
/// comes out, and the extra bytes are left over after it.
pub proof fn lemma_record_ignores_trailing_bytes(s: Seq<u8>, t: Seq<u8>)
    ensures
        c::record(s) matches Ok((r, rest)) ==> c::record(s + t) == Ok::<
            (crate::parser::models::AvlRecordView, Seq<u8>),
            c::ParseError,
        >((r, rest + t)),
{
    reveal(c::record);
    if let Ok((r, rest)) = c::record(s) {
        lemma_prefix_of_append(s, t, 8);
        let s1 = s.skip(8);
        lemma_prefix_of_append(s1, t, 1);
        assert((s1 + t)[0] == s1[0]);
        let s2 = s1.skip(1);
        lemma_prefix_of_append(s2, t, 15);
        assert((s2 + t).subrange(0, 4) =~= s2.subrange(0, 4));
        assert((s2 + t).subrange(4, 8) =~= s2.subrange(4, 8));
        assert((s2 + t).subrange(8, 10) =~= s2.subrange(8, 10));
        assert((s2 + t).subrange(10, 12) =~= s2.subrange(10, 12));
        assert((s2 + t).subrange(13, 15) =~= s2.subrange(13, 15));
        assert((s2 + t)[12] == s2[12]);
        assert(c::gps_block(s2 + t) == c::gps_block(s2));
        let s3 = s2.skip(15);
        lemma_prefix_of_append(s3, t, 2);
        let s4 = s3.skip(2);
        lemma_prefix_of_append(s4, t, 2);
        lemma_io_groups_append(s4.skip(2), t);
    }
}

/// Bytes after a run of records do not change how the records decode: the
/// same records come out, and the extra bytes are left over after them. (A
/// data packet ends with a second record count and a checksum, which the
/// decoder leaves unread.)
pub proof fn lemma_records_ignore_trailing_bytes(s: Seq<u8>, t: Seq<u8>, count: nat)
    ensures
        c::records(s, count) matches Ok((rs, rest)) ==> c::records(s + t, count) == Ok::<
            (Seq<crate::parser::models::AvlRecordView>, Seq<u8>),
            c::ParseError,
        >((rs, rest + t)),
    decreases count,
{
    if count > 0 {
        lemma_records_ignore_trailing_bytes(s, t, (count - 1) as nat);
        if let Ok((rs, rest)) = c::records(s, (count - 1) as nat) {
            lemma_record_ignores_trailing_bytes(rest, t);
        }
    }
}

/// A data packet decodes to the same records when more bytes follow it,
/// unless the longer frame has the shape of an IMEI handshake.
pub proof fn lemma_data_packet_ignores_trailing_bytes(buf: Seq<u8>, t: Seq<u8>)
    requires
        packet(buf).avl_data is Some,
        !(crate::parser::imei_frame(buf + t) && vstd::utf8::valid_utf8((buf + t).skip(2))),
    ensures
        packet(buf + t).avl_data == packet(buf).avl_data,
{
    lemma_prefix_of_append(buf, t, 6);
    assert((buf + t)[4] == buf[4] && (buf + t)[5] == buf[5]);
    lemma_records_ignore_trailing_bytes(buf.skip(6), t, buf[5] as nat);
}

/// The two bytes after the event id (bytes 26 and 27 of a record) are the
/// property count, and nothing else depends on them: two records that
/// differ only there decode alike, except for that count, and leave the
/// same bytes after them.
pub proof fn lemma_record_property_count_is_independent(s: Seq<u8>, s2: Seq<u8>)
    requires
        s.len() == s2.len(),
        forall|i: int| 0 <= i < s.len() && i != 26 && i != 27 ==> s[i] == s2[i],
    ensures
        c::record(s) matches Ok((r, rest)) ==> c::record(s2) == Ok::<
            (crate::parser::models::AvlRecordView, Seq<u8>),
            c::ParseError,
        >((
            crate::parser::models::AvlRecordView {
                properties_count: crate::parser::reader::be_uint(s2.subrange(26, 28)) as u16,
                ..r
            },
            rest,
        )),
{
    reveal(c::record);
    if let Ok((r, rest)) = c::record(s) {
        assert(s.take(8) =~= s2.take(8));
        let a1 = s.skip(8);
        let b1 = s2.skip(8);
        assert(a1[0] == b1[0]);
        let a2 = a1.skip(1);
        let b2 = b1.skip(1);
        assert(a2.subrange(0, 4) =~= b2.subrange(0, 4));
        assert(a2.subrange(4, 8) =~= b2.subrange(4, 8));
        assert(a2.subrange(8, 10) =~= b2.subrange(8, 10));
        assert(a2.subrange(10, 12) =~= b2.subrange(10, 12));
        assert(a2.subrange(13, 15) =~= b2.subrange(13, 15));
        assert(a2[12] == b2[12]);
        assert(c::gps_block(a2) == c::gps_block(b2));
        let a3 = a2.skip(15);
        let b3 = b2.skip(15);
        assert(a3.take(2) =~= b3.take(2));
        let a4 = a3.skip(2);
        let b4 = b3.skip(2);
        assert(b4.take(2) =~= s2.subrange(26, 28));
        assert(a4.skip(2) =~= b4.skip(2));
    }
}

/// No two ids of the definition table share a label.
pub proof fn lemma_labels_are_unique(a: u16, b: u16)
    ensures
        io_definition(a) is Some && io_definition(b) is Some && a != b ==> io_definition(a).unwrap().label
            != io_definition(b).unwrap().label,
{
    crate::parser::io_elements::lemma_entry_facts(a);
    crate::parser::io_elements::lemma_entry_facts(b);
}

/// The number whose big-endian encoding is the two bytes `b0 b1`.
pub open spec fn u16_of(b0: u8, b1: u8) -> int {
    b0 as int * 256 + b1 as int
}

/// The two's-complement number encoded big-endian by `b0 b1`: negative
/// exactly when the top bit of `b0` is set.
pub open spec fn i16_of(b0: u8, b1: u8) -> int {
    u16_of(b0, b1) - if b0 >= 128 { 65536int } else { 0int }
}

/// The two's-complement number encoded big-endian by `b0 b1 b2 b3`.
pub open spec fn i32_of(b0: u8, b1: u8, b2: u8, b3: u8) -> int {
    b0 as int * 16777216 + b1 as int * 65536 + b2 as int * 256 + b3 as int - if b0 >= 128 {
        4294967296int
    } else {
        0int
    }
}

/// The two's-complement number encoded big-endian by the eight bytes of
/// `s` from position `k` on.
pub open spec fn i64_of(s: Seq<u8>, k: int) -> int {
    s[k] as int * 0x100_0000_0000_0000 + s[k + 1] as int * 0x1_0000_0000_0000 + s[k + 2] as int
        * 0x100_0000_0000 + s[k + 3] as int * 0x1_0000_0000 + s[k + 4] as int * 0x100_0000 + s[k + 5] as int
        * 0x1_0000 + s[k + 6] as int * 0x100 + s[k + 7] as int - if s[k] >= 128 {
        0x1_0000_0000_0000_0000int
    } else {
        0int
    }
}

proof fn lemma_be_uint_2(b: Seq<u8>)
    requires
        b.len() == 2,
    ensures
        crate::parser::reader::be_uint(b) == u16_of(b[0], b[1]),
{
    assert(b.drop_last().drop_last() =~= Seq::<u8>::empty());
    reveal_with_fuel(crate::parser::reader::be_uint, 3);
}

proof fn lemma_be_uint_4(b: Seq<u8>)
    requires
        b.len() == 4,
    ensures
        crate::parser::reader::be_uint(b) == b[0] as int * 16777216 + b[1] as int * 65536 + b[2] as int * 256
            + b[3] as int,
{
    let b3 = b.drop_last();
    let b2 = b3.drop_last();
    let b1 = b2.drop_last();
    assert(b1.drop_last() =~= Seq::<u8>::empty());
    reveal_with_fuel(crate::parser::reader::be_uint, 5);
    assert(crate::parser::reader::be_uint(b1) == b[0]);
    assert(crate::parser::reader::be_uint(b2) == b[0] as int * 256 + b[1] as int);
}

proof fn lemma_be_uint_8(b: Seq<u8>)
    requires
        b.len() == 8,
    ensures
        crate::parser::reader::be_uint(b) == i64_of(b, 0) + if b[0] >= 128 {
            0x1_0000_0000_0000_0000int
        } else {
            0int
        },
{
    let head = b.take(4);
    lemma_be_uint_4(head);
    let c5 = b.take(5);
    let c6 = b.take(6);
    let c7 = b.take(7);
    assert(c5.drop_last() =~= head);
    assert(c6.drop_last() =~= c5);
    assert(c7.drop_last() =~= c6);
    assert(b.drop_last() =~= c7);
    reveal_with_fuel(crate::parser::reader::be_uint, 2);
    assert(crate::parser::reader::be_uint(c5) == crate::parser::reader::be_uint(head) * 256 + b[4]);
    assert(crate::parser::reader::be_uint(c6) == crate::parser::reader::be_uint(c5) * 256 + b[5]);
    assert(crate::parser::reader::be_uint(c7) == crate::parser::reader::be_uint(c6) * 256 + b[6]);
}

/// The fixed fields of a decoded record are the bytes at fixed offsets, read
/// big-endian and, where signed, in two's complement, sign included: the
/// timestamp is bytes 0-7, the priority byte 8, longitude 9-12, latitude
/// 13-16, altitude 17-18, angle 19-20, satellites 21, speed 22-23, event id
/// 24-25 and property count 26-27. In particular a longitude or latitude
/// is negative (west, south) exactly when the top bit of its first byte is set.
pub proof fn lemma_record_fields_at_offsets(s: Seq<u8>)
    ensures
        c::record(s) matches Ok((r, _)) ==> {
            &&& r.timestamp == i64_of(s, 0)
            &&& r.priority == s[8]
            &&& r.gps.longitude == i32_of(s[9], s[10], s[11], s[12])
            &&& (r.gps.longitude < 0 <==> s[9] >= 128)
            &&& r.gps.latitude == i32_of(s[13], s[14], s[15], s[16])
            &&& (r.gps.latitude < 0 <==> s[13] >= 128)
            &&& r.gps.altitude == i16_of(s[17], s[18])
            &&& r.gps.angle == i16_of(s[19], s[20])
            &&& r.gps.satellites == s[21]
            &&& r.gps.speed == i16_of(s[22], s[23])
            &&& r.event_id == u16_of(s[24], s[25])
            &&& r.properties_count == u16_of(s[26], s[27])
        },
{
    reveal(c::record);
    if let Ok((r, _)) = c::record(s) {
        let g = s.skip(8).skip(1);
        assert(g =~= s.skip(9));
        lemma_be_uint_8(s.take(8));
        let lon = g.subrange(0, 4);
        let lat = g.subrange(4, 8);
        lemma_be_uint_4(lon);
        lemma_be_uint_4(lat);
        lemma_be_uint_2(g.subrange(8, 10));
        lemma_be_uint_2(g.subrange(10, 12));
        lemma_be_uint_2(g.subrange(13, 15));
        let s3 = g.skip(15);
        let s4 = s3.skip(2);
        lemma_be_uint_2(s3.take(2));
        lemma_be_uint_2(s4.take(2));
        assert(lon[0] == s[9] && lon[1] == s[10] && lon[2] == s[11] && lon[3] == s[12]);
        assert(lat[0] == s[13] && lat[1] == s[14] && lat[2] == s[15] && lat[3] == s[16]);
        assert(s3[0] == s[24] && s3[1] == s[25] && s4[0] == s[26] && s4[1] == s[27]);
        assert(g[8] == s[17] && g[9] == s[18] && g[10] == s[19] && g[11] == s[20] && g[12] == s[21]);
        assert(g[13] == s[22] && g[14] == s[23]);
    }
}

/// The IO definition table, entry by entry: the label, unit and value names
/// of each of the 106 known ids, and no entry for any other id.
pub proof fn lemma_definition_table_contents()
    ensures
        io_definition(1) == Some(
            DefinitionView { label: "Digital Input 1"@, dimension: None, values: Some(map![0 => "0"@, 1 => "1"@]) },
        ),
        io_definition(4) == Some(
            DefinitionView { label: "Pulse counter DIN1"@, dimension: None, values: None },
        ),
        io_definition(9) == Some(
            DefinitionView { label: "Analog Input 1"@, dimension: Some("V"@), values: None },
        ),
        io_definition(10) == Some(
            DefinitionView { label: "SD Status"@, dimension: None, values: Some(map![0 => "Not present"@, 1 => "Present"@]) },
        ),
        io_definition(11) == Some(
            DefinitionView { label: "SIM ICCID1 number"@, dimension: None, values: None },
        ),
        io_definition(12) == Some(
            DefinitionView { label: "Fuel Used GPS"@, dimension: None, values: None },
        ),
        io_definition(13) == Some(
            DefinitionView { label: "Average Fuel Use"@, dimension: Some("L / 100 km"@), values: None },
        ),
        io_definition(14) == Some(
            DefinitionView { label: "SIM ICCID2 number"@, dimension: None, values: None },
        ),
        io_definition(15) == Some(
            DefinitionView { label: "Eco Score"@, dimension: None, values: None },
        ),
        io_definition(16) == Some(
            DefinitionView { label: "Total Odometer"@, dimension: Some("m"@), values: None },
        ),
        io_definition(17) == Some(
            DefinitionView { label: "Axis X"@, dimension: Some("mg"@), values: None },
        ),
        io_definition(18) == Some(
            DefinitionView { label: "Axis Y"@, dimension: Some("mg"@), values: None },
        ),
        io_definition(19) == Some(
            DefinitionView { label: "Axis Z"@, dimension: Some("mg"@), values: None },
        ),
        io_definition(20) == Some(
            DefinitionView { label: "BLE 2 Battery Voltage"@, dimension: Some("%"@), values: None },
        ),
        io_definition(21) == Some(
            DefinitionView { label: "GSM Signal"@, dimension: None, values: Some(map![1 => "1"@, 2 => "2"@, 3 => "3"@, 4 => "4"@, 5 => "5"@]) },
        ),
        io_definition(22) == Some(
            DefinitionView { label: "BLE 3 Battery Voltage"@, dimension: Some("%"@), values: None },
        ),
        io_definition(23) == Some(
            DefinitionView { label: "BLE 4 Battery Voltage"@, dimension: Some("%"@), values: None },
        ),
        io_definition(24) == Some(
            DefinitionView { label: "Speed"@, dimension: Some("km/h"@), values: None },
        ),
        io_definition(25) == Some(
            DefinitionView { label: "BLE 1 Temperature"@, dimension: Some("C"@), values: None },
        ),
        io_definition(26) == Some(
            DefinitionView { label: "BLE 2 Temperature"@, dimension: Some("C"@), values: None },
        ),
        io_definition(27) == Some(
            DefinitionView { label: "BLE 3 Temperature"@, dimension: Some("C"@), values: None },
        ),
        io_definition(28) == Some(
            DefinitionView { label: "BLE 4 Temperature"@, dimension: Some("C"@), values: None },
        ),
        io_definition(29) == Some(
            DefinitionView { label: "BLE 1 Battery Voltage"@, dimension: Some("%"@), values: None },
        ),
        io_definition(30) == Some(
            DefinitionView { label: "Number of DTC"@, dimension: None, values: None },
        ),
        io_definition(31) == Some(
            DefinitionView { label: "Calculated engine load value"@, dimension: Some("%"@), values: None },
        ),
        io_definition(32) == Some(
            DefinitionView { label: "Engine coolant temperature"@, dimension: Some("C"@), values: None },
        ),
        io_definition(33) == Some(
            DefinitionView { label: "Short term fuel trim 1"@, dimension: Some("%"@), values: None },
        ),
        io_definition(34) == Some(
            DefinitionView { label: "Fuel pressure"@, dimension: Some("kPa"@), values: None },
        ),
        io_definition(35) == Some(
            DefinitionView { label: "Intake manifold absolute pressure"@, dimension: Some("kPa"@), values: None },
        ),
        io_definition(36) == Some(
            DefinitionView { label: "Engine RPM"@, dimension: Some("rpm"@), values: None },
        ),
        io_definition(37) == Some(
            DefinitionView { label: "Vehicle speed"@, dimension: Some("km/h"@), values: None },
        ),
        io_definition(38) == Some(
            DefinitionView { label: "Timing advance"@, dimension: Some("O"@), values: None },
        ),
        io_definition(39) == Some(
            DefinitionView { label: "Intake air temperature"@, dimension: Some("C"@), values: None },
        ),
        io_definition(40) == Some(
            DefinitionView { label: "MAF air flow rate"@, dimension: Some("g/sec, *0.01"@), values: None },
        ),
        io_definition(41) == Some(
            DefinitionView { label: "Throttle position"@, dimension: Some("%"@), values: None },
        ),
        io_definition(42) == Some(
            DefinitionView { label: "Run time since engine start"@, dimension: Some("s"@), values: None },
        ),
        io_definition(43) == Some(
            DefinitionView { label: "Distance traveled MIL on"@, dimension: Some("Km"@), values: None },
        ),
        io_definition(44) == Some(
            DefinitionView { label: "Relative fuel rail pressure"@, dimension: Some("kPa*0.1"@), values: None },
        ),
        io_definition(45) == Some(
            DefinitionView { label: "Direct fuel rail pressure"@, dimension: Some("kPa*0.1"@), values: None },
        ),
        io_definition(46) == Some(
            DefinitionView { label: "Commanded EGR"@, dimension: Some("%"@), values: None },
        ),
        io_definition(47) == Some(
            DefinitionView { label: "EGR error"@, dimension: Some("%"@), values: None },
        ),
        io_definition(48) == Some(
            DefinitionView { label: "Fuel level"@, dimension: Some("%"@), values: None },
        ),
        io_definition(49) == Some(
            DefinitionView { label: "Distance traveled since codes cleared"@, dimension: Some("Km"@), values: None },
        ),
        io_definition(50) == Some(
            DefinitionView { label: "Barometric pressure"@, dimension: Some("kPa"@), values: None },
        ),
        io_definition(51) == Some(
            DefinitionView { label: "Control module voltage"@, dimension: Some("mV"@), values: None },
        ),
        io_definition(52) == Some(
            DefinitionView { label: "Absolute load value"@, dimension: Some("%"@), values: None },
        ),
        io_definition(53) == Some(
            DefinitionView { label: "Ambient air temperature"@, dimension: Some("C"@), values: None },
        ),
        io_definition(54) == Some(
            DefinitionView { label: "Time run with MIL on"@, dimension: Some("min"@), values: None },
        ),
        io_definition(55) == Some(
            DefinitionView { label: "Time since trouble codes cleared"@, dimension: Some("min"@), values: None },
        ),
        io_definition(56) == Some(
            DefinitionView { label: "Absolute fuel rail pressure"@, dimension: Some("kPa*10"@), values: None },
        ),
        io_definition(57) == Some(
            DefinitionView { label: "Hybrid battery pack remaining life"@, dimension: Some("%"@), values: None },
        ),
        io_definition(58) == Some(
            DefinitionView { label: "Engine oil temperature"@, dimension: Some("C"@), values: None },
        ),
        io_definition(59) == Some(
            DefinitionView { label: "Fuel injection timing"@, dimension: Some("O, *0.01"@), values: None },
        ),
        io_definition(60) == Some(
            DefinitionView { label: "Engine fuel rate"@, dimension: Some("L/h, *100"@), values: None },
        ),
        io_definition(66) == Some(
            DefinitionView { label: "Ext Voltage"@, dimension: Some("mV"@), values: None },
        ),
        io_definition(67) == Some(
            DefinitionView { label: "Internal Battery Voltage"@, dimension: Some("mV"@), values: None },
        ),
        io_definition(68) == Some(
            DefinitionView { label: "Internal Battery Current"@, dimension: Some("mA"@), values: None },
        ),
        io_definition(69) == Some(
            DefinitionView { label: "GNSS Status"@, dimension: None, values: Some(map![0 => "OFF"@, 1 => "ON with fix"@, 2 => "ON without fix"@, 3 => "In sleep state"@]) },
        ),
        io_definition(70) == Some(
            DefinitionView { label: "PCB temperature"@, dimension: Some("deg C"@), values: None },
        ),
        io_definition(80) == Some(
            DefinitionView { label: "Data Mode"@, dimension: None, values: Some(map![0 => "Home On Stop"@, 1 => "Home On Moving"@, 2 => "Roaming On Stop"@, 3 => "Roaming On Moving"@, 4 => "Unknown On Stop"@, 5 => "Unknown On Moving"@]) },
        ),
        io_definition(86) == Some(
            DefinitionView { label: "BLE 1 Humidity"@, dimension: Some("%RH"@), values: None },
        ),
        io_definition(104) == Some(
            DefinitionView { label: "BLE 2 Humidity"@, dimension: Some("%RH"@), values: None },
        ),
        io_definition(106) == Some(
            DefinitionView { label: "BLE 3 Humidity"@, dimension: Some("%RH"@), values: None },
        ),
        io_definition(108) == Some(
            DefinitionView { label: "BLE 4 Humidity"@, dimension: Some("%RH"@), values: None },
        ),
        io_definition(113) == Some(
            DefinitionView { label: "Internal Battery level"@, dimension: Some("%"@), values: None },
        ),
        io_definition(175) == Some(
            DefinitionView { label: "Auto geofence"@, dimension: None, values: None },
        ),
        io_definition(179) == Some(
            DefinitionView { label: "Digital Output"@, dimension: None, values: None },
        ),
        io_definition(181) == Some(
            DefinitionView { label: "PDOP"@, dimension: Some("m"@), values: None },
        ),
        io_definition(182) == Some(
            DefinitionView { label: "HDOP"@, dimension: Some("m"@), values: None },
        ),
        io_definition(199) == Some(
            DefinitionView { label: "Trip Odometer"@, dimension: Some("m"@), values: None },
        ),
        io_definition(200) == Some(
            DefinitionView { label: "Sleep Mode"@, dimension: None, values: Some(map![0 => "No Sleep"@, 1 => "GPS Sleep"@, 2 => "Deep Sleep"@]) },
        ),
        io_definition(205) == Some(
            DefinitionView { label: "GSM Cell ID"@, dimension: None, values: None },
        ),
        io_definition(206) == Some(
            DefinitionView { label: "GSM Area Code"@, dimension: None, values: None },
        ),
        io_definition(237) == Some(
            DefinitionView { label: "Network Type"@, dimension: None, values: None },
        ),
        io_definition(238) == Some(
            DefinitionView { label: "User ID"@, dimension: None, values: None },
        ),
        io_definition(239) == Some(
            DefinitionView { label: "Ignition"@, dimension: None, values: Some(map![0 => "No"@, 1 => "Yes"@]) },
        ),
        io_definition(240) == Some(
            DefinitionView { label: "Movement"@, dimension: None, values: Some(map![0 => "No"@, 1 => "Yes"@]) },
        ),
        io_definition(241) == Some(
            DefinitionView { label: "GSM Operator"@, dimension: None, values: None },
        ),
        io_definition(243) == Some(
            DefinitionView { label: "Green Driving Event Duration"@, dimension: Some("ms"@), values: None },
        ),
        io_definition(246) == Some(
            DefinitionView { label: "Towing Detection"@, dimension: None, values: Some(map![1 => "Towing detected"@]) },
        ),
        io_definition(247) == Some(
            DefinitionView { label: "Crash Detection"@, dimension: None, values: Some(map![1 => "Crash Detected"@, 2 => "Crash Trace Record"@, 3 => "Crash trace record(calibrated)"@]) },
        ),
        io_definition(249) == Some(
            DefinitionView { label: "Jamming Detection"@, dimension: None, values: Some(map![0 => "Jamming Ended"@, 1 => "Jamming Detected"@]) },
        ),
        io_definition(250) == Some(
            DefinitionView { label: "Trip Event"@, dimension: None, values: Some(map![0 => "Trip Ended"@, 1 => "Trip Started"@, 2 => "Business Status"@, 3 => "Private Status"@, 4 => "Custom Statuses"@, 5 => "Custom Statuses"@, 6 => "Custom Statuses"@, 7 => "Custom Statuses"@, 8 => "Custom Statuses"@, 9 => "Custom Statuses"@]) },
        ),
        io_definition(251) == Some(
            DefinitionView { label: "Idling Event"@, dimension: None, values: Some(map![0 => "Idling ended event"@, 1 => "Idling started event"@]) },
        ),
        io_definition(252) == Some(
            DefinitionView { label: "Unplug Event"@, dimension: None, values: Some(map![1 => "Send when unplug event happens"@]) },
        ),
        io_definition(253) == Some(
            DefinitionView { label: "Green Driving Type"@, dimension: None, values: Some(map![1 => "Acceleration"@, 2 => "Braking"@, 3 => "Cornering"@]) },
        ),
        io_definition(254) == Some(
            DefinitionView { label: "Eco driving value"@, dimension: Some("G/rad"@), values: None },
        ),
        io_definition(255) == Some(
            DefinitionView { label: "Overspeeding Event"@, dimension: Some("km/h"@), values: None },
        ),
        io_definition(256) == Some(
            DefinitionView { label: "VIN"@, dimension: None, values: None },
        ),
        io_definition(281) == Some(
            DefinitionView { label: "fault codes"@, dimension: None, values: None },
        ),
        io_definition(303) == Some(
            DefinitionView { label: "Instant Movement"@, dimension: None, values: None },
        ),
        io_definition(358) == Some(
            DefinitionView { label: "Custom scenario 1"@, dimension: None, values: None },
        ),
        io_definition(359) == Some(
            DefinitionView { label: "Custom scenario 2"@, dimension: None, values: None },
        ),
        io_definition(360) == Some(
            DefinitionView { label: "Custom scenario 3"@, dimension: None, values: None },
        ),
        io_definition(641) == Some(
            DefinitionView { label: "ICCID"@, dimension: None, values: None },
        ),
        io_definition(800) == Some(
            DefinitionView { label: "External Voltage"@, dimension: Some("mV"@), values: None },
        ),
        io_definition(841) == Some(
            DefinitionView { label: "Digital Output 1 Overcurrent"@, dimension: None, values: None },
        ),
        io_definition(1148) == Some(
            DefinitionView { label: "Connectivity quality"@, dimension: Some("dBm"@), values: None },
        ),
        io_definition(1429) == Some(
            DefinitionView { label: "Crash average vector"@, dimension: Some("mG"@), values: None },
        ),
        io_definition(1432) == Some(
            DefinitionView { label: "Crash max vector"@, dimension: Some("mG"@), values: None },
        ),
        io_definition(257) == Some(
            DefinitionView { label: "Crash trace data"@, dimension: None, values: None },
        ),
        io_definition(383) == Some(
            DefinitionView { label: "Accel calibration"@, dimension: None, values: None },
        ),
        io_definition(386) == Some(
            DefinitionView { label: "Time from last gnss fix"@, dimension: Some("seconds"@), values: None },
        ),
        io_definition(449) == Some(
            DefinitionView { label: "Ignition On Counter"@, dimension: Some("seconds"@), values: None },
        ),
        io_definition(13266) == Some(
            DefinitionView { label: "Current log file"@, dimension: None, values: None },
        ),
        io_definition(13267) == Some(
            DefinitionView { label: "Max log file count"@, dimension: None, values: None },
        ),
        forall|id: u16| !(id == 1 || id == 4 || id == 9 || id == 10 || id == 11 || id == 12 || id == 13 || id == 14 || id == 15 || id == 16 || id == 17 || id == 18 || id == 19 || id == 20 || id == 21 || id == 22 || id == 23 || id == 24 || id == 25 || id == 26 || id == 27 || id == 28 || id == 29 || id == 30 || id == 31 || id == 32 || id == 33 || id == 34 || id == 35 || id == 36 || id == 37 || id == 38 || id == 39 || id == 40 || id == 41 || id == 42 || id == 43 || id == 44 || id == 45 || id == 46 || id == 47 || id == 48 || id == 49 || id == 50 || id == 51 || id == 52 || id == 53 || id == 54 || id == 55 || id == 56 || id == 57 || id == 58 || id == 59 || id == 60 || id == 66 || id == 67 || id == 68 || id == 69 || id == 70 || id == 80 || id == 86 || id == 104 || id == 106 || id == 108 || id == 113 || id == 175 || id == 179 || id == 181 || id == 182 || id == 199 || id == 200 || id == 205 || id == 206 || id == 237 || id == 238 || id == 239 || id == 240 || id == 241 || id == 243 || id == 246 || id == 247 || id == 249 || id == 250 || id == 251 || id == 252 || id == 253 || id == 254 || id == 255 || id == 256 || id == 281 || id == 303 || id == 358 || id == 359 || id == 360 || id == 641 || id == 800 || id == 841 || id == 1148 || id == 1429 || id == 1432 || id == 257 || id == 383 || id == 386 || id == 449 || id == 13266 || id == 13267) ==> #[trigger] io_definition(id) is None,
{
    reveal(io_definition);
}

/// An element is described by the definition table: it keeps its id and
/// value text; a known id gives its label, its unit (none: empty) and the
/// name of the value in its value table (none: empty); an unknown id is
/// labelled `Unknown-` and its decimal number, with no unit or value name.
pub proof fn lemma_element_described_by_table(id: u16, value: Seq<char>, key: i64)
    ensures
        c::element_view(id, value, key).id == id,
        c::element_view(id, value, key).value == value,
        io_definition(id) is Some ==> {
            let d = io_definition(id).unwrap();
            let e = c::element_view(id, value, key);
            &&& e.label == d.label
            &&& d.dimension is Some ==> e.dimension == d.dimension.unwrap()
            &&& d.dimension is None ==> e.dimension.len() == 0
            &&& (d.values is Some && d.values.unwrap().contains_key(key)) ==> e.value_human
                == d.values.unwrap()[key]
            &&& !(d.values is Some && d.values.unwrap().contains_key(key)) ==> e.value_human.len() == 0
        },
        io_definition(id) is None ==> {
            let e = c::element_view(id, value, key);
            &&& e.label == "Unknown-"@ + crate::text::decimal(id as nat)
            &&& e.dimension.len() == 0
            &&& e.value_human.len() == 0
        },
{
}

/// The number value of the first element of a 1-, 2- or 4-byte group whose
/// bytes start at `s[k]` (after the element's id): one unsigned byte, or a
/// big-endian two's-complement number of two or four bytes.
pub open spec fn first_int_value(w: c::IoWidth, s: Seq<u8>, k: int) -> int {
    if w == c::IoWidth::One {
        s[k] as int
    } else if w == c::IoWidth::Two {
        i16_of(s[k], s[k + 1])
    } else {
        i32_of(s[k], s[k + 1], s[k + 2], s[k + 3])
    }
}

proof fn lemma_int_ios_first(s: Seq<u8>, n: nat, w: c::IoWidth)
    requires
        n >= 1,
    ensures
        c::int_ios(s, n, w) matches Ok((els, _)) ==> (c::int_ios(s, 1, w) matches Ok((one, _)) && els[0]
            == one[0]),
    decreases n,
{
    if n > 1 {
        lemma_int_ios_first(s, (n - 1) as nat, w);
        lemma_groups_hold_announced_counts(s, (n - 1) as nat, w);
    }
}

proof fn lemma_double_ios_first(s: Seq<u8>, n: nat)
    requires
        n >= 1,
    ensures
        c::double_ios(s, n) matches Ok((els, _)) ==> (c::double_ios(s, 1) matches Ok((one, _)) && els[0]
            == one[0]),
    decreases n,
{
    if n > 1 {
        lemma_double_ios_first(s, (n - 1) as nat);
        lemma_groups_hold_announced_counts(s, (n - 1) as nat, c::IoWidth::Eight);
    }
}

proof fn lemma_var_ios_first(s: Seq<u8>, n: nat)
    requires
        n >= 1,
    ensures
        c::var_ios(s, n) matches Ok((els, _)) ==> (c::var_ios(s, 1) matches Ok((one, _)) && els[0] == one[0]),
    decreases n,
{
    if n > 1 {
        lemma_var_ios_first(s, (n - 1) as nat);
        lemma_groups_hold_announced_counts(s, (n - 1) as nat, c::IoWidth::Variable);
    }
}

/// The first element of a decoded 1-, 2- or 4-byte group: bytes 0-1 are the
/// group's count, bytes 2-3 the element's id, and the value follows, read
/// unsigned for one byte and signed (two's complement) for two or four; the
/// element shows that value in decimal and is described by the table.
pub proof fn lemma_first_int_element(s: Seq<u8>, w: c::IoWidth)
    requires
        w == c::IoWidth::One || w == c::IoWidth::Two || w == c::IoWidth::Four,
    ensures
        c::int_group(s, w) matches Ok((els, _)) ==> (els.len() >= 1 ==> {
            let v = first_int_value(w, s, 4);
            els[0] == c::element_view(u16_of(s[2], s[3]) as u16, crate::text::signed_decimal(v), v as i64)
        }),
{
    if let Ok((els, _)) = c::int_group(s, w) {
        let n = crate::parser::reader::be_uint(s.take(2));
        lemma_groups_hold_announced_counts(s.skip(2), n, w);
        if els.len() >= 1 {
            let r = s.skip(2);
            lemma_int_ios_first(r, n, w);
            assert(c::int_ios(r, 0, w) == Ok::<(Seq<crate::parser::models::IoElementView>, Seq<u8>), c::ParseError>(
                (Seq::empty(), r),
            ));
            lemma_be_uint_2(r.take(2));
            let b = r.skip(2);
            assert(b[0] == s[4]);
            if w == c::IoWidth::Two {
                lemma_be_uint_2(b.take(2));
                assert(b.take(2)[1] == s[5]);
            }
            if w == c::IoWidth::Four {
                lemma_be_uint_4(b.take(4));
                assert(b.take(4)[1] == s[5] && b.take(4)[2] == s[6] && b.take(4)[3] == s[7]);
            }
        }
    }
}

/// The first element of the decoded 8-byte group: bytes 2-3 are its id and
/// bytes 4-11 the 64 bits of its value, most significant first.
pub proof fn lemma_first_double_element(s: Seq<u8>)
    ensures
        c::double_group(s) matches Ok((els, _)) ==> (els.len() >= 1 ==> {
            &&& els[0].id == u16_of(s[2], s[3])
            &&& els[0].bits == i64_of(s, 4) + if s[4] >= 128 { 0x1_0000_0000_0000_0000int } else { 0int }
        }),
{
    if let Ok((els, _)) = c::double_group(s) {
        let n = crate::parser::reader::be_uint(s.take(2));
        lemma_groups_hold_announced_counts(s.skip(2), n, c::IoWidth::Eight);
        if els.len() >= 1 {
            let r = s.skip(2);
            lemma_double_ios_first(r, n);
            assert(c::double_ios(r, 0) == Ok::<(Seq<crate::parser::models::IoDouble>, Seq<u8>), c::ParseError>(
                (Seq::empty(), r),
            ));
            if r.len() >= 10 {
                lemma_be_uint_2(r.take(2));
                let b = r.skip(2).take(8);
                lemma_be_uint_8(b);
                assert(b[0] == s[4] && b[1] == s[5] && b[2] == s[6] && b[3] == s[7]);
                assert(b[4] == s[8] && b[5] == s[9] && b[6] == s[10] && b[7] == s[11]);
            }
        }
    }
}

/// The first element of the decoded variable-length group: bytes 2-3 are
/// its id, bytes 4-5 the length `n` of its value, and its value text is the
/// lowercase hexadecimal of the `n` bytes after them.
pub proof fn lemma_first_variable_element(s: Seq<u8>)
    ensures
        c::var_group(s) matches Ok((els, _)) ==> (els.len() >= 1 ==> {
            let n = u16_of(s[4], s[5]);
            els[0] == c::element_view(u16_of(s[2], s[3]) as u16, crate::text::hex_lower(s.subrange(6, 6 + n)), 0)
        }),
{
    if let Ok((els, _)) = c::var_group(s) {
        let count = crate::parser::reader::be_uint(s.take(2));
        lemma_groups_hold_announced_counts(s.skip(2), count, c::IoWidth::Variable);
        if els.len() >= 1 {
            let r = s.skip(2);
            lemma_var_ios_first(r, count);
            assert(c::var_ios(r, 0) == Ok::<(Seq<crate::parser::models::IoElementView>, Seq<u8>), c::ParseError>(
                (Seq::empty(), r),
            ));
            if r.len() >= 4 {
                lemma_be_uint_2(r.take(2));
                lemma_be_uint_2(r.skip(2).take(2));
                let n = u16_of(s[4], s[5]);
                if r.skip(2).skip(2).len() >= n {
                    assert(r.skip(2).skip(2).take(n) =~= s.subrange(6, 6 + n));
                }
            }
        }
    }
}

/// A handshake frame is a non-zero big-endian length in its first two
/// bytes, exactly that many bytes after them, and those bytes are the IMEI
/// in UTF-8. A data packet has Codec 8 Extended (142) in byte 4, its record
/// count in byte 5, and at least the 8 bytes of its header.
pub proof fn lemma_frame_layout(buf: Seq<u8>)
    ensures
        packet(buf).is_imei ==> {
            &&& buf.len() >= 2
            &&& u16_of(buf[0], buf[1]) > 0
            &&& buf.len() == u16_of(buf[0], buf[1]) + 2
            &&& vstd::utf8::valid_utf8(buf.skip(2))
            &&& packet(buf).imei == Some(vstd::utf8::decode_utf8(buf.skip(2)))
        },
        packet(buf).avl_data is Some ==> {
            let d = packet(buf).avl_data.unwrap();
            &&& buf.len() >= 8
            &&& buf[4] == 142
            &&& d.codec_id == 142
            &&& d.number_of_data == buf[5]
        },
{
    if buf.len() >= 2 {
        lemma_be_uint_2(buf.take(2));
    }
}

} // verus!
