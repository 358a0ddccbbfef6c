//! The log text of a decoded record.
use chrono::TimeZone;
use vstd::prelude::*;
use vstd::string::*;
use crate::parser::codec8e::describe;
use crate::parser::models as m;
use crate::parser::models::{AvlRecord, IoDouble, IoElement};
use crate::text::{push_decimal, push_signed_decimal};

verus! {

/// The text that chrono's `Utc.timestamp_millis_opt(ms)` gives for the date
/// and time `ms` milliseconds after 1970-01-01 00:00 UTC, formatted as
/// `%Y-%m-%d %H:%M:%S UTC`.
pub uninterp spec fn utc_log_time(ms: int) -> Seq<char>;

/// chrono's `Utc.timestamp_millis_opt(ms)` formatted with
/// `%Y-%m-%d %H:%M:%S UTC`; empty when chrono has no such date. The text is
/// a function of `ms` alone (the time zone is UTC and the format names no
/// locale-dependent field); what it is, is left to chrono.
#[verifier::external_body]
fn utc_time_text(ms: i64) -> (s: String)
    ensures
        s@ == utc_log_time(ms as int),
{
    match chrono::Utc.timestamp_millis_opt(ms).single() {
        Some(t) => t.format("%Y-%m-%d %H:%M:%S UTC").to_string(),
        None => String::new(),
    }
}

/// A value followed by its unit; without a unit, the value alone, or
/// followed by ` -` where `dash` asks for it.
pub open spec fn value_with_unit(value: Seq<char>, unit: Seq<char>, dash: bool) -> Seq<char> {
    if unit.len() > 0 {
        value + " "@ + unit
    } else if dash {
        value + " -"@
    } else {
        value
    }
}

/// The log line of one IO element.
pub open spec fn element_line(label: Seq<char>, id: u16, value: Seq<char>, unit: Seq<char>, dash: bool) -> Seq<char> {
    "    "@ + label + " (ID="@ + crate::text::decimal(id as nat) + ") -> "@ + value_with_unit(value, unit, dash)
        + "\n"@
}

/// The log lines of a group of IO elements.
pub open spec fn element_lines(els: Seq<m::IoElementView>, dash: bool) -> Seq<char>
    decreases els.len(),
{
    if els.len() == 0 {
        Seq::empty()
    } else {
        let e = els.last();
        element_lines(els.drop_last(), dash) + element_line(e.label, e.id, e.value, e.dimension, dash)
    }
}

/// The log lines of the 8-byte group, each value shown as the matching text
/// of `texts`; labels and units come from the IO definition table.
pub open spec fn double_lines(els: Seq<IoDouble>, texts: Seq<Seq<char>>) -> Seq<char>
    decreases els.len(),
{
    if els.len() == 0 {
        Seq::empty()
    } else {
        let d = els.last();
        let e = crate::parser::codec8e::element_view(d.id, Seq::empty(), 0);
        double_lines(els.drop_last(), texts.drop_last()) + element_line(
            e.label,
            d.id,
            texts.last(),
            e.dimension,
            false,
        )
    }
}

/// The log line of one variable-length IO element.
pub open spec fn nx_line(e: m::IoElementView) -> Seq<char> {
    "    "@ + e.label + " (NX ID="@ + crate::text::decimal(e.id as nat) + "): "@ + e.value + "\n"@
}

/// The log lines of the variable-length group.
pub open spec fn nx_lines(els: Seq<m::IoElementView>) -> Seq<char>
    decreases els.len(),
{
    if els.len() == 0 {
        Seq::empty()
    } else {
        nx_lines(els.drop_last()) + nx_line(els.last())
    }
}

/// The log text of a record: its time, priority, position, event, the
/// number of its IO elements, then each group with its count and elements.
/// The time, latitude, longitude and 8-byte values are given as text.
pub open spec fn record_log(
    r: m::AvlRecordView,
    time: Seq<char>,
    lat: Seq<char>,
    lon: Seq<char>,
    n8_texts: Seq<Seq<char>>,
) -> Seq<char> {
    let g = r.io_groups;
    let total = g.n1.len() + g.n2.len() + g.n4.len() + g.n8.len() + g.nx.len();
    "📍 Record Timestamp: "@ + time + "\n"@
        + "  Priority: "@ + crate::text::decimal(r.priority as nat) + "\n"@
        + "  GPS: lat="@ + lat + ", lon="@ + lon + ", alt="@ + crate::text::signed_decimal(r.gps.altitude as int)
        + "m, speed="@ + crate::text::signed_decimal(r.gps.speed as int) + "km/h, sats="@
        + crate::text::decimal(r.gps.satellites as nat) + "\n"@
        + "  Event IO ID: "@ + crate::text::decimal(r.event_id as nat) + "\n"@
        + "  IO count total: "@ + crate::text::decimal(total) + "\n"@
        + "  N1 count: "@ + crate::text::decimal(g.n1.len()) + "\n"@ + element_lines(g.n1, true)
        + "  N2 count: "@ + crate::text::decimal(g.n2.len()) + "\n"@ + element_lines(g.n2, false)
        + "  N4 count: "@ + crate::text::decimal(g.n4.len()) + "\n"@ + element_lines(g.n4, false)
        + "  N8 count: "@ + crate::text::decimal(g.n8.len()) + "\n"@ + double_lines(g.n8, n8_texts)
        + "  NX count: "@ + crate::text::decimal(g.nx.len()) + "\n"@ + nx_lines(g.nx)
        + "  ---\n"@
}

fn push_element_line(out: &mut String, label: &str, id: u16, value: &str, unit: &str, dash: bool)
    ensures
        final(out)@ == old(out)@ + element_line(label@, id, value@, unit@, dash),
{
    out.append("    ");
    out.append(label);
    out.append(" (ID=");
    push_decimal(out, id as u128);
    out.append(") -> ");
    out.append(value);
    if !unit.is_empty() {
        out.append(" ");
        out.append(unit);
    } else if dash {
        out.append(" -");
    }
    out.append("\n");
    assert(out@ =~= old(out)@ + element_line(label@, id, value@, unit@, dash));
}

fn push_element_lines(out: &mut String, els: &Vec<IoElement>, dash: bool)
    ensures
        final(out)@ == old(out)@ + element_lines(m::elements_view(els@), dash),
{
    let ghost v = m::elements_view(els@);
    let ghost start = out@;
    let mut i: usize = 0;
    assert(v.take(0) =~= Seq::<m::IoElementView>::empty());
    assert(start + Seq::<char>::empty() =~= start);
    while i < els.len()
        invariant
            i <= els.len(),
            v == m::elements_view(els@),
            start == old(out)@,
            out@ == start + element_lines(v.take(i as int), dash),
        decreases els.len() - i,
    {
        let e = &els[i];
        let ghost before = out@;
        push_element_line(out, e.label.as_str(), e.id, e.value.as_str(), e.dimension.as_str(), dash);
        proof {
            assert(v.take(i + 1).drop_last() =~= v.take(i as int));
            assert(v.take(i + 1).last() == e@);
            assert(out@ =~= start + element_lines(v.take(i + 1), dash));
        }
        i = i + 1;
    }
    assert(v.take(els.len() as int) =~= v);
}

fn push_double_lines(out: &mut String, els: &Vec<IoDouble>, texts: &Vec<String>)
    requires
        texts.len() == els.len(),
    ensures
        final(out)@ == old(out)@ + double_lines(els@, crate::text::strings_view(texts@)),
{
    let ghost tv = crate::text::strings_view(texts@);
    let ghost start = out@;
    let mut i: usize = 0;
    assert(start + Seq::<char>::empty() =~= start);
    while i < els.len()
        invariant
            i <= els.len(),
            texts.len() == els.len(),
            tv == crate::text::strings_view(texts@),
            start == old(out)@,
            out@ == start + double_lines(els@.take(i as int), tv.take(i as int)),
        decreases els.len() - i,
    {
        let d = els[i];
        let (label, unit, _) = describe(d.id, 0);
        push_element_line(out, label.as_str(), d.id, texts[i].as_str(), unit.as_str(), false);
        proof {
            assert(els@.take(i + 1).drop_last() =~= els@.take(i as int));
            assert(tv.take(i + 1).drop_last() =~= tv.take(i as int));
            assert(out@ =~= start + double_lines(els@.take(i + 1), tv.take(i + 1)));
        }
        i = i + 1;
    }
    assert(els@.take(els.len() as int) =~= els@);
    assert(tv.take(els.len() as int) =~= tv);
}

fn push_nx_lines(out: &mut String, els: &Vec<IoElement>)
    ensures
        final(out)@ == old(out)@ + nx_lines(m::elements_view(els@)),
{
    let ghost v = m::elements_view(els@);
    let ghost start = out@;
    let mut i: usize = 0;
    assert(start + Seq::<char>::empty() =~= start);
    while i < els.len()
        invariant
            i <= els.len(),
            v == m::elements_view(els@),
            start == old(out)@,
            out@ == start + nx_lines(v.take(i as int)),
        decreases els.len() - i,
    {
        let e = &els[i];
        out.append("    ");
        out.append(e.label.as_str());
        out.append(" (NX ID=");
        push_decimal(out, e.id as u128);
        out.append("): ");
        out.append(e.value.as_str());
        out.append("\n");
        proof {
            assert(v.take(i + 1).drop_last() =~= v.take(i as int));
            assert(v.take(i + 1).last() == e@);
            assert(out@ =~= start + nx_lines(v.take(i + 1)));
        }
        i = i + 1;
    }
    assert(v.take(els.len() as int) =~= v);
}

/// The log text of a record, with its time, latitude, longitude and 8-byte
/// values already rendered as text (one text per 8-byte element).
pub fn format_record(
    record: &AvlRecord,
    time_text: &str,
    lat_text: &str,
    lon_text: &str,
    n8_texts: &Vec<String>,
) -> (s: String)
    requires
        n8_texts.len() == record.io_groups.n8.len(),
    ensures
        s@ == record_log(record@, time_text@, lat_text@, lon_text@, crate::text::strings_view(n8_texts@)),
{
    let g = &record.io_groups;
    let mut log = String::from_str("📍 Record Timestamp: ");
    log.append(time_text);
    log.append("\n");
    log.append("  Priority: ");
    push_decimal(&mut log, record.priority as u128);
    log.append("\n");
    log.append("  GPS: lat=");
    log.append(lat_text);
    log.append(", lon=");
    log.append(lon_text);
    log.append(", alt=");
    push_signed_decimal(&mut log, record.gps.altitude as i64);
    log.append("m, speed=");
    push_signed_decimal(&mut log, record.gps.speed as i64);
    log.append("km/h, sats=");
    push_decimal(&mut log, record.gps.satellites as u128);
    log.append("\n");
    log.append("  Event IO ID: ");
    push_decimal(&mut log, record.event_id as u128);
    log.append("\n");
    log.append("  IO count total: ");
    let total: u128 = g.n1.len() as u128 + g.n2.len() as u128 + g.n4.len() as u128 + g.n8.len() as u128
        + g.nx.len() as u128;
    push_decimal(&mut log, total);
    log.append("\n");
    log.append("  N1 count: ");
    push_decimal(&mut log, g.n1.len() as u128);
    log.append("\n");
    push_element_lines(&mut log, &g.n1, true);
    log.append("  N2 count: ");
    push_decimal(&mut log, g.n2.len() as u128);
    log.append("\n");
    push_element_lines(&mut log, &g.n2, false);
    log.append("  N4 count: ");
    push_decimal(&mut log, g.n4.len() as u128);
    log.append("\n");
    push_element_lines(&mut log, &g.n4, false);
    log.append("  N8 count: ");
    push_decimal(&mut log, g.n8.len() as u128);
    log.append("\n");
    push_double_lines(&mut log, &g.n8, n8_texts);
    log.append("  NX count: ");
    push_decimal(&mut log, g.nx.len() as u128);
    log.append("\n");
    push_nx_lines(&mut log, &g.nx);
    log.append("  ---\n");
    log
}

/// The log text of a record, its time rendered by chrono; the latitude,
/// longitude and 8-byte values are given as text (one text per 8-byte element).
pub fn record_log_text(record: &AvlRecord, lat_text: &str, lon_text: &str, n8_texts: &Vec<String>) -> (s: String)
    requires
        n8_texts.len() == record.io_groups.n8.len(),
    ensures
        s@ == record_log(
            record@,
            utc_log_time(record.timestamp as int),
            lat_text@,
            lon_text@,
            crate::text::strings_view(n8_texts@),
        ),
{
    let time = utc_time_text(record.timestamp);
    format_record(record, time.as_str(), lat_text, lon_text, n8_texts)
}

/// A text made of the count lines of a record log with the texts `p0` to
/// `p5` around them: the total, then the header of each group, in the order
/// 1, 2, 4, 8 bytes, variable.
pub open spec fn count_lines_around(
    p0: Seq<char>,
    p1: Seq<char>,
    p2: Seq<char>,
    p3: Seq<char>,
    p4: Seq<char>,
    p5: Seq<char>,
    total: nat,
    counts: (nat, nat, nat, nat, nat),
) -> Seq<char> {
    p0 + "  IO count total: "@ + crate::text::decimal(total) + "\n"@
        + "  N1 count: "@ + crate::text::decimal(counts.0) + "\n"@ + p1
        + "  N2 count: "@ + crate::text::decimal(counts.1) + "\n"@ + p2
        + "  N4 count: "@ + crate::text::decimal(counts.2) + "\n"@ + p3
        + "  N8 count: "@ + crate::text::decimal(counts.3) + "\n"@ + p4
        + "  NX count: "@ + crate::text::decimal(counts.4) + "\n"@ + p5
}

/// The log of a record states its number of IO elements: the total line
/// gives the sum of the sizes of all five groups, and each group's header
/// gives that group's size.
pub proof fn lemma_log_states_io_counts(
    r: m::AvlRecordView,
    time: Seq<char>,
    lat: Seq<char>,
    lon: Seq<char>,
    n8_texts: Seq<Seq<char>>,
)
    ensures
        ({
            let g = r.io_groups;
            exists|p0: Seq<char>, p1: Seq<char>, p2: Seq<char>, p3: Seq<char>, p4: Seq<char>, p5: Seq<char>|
                record_log(r, time, lat, lon, n8_texts) == #[trigger] count_lines_around(
                    p0,
                    p1,
                    p2,
                    p3,
                    p4,
                    p5,
                    g.n1.len() + g.n2.len() + g.n4.len() + g.n8.len() + g.nx.len(),
                    (g.n1.len(), g.n2.len(), g.n4.len(), g.n8.len(), g.nx.len()),
                )
        }),
{
    let g = r.io_groups;
    let p0 = "📍 Record Timestamp: "@ + time + "\n"@
        + "  Priority: "@ + crate::text::decimal(r.priority as nat) + "\n"@
        + "  GPS: lat="@ + lat + ", lon="@ + lon + ", alt="@ + crate::text::signed_decimal(r.gps.altitude as int)
        + "m, speed="@ + crate::text::signed_decimal(r.gps.speed as int) + "km/h, sats="@
        + crate::text::decimal(r.gps.satellites as nat) + "\n"@
        + "  Event IO ID: "@ + crate::text::decimal(r.event_id as nat) + "\n"@;
    let p1 = element_lines(g.n1, true);
    let p2 = element_lines(g.n2, false);
    let p3 = element_lines(g.n4, false);
    let p4 = double_lines(g.n8, n8_texts);
    let p5 = nx_lines(g.nx) + "  ---\n"@;
    let all = g.n1.len() + g.n2.len() + g.n4.len() + g.n8.len() + g.nx.len();
    let counts = (g.n1.len(), g.n2.len(), g.n4.len(), g.n8.len(), g.nx.len());
    assert(record_log(r, time, lat, lon, n8_texts) =~= count_lines_around(p0, p1, p2, p3, p4, p5, all, counts));
}

} // verus!
