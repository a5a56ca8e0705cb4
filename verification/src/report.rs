//! Raw HID reports: printing them and comparing successive ones.

use vstd::prelude::*;

use crate::config::ResolvedMapping;
use crate::text::{bool_text, decimal, hex2, push_bool, push_decimal, push_hex2};

verus! {

/// A report as lower-case two-digit hexadecimal bytes separated by single spaces.
pub open spec fn report_text(report: Seq<u8>) -> Seq<char>
    decreases report.len(),
{
    if report.len() == 0 {
        Seq::<char>::empty()
    } else if report.len() == 1 {
        hex2(report[0])
    } else {
        report_text(report.drop_last()) + " "@ + hex2(report.last())
    }
}

/// Writes a report as hexadecimal bytes separated by spaces, e.g. `00 10 ff`.
pub fn format_report(report: &[u8]) -> (r: String)
    ensures
        r@ == report_text(report@),
{
    let mut out = String::new();
    for idx in 0..report.len()
        invariant
            out@ == report_text(report@.take(idx as int)),
    {
        assert(report@.take(idx + 1).drop_last() =~= report@.take(idx as int));
        assert(report@.take(idx + 1).last() == report@[idx as int]);
        proof {
            reveal_strlit(" ");
        }
        if idx > 0 {
            out.push(' ');
        }
        push_hex2(&mut out, report[idx]);
        assert(out@ =~= report_text(report@.take(idx + 1)));
    }
    assert(report@.take(report@.len() as int) =~= report@);
    out
}

/// Whether some bit is set in `current` that was clear in `previous`, over the
/// bytes that both reports have.
pub open spec fn newly_pressed(previous: Seq<u8>, current: Seq<u8>) -> bool {
    exists|i: int|
        0 <= i < previous.len() && i < current.len() && #[trigger] (!previous[i] & current[i]) != 0
}

/// Whether a button bit went from clear to set between two reports.
pub fn any_bit_newly_pressed(previous: &[u8], current: &[u8]) -> (r: bool)
    ensures
        r == newly_pressed(previous@, current@),
{
    let n = if previous.len() < current.len() {
        previous.len()
    } else {
        current.len()
    };
    for i in 0..n
        invariant
            n <= previous@.len(),
            n <= current@.len(),
            forall|k: int| 0 <= k < i ==> (!previous@[k] & current@[k]) == 0,
    {
        if (!previous[i]) & current[i] != 0 {
            return true;
        }
    }
    assert forall|k: int| 0 <= k < previous@.len() && k < current@.len() implies (
    !previous@[k] & current@[k]) == 0 by {
        assert(k < n);
    }
    false
}

/// A report compared with itself shows no newly pressed bit.
pub proof fn law_same_report_presses_nothing(report: Seq<u8>)
    ensures
        !newly_pressed(report, report),
{
    assert forall|i: int| 0 <= i < report.len() implies (!report[i] & report[i]) == 0 by {
        let b = report[i];
        assert((!b & b) == 0) by (bit_vector);
    }
}

/// Clears the bytes of a read buffer past what the read filled.
pub fn zero_unread_tail(buf: &mut Vec<u8>, size: usize)
    ensures
        final(buf)@.len() == old(buf)@.len(),
        forall|i: int| 0 <= i < size && i < old(buf)@.len() ==> final(buf)@[i] == old(buf)@[i],
        forall|i: int| size <= i < old(buf)@.len() ==> final(buf)@[i] == 0,
{
    let n = buf.len();
    let mut i = size;
    while i < n
        invariant
            n == buf@.len(),
            n == old(buf)@.len(),
            size <= i,
            forall|k: int| 0 <= k < size && k < n ==> buf@[k] == old(buf)@[k],
            forall|k: int| size <= k < i && k < n ==> buf@[k] == 0,
        decreases n - i,
    {
        buf.set(i, 0);
        i = i + 1;
    }
}

/// The byte that holds the buttons, or 0 when the report is too short.
pub open spec fn button_byte_of(m: ResolvedMapping, report: Seq<u8>) -> u8 {
    if m.button_byte < report.len() {
        report[m.button_byte as int]
    } else {
        0
    }
}

/// The line that `dump` prints for a report.
pub open spec fn dump_text(m: ResolvedMapping, report: Seq<u8>) -> Seq<char> {
    let byte = button_byte_of(m, report);
    "report=["@ + report_text(report) + "] byte["@ + decimal(m.button_byte as nat) + "]=0x"@
        + hex2(byte) + " forward="@ + bool_text(byte & m.side_mask != 0) + " back="@ + bool_text(
        byte & m.extra_mask != 0,
    )
}

/// The part of the dump line before the button flags: the report bytes, the
/// index of the button byte and its value.
pub open spec fn dump_head(m: ResolvedMapping, report: Seq<u8>) -> Seq<char> {
    "report=["@ + report_text(report) + "] byte["@ + decimal(m.button_byte as nat) + "]=0x"@
        + hex2(button_byte_of(m, report))
}

/// The flags of the dump line agree with the mapper: `forward=` is `true` exactly
/// when the button byte has a bit of the side mask and `back=` exactly when it has
/// a bit of the extra mask (a missing byte reads as 0, so both are then `false`).
pub proof fn law_dump_flags_follow_masks(m: ResolvedMapping, report: Seq<u8>)
    ensures
        dump_text(m, report) == dump_head(m, report) + " forward="@ + bool_text(
            (if m.button_byte < report.len() {
                report[m.button_byte as int]
            } else {
                0u8
            }) & m.side_mask != 0,
        ) + " back="@ + bool_text(
            (if m.button_byte < report.len() {
                report[m.button_byte as int]
            } else {
                0u8
            }) & m.extra_mask != 0,
        ),
        report.len() <= m.button_byte ==> dump_text(m, report) == dump_head(m, report)
            + " forward="@ + "false"@ + " back="@ + "false"@,
{
    let side = m.side_mask;
    let extra = m.extra_mask;
    assert(0u8 & side == 0) by (bit_vector);
    assert(0u8 & extra == 0) by (bit_vector);
}

/// Describes a report for debugging: its bytes, the button byte, and whether each
/// side button is held.
pub fn dump_line(cfg: &ResolvedMapping, report: &[u8]) -> (r: String)
    ensures
        r@ == dump_text(*cfg, report@),
        r@ == dump_head(*cfg, report@) + " forward="@ + bool_text(
            (if cfg.button_byte < report@.len() {
                report@[cfg.button_byte as int]
            } else {
                0u8
            }) & cfg.side_mask != 0,
        ) + " back="@ + bool_text(
            (if cfg.button_byte < report@.len() {
                report@[cfg.button_byte as int]
            } else {
                0u8
            }) & cfg.extra_mask != 0,
        ),
{
    let byte: u8 = if cfg.button_byte < report.len() {
        report[cfg.button_byte]
    } else {
        0
    };
    let mut s = String::from_str("report=[");
    let bytes = format_report(report);
    s.append(bytes.as_str());
    s.append("] byte[");
    push_decimal(&mut s, cfg.button_byte as u64);
    s.append("]=0x");
    push_hex2(&mut s, byte);
    s.append(" forward=");
    push_bool(&mut s, (byte & cfg.side_mask) != 0);
    s.append(" back=");
    push_bool(&mut s, (byte & cfg.extra_mask) != 0);
    assert(s@ =~= dump_text(*cfg, report@));
    s
}

} // verus!
