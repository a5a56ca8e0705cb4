//! HID devices as the enumeration describes them: listing, choosing the device that
//! the settings name, and scoring devices when nothing is named.

use vstd::prelude::*;

use crate::action::ascii_lower;
use crate::args::RunArgs;
use crate::config::clone_opt_string;
use crate::text::{hex4, push_hex4, push_signed_decimal, signed_decimal};

verus! {

/// What the HID enumeration tells of one device interface; the path is the
/// device path as (lossily) converted text.
#[derive(Debug, PartialEq, Eq)]
pub struct DeviceDescriptor {
    pub path: String,
    pub vendor_id: u16,
    pub product_id: u16,
    pub serial_number: Option<String>,
    pub usage_page: u16,
    pub usage: u16,
    pub interface_number: i32,
    pub product_string: Option<String>,
    pub manufacturer_string: Option<String>,
}

impl Clone for DeviceDescriptor {
    fn clone(&self) -> (r: Self)
        ensures
            r == *self,
    {
        DeviceDescriptor {
            path: self.path.clone(),
            vendor_id: self.vendor_id,
            product_id: self.product_id,
            serial_number: clone_opt_string(&self.serial_number),
            usage_page: self.usage_page,
            usage: self.usage,
            interface_number: self.interface_number,
            product_string: clone_opt_string(&self.product_string),
            manufacturer_string: clone_opt_string(&self.manufacturer_string),
        }
    }
}

/// An optional text, or `-` when it is absent.
pub open spec fn or_dash(o: Option<String>) -> Seq<char> {
    match o {
        Some(s) => s@,
        None => "-"@,
    }
}

/// The one-line description of a device that `list` prints.
pub open spec fn device_line(d: DeviceDescriptor) -> Seq<char> {
    "path="@ + d.path@ + " vid=0x"@ + hex4(d.vendor_id) + " pid=0x"@ + hex4(d.product_id)
        + " usage_page=0x"@ + hex4(d.usage_page) + " usage=0x"@ + hex4(d.usage) + " iface="@
        + signed_decimal(d.interface_number as int) + " product="@ + or_dash(d.product_string)
        + " manufacturer="@ + or_dash(d.manufacturer_string) + " serial="@ + or_dash(
        d.serial_number,
    )
}

fn append_or_dash(s: &mut String, o: &Option<String>)
    ensures
        final(s)@ == old(s)@ + or_dash(*o),
{
    match o {
        Some(v) => s.append(v.as_str()),
        None => s.append("-"),
    }
}

/// Describes a device on one line: path, ids in hexadecimal, interface number,
/// product, manufacturer and serial number (`-` for those it lacks).
pub fn format_device(device: &DeviceDescriptor) -> (r: String)
    ensures
        r@ == device_line(*device),
{
    let mut s = String::from_str("path=");
    s.append(device.path.as_str());
    s.append(" vid=0x");
    push_hex4(&mut s, device.vendor_id);
    s.append(" pid=0x");
    push_hex4(&mut s, device.product_id);
    s.append(" usage_page=0x");
    push_hex4(&mut s, device.usage_page);
    s.append(" usage=0x");
    push_hex4(&mut s, device.usage);
    s.append(" iface=");
    push_signed_decimal(&mut s, device.interface_number);
    s.append(" product=");
    append_or_dash(&mut s, &device.product_string);
    s.append(" manufacturer=");
    append_or_dash(&mut s, &device.manufacturer_string);
    s.append(" serial=");
    append_or_dash(&mut s, &device.serial_number);
    assert(s@ =~= device_line(*device));
    s
}

/// The line that names one of several devices that passed the selectors.
pub open spec fn match_line(d: DeviceDescriptor) -> Seq<char> {
    "  path="@ + d.path@ + " vid=0x"@ + hex4(d.vendor_id) + " pid=0x"@ + hex4(d.product_id)
        + " usage_page=0x"@ + hex4(d.usage_page) + " usage=0x"@ + hex4(d.usage) + " iface="@
        + signed_decimal(d.interface_number as int) + " product="@ + or_dash(d.product_string)
        + " serial="@ + or_dash(d.serial_number)
}

/// Names one of several devices that passed the selectors (without the
/// manufacturer, which `format_device` adds).
pub fn format_match(device: &DeviceDescriptor) -> (r: String)
    ensures
        r@ == match_line(*device),
{
    let mut s = String::from_str("  path=");
    s.append(device.path.as_str());
    s.append(" vid=0x");
    push_hex4(&mut s, device.vendor_id);
    s.append(" pid=0x");
    push_hex4(&mut s, device.product_id);
    s.append(" usage_page=0x");
    push_hex4(&mut s, device.usage_page);
    s.append(" usage=0x");
    push_hex4(&mut s, device.usage);
    s.append(" iface=");
    push_signed_decimal(&mut s, device.interface_number);
    s.append(" product=");
    append_or_dash(&mut s, &device.product_string);
    s.append(" serial=");
    append_or_dash(&mut s, &device.serial_number);
    assert(s@ =~= match_line(*device));
    s
}

/// The line that announces the device that autodetection chose.
pub open spec fn selected_line(d: DeviceDescriptor) -> Seq<char> {
    "auto-selected device: product="@ + or_dash(d.product_string) + " vid=0x"@ + hex4(
        d.vendor_id,
    ) + " pid=0x"@ + hex4(d.product_id) + " usage_page=0x"@ + hex4(d.usage_page) + " usage=0x"@
        + hex4(d.usage) + " iface="@ + signed_decimal(d.interface_number as int)
}

/// Announces the device that autodetection chose.
pub fn format_selected(device: &DeviceDescriptor) -> (r: String)
    ensures
        r@ == selected_line(*device),
{
    let mut s = String::from_str("auto-selected device: product=");
    append_or_dash(&mut s, &device.product_string);
    s.append(" vid=0x");
    push_hex4(&mut s, device.vendor_id);
    s.append(" pid=0x");
    push_hex4(&mut s, device.product_id);
    s.append(" usage_page=0x");
    push_hex4(&mut s, device.usage_page);
    s.append(" usage=0x");
    push_hex4(&mut s, device.usage);
    s.append(" iface=");
    push_signed_decimal(&mut s, device.interface_number);
    assert(s@ =~= selected_line(*device));
    s
}

/// Whether `d` passes every selector that the settings `a` give.
pub open spec fn passes_filters(d: DeviceDescriptor, a: RunArgs) -> bool {
    &&& (a.path matches Some(p) ==> d.path@ == p@)
    &&& (a.vid matches Some(v) ==> d.vendor_id == v)
    &&& (a.pid matches Some(v) ==> d.product_id == v)
    &&& (a.serial matches Some(s) ==> (d.serial_number matches Some(t) && t@ == s@))
    &&& (a.usage_page matches Some(v) ==> d.usage_page == v)
    &&& (a.usage matches Some(v) ==> d.usage == v)
    &&& (a.interface_number matches Some(v) ==> d.interface_number == v)
}

/// Whether every selector that the settings give equals the device's field of
/// the same name: path, vendor id, product id, serial number, usage page, usage,
/// interface number.
pub open spec fn selectors_agree(d: DeviceDescriptor, a: RunArgs) -> bool {
    &&& (a.path is Some ==> d.path@ == a.path->0@)
    &&& (a.vid is Some ==> d.vendor_id == a.vid->0)
    &&& (a.pid is Some ==> d.product_id == a.pid->0)
    &&& (a.serial is Some ==> d.serial_number is Some && d.serial_number->0@ == a.serial->0@)
    &&& (a.usage_page is Some ==> d.usage_page == a.usage_page->0)
    &&& (a.usage is Some ==> d.usage == a.usage->0)
    &&& (a.interface_number is Some ==> d.interface_number == a.interface_number->0)
}

/// Each selector is compared with the device field of its own name: a device
/// passes exactly when every given selector equals that field; in particular a
/// usage selector constrains the device's usage, and a device that equals every
/// given selector passes.
pub proof fn law_filters_compare_fields(d: DeviceDescriptor, a: RunArgs)
    ensures
        passes_filters(d, a) <==> selectors_agree(d, a),
        a.usage is Some && passes_filters(d, a) ==> d.usage == a.usage->0,
        a.usage_page is Some && passes_filters(d, a) ==> d.usage_page == a.usage_page->0,
        a.vid is Some && passes_filters(d, a) ==> d.vendor_id == a.vid->0,
        a.pid is Some && passes_filters(d, a) ==> d.product_id == a.pid->0,
        a.interface_number is Some && passes_filters(d, a) ==> d.interface_number
            == a.interface_number->0,
{
}

/// Whether a device passes every selector that the settings give.
pub fn matches_filters(device: &DeviceDescriptor, args: &RunArgs) -> (r: bool)
    ensures
        r == passes_filters(*device, *args),
        r == (selectors_agree(*device, *args)),
{
    if let Some(path) = &args.path {
        if device.path != *path {
            return false;
        }
    }
    if let Some(vid) = args.vid {
        if device.vendor_id != vid {
            return false;
        }
    }
    if let Some(pid) = args.pid {
        if device.product_id != pid {
            return false;
        }
    }
    if let Some(serial) = &args.serial {
        match &device.serial_number {
            Some(t) => {
                if *t != *serial {
                    return false;
                }
            },
            None => {
                return false;
            },
        }
    }
    if let Some(usage_page) = args.usage_page {
        if device.usage_page != usage_page {
            return false;
        }
    }
    if let Some(usage) = args.usage {
        if device.usage != usage {
            return false;
        }
    }
    if let Some(interface_number) = args.interface_number {
        if device.interface_number != interface_number {
            return false;
        }
    }
    true
}

/// How the device to open is chosen among the enumerated ones.
#[derive(Debug, PartialEq, Eq)]
pub enum DeviceSelection {
    /// The device whose path the settings give (the first such one).
    ByPath(usize),
    /// The one device that passes every selector but the path.
    Unique(usize),
    /// Neither a present path nor both vendor and product id are given.
    MissingSelector,
    /// No device passes the selectors other than the path.
    NoMatch,
    /// Several devices pass the selectors other than the path (their indices, in order).
    Ambiguous(Vec<usize>),
}

/// A device selection as a value of the specification.
pub ghost enum SelectionModel {
    ByPath(usize),
    Unique(usize),
    MissingSelector,
    NoMatch,
    Ambiguous(Seq<usize>),
}

impl View for DeviceSelection {
    type V = SelectionModel;

    open spec fn view(&self) -> SelectionModel {
        match self {
            DeviceSelection::ByPath(i) => SelectionModel::ByPath(*i),
            DeviceSelection::Unique(i) => SelectionModel::Unique(*i),
            DeviceSelection::MissingSelector => SelectionModel::MissingSelector,
            DeviceSelection::NoMatch => SelectionModel::NoMatch,
            DeviceSelection::Ambiguous(v) => SelectionModel::Ambiguous(v@),
        }
    }
}

/// Whether device `i` of `devs` has the path `p`.
pub open spec fn has_path(devs: Seq<DeviceDescriptor>, p: Seq<char>, i: int) -> bool {
    0 <= i < devs.len() && devs[i].path@ == p
}

/// The index of the first device with path `p` (meaningful when there is one).
pub open spec fn first_with_path(devs: Seq<DeviceDescriptor>, p: Seq<char>) -> int {
    choose|i: int| has_path(devs, p, i) && forall|j: int| 0 <= j < i ==> !has_path(devs, p, j)
}

/// The indices, in order, of the first `k` devices that pass the selectors.
pub open spec fn matching_upto(devs: Seq<DeviceDescriptor>, a: RunArgs, k: nat) -> Seq<usize>
    decreases k,
{
    if k == 0 {
        Seq::<usize>::empty()
    } else {
        let before = matching_upto(devs, a, (k - 1) as nat);
        if passes_filters(devs[k - 1], a) {
            before.push((k - 1) as usize)
        } else {
            before
        }
    }
}

/// The settings `a` without their path selector.
pub open spec fn without_path(a: RunArgs) -> RunArgs {
    RunArgs { path: None, ..a }
}

/// The choice among `devs` for the settings `a`: a device with the given path
/// first; else (no path given, or a stale one that no device has), when both
/// vendor and product id are given, the devices that pass every selector but the
/// path, which must be exactly one.
pub open spec fn selection(devs: Seq<DeviceDescriptor>, a: RunArgs) -> SelectionModel {
    if a.path matches Some(p) && exists|i: int| has_path(devs, p@, i) {
        SelectionModel::ByPath(first_with_path(devs, a.path->0@) as usize)
    } else if a.vid is None || a.pid is None {
        SelectionModel::MissingSelector
    } else {
        let m = matching_upto(devs, without_path(a), devs.len());
        if m.len() == 0 {
            SelectionModel::NoMatch
        } else if m.len() == 1 {
            SelectionModel::Unique(m[0])
        } else {
            SelectionModel::Ambiguous(m)
        }
    }
}

/// Chooses the device to open among the enumerated ones.
pub fn select_device(devices: &Vec<DeviceDescriptor>, args: &RunArgs) -> (r: DeviceSelection)
    ensures
        r@ == selection(devices@, *args),
{
    let n = devices.len();
    if let Some(path) = &args.path {
        for i in 0..n
            invariant
                n == devices@.len(),
                args.path == Some(*path),
                forall|j: int| 0 <= j < i ==> !has_path(devices@, path@, j),
        {
            if devices[i].path == *path {
                let ghost p = path@;
                assert(has_path(devices@, p, i as int) && forall|j: int|
                    0 <= j < i ==> !has_path(devices@, p, j));
                let ghost f = first_with_path(devices@, p);
                assert(has_path(devices@, p, f) && forall|j: int|
                    0 <= j < f ==> !has_path(devices@, p, j));
                assert(f == i) by {
                    if f < i {
                        assert(!has_path(devices@, p, f));
                    } else if f > i {
                        assert(!has_path(devices@, p, i as int));
                    }
                }
                assert(args.path->0@ == p);
                assert(exists|k: int| has_path(devices@, p, k));
                return DeviceSelection::ByPath(i);
            }
        }
    }
    if args.vid.is_none() || args.pid.is_none() {
        return DeviceSelection::MissingSelector;
    }
    let mut by_ids = args.clone();
    by_ids.path = None;
    let mut found: Vec<usize> = Vec::new();
    for i in 0..n
        invariant
            n == devices@.len(),
            by_ids == without_path(*args),
            found@ == matching_upto(devices@, without_path(*args), i as nat),
    {
        if matches_filters(&devices[i], &by_ids) {
            found.push(i);
        }
    }
    if found.len() == 0 {
        DeviceSelection::NoMatch
    } else if found.len() == 1 {
        DeviceSelection::Unique(found[0])
    } else {
        DeviceSelection::Ambiguous(found)
    }
}

/// The text searched when scoring a device: path, product, manufacturer and
/// serial number, separated by spaces, in lower case.
pub open spec fn haystack(d: DeviceDescriptor) -> Seq<char> {
    raw_haystack(d).map_values(|c: char| ascii_lower(c))
}

/// The text searched when scoring a device, before it is put in lower case.
pub open spec fn raw_haystack(d: DeviceDescriptor) -> Seq<char> {
    d.path@ + " "@ + match d.product_string {
        Some(p) => p@ + " "@,
        None => Seq::<char>::empty(),
    } + match d.manufacturer_string {
        Some(m) => m@ + " "@,
        None => Seq::<char>::empty(),
    } + match d.serial_number {
        Some(s) => s@,
        None => Seq::<char>::empty(),
    }
}

fn append_then_space(s: &mut String, o: &Option<String>)
    ensures
        final(s)@ == old(s)@ + match *o {
            Some(p) => p@ + " "@,
            None => Seq::<char>::empty(),
        },
{
    match o {
        Some(v) => {
            s.append(v.as_str());
            s.append(" ");
        },
        None => {
            assert(old(s)@ + Seq::<char>::empty() =~= old(s)@);
        },
    }
}

fn lower(c: char) -> (r: char)
    ensures
        r == ascii_lower(c),
{
    if 'A' <= c && c <= 'Z' {
        ((c as u8) + 32) as char
    } else {
        c
    }
}

/// The text searched when scoring a device.
pub fn candidate_haystack(device: &DeviceDescriptor) -> (r: String)
    ensures
        r@ == haystack(*device),
{
    let mut raw = String::from_str(device.path.as_str());
    raw.append(" ");
    append_then_space(&mut raw, &device.product_string);
    append_then_space(&mut raw, &device.manufacturer_string);
    match &device.serial_number {
        Some(v) => raw.append(v.as_str()),
        None => {},
    }
    assert(raw@ =~= raw_haystack(*device));
    let text = raw.as_str();
    let n = text.unicode_len();
    let mut out = String::new();
    for i in 0..n
        invariant
            n == text@.len(),
            out@ == text@.take(i as int).map_values(|c: char| ascii_lower(c)),
    {
        out.push(lower(text.get_char(i)));
        assert(out@ =~= text@.take(i + 1).map_values(|c: char| ascii_lower(c)));
    }
    assert(text@.take(n as int) =~= text@);
    out
}

/// Whether `needle` occurs in `hay` at position `i`.
pub open spec fn occurs_at(hay: Seq<char>, needle: Seq<char>, i: int) -> bool {
    0 <= i && i + needle.len() <= hay.len() && hay.subrange(i, i + needle.len()) == needle
}

/// Whether `needle` occurs somewhere in `hay`.
pub open spec fn contains_text(hay: Seq<char>, needle: Seq<char>) -> bool {
    exists|i: int| occurs_at(hay, needle, i)
}

/// Whether `needle` occurs in `hay`.
pub fn contains(hay: &str, needle: &str) -> (r: bool)
    ensures
        r == contains_text(hay@, needle@),
{
    let n = hay.unicode_len();
    let m = needle.unicode_len();
    if m > n {
        assert forall|i: int| !occurs_at(hay@, needle@, i) by {}
        return false;
    }
    let mut i: usize = 0;
    while i <= n - m
        invariant
            n == hay@.len(),
            m == needle@.len(),
            m <= n,
            forall|k: int| 0 <= k < i ==> !occurs_at(hay@, needle@, k),
        decreases n - m - i + 1,
    {
        let mut j: usize = 0;
        let mut same = true;
        while j < m
            invariant
                n == hay@.len(),
                m == needle@.len(),
                i + m <= n,
                j <= m,
                same == forall|k: int| 0 <= k < j ==> hay@[i + k] == needle@[k],
            decreases m - j,
        {
            if hay.get_char(i + j) != needle.get_char(j) {
                same = false;
            }
            j = j + 1;
        }
        if same {
            assert(hay@.subrange(i as int, i + m) =~= needle@);
            assert(occurs_at(hay@, needle@, i as int));
            return true;
        }
        assert(!occurs_at(hay@, needle@, i as int)) by {
            if hay@.subrange(i as int, i + m) == needle@ {
                assert forall|k: int| 0 <= k < m implies hay@[i + k] == needle@[k] by {
                    assert(hay@.subrange(i as int, i + m)[k] == hay@[i + k]);
                }
            }
        }
        i = i + 1;
    }
    assert forall|k: int| !occurs_at(hay@, needle@, k) by {
        if 0 <= k && k + m <= n {
            assert(k < i);
        }
    }
    false
}

/// How likely a device is the mouse: a match of `chimera` in its text counts
/// 10000, of `mouse` 500, the generic-desktop usage page 200, the mouse usage 200,
/// interface 0 100, and `event` in its path 25.
pub open spec fn score_of(d: DeviceDescriptor) -> int {
    (if contains_text(haystack(d), "chimera"@) { 10_000int } else { 0 })
        + (if contains_text(haystack(d), "mouse"@) { 500int } else { 0 })
        + (if d.usage_page == 0x0001 { 200int } else { 0 })
        + (if d.usage == 0x0002 { 200int } else { 0 })
        + (if d.interface_number == 0 { 100int } else { 0 })
        + (if contains_text(d.path@, "event"@) { 25int } else { 0 })
}

/// The score of a device, or `None` for a device that scores nothing.
pub fn autodetect_score(device: &DeviceDescriptor) -> (r: Option<i32>)
    ensures
        r == (if score_of(*device) == 0 {
            None
        } else {
            Some(score_of(*device) as i32)
        }),
{
    let h = candidate_haystack(device);
    let mut score: i32 = 0;
    if contains(h.as_str(), "chimera") {
        score += 10_000;
    }
    if contains(h.as_str(), "mouse") {
        score += 500;
    }
    if device.usage_page == 0x0001 {
        score += 200;
    }
    if device.usage == 0x0002 {
        score += 200;
    }
    if device.interface_number == 0 {
        score += 100;
    }
    if contains(device.path.as_str(), "event") {
        score += 25;
    }
    if score == 0 {
        None
    } else {
        Some(score)
    }
}

proof fn lemma_matching_upto(devs: Seq<DeviceDescriptor>, a: RunArgs, k: nat)
    requires
        k <= devs.len(),
        k <= usize::MAX,
    ensures
        forall|j: int|
            0 <= j < matching_upto(devs, a, k).len() ==> {
                let i = #[trigger] matching_upto(devs, a, k)[j];
                &&& i < k
                &&& passes_filters(devs[i as int], a)
            },
        forall|j1: int, j2: int|
            0 <= j1 < j2 < matching_upto(devs, a, k).len() ==> matching_upto(devs, a, k)[j1]
                < matching_upto(devs, a, k)[j2],
    decreases k,
{
    if k > 0 {
        let before = matching_upto(devs, a, (k - 1) as nat);
        lemma_matching_upto(devs, a, (k - 1) as nat);
        if passes_filters(devs[k - 1], a) {
            let m = before.push((k - 1) as usize);
            assert forall|j: int| 0 <= j < m.len() implies m[j] < k && passes_filters(
                devs[m[j] as int],
                a,
            ) by {
                if j < before.len() {
                    assert(m[j] == before[j]);
                }
            }
            assert forall|j1: int, j2: int| 0 <= j1 < j2 < m.len() implies m[j1] < m[j2] by {
                assert(m[j1] == before[j1]);
                if j2 < before.len() {
                    assert(m[j2] == before[j2]);
                } else {
                    assert(before[j1] < k - 1);
                }
            }
        }
    }
}

/// The device that is chosen is one that the settings describe: the one with the
/// given path, or one that passes every selector but the path; when several
/// pass, each of them is listed once, in order.
pub proof fn law_selection_fits_settings(devs: Seq<DeviceDescriptor>, a: RunArgs)
    requires
        devs.len() <= usize::MAX,
    ensures
        match selection(devs, a) {
            SelectionModel::ByPath(i) => a.path is Some && i < devs.len() && devs[i as int].path@
                == a.path->0@,
            SelectionModel::Unique(i) => i < devs.len() && passes_filters(
                devs[i as int],
                without_path(a),
            ),
            SelectionModel::Ambiguous(m) => m.len() >= 2 && (forall|j: int|
                0 <= j < m.len() ==> #[trigger] m[j] < devs.len() && passes_filters(
                    devs[m[j] as int],
                    without_path(a),
                )) && (forall|j1: int, j2: int| 0 <= j1 < j2 < m.len() ==> m[j1] < m[j2]),
            _ => true,
        },
{
    lemma_matching_upto(devs, without_path(a), devs.len());
    if a.path is Some {
        let p = a.path->0@;
        if exists|i: int| has_path(devs, p, i) {
            let w = choose|i: int| has_path(devs, p, i);
            lemma_first_exists(devs, p, w);
        }
    }
}

proof fn lemma_first_exists(devs: Seq<DeviceDescriptor>, p: Seq<char>, w: int)
    requires
        has_path(devs, p, w),
    ensures
        has_path(devs, p, first_with_path(devs, p)),
    decreases w,
{
    if exists|j: int| 0 <= j < w && has_path(devs, p, j) {
        let j = choose|j: int| 0 <= j < w && has_path(devs, p, j);
        lemma_first_exists(devs, p, j);
    } else {
        assert(has_path(devs, p, w) && forall|j: int| 0 <= j < w ==> !has_path(devs, p, j));
    }
}

} // verus!
