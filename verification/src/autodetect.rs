//! Finding the mouse when the settings name no device: ranking the scored
//! devices, watching the close contenders for a button press, and following the
//! device while it is in use.

use vstd::prelude::*;

use crate::args::RunArgs;
use crate::config::clone_opt_string;
use crate::device::DeviceDescriptor;
use crate::report::{any_bit_newly_pressed, newly_pressed};

verus! {

broadcast use vstd::seq_lib::to_multiset_insert, vstd::seq_lib::to_multiset_remove;

/// A device that scored, with the last report read from it.
#[derive(Debug, PartialEq, Eq)]
pub struct AutodetectCandidate {
    pub score: i32,
    pub device: DeviceDescriptor,
    pub last_report: Vec<u8>,
}

/// Where a candidate with `score` goes in the ranked `r`: after every candidate
/// that scores at least as much.
pub open spec fn insert_position(r: Seq<AutodetectCandidate>, score: i32) -> nat
    decreases r.len(),
{
    if r.len() == 0 {
        0
    } else if r[0].score < score {
        0
    } else {
        1 + insert_position(r.drop_first(), score)
    }
}

/// The candidates from the highest score down; candidates with equal scores keep
/// the order they came in.
pub open spec fn ranked(s: Seq<AutodetectCandidate>) -> Seq<AutodetectCandidate>
    decreases s.len(),
{
    if s.len() == 0 {
        s
    } else {
        let r = ranked(s.drop_last());
        r.insert(insert_position(r, s.last().score) as int, s.last())
    }
}

/// Whether the scores of `s` never increase.
pub open spec fn scores_descend(s: Seq<AutodetectCandidate>) -> bool {
    forall|i: int, j: int| 0 <= i < j < s.len() ==> s[i].score >= s[j].score
}

proof fn lemma_insert_position(r: Seq<AutodetectCandidate>, score: i32)
    ensures
        insert_position(r, score) <= r.len(),
        forall|i: int| 0 <= i < insert_position(r, score) ==> r[i].score >= score,
        insert_position(r, score) < r.len() ==> r[insert_position(r, score) as int].score < score,
    decreases r.len(),
{
    if r.len() > 0 && r[0].score >= score {
        lemma_insert_position(r.drop_first(), score);
        assert forall|i: int| 0 <= i < insert_position(r, score) implies r[i].score >= score by {
            if i > 0 {
                assert(r[i] == r.drop_first()[i - 1]);
            }
        }
    }
}

fn find_position(r: &Vec<AutodetectCandidate>, score: i32) -> (p: usize)
    ensures
        p == insert_position(r@, score),
{
    let n = r.len();
    let mut j: usize = 0;
    assert(r@.skip(0) =~= r@);
    while j < n && r[j].score >= score
        invariant
            n == r@.len(),
            j <= n,
            insert_position(r@, score) == j + insert_position(r@.skip(j as int), score),
        decreases n - j,
    {
        assert(r@.skip(j as int).drop_first() =~= r@.skip(j + 1));
        j = j + 1;
    }
    j
}

/// Orders candidates from the highest score down, keeping the order of equal scores.
pub fn sort_candidates(candidates: Vec<AutodetectCandidate>) -> (r: Vec<AutodetectCandidate>)
    ensures
        r@ == ranked(candidates@),
{
    let ghost input = candidates@;
    let mut rest = candidates;
    let mut out: Vec<AutodetectCandidate> = Vec::new();
    let ghost mut k: int = 0;
    assert(input.take(0) =~= Seq::<AutodetectCandidate>::empty());
    while rest.len() > 0
        invariant
            0 <= k <= input.len(),
            rest@ == input.skip(k),
            out@ == ranked(input.take(k)),
        decreases rest@.len(),
    {
        let x = rest.remove(0);
        assert(input.take(k + 1).drop_last() =~= input.take(k));
        assert(input.take(k + 1).last() == x);
        let p = find_position(&out, x.score);
        proof {
            lemma_insert_position(out@, x.score);
        }
        out.insert(p, x);
        proof {
            assert(input.skip(k).drop_first() =~= input.skip(k + 1));
            k = k + 1;
        }
    }
    assert(input.take(k) =~= input);
    out
}

/// Ranking puts the scores in descending order and keeps every candidate.
pub proof fn law_ranking_sorts(s: Seq<AutodetectCandidate>)
    ensures
        scores_descend(ranked(s)),
        ranked(s).to_multiset() == s.to_multiset(),
    decreases s.len(),
{
    if s.len() > 0 {
        let r = ranked(s.drop_last());
        law_ranking_sorts(s.drop_last());
        let x = s.last();
        let p = insert_position(r, x.score) as int;
        lemma_insert_position(r, x.score);
        let q = r.insert(p, x);
        assert(q.len() == r.len() + 1);
        assert forall|i: int, j: int| 0 <= i < j < q.len() implies q[i].score >= q[j].score by {
            if j < p {
                assert(q[i] == r[i] && q[j] == r[j]);
            } else if j == p {
                assert(q[i] == r[i]);
            } else if i < p {
                assert(q[i] == r[i] && q[j] == r[j - 1]);
            } else if i == p {
                assert(q[j] == r[j - 1]);
                assert(r[p].score < x.score);
                assert(r[p].score >= r[j - 1].score || p == j - 1);
            } else {
                assert(q[i] == r[i - 1] && q[j] == r[j - 1]);
            }
        }
        assert(s =~= s.drop_last().push(x));
        vstd::seq_lib::to_multiset_build(s.drop_last(), x);
    }
}

/// The candidates of `s` that score exactly `v`, in their order in `s`.
pub open spec fn with_score(s: Seq<AutodetectCandidate>, v: i32) -> Seq<AutodetectCandidate>
    decreases s.len(),
{
    if s.len() == 0 {
        s
    } else {
        let rest = with_score(s.drop_last(), v);
        if s.last().score == v {
            rest.push(s.last())
        } else {
            rest
        }
    }
}

proof fn lemma_with_score_concat(a: Seq<AutodetectCandidate>, b: Seq<AutodetectCandidate>, v: i32)
    ensures
        with_score(a + b, v) == with_score(a, v) + with_score(b, v),
    decreases b.len(),
{
    if b.len() == 0 {
        assert(a + b =~= a);
        assert(with_score(a, v) + with_score(b, v) =~= with_score(a, v));
    } else {
        assert((a + b).drop_last() =~= a + b.drop_last());
        assert((a + b).last() == b.last());
        lemma_with_score_concat(a, b.drop_last(), v);
        if b.last().score == v {
            assert(with_score(a, v) + with_score(b, v) =~= (with_score(a, v) + with_score(
                b.drop_last(),
                v,
            )).push(b.last()));
        }
    }
}

proof fn lemma_with_score_none(s: Seq<AutodetectCandidate>, v: i32)
    requires
        forall|i: int| 0 <= i < s.len() ==> (#[trigger] s[i]).score != v,
    ensures
        with_score(s, v) == Seq::<AutodetectCandidate>::empty(),
    decreases s.len(),
{
    if s.len() > 0 {
        assert(s.last() == s[s.len() - 1]);
        lemma_with_score_none(s.drop_last(), v);
    }
}

/// Ranking is stable: the candidates of any one score come out in the order they
/// came in.
pub proof fn law_ranking_is_stable(s: Seq<AutodetectCandidate>, v: i32)
    ensures
        with_score(ranked(s), v) == with_score(s, v),
    decreases s.len(),
{
    if s.len() > 0 {
        let r = ranked(s.drop_last());
        let x = s.last();
        law_ranking_is_stable(s.drop_last(), v);
        law_ranking_sorts(s.drop_last());
        lemma_insert_position(r, x.score);
        let p = insert_position(r, x.score) as int;
        let front = r.take(p);
        let back = r.skip(p);
        assert(r.insert(p, x) =~= front + seq![x] + back);
        assert(r =~= front + back);
        lemma_with_score_concat(front + seq![x], back, v);
        lemma_with_score_concat(front, seq![x], v);
        lemma_with_score_concat(front, back, v);
        assert(seq![x].drop_last() =~= Seq::<AutodetectCandidate>::empty());
        assert(with_score(Seq::<AutodetectCandidate>::empty(), v) =~= Seq::<
            AutodetectCandidate,
        >::empty());
        assert(seq![x].last() == x);
        if x.score == v {
            assert forall|i: int| 0 <= i < back.len() implies (#[trigger] back[i]).score != v by {
                assert(back[i] == r[p + i]);
                assert(r[p].score < x.score);
                if i > 0 {
                    assert(r[p].score >= r[p + i].score);
                }
            }
            lemma_with_score_none(back, v);
            assert(with_score(seq![x], v) =~= seq![x]);
            assert(with_score(ranked(s), v) =~= with_score(r, v).push(x));
        } else {
            assert(with_score(seq![x], v) =~= Seq::<AutodetectCandidate>::empty());
            assert(with_score(ranked(s), v) =~= with_score(r, v));
        }
    }
}

/// The number of leading candidates whose score is within 200 of the best one's.
pub open spec fn is_plausible_count(s: Seq<AutodetectCandidate>, k: nat) -> bool {
    &&& k <= s.len()
    &&& forall|i: int| 0 <= i < k ==> (#[trigger] s[i]).score + 200 >= s[0].score
    &&& (k < s.len() ==> s[k as int].score + 200 < s[0].score)
}

/// How many of the ranked candidates are close enough to the best one to need a
/// button press to tell apart; `None` when there is no candidate.
pub fn plausible_count(candidates: &Vec<AutodetectCandidate>) -> (r: Option<usize>)
    ensures
        match r {
            None => candidates@.len() == 0,
            Some(k) => candidates@.len() > 0 && is_plausible_count(candidates@, k as nat),
        },
{
    let n = candidates.len();
    if n == 0 {
        return None;
    }
    let best = candidates[0].score as i64;
    let mut k: usize = 0;
    while k < n && (candidates[k].score as i64) + 200 >= best
        invariant
            n == candidates@.len(),
            n > 0,
            best == candidates@[0].score,
            k <= n,
            forall|i: int| 0 <= i < k ==> (#[trigger] candidates@[i]).score + 200 >= candidates@[0].score,
        decreases n - k,
    {
        k = k + 1;
    }
    Some(k)
}

/// Whether the plausible candidates must be told apart by a button press.
pub fn needs_confirmation(plausible: usize) -> (r: bool)
    ensures
        r == (plausible > 1),
{
    plausible > 1
}

/// The index of the chosen candidate: the best one, unless several are plausible
/// and a button press confirmed one of them.
pub open spec fn chosen_index(plausible: usize, confirmed: Option<usize>) -> usize {
    if plausible <= 1 {
        0
    } else {
        match confirmed {
            Some(i) => i,
            None => 0,
        }
    }
}

/// Chooses among the ranked candidates after the press test (if any).
pub fn choose_candidate(plausible: usize, confirmed: Option<usize>) -> (r: usize)
    ensures
        r == chosen_index(plausible, confirmed),
        plausible <= 1 ==> r == 0,
        plausible > 1 && confirmed is Some ==> r == confirmed->0,
        confirmed is None ==> r == 0,
{
    if plausible <= 1 {
        0
    } else {
        match confirmed {
            Some(i) => i,
            None => 0,
        }
    }
}

/// Compares a new report from a candidate with the last one: a newly pressed
/// button picks the candidate (its last report is kept); otherwise the new report
/// becomes its last one.
pub fn observe_candidate(candidate: &mut AutodetectCandidate, current: Vec<u8>) -> (picked: bool)
    ensures
        picked == newly_pressed(old(candidate).last_report@, current@),
        final(candidate).score == old(candidate).score,
        final(candidate).device == old(candidate).device,
        final(candidate).last_report@ == if picked {
            old(candidate).last_report@
        } else {
            current@
        },
{
    if any_bit_newly_pressed(candidate.last_report.as_slice(), current.as_slice()) {
        true
    } else {
        candidate.last_report = current;
        false
    }
}

/// The settings `a` pinned to the device `d`.
pub open spec fn with_device(a: RunArgs, d: DeviceDescriptor) -> RunArgs {
    RunArgs {
        path: Some(d.path),
        vid: Some(d.vendor_id),
        pid: Some(d.product_id),
        serial: d.serial_number,
        usage_page: Some(d.usage_page),
        usage: Some(d.usage),
        interface_number: Some(d.interface_number),
        ..a
    }
}

/// Pins the settings to the device that autodetection chose.
pub fn args_for_device(args: &RunArgs, device: &DeviceDescriptor) -> (r: RunArgs)
    ensures
        r == with_device(*args, *device),
{
    let mut resolved = args.clone();
    resolved.path = Some(device.path.clone());
    resolved.vid = Some(device.vendor_id);
    resolved.pid = Some(device.product_id);
    resolved.serial = clone_opt_string(&device.serial_number);
    resolved.usage_page = Some(device.usage_page);
    resolved.usage = Some(device.usage);
    resolved.interface_number = Some(device.interface_number);
    resolved
}

/// Whether the device in use is still enumerated: some device has its path
/// (with no path to follow there is nothing to lose track of).
pub open spec fn path_present(devs: Seq<DeviceDescriptor>, path: Option<String>) -> bool {
    match path {
        None => true,
        Some(p) => exists|i: int| 0 <= i < devs.len() && #[trigger] devs[i].path@ == p@,
    }
}

/// Whether the device in use is still enumerated.
pub fn device_path_present(devices: &Vec<DeviceDescriptor>, path: &Option<String>) -> (r: bool)
    ensures
        r == path_present(devices@, *path),
{
    match path {
        None => true,
        Some(p) => {
            for i in 0..devices.len()
                invariant
                    *path == Some(*p),
                    forall|k: int| 0 <= k < i ==> devices@[k].path@ != p@,
            {
                if devices[i].path == *p {
                    assert(devices@[i as int].path@ == p@);
                    return true;
                }
            }
            false
        },
    }
}

/// The vendor id of the mouse.
pub const MOUSE_VENDOR_ID: u16 = 0x248a;

/// The product id of the mouse on its cable.
pub const WIRED_PRODUCT_ID: u16 = 0x5b49;

/// The product id of the mouse's wireless receiver.
pub const WIRELESS_PRODUCT_ID: u16 = 0x5b4a;

/// Whether the mapper should leave the wireless receiver for the cable: the
/// receiver is in use and the mouse is enumerated on its cable.
pub open spec fn wired_takes_over(a: RunArgs, devs: Seq<DeviceDescriptor>) -> bool {
    &&& a.vid == Some(MOUSE_VENDOR_ID)
    &&& a.pid == Some(WIRELESS_PRODUCT_ID)
    &&& exists|i: int|
        0 <= i < devs.len() && #[trigger] devs[i].vendor_id == MOUSE_VENDOR_ID
            && devs[i].product_id == WIRED_PRODUCT_ID
}

/// Whether the mapper should leave the wireless receiver for the cable.
pub fn should_switch_to_wired(args: &RunArgs, devices: &Vec<DeviceDescriptor>) -> (r: bool)
    ensures
        r == wired_takes_over(*args, devices@),
{
    let mut has_wired = false;
    for i in 0..devices.len()
        invariant
            has_wired == exists|k: int|
                0 <= k < i && #[trigger] devices@[k].vendor_id == MOUSE_VENDOR_ID
                    && devices@[k].product_id == WIRED_PRODUCT_ID,
    {
        if devices[i].vendor_id == MOUSE_VENDOR_ID && devices[i].product_id == WIRED_PRODUCT_ID {
            has_wired = true;
        }
    }
    let is_wireless_active = args.vid == Some(MOUSE_VENDOR_ID) && args.pid == Some(
        WIRELESS_PRODUCT_ID,
    );
    is_wireless_active && has_wired
}

/// When several candidates are plausible (so a confirmation is needed), the
/// candidate that a button press confirmed is the one chosen; without a
/// confirmation, or with a single plausible candidate, the best-scored one is.
pub proof fn law_confirmed_candidate_is_chosen(plausible: usize, confirmed: Option<usize>)
    ensures
        plausible > 1 && confirmed is Some ==> chosen_index(plausible, confirmed) == confirmed->0,
        plausible <= 1 ==> chosen_index(plausible, confirmed) == 0,
        confirmed is None ==> chosen_index(plausible, confirmed) == 0,
{
}

} // verus!
