use vstd::prelude::*;

use crate::calculator::{empty_calculator, plan_steps, resolve_mode, CalcPlan, Calculator};
use crate::mode::Mode;
use crate::text::{decimal, decimal_string, lemma_decimal_injective};

verus! {

/// The accuracies swept when the caller names none, in hundredths of a
/// percent: 100%, 99%, 98% and 95%.
pub open spec fn default_accuracies() -> Seq<u32> {
    seq![10000u32, 9900u32, 9800u32, 9500u32]
}

/// The whole percentage under which an accuracy's result is filed.
pub open spec fn whole_percent(acc: u32) -> u32 {
    acc / 100
}

/// The calculator for one point of a sweep: discipline selector, modifiers
/// and the accuracy, nothing else.
pub open spec fn sweep_calculator(mode: Option<u8>, mods: Option<u32>, acc: u32) -> Calculator {
    Calculator { mode, mods, acc: Some(acc), ..empty_calculator() }
}

/// The sweep's results by whole percentage: each accuracy in turn files its
/// result, and a later one overwrites an earlier one with the same whole
/// percentage.
pub open spec fn sweep_table<R>(accs: Seq<u32>, pps: Seq<R>) -> Map<u32, R>
    decreases accs.len(),
{
    if accs.len() == 0 || pps.len() == 0 {
        Map::empty()
    } else {
        sweep_table(accs.drop_last(), pps.drop_last()).insert(
            whole_percent(accs.last()),
            pps.last(),
        )
    }
}

/// Entry `e` of a sweep holds the result filed under whole percentage `w`.
pub open spec fn filed_under<R>(t: Map<u32, R>, e: (String, R), w: u32) -> bool {
    &&& t.contains_key(w)
    &&& e.0@ == decimal(w as nat)
    &&& e.1 == t[w]
}

/// Entry `e` of a sweep holds the result filed under some whole percentage.
pub open spec fn entry_filed<R>(t: Map<u32, R>, e: (String, R)) -> bool {
    exists|w: u32| filed_under(t, e, w)
}

/// The accuracies swept when the caller names none.
pub fn default_acc_list() -> (r: Vec<u32>)
    ensures
        r@ == default_accuracies(),
{
    let r = vec![10000u32, 9900u32, 9800u32, 9500u32];
    proof {
        assert(r@ =~= default_accuracies());
    }
    r
}

/// The accuracy list to sweep: the caller's, or the default one.
pub fn acc_list_or_default(accs: Option<Vec<u32>>) -> (r: Vec<u32>)
    ensures
        r@ == match accs {
            Some(v) => v@,
            None => default_accuracies(),
        },
{
    match accs {
        Some(v) => v,
        None => default_acc_list(),
    }
}

/// The engine inputs of a sweep against a chart of discipline `chart_mode`:
/// one per accuracy, each with the modifiers and that accuracy alone.
pub fn acc_list_plans(mode: Option<u8>, mods: Option<u32>, chart_mode: Mode, accs: &Vec<u32>) -> (r: Vec<CalcPlan>)
    ensures
        r@.len() == accs@.len(),
        forall|i: int|
            0 <= i < accs@.len() ==> {
                &&& (#[trigger] r@[i]).mode == resolve_mode(mode, chart_mode)
                &&& r@[i].steps@ == plan_steps(sweep_calculator(mode, mods, accs@[i]))
            },
{
    let mut r: Vec<CalcPlan> = Vec::new();
    let mut i: usize = 0;
    while i < accs.len()
        invariant
            i <= accs@.len(),
            r@.len() == i,
            forall|k: int|
                0 <= k < i ==> {
                    &&& (#[trigger] r@[k]).mode == resolve_mode(mode, chart_mode)
                    &&& r@[k].steps@ == plan_steps(sweep_calculator(mode, mods, accs@[k]))
                },
        decreases accs@.len() - i,
    {
        let mut c = Calculator::new_empty();
        c.mode = mode;
        c.mods = mods;
        c.acc = Some(accs[i]);
        proof {
            assert(c == sweep_calculator(mode, mods, accs@[i as int]));
        }
        r.push(c.plan(chart_mode));
        i = i + 1;
    }
    r
}

fn find_whole(wholes: &Vec<u32>, w: u32) -> (r: Option<usize>)
    ensures
        match r {
            Some(j) => j < wholes@.len() && wholes@[j as int] == w,
            None => forall|k: int| 0 <= k < wholes@.len() ==> wholes@[k] != w,
        },
{
    let mut j: usize = 0;
    while j < wholes.len()
        invariant
            j <= wholes@.len(),
            forall|k: int| 0 <= k < j ==> wholes@[k] != w,
        decreases wholes@.len() - j,
    {
        if wholes[j] == w {
            return Some(j);
        }
        j = j + 1;
    }
    None
}

/// Files the result of each accuracy under its whole percentage, written in
/// decimal; a later accuracy with the same whole percentage overwrites the
/// earlier result. Entries appear in the order their keys first occur.
pub fn calculate_acc_list<R: Copy>(accs: &Vec<u32>, pps: &Vec<R>) -> (r: Vec<(String, R)>)
    requires
        accs@.len() == pps@.len(),
    ensures
        r@.len() == sweep_table(accs@, pps@).dom().len(),
        forall|i: int, j: int| 0 <= i < j < r@.len() ==> r@[i].0@ != r@[j].0@,
        forall|i: int| 0 <= i < r@.len() ==> #[trigger] entry_filed(sweep_table(accs@, pps@), r@[i]),
        forall|w: u32|
            #[trigger] sweep_table(accs@, pps@).contains_key(w) ==> exists|i: int|
                0 <= i < r@.len() && filed_under(sweep_table(accs@, pps@), #[trigger] r@[i], w),
{
    let mut entries: Vec<(String, R)> = Vec::new();
    let mut wholes: Vec<u32> = Vec::new();
    let mut i: usize = 0;
    while i < accs.len()
        invariant
            i <= accs@.len(),
            accs@.len() == pps@.len(),
            entries@.len() == wholes@.len(),
            wholes@.no_duplicates(),
            wholes@.to_set() == sweep_table(accs@.take(i as int), pps@.take(i as int)).dom(),
            forall|k: int|
                0 <= k < entries@.len() ==> {
                    &&& (#[trigger] entries@[k]).0@ == decimal(wholes@[k] as nat)
                    &&& entries@[k].1 == sweep_table(accs@.take(i as int), pps@.take(i as int))[wholes@[k]]
                },
        decreases accs@.len() - i,
    {
        let ghost before = sweep_table(accs@.take(i as int), pps@.take(i as int));
        let w = accs[i] / 100;
        let pp = pps[i];
        proof {
            assert(accs@.take(i + 1).drop_last() =~= accs@.take(i as int));
            assert(pps@.take(i + 1).drop_last() =~= pps@.take(i as int));
            assert(sweep_table(accs@.take(i + 1), pps@.take(i + 1)) == before.insert(w, pp));
        }
        match find_whole(&wholes, w) {
            Some(j) => {
                entries.set(j, (decimal_string(w), pp));
            },
            None => {
                let ghost old_wholes = wholes@;
                entries.push((decimal_string(w), pp));
                wholes.push(w);
                proof {
                    assert forall|x: u32| #[trigger] wholes@.to_set().contains(x) <==> before.dom().insert(w).contains(x) by {
                        if x == w {
                            assert(wholes@[wholes@.len() - 1] == w);
                        } else if before.dom().contains(x) {
                            assert(old_wholes.to_set().contains(x));
                            let k = choose|k: int| 0 <= k < old_wholes.len() && old_wholes[k] == x;
                            assert(wholes@[k] == x);
                        } else if wholes@.to_set().contains(x) {
                            let k = choose|k: int| 0 <= k < wholes@.len() && wholes@[k] == x;
                            assert(old_wholes[k] == x);
                            assert(old_wholes.to_set().contains(x));
                        }
                    }
                    assert(wholes@.to_set() =~= before.dom().insert(w));
                }
            },
        }
        i = i + 1;
        proof {
            assert(wholes@.to_set() =~= sweep_table(accs@.take(i as int), pps@.take(i as int)).dom());
        }
    }
    proof {
        assert(accs@.take(i as int) =~= accs@);
        assert(pps@.take(i as int) =~= pps@);
        let t = sweep_table(accs@, pps@);
        wholes@.unique_seq_to_set();
        assert forall|a: int, b: int| 0 <= a < b < entries@.len() implies entries@[a].0@ != entries@[b].0@ by {
            if entries@[a].0@ == entries@[b].0@ {
                lemma_decimal_injective(wholes@[a] as nat, wholes@[b] as nat);
            }
        }
        assert forall|w: u32| #[trigger] t.contains_key(w) implies exists|k: int|
            0 <= k < entries@.len() && filed_under(t, #[trigger] entries@[k], w) by {
            assert(wholes@.to_set().contains(w));
            let k = choose|k: int| 0 <= k < wholes@.len() && wholes@[k] == w;
            assert(filed_under(t, entries@[k], w));
        }
        assert forall|k: int| 0 <= k < entries@.len() implies #[trigger] entry_filed(t, entries@[k]) by {
            let w = wholes@[k];
            assert(wholes@.to_set().contains(w));
            assert(filed_under(t, entries@[k], w));
        }
    }
    entries
}

} // verus!
