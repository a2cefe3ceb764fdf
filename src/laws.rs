use vstd::prelude::*;

use crate::calculator::{
    after_load, after_set, empty_calculator, field_of_name, plan_steps, resolve_mode, with_step,
    Calculator, SetError, Step,
};
use crate::mode::{mode_name, mode_number, Mode};
use crate::result::{output_mode, pp_shape, raw_stars_of, result_of, stars_shape, EngineOutput};
use crate::sweep::{default_accuracies, sweep_table};
use crate::text::decimal;
use crate::value::AttrValue;

verus! {

/// Naming a chart's own discipline explicitly and leaving the selector unset
/// give the same engine input, for every discipline and every other attribute.
pub proof fn lemma_explicit_selector_matches_native(c: Calculator, m: Mode)
    ensures
        resolve_mode(Some(mode_number(m)), m) == m,
        resolve_mode(None, m) == m,
        plan_steps(Calculator { mode: Some(mode_number(m)), ..c }) == plan_steps(
            Calculator { mode: None, ..c },
        ),
{
}

/// No step of `s` sets accuracy.
pub open spec fn no_accuracy(s: Seq<Step>) -> bool {
    forall|i: int| 0 <= i < s.len() ==> !(#[trigger] s[i] is Accuracy)
}

proof fn lemma_with_step_keeps_no_accuracy(s: Seq<Step>, o: Option<Step>)
    requires
        no_accuracy(s),
        !(o matches Some(Step::Accuracy(_))),
    ensures
        no_accuracy(with_step(s, o)),
{
}

/// When accuracy is set, its setter call comes last, after every judgement
/// count, so that it overrides the accuracy those counts imply; no other call
/// sets accuracy.
pub proof fn lemma_accuracy_applied_last(c: Calculator)
    requires
        c.acc is Some,
    ensures
        plan_steps(c).len() >= 1,
        plan_steps(c).last() == Step::Accuracy(c.acc->0),
        no_accuracy(plan_steps(c).drop_last()),
{
    let s0 = Seq::<Step>::empty();
    let o1 = match c.mods { Some(x) => Some(Step::Mods(x)), None => None };
    lemma_with_step_keeps_no_accuracy(s0, o1);
    let s1 = with_step(s0, o1);
    let o2 = match c.combo { Some(x) => Some(Step::Combo(x)), None => None };
    lemma_with_step_keeps_no_accuracy(s1, o2);
    let s2 = with_step(s1, o2);
    let o3 = match c.n50 { Some(x) => Some(Step::N50(x)), None => None };
    lemma_with_step_keeps_no_accuracy(s2, o3);
    let s3 = with_step(s2, o3);
    let o4 = match c.n100 { Some(x) => Some(Step::N100(x)), None => None };
    lemma_with_step_keeps_no_accuracy(s3, o4);
    let s4 = with_step(s3, o4);
    let o5 = match c.n300 { Some(x) => Some(Step::N300(x)), None => None };
    lemma_with_step_keeps_no_accuracy(s4, o5);
    let s5 = with_step(s4, o5);
    let o6 = match c.katu { Some(x) => Some(Step::Katu(x)), None => None };
    lemma_with_step_keeps_no_accuracy(s5, o6);
    let s6 = with_step(s5, o6);
    let o7 = match c.miss { Some(x) => Some(Step::Misses(x)), None => None };
    lemma_with_step_keeps_no_accuracy(s6, o7);
    let s7 = with_step(s6, o7);
    let o8 = match c.passed_obj { Some(x) => Some(Step::PassedObjects(x)), None => None };
    lemma_with_step_keeps_no_accuracy(s7, o8);
    let s8 = with_step(s7, o8);
    let o9 = match c.score { Some(x) => Some(Step::Score(x)), None => None };
    lemma_with_step_keeps_no_accuracy(s8, o9);
    let s9 = with_step(s8, o9);
    assert(plan_steps(c) == s9.push(Step::Accuracy(c.acc->0)));
}

/// A cleared calculator is the fresh one: it selects the chart's own
/// discipline, makes no setter call, and reports modifiers as 0.
pub proof fn lemma_reset_matches_fresh<R>(chart_mode: Mode, o: EngineOutput<R>)
    ensures
        resolve_mode(empty_calculator().mode, chart_mode) == chart_mode,
        plan_steps(empty_calculator()) == Seq::<Step>::empty(),
        result_of(empty_calculator().mods, o).mods == 0,
{
    assert(plan_steps(empty_calculator()) =~= Seq::<Step>::empty());
}

/// A result sets exactly the contributions and difficulty attributes of its
/// own discipline and leaves those of the other three unset.
pub proof fn lemma_decomposition_shape<R>(mods: Option<u32>, o: EngineOutput<R>)
    ensures
        result_of(mods, o).mode == mode_number(output_mode(o)),
        pp_shape(output_mode(o), result_of(mods, o).raw),
        stars_shape(output_mode(o), raw_stars_of(o)),
{
}

/// The default sweep files its results under exactly the four keys
/// "100", "99", "98" and "95".
pub proof fn lemma_default_sweep_keys<R>(pps: Seq<R>)
    requires
        pps.len() == 4,
    ensures
        sweep_table(default_accuracies(), pps).dom() == set![100u32, 99u32, 98u32, 95u32],
        decimal(100) == seq!['1', '0', '0'],
        decimal(99) == seq!['9', '9'],
        decimal(98) == seq!['9', '8'],
        decimal(95) == seq!['9', '5'],
{
    let a = default_accuracies();
    assert(a.drop_last().drop_last().drop_last().drop_last().len() == 0);
    reveal_with_fuel(sweep_table, 5);
    assert(sweep_table(a, pps).dom() =~= set![100u32, 99u32, 98u32, 95u32]);
    assert(decimal(1) =~= seq!['1']);
    assert(decimal(9) =~= seq!['9']);
    assert(decimal(10) =~= seq!['1', '0']);
    assert(decimal(100) =~= seq!['1', '0', '0']);
    assert(decimal(99) =~= seq!['9', '9']);
    assert(decimal(98) =~= seq!['9', '8']);
    assert(decimal(95) =~= seq!['9', '5']);
}

/// A key that names no attribute is ignored, whatever its value.
pub proof fn lemma_unknown_key_ignored(c: Calculator, key: Seq<char>, v: AttrValue)
    requires
        field_of_name(key) is None,
    ensures
        after_set(c, key, v) == Ok::<Calculator, SetError>(c),
{
}

/// Loading a discipline by name and then an unknown key sets the selector to
/// that discipline's number and changes nothing else.
pub proof fn lemma_load_mode_then_unknown(c: Calculator, m: Mode, mode_key: String, mode_value: String, other: String, v: AttrValue)
    requires
        mode_key@ == seq!['m', 'o', 'd', 'e'],
        mode_value@ == mode_name(m),
        field_of_name(other@) is None,
    ensures
        after_load(c, seq![(mode_key, AttrValue::Text(mode_value)), (other, v)]) == (
            Calculator { mode: Some(mode_number(m)), ..c },
            Ok::<(), SetError>(()),
        ),
{
    let pairs = seq![(mode_key, AttrValue::Text(mode_value)), (other, v)];
    let c1 = Calculator { mode: Some(mode_number(m)), ..c };
    assert(after_set(c, pairs[0].0@, pairs[0].1) == Ok::<Calculator, SetError>(c1));
    assert(pairs.drop_first() =~= seq![(other, v)]);
    assert(seq![(other, v)].drop_first() =~= Seq::<(String, AttrValue)>::empty());
    assert(after_load(c1, seq![(other, v)]) == after_load(c1, Seq::<(String, AttrValue)>::empty()));
}

} // verus!
