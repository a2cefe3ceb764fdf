use peace_pp::calculator::{new_calculator, Calculator, SetError, Step};
use peace_pp::mode::{
    int_into_osu_mode, osu_mode_int_str, osu_mode_str, osu_mode_str_int, py_any_into_osu_mode,
    str_into_osu_mode, Mode, ModeError,
};
use peace_pp::calculator::mode_any_pp;
use peace_pp::value::AttrValue;

fn text(s: &str) -> AttrValue {
    AttrValue::Text(s.to_string())
}

#[test]
fn mode_names_round_trip() {
    for (m, name, n) in [
        (Mode::Osu, "std", 0u8),
        (Mode::Taiko, "taiko", 1),
        (Mode::Catch, "ctb", 2),
        (Mode::Mania, "mania", 3),
    ] {
        assert_eq!(osu_mode_str(&m), name);
        assert_eq!(str_into_osu_mode(name), Ok(m));
        assert_eq!(int_into_osu_mode(n), Ok(m));
        assert_eq!(m.as_int(), n);
        assert_eq!(osu_mode_int_str(n), Some(name.to_string()));
        assert_eq!(osu_mode_str_int(name), Some(n));
    }
}

#[test]
fn unknown_modes_are_rejected() {
    assert_eq!(str_into_osu_mode("osu"), Err(ModeError::InvalidGameMode));
    assert_eq!(str_into_osu_mode(""), Err(ModeError::InvalidGameMode));
    assert_eq!(int_into_osu_mode(4), Err(ModeError::InvalidGameMode));
    assert_eq!(osu_mode_int_str(9), None);
    assert_eq!(osu_mode_str_int("Taiko"), None);
}

#[test]
fn dynamic_mode_values() {
    assert_eq!(py_any_into_osu_mode(&text("ctb")), Ok(Mode::Catch));
    assert_eq!(py_any_into_osu_mode(&AttrValue::Int(3)), Ok(Mode::Mania));
    assert_eq!(py_any_into_osu_mode(&AttrValue::Int(300)), Err(ModeError::InvalidGameMode));
    assert_eq!(py_any_into_osu_mode(&AttrValue::Int(-1)), Err(ModeError::InvalidGameMode));
    assert_eq!(py_any_into_osu_mode(&AttrValue::Null), Err(ModeError::InvalidGameMode));
}

#[test]
fn unknown_selector_falls_back_to_chart() {
    assert_eq!(mode_any_pp(Some(7), Mode::Taiko), Mode::Taiko);
    assert_eq!(mode_any_pp(None, Mode::Mania), Mode::Mania);
    assert_eq!(mode_any_pp(Some(2), Mode::Osu), Mode::Catch);
}

#[test]
fn fresh_calculator_has_nothing_set() {
    let c = new_calculator();
    assert_eq!(c.mode, None);
    assert_eq!(c.acc, None);
    assert_eq!(c.score, None);
    let plan = c.plan(Mode::Osu);
    assert_eq!(plan.mode, Mode::Osu);
    assert!(plan.steps.is_empty());
}

#[test]
fn load_mode_name_ignores_unknown_key() {
    let pairs = vec![
        ("mode".to_string(), text("taiko")),
        ("unknown_key".to_string(), AttrValue::Int(5)),
    ];
    let c = Calculator::new(Some(&pairs)).unwrap();
    assert_eq!(c.mode, Some(1));
    assert_eq!(c.mods, None);
    assert_eq!(c.n50, None);
    assert_eq!(c.n100, None);
    assert_eq!(c.n300, None);
    assert_eq!(c.katu, None);
    assert_eq!(c.acc, None);
    assert_eq!(c.passed_obj, None);
    assert_eq!(c.combo, None);
    assert_eq!(c.miss, None);
    assert_eq!(c.score, None);
}

#[test]
fn keyed_setters_convert_values() {
    let mut c = Calculator::new_empty();
    assert_eq!(c.set_with_str("acc", &AttrValue::Int(99)), Ok(()));
    assert_eq!(c.acc, Some(9900));
    assert_eq!(c.set_with_str("acc", &AttrValue::Hundredths(9875)), Ok(()));
    assert_eq!(c.acc, Some(9875));
    assert_eq!(c.set_with_str("mods", &AttrValue::Int(72)), Ok(()));
    assert_eq!(c.mods, Some(72));
    assert_eq!(c.set_with_str("mode", &AttrValue::Int(9)), Ok(()));
    assert_eq!(c.mode, Some(9));
    assert_eq!(c.set_with_str("passed_obj", &AttrValue::Int(12)), Ok(()));
    assert_eq!(c.passed_obj, Some(12));
    assert_eq!(c.set_with_str("mods", &AttrValue::Null), Ok(()));
    assert_eq!(c.mods, None);
}

#[test]
fn keyed_setter_errors() {
    let mut c = Calculator::new_empty();
    assert_eq!(c.set_with_str("n50", &text("three")), Err(SetError::WrongType));
    assert_eq!(c.set_with_str("n50", &AttrValue::Hundredths(150)), Err(SetError::WrongType));
    assert_eq!(c.set_with_str("miss", &AttrValue::Int(-1)), Err(SetError::OutOfRange));
    assert_eq!(c.set_with_str("mode", &AttrValue::Int(256)), Err(SetError::OutOfRange));
    assert_eq!(c.set_with_str("score", &AttrValue::Int(1 << 40)), Err(SetError::OutOfRange));
    assert_eq!(c.set_with_str("acc", &AttrValue::Int(50_000_000)), Err(SetError::OutOfRange));
    assert_eq!(c.set_with_str("mode", &text("osu")), Err(SetError::InvalidGameMode));
    assert_eq!(c.n50, None);
    assert_eq!(c.miss, None);
    assert_eq!(c.mode, None);
}

#[test]
fn load_stops_at_first_refusal() {
    let pairs = vec![
        ("combo".to_string(), AttrValue::Int(100)),
        ("n300".to_string(), text("x")),
        ("miss".to_string(), AttrValue::Int(2)),
    ];
    let mut c = Calculator::new_empty();
    assert_eq!(c.set_with_dict(&pairs), Err(SetError::WrongType));
    assert_eq!(c.combo, Some(100));
    assert_eq!(c.n300, None);
    assert_eq!(c.miss, None);
    assert!(Calculator::new(Some(&pairs)).is_err());
}

fn full_calculator() -> Calculator {
    Calculator {
        mode: Some(0),
        mods: Some(8),
        n50: Some(1),
        n100: Some(2),
        n300: Some(3),
        katu: Some(4),
        acc: Some(9731),
        passed_obj: Some(5),
        combo: Some(6),
        miss: Some(7),
        score: Some(800_000),
    }
}

#[test]
fn plan_follows_fixed_order_with_accuracy_last() {
    let plan = full_calculator().plan(Mode::Taiko);
    assert_eq!(plan.mode, Mode::Osu);
    assert_eq!(
        plan.steps,
        vec![
            Step::Mods(8),
            Step::Combo(6),
            Step::N50(1),
            Step::N100(2),
            Step::N300(3),
            Step::Katu(4),
            Step::Misses(7),
            Step::PassedObjects(5),
            Step::Score(800_000),
            Step::Accuracy(9731),
        ]
    );
}

#[test]
fn plan_skips_unset_attributes() {
    let mut c = Calculator::new_empty();
    c.n100 = Some(3);
    c.acc = Some(9500);
    assert_eq!(c.plan(Mode::Catch).steps, vec![Step::N100(3), Step::Accuracy(9500)]);
}

#[test]
fn reset_gives_fresh_plan() {
    let mut c = full_calculator();
    c.reset();
    let fresh = Calculator::default();
    for m in [Mode::Osu, Mode::Taiko, Mode::Catch, Mode::Mania] {
        let a = c.plan(m);
        let b = fresh.plan(m);
        assert_eq!(a.mode, b.mode);
        assert_eq!(a.steps, b.steps);
        assert!(a.steps.is_empty());
    }
}

#[test]
fn explicit_selector_matches_native_plan() {
    for m in [Mode::Osu, Mode::Taiko, Mode::Catch, Mode::Mania] {
        let mut explicit = full_calculator();
        explicit.mode = Some(m.as_int());
        let mut native = full_calculator();
        native.mode = None;
        let a = explicit.plan(m);
        let b = native.plan(m);
        assert_eq!(a.mode, m);
        assert_eq!(a.mode, b.mode);
        assert_eq!(a.steps, b.steps);
    }
}

#[test]
fn field_accessors() {
    let mut c = Calculator::new_empty();
    c.set_combo(Some(321));
    assert_eq!(c.get_combo(), Some(321));
    c.set_acc(Some(9999));
    assert_eq!(c.get_acc(), Some(9999));
    c.set_mode(Some(3));
    assert_eq!(c.get_mode(), Some(3));
    c.del_combo();
    assert_eq!(c.get_combo(), None);
    assert_eq!(c.get_acc(), Some(9999));
    c.set_score(Some(1_000_000));
    c.del_score();
    assert_eq!(c.get_score(), None);
    c.set_katu(Some(4));
    c.set_n50(Some(1));
    c.set_n100(Some(2));
    c.set_n300(Some(3));
    c.set_miss(Some(5));
    c.set_passed_obj(Some(6));
    c.set_mods(Some(64));
    assert_eq!(
        (c.get_katu(), c.get_n50(), c.get_n100(), c.get_n300(), c.get_miss(), c.get_passed_obj(), c.get_mods()),
        (Some(4), Some(1), Some(2), Some(3), Some(5), Some(6), Some(64))
    );
}

#[test]
fn largest_whole_accuracy() {
    let mut c = Calculator::new_empty();
    assert_eq!(c.set_with_str("acc", &AttrValue::Int(42_949_672)), Ok(()));
    assert_eq!(c.acc, Some(4_294_967_200));
    assert_eq!(c.set_with_str("acc", &AttrValue::Int(42_949_673)), Err(SetError::OutOfRange));
    assert_eq!(c.acc, Some(4_294_967_200));
    assert_eq!(c.set_with_str("score", &AttrValue::Int(u32::MAX as i64)), Ok(()));
    assert_eq!(c.score, Some(u32::MAX));
}
