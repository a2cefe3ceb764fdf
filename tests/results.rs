use peace_pp::calculator::Calculator;
use peace_pp::result::{CalcResult, EngineOutput, PpResult, PpRaw};
use peace_pp::sweep::{acc_list_or_default, acc_list_plans, calculate_acc_list, default_acc_list};
use peace_pp::calculator::Step;
use peace_pp::mode::{Mode, ModeError};
use peace_pp::value::AttrValue;
use peace_pp::text::decimal_string;

fn osu_output() -> EngineOutput<f64> {
    EngineOutput::Osu {
        pp: 120.5,
        pp_acc: 30.0,
        pp_aim: 50.0,
        pp_speed: 40.0,
        stars: 5.25,
        ar: 9.0,
        od: 8.0,
        speed_strain: 2.5,
        aim_strain: 2.75,
        max_combo: 512,
        n_circles: 300,
        n_spinners: 2,
    }
}

#[test]
fn standard_result_decomposition() {
    let mut c = Calculator::new_empty();
    c.mods = Some(24);
    let r: PpResult<f64> = c.calc(osu_output());
    assert_eq!(r.mode, 0);
    assert_eq!(r.mods, 24);
    assert_eq!(r.pp(), 120.5);
    assert_eq!(r.stars(), 5.25);
    assert_eq!(r.raw.aim, Some(50.0));
    assert_eq!(r.raw.spd, Some(40.0));
    assert_eq!(r.raw.str, None);
    assert_eq!(r.raw.acc, Some(30.0));
    assert_eq!(r.raw.total, 120.5);
    let s = CalcResult(r).raw_stars();
    assert_eq!(s.stars, Some(5.25));
    assert_eq!(s.ar, Some(9.0));
    assert_eq!(s.od, Some(8.0));
    assert_eq!(s.speed_strain, Some(2.5));
    assert_eq!(s.aim_strain, Some(2.75));
    assert_eq!(s.max_combo, Some(512));
    assert_eq!(s.n_circles, Some(300));
    assert_eq!(s.n_spinners, Some(2));
    assert_eq!(s.n_fruits, None);
    assert_eq!(s.n_droplets, None);
    assert_eq!(s.n_tiny_droplets, None);
}

#[test]
fn catch_result_decomposition() {
    let out = EngineOutput::Catch {
        pp: 80.0,
        stars: 4.0,
        ar: 8.5,
        max_combo: 700,
        n_fruits: 500,
        n_droplets: 200,
        n_tiny_droplets: 900,
    };
    let r = Calculator::new_empty().calculate_raw(out);
    assert_eq!(r.mode(), 2);
    assert_eq!(r.mods(), 0);
    assert_eq!(r.pp(), 80.0);
    assert_eq!(r.stars(), 4.0);
    assert_eq!(r.mode_str(), Some("ctb".to_string()));
    let p = r.raw_pp();
    assert_eq!(p.aim, Some(80.0));
    assert_eq!(p.spd, None);
    assert_eq!(p.str, None);
    assert_eq!(p.acc, None);
    let s = r.raw_stars();
    assert_eq!(s.n_fruits, Some(500));
    assert_eq!(s.n_droplets, Some(200));
    assert_eq!(s.n_tiny_droplets, Some(900));
    assert_eq!(s.max_combo, Some(700));
    assert_eq!(s.ar, Some(8.5));
    assert_eq!(s.od, None);
    assert_eq!(s.aim_strain, None);
    assert_eq!(s.n_circles, None);
}

#[test]
fn taiko_and_mania_decomposition() {
    for (out, mode, name) in [
        (EngineOutput::Taiko { pp: 10.0, pp_acc: 3.0, pp_strain: 7.0, stars: 2.0 }, 1u8, "taiko"),
        (EngineOutput::Mania { pp: 11.0, pp_acc: 4.0, pp_strain: 6.5, stars: 3.0 }, 3u8, "mania"),
    ] {
        let r = Calculator::new_empty().calculate_raw(out);
        assert_eq!(r.mode(), mode);
        assert_eq!(r.mode_str(), Some(name.to_string()));
        let p = r.raw_pp();
        assert_eq!(p.aim, None);
        assert_eq!(p.spd, None);
        assert!(p.str.is_some());
        assert!(p.acc.is_some());
        let s = r.raw_stars();
        assert!(s.stars.is_some());
        assert_eq!(s.max_combo, None);
        assert_eq!(s.ar, None);
        assert_eq!(s.n_fruits, None);
        assert_eq!(s.n_circles, None);
    }
}

#[test]
fn pp_raw_new_keeps_fields() {
    let p = PpRaw::new(Some(1.0), None, Some(2.0), None, 3.0);
    assert_eq!(p.aim, Some(1.0));
    assert_eq!(p.spd, None);
    assert_eq!(p.str, Some(2.0));
    assert_eq!(p.acc, None);
    assert_eq!(p.total, 3.0);
}

#[test]
fn decimal_forms() {
    assert_eq!(decimal_string(0), "0");
    assert_eq!(decimal_string(7), "7");
    assert_eq!(decimal_string(10), "10");
    assert_eq!(decimal_string(95), "95");
    assert_eq!(decimal_string(4294967295), "4294967295");
}

#[test]
fn default_sweep_keys() {
    let accs = acc_list_or_default(None);
    assert_eq!(accs, default_acc_list());
    assert_eq!(accs, vec![10000, 9900, 9800, 9500]);
    let table = calculate_acc_list(&accs, &vec![300.0, 280.0, 260.0, 200.0]);
    assert_eq!(
        table,
        vec![
            ("100".to_string(), 300.0),
            ("99".to_string(), 280.0),
            ("98".to_string(), 260.0),
            ("95".to_string(), 200.0),
        ]
    );
}

#[test]
fn sweep_collision_keeps_last() {
    let accs = vec![9940, 9800, 9960];
    let table = calculate_acc_list(&accs, &vec![1.0, 2.0, 3.0]);
    assert_eq!(table, vec![("99".to_string(), 3.0), ("98".to_string(), 2.0)]);
}

#[test]
fn sweep_plans_apply_mods_then_accuracy() {
    let accs = acc_list_or_default(Some(vec![9950, 9000]));
    let plans = acc_list_plans(None, Some(16), Mode::Taiko, &accs);
    assert_eq!(plans.len(), 2);
    assert_eq!(plans[0].mode, Mode::Taiko);
    assert_eq!(plans[0].steps, vec![Step::Mods(16), Step::Accuracy(9950)]);
    assert_eq!(plans[1].steps, vec![Step::Mods(16), Step::Accuracy(9000)]);
    let plans = acc_list_plans(Some(3), None, Mode::Osu, &accs);
    assert_eq!(plans[1].mode, Mode::Mania);
    assert_eq!(plans[1].steps, vec![Step::Accuracy(9000)]);
}

#[test]
fn attribute_names_per_discipline() {
    let s = Calculator::new_empty().calculate_raw(osu_output()).raw_stars();
    assert_eq!(
        s.get_mode_attrs(&AttrValue::Text("std".to_string())).unwrap(),
        vec!["stars", "ar", "od", "speed_strain", "aim_strain", "max_combo", "n_circles", "n_spinners"]
    );
    assert_eq!(s.get_mode_attrs(&AttrValue::Int(1)).unwrap(), vec!["stars"]);
    assert_eq!(
        s.get_mode_attrs(&AttrValue::Int(2)).unwrap(),
        vec!["stars", "max_combo", "ar", "n_fruits", "n_droplets", "n_tiny_droplets"]
    );
    assert_eq!(s.get_mode_attrs(&AttrValue::Text("mania".to_string())).unwrap(), vec!["stars"]);
    assert_eq!(s.get_mode_attrs(&AttrValue::Int(4)), Err(ModeError::InvalidGameMode));
}

#[test]
fn empty_sweep_list() {
    let accs = acc_list_or_default(Some(Vec::new()));
    assert!(accs.is_empty());
    assert!(acc_list_plans(None, Some(8), Mode::Osu, &accs).is_empty());
    let table: Vec<(String, f64)> = calculate_acc_list(&accs, &Vec::new());
    assert!(table.is_empty());
}
