use vstd::prelude::*;

use crate::calculator::Calculator;
use crate::mode::{
    mode_name, mode_number, mode_of_number, mode_of_value, osu_mode_int_str, py_any_into_osu_mode,
    Mode, ModeError,
};
use crate::value::AttrValue;

verus! {

/// What the performance engine hands back for one calculation: exactly one
/// discipline's attributes. `R` is the engine's real-number type.
#[derive(Clone, Copy, Debug)]
pub enum EngineOutput<R> {
    Osu {
        pp: R,
        pp_acc: R,
        pp_aim: R,
        pp_speed: R,
        stars: R,
        ar: R,
        od: R,
        speed_strain: R,
        aim_strain: R,
        max_combo: usize,
        n_circles: usize,
        n_spinners: usize,
    },
    Taiko { pp: R, pp_acc: R, pp_strain: R, stars: R },
    Catch {
        pp: R,
        stars: R,
        ar: R,
        max_combo: usize,
        n_fruits: usize,
        n_droplets: usize,
        n_tiny_droplets: usize,
    },
    Mania { pp: R, pp_acc: R, pp_strain: R, stars: R },
}

/// The contributions to a play's performance points.
#[derive(Clone, Copy, Debug)]
pub struct PpRaw<R> {
    pub aim: Option<R>,
    pub spd: Option<R>,
    pub str: Option<R>,
    pub acc: Option<R>,
    pub total: R,
}

/// The difficulty attributes of a play; only those of its discipline are set.
#[derive(Clone, Copy, Debug)]
pub struct RawStars<R> {
    pub stars: Option<R>,
    pub max_combo: Option<usize>,
    pub ar: Option<R>,
    pub n_fruits: Option<usize>,
    pub n_droplets: Option<usize>,
    pub n_tiny_droplets: Option<usize>,
    pub od: Option<R>,
    pub speed_strain: Option<R>,
    pub aim_strain: Option<R>,
    pub n_circles: Option<usize>,
    pub n_spinners: Option<usize>,
}

/// The outcome of one calculation.
#[derive(Clone, Copy, Debug)]
pub struct PpResult<R> {
    pub mode: u8,
    pub mods: u32,
    pub pp: R,
    pub raw: PpRaw<R>,
    pub attributes: EngineOutput<R>,
}

/// A calculation's outcome as the scripting surface shows it.
#[derive(Clone, Copy, Debug)]
pub struct CalcResult<R>(pub PpResult<R>);

/// The discipline of an engine output.
pub open spec fn output_mode<R>(o: EngineOutput<R>) -> Mode {
    match o {
        EngineOutput::Osu { .. } => Mode::Osu,
        EngineOutput::Taiko { .. } => Mode::Taiko,
        EngineOutput::Catch { .. } => Mode::Catch,
        EngineOutput::Mania { .. } => Mode::Mania,
    }
}

/// The aggregate performance points of an engine output.
pub open spec fn output_pp<R>(o: EngineOutput<R>) -> R {
    match o {
        EngineOutput::Osu { pp, .. } => pp,
        EngineOutput::Taiko { pp, .. } => pp,
        EngineOutput::Catch { pp, .. } => pp,
        EngineOutput::Mania { pp, .. } => pp,
    }
}

/// The star rating of an engine output.
pub open spec fn output_stars<R>(o: EngineOutput<R>) -> R {
    match o {
        EngineOutput::Osu { stars, .. } => stars,
        EngineOutput::Taiko { stars, .. } => stars,
        EngineOutput::Catch { stars, .. } => stars,
        EngineOutput::Mania { stars, .. } => stars,
    }
}

/// The contributions of an engine output: aim, speed and accuracy for Osu;
/// strain and accuracy for Taiko and Mania; Catch reports its total as aim.
pub open spec fn raw_pp_of<R>(o: EngineOutput<R>) -> PpRaw<R> {
    match o {
        EngineOutput::Osu { pp, pp_acc, pp_aim, pp_speed, .. } => PpRaw {
            aim: Some(pp_aim),
            spd: Some(pp_speed),
            str: None,
            acc: Some(pp_acc),
            total: pp,
        },
        EngineOutput::Taiko { pp, pp_acc, pp_strain, .. } => PpRaw {
            aim: None,
            spd: None,
            str: Some(pp_strain),
            acc: Some(pp_acc),
            total: pp,
        },
        EngineOutput::Catch { pp, .. } => PpRaw {
            aim: Some(pp),
            spd: None,
            str: None,
            acc: None,
            total: pp,
        },
        EngineOutput::Mania { pp, pp_acc, pp_strain, .. } => PpRaw {
            aim: None,
            spd: None,
            str: Some(pp_strain),
            acc: Some(pp_acc),
            total: pp,
        },
    }
}

/// Difficulty attributes with none set.
pub open spec fn no_stars<R>() -> RawStars<R> {
    RawStars {
        stars: None,
        max_combo: None,
        ar: None,
        n_fruits: None,
        n_droplets: None,
        n_tiny_droplets: None,
        od: None,
        speed_strain: None,
        aim_strain: None,
        n_circles: None,
        n_spinners: None,
    }
}

/// The difficulty attributes of an engine output, those of its discipline
/// set and all others unset.
pub open spec fn raw_stars_of<R>(o: EngineOutput<R>) -> RawStars<R> {
    match o {
        EngineOutput::Osu {
            stars,
            ar,
            od,
            speed_strain,
            aim_strain,
            max_combo,
            n_circles,
            n_spinners,
            ..
        } => RawStars {
            stars: Some(stars),
            ar: Some(ar),
            od: Some(od),
            speed_strain: Some(speed_strain),
            aim_strain: Some(aim_strain),
            max_combo: Some(max_combo),
            n_circles: Some(n_circles),
            n_spinners: Some(n_spinners),
            ..no_stars()
        },
        EngineOutput::Taiko { stars, .. } => RawStars { stars: Some(stars), ..no_stars() },
        EngineOutput::Catch { stars, ar, max_combo, n_fruits, n_droplets, n_tiny_droplets, .. } => RawStars {
            stars: Some(stars),
            max_combo: Some(max_combo),
            ar: Some(ar),
            n_fruits: Some(n_fruits),
            n_droplets: Some(n_droplets),
            n_tiny_droplets: Some(n_tiny_droplets),
            ..no_stars()
        },
        EngineOutput::Mania { stars, .. } => RawStars { stars: Some(stars), ..no_stars() },
    }
}

/// The result of a calculation with modifiers `mods` whose engine output is `o`.
pub open spec fn result_of<R>(mods: Option<u32>, o: EngineOutput<R>) -> PpResult<R> {
    PpResult {
        mode: mode_number(output_mode(o)),
        mods: match mods {
            Some(m) => m,
            None => 0,
        },
        pp: output_pp(o),
        raw: raw_pp_of(o),
        attributes: o,
    }
}

/// Which difficulty attributes a discipline sets: exactly these are `Some`.
pub open spec fn stars_shape<R>(m: Mode, s: RawStars<R>) -> bool {
    let osu = m == Mode::Osu;
    let catch = m == Mode::Catch;
    &&& s.stars is Some
    &&& (s.max_combo is Some <==> osu || catch)
    &&& (s.ar is Some <==> osu || catch)
    &&& (s.od is Some <==> osu)
    &&& (s.speed_strain is Some <==> osu)
    &&& (s.aim_strain is Some <==> osu)
    &&& (s.n_circles is Some <==> osu)
    &&& (s.n_spinners is Some <==> osu)
    &&& (s.n_fruits is Some <==> catch)
    &&& (s.n_droplets is Some <==> catch)
    &&& (s.n_tiny_droplets is Some <==> catch)
}

/// Which contributions a discipline sets: exactly these are `Some`.
pub open spec fn pp_shape<R>(m: Mode, p: PpRaw<R>) -> bool {
    &&& (p.aim is Some <==> m == Mode::Osu || m == Mode::Catch)
    &&& (p.spd is Some <==> m == Mode::Osu)
    &&& (p.str is Some <==> m == Mode::Taiko || m == Mode::Mania)
    &&& (p.acc is Some <==> m != Mode::Catch)
}

impl<R: Copy> PpRaw<R> {
    pub fn new(aim: Option<R>, spd: Option<R>, str: Option<R>, acc: Option<R>, total: R) -> (r: Self)
        ensures
            r == (PpRaw { aim, spd, str, acc, total }),
    {
        PpRaw { aim, spd, str, acc, total }
    }
}

impl<R: Copy> PpResult<R> {
    /// The final performance points.
    pub fn pp(&self) -> (r: R)
        ensures
            r == self.pp,
    {
        self.pp
    }

    /// The final star rating.
    pub fn stars(&self) -> (r: R)
        ensures
            r == output_stars(self.attributes),
    {
        match self.attributes {
            EngineOutput::Osu { stars, .. } => stars,
            EngineOutput::Taiko { stars, .. } => stars,
            EngineOutput::Catch { stars, .. } => stars,
            EngineOutput::Mania { stars, .. } => stars,
        }
    }

    /// The result of a calculation with modifiers `mods` whose engine output
    /// is `o`: its discipline and aggregate come from `o`, unset modifiers
    /// read as 0, and the contributions are those of `o`'s discipline.
    pub fn from_output(mods: Option<u32>, o: EngineOutput<R>) -> (r: Self)
        ensures
            r == result_of(mods, o),
    {
        let (mode, pp, raw) = match o {
            EngineOutput::Osu { pp, pp_acc, pp_aim, pp_speed, .. } => (
                0u8,
                pp,
                PpRaw::new(Some(pp_aim), Some(pp_speed), None, Some(pp_acc), pp),
            ),
            EngineOutput::Taiko { pp, pp_acc, pp_strain, .. } => (
                1u8,
                pp,
                PpRaw::new(None, None, Some(pp_strain), Some(pp_acc), pp),
            ),
            EngineOutput::Catch { pp, .. } => (2u8, pp, PpRaw::new(Some(pp), None, None, None, pp)),
            EngineOutput::Mania { pp, pp_acc, pp_strain, .. } => (
                3u8,
                pp,
                PpRaw::new(None, None, Some(pp_strain), Some(pp_acc), pp),
            ),
        };
        let mods = match mods {
            Some(m) => m,
            None => 0,
        };
        PpResult { mode, mods, pp, raw, attributes: o }
    }
}

impl Calculator {
    /// The result of this calculator's calculation, given what the engine
    /// returned for it.
    pub fn calc<R: Copy>(&self, o: EngineOutput<R>) -> (r: PpResult<R>)
        ensures
            r == result_of(self.mods, o),
    {
        PpResult::from_output(self.mods, o)
    }

    /// As `calc`, wrapped for the scripting surface.
    pub fn calculate_raw<R: Copy>(&self, o: EngineOutput<R>) -> (r: CalcResult<R>)
        ensures
            r.0 == result_of(self.mods, o),
    {
        CalcResult(self.calc(o))
    }
}

impl<R: Copy> CalcResult<R> {
    pub fn mode(&self) -> (r: u8)
        ensures
            r == self.0.mode,
    {
        self.0.mode
    }

    pub fn mods(&self) -> (r: u32)
        ensures
            r == self.0.mods,
    {
        self.0.mods
    }

    pub fn pp(&self) -> (r: R)
        ensures
            r == self.0.pp,
    {
        self.0.pp
    }

    pub fn stars(&self) -> (r: R)
        ensures
            r == output_stars(self.0.attributes),
    {
        self.0.stars()
    }

    /// The short name of the result's discipline.
    pub fn mode_str(&self) -> (r: Option<String>)
        ensures
            match mode_of_number(self.0.mode) {
                Some(m) => r matches Some(s) && s@ == mode_name(m),
                None => r is None,
            },
    {
        osu_mode_int_str(self.0.mode)
    }

    /// The contributions to the performance points.
    pub fn raw_pp(&self) -> (r: PpRaw<R>)
        ensures
            r == self.0.raw,
    {
        self.0.raw
    }

    /// The difficulty attributes of the result's discipline.
    pub fn raw_stars(&self) -> (r: RawStars<R>)
        ensures
            r == raw_stars_of(self.0.attributes),
    {
        match self.0.attributes {
            EngineOutput::Catch { stars, ar, max_combo, n_fruits, n_droplets, n_tiny_droplets, .. } => RawStars {
                stars: Some(stars),
                max_combo: Some(max_combo),
                ar: Some(ar),
                n_fruits: Some(n_fruits),
                n_droplets: Some(n_droplets),
                n_tiny_droplets: Some(n_tiny_droplets),
                od: None,
                speed_strain: None,
                aim_strain: None,
                n_circles: None,
                n_spinners: None,
            },
            EngineOutput::Mania { stars, .. } => RawStars {
                stars: Some(stars),
                max_combo: None,
                ar: None,
                n_fruits: None,
                n_droplets: None,
                n_tiny_droplets: None,
                od: None,
                speed_strain: None,
                aim_strain: None,
                n_circles: None,
                n_spinners: None,
            },
            EngineOutput::Osu {
                stars,
                ar,
                od,
                speed_strain,
                aim_strain,
                max_combo,
                n_circles,
                n_spinners,
                ..
            } => RawStars {
                stars: Some(stars),
                max_combo: Some(max_combo),
                ar: Some(ar),
                n_fruits: None,
                n_droplets: None,
                n_tiny_droplets: None,
                od: Some(od),
                speed_strain: Some(speed_strain),
                aim_strain: Some(aim_strain),
                n_circles: Some(n_circles),
                n_spinners: Some(n_spinners),
            },
            EngineOutput::Taiko { stars, .. } => RawStars {
                stars: Some(stars),
                max_combo: None,
                ar: None,
                n_fruits: None,
                n_droplets: None,
                n_tiny_droplets: None,
                od: None,
                speed_strain: None,
                aim_strain: None,
                n_circles: None,
                n_spinners: None,
            },
        }
    }
}

/// The names of the difficulty attributes that a discipline sets, in the
/// order they are listed.
pub open spec fn stars_attr_names(m: Mode) -> Seq<Seq<char>> {
    match m {
        Mode::Osu => seq![seq!['s', 't', 'a', 'r', 's'], seq!['a', 'r'], seq!['o', 'd'], seq!['s', 'p', 'e', 'e', 'd', '_', 's', 't', 'r', 'a', 'i', 'n'], seq!['a', 'i', 'm', '_', 's', 't', 'r', 'a', 'i', 'n'], seq!['m', 'a', 'x', '_', 'c', 'o', 'm', 'b', 'o'], seq!['n', '_', 'c', 'i', 'r', 'c', 'l', 'e', 's'], seq!['n', '_', 's', 'p', 'i', 'n', 'n', 'e', 'r', 's']],
        Mode::Taiko => seq![seq!['s', 't', 'a', 'r', 's']],
        Mode::Catch => seq![seq!['s', 't', 'a', 'r', 's'], seq!['m', 'a', 'x', '_', 'c', 'o', 'm', 'b', 'o'], seq!['a', 'r'], seq!['n', '_', 'f', 'r', 'u', 'i', 't', 's'], seq!['n', '_', 'd', 'r', 'o', 'p', 'l', 'e', 't', 's'], seq!['n', '_', 't', 'i', 'n', 'y', '_', 'd', 'r', 'o', 'p', 'l', 'e', 't', 's']],
        Mode::Mania => seq![seq!['s', 't', 'a', 'r', 's']],
    }
}

/// The names of the difficulty attributes that discipline `m` sets.
pub fn mode_attr_names(m: Mode) -> (r: Vec<&'static str>)
    ensures
        r@.len() == stars_attr_names(m).len(),
        forall|i: int| 0 <= i < r@.len() ==> (#[trigger] r@[i])@ == stars_attr_names(m)[i],
{
    proof {
        reveal_strlit("aim_strain");
        assert("aim_strain"@ =~= seq!['a', 'i', 'm', '_', 's', 't', 'r', 'a', 'i', 'n']);
        reveal_strlit("ar");
        assert("ar"@ =~= seq!['a', 'r']);
        reveal_strlit("max_combo");
        assert("max_combo"@ =~= seq!['m', 'a', 'x', '_', 'c', 'o', 'm', 'b', 'o']);
        reveal_strlit("n_circles");
        assert("n_circles"@ =~= seq!['n', '_', 'c', 'i', 'r', 'c', 'l', 'e', 's']);
        reveal_strlit("n_droplets");
        assert("n_droplets"@ =~= seq!['n', '_', 'd', 'r', 'o', 'p', 'l', 'e', 't', 's']);
        reveal_strlit("n_fruits");
        assert("n_fruits"@ =~= seq!['n', '_', 'f', 'r', 'u', 'i', 't', 's']);
        reveal_strlit("n_spinners");
        assert("n_spinners"@ =~= seq!['n', '_', 's', 'p', 'i', 'n', 'n', 'e', 'r', 's']);
        reveal_strlit("n_tiny_droplets");
        assert("n_tiny_droplets"@ =~= seq!['n', '_', 't', 'i', 'n', 'y', '_', 'd', 'r', 'o', 'p', 'l', 'e', 't', 's']);
        reveal_strlit("od");
        assert("od"@ =~= seq!['o', 'd']);
        reveal_strlit("speed_strain");
        assert("speed_strain"@ =~= seq!['s', 'p', 'e', 'e', 'd', '_', 's', 't', 'r', 'a', 'i', 'n']);
        reveal_strlit("stars");
        assert("stars"@ =~= seq!['s', 't', 'a', 'r', 's']);
    }
    let r = match m {
        Mode::Osu => vec!["stars", "ar", "od", "speed_strain", "aim_strain", "max_combo", "n_circles", "n_spinners"],
        Mode::Taiko => vec!["stars"],
        Mode::Catch => vec!["stars", "max_combo", "ar", "n_fruits", "n_droplets", "n_tiny_droplets"],
        Mode::Mania => vec!["stars"],
    };
    proof {
        assert(r@.len() == stars_attr_names(m).len());
        assert forall|i: int| 0 <= i < r@.len() implies (#[trigger] r@[i])@ == stars_attr_names(m)[i] by {}
    }
    r
}

impl<R: Copy> RawStars<R> {
    /// The names of the difficulty attributes set for the discipline that `v`
    /// selects, by name or by number.
    pub fn get_mode_attrs(&self, v: &AttrValue) -> (r: Result<Vec<&'static str>, ModeError>)
        ensures
            match mode_of_value(*v) {
                Some(m) => r matches Ok(names) && names@.len() == stars_attr_names(m).len() && forall|i: int|
                    0 <= i < names@.len() ==> (#[trigger] names@[i])@ == stars_attr_names(m)[i],
                None => r == Err::<Vec<&'static str>, ModeError>(ModeError::InvalidGameMode),
            },
    {
        match py_any_into_osu_mode(v) {
            Ok(m) => Ok(mode_attr_names(m)),
            Err(e) => Err(e),
        }
    }
}

} // verus!
