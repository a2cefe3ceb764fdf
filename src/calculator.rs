use vstd::prelude::*;
use vstd::string::*;

use crate::mode::{mode_number, mode_of_name, mode_of_number, str_into_osu_mode, Mode};
use crate::text::same_text;
use crate::value::AttrValue;

verus! {

/// A partially or fully specified play: every attribute is optional, and an
/// unset attribute leaves the engine's default for the discipline in place.
///
/// Accuracy is held in hundredths of a percent (`99.5%` is `9950`).
#[derive(Clone, Copy, Debug)]
pub struct Calculator {
    pub mode: Option<u8>,
    pub mods: Option<u32>,
    pub n50: Option<usize>,
    pub n100: Option<usize>,
    pub n300: Option<usize>,
    pub katu: Option<usize>,
    pub acc: Option<u32>,
    pub passed_obj: Option<usize>,
    pub combo: Option<usize>,
    pub miss: Option<usize>,
    pub score: Option<u32>,
}

/// Why a keyed assignment was refused.
#[derive(Clone, Copy, Debug, PartialEq, Eq, Structural)]
pub enum SetError {
    /// The value has a kind that the attribute cannot hold.
    WrongType,
    /// The number does not fit the attribute's range.
    OutOfRange,
    /// The text does not name a discipline.
    InvalidGameMode,
}

/// The attributes, by the key under which they are set.
#[derive(Clone, Copy, Debug, PartialEq, Eq, Structural)]
pub enum Field {
    Mode,
    Mods,
    N50,
    N100,
    N300,
    Katu,
    Acc,
    PassedObj,
    Combo,
    Miss,
    Score,
}

/// One engine setter call, with its argument.
#[derive(Clone, Copy, Debug, PartialEq, Eq, Structural)]
pub enum Step {
    Mods(u32),
    Combo(usize),
    N50(usize),
    N100(usize),
    N300(usize),
    Katu(usize),
    Misses(usize),
    PassedObjects(usize),
    Score(u32),
    Accuracy(u32),
}

/// What the engine is to be given: the discipline to commit to, and the
/// setter calls to make, in order.
#[derive(Clone, Debug)]
pub struct CalcPlan {
    pub mode: Mode,
    pub steps: Vec<Step>,
}

/// The calculator with no attribute set.
pub open spec fn empty_calculator() -> Calculator {
    Calculator {
        mode: None,
        mods: None,
        n50: None,
        n100: None,
        n300: None,
        katu: None,
        acc: None,
        passed_obj: None,
        combo: None,
        miss: None,
        score: None,
    }
}

/// The key of an attribute.
pub open spec fn field_name(f: Field) -> Seq<char> {
    match f {
        Field::Mode => seq!['m', 'o', 'd', 'e'],
        Field::Mods => seq!['m', 'o', 'd', 's'],
        Field::N50 => seq!['n', '5', '0'],
        Field::N100 => seq!['n', '1', '0', '0'],
        Field::N300 => seq!['n', '3', '0', '0'],
        Field::Katu => seq!['k', 'a', 't', 'u'],
        Field::Acc => seq!['a', 'c', 'c'],
        Field::PassedObj => seq!['p', 'a', 's', 's', 'e', 'd', '_', 'o', 'b', 'j'],
        Field::Combo => seq!['c', 'o', 'm', 'b', 'o'],
        Field::Miss => seq!['m', 'i', 's', 's'],
        Field::Score => seq!['s', 'c', 'o', 'r', 'e'],
    }
}

/// The attribute that a key names, if any.
pub open spec fn field_of_name(s: Seq<char>) -> Option<Field> {
    if s == field_name(Field::Mode) {
        Some(Field::Mode)
    } else if s == field_name(Field::Mods) {
        Some(Field::Mods)
    } else if s == field_name(Field::N50) {
        Some(Field::N50)
    } else if s == field_name(Field::N100) {
        Some(Field::N100)
    } else if s == field_name(Field::N300) {
        Some(Field::N300)
    } else if s == field_name(Field::Katu) {
        Some(Field::Katu)
    } else if s == field_name(Field::Acc) {
        Some(Field::Acc)
    } else if s == field_name(Field::PassedObj) {
        Some(Field::PassedObj)
    } else if s == field_name(Field::Combo) {
        Some(Field::Combo)
    } else if s == field_name(Field::Miss) {
        Some(Field::Miss)
    } else if s == field_name(Field::Score) {
        Some(Field::Score)
    } else {
        None
    }
}

/// A value read as an optional count.
pub open spec fn count_of_value(v: AttrValue) -> Result<Option<usize>, SetError> {
    match v {
        AttrValue::Null => Ok(None),
        AttrValue::Int(n) => if 0 <= n <= usize::MAX {
            Ok(Some(n as usize))
        } else {
            Err(SetError::OutOfRange)
        },
        _ => Err(SetError::WrongType),
    }
}

/// A value read as an optional 32-bit number.
pub open spec fn word_of_value(v: AttrValue) -> Result<Option<u32>, SetError> {
    match v {
        AttrValue::Null => Ok(None),
        AttrValue::Int(n) => if 0 <= n <= u32::MAX {
            Ok(Some(n as u32))
        } else {
            Err(SetError::OutOfRange)
        },
        _ => Err(SetError::WrongType),
    }
}

/// A value read as an optional discipline selector: a number that fits in a
/// byte (kept as it is, known or not), or the name of a discipline.
pub open spec fn selector_of_value(v: AttrValue) -> Result<Option<u8>, SetError> {
    match v {
        AttrValue::Null => Ok(None),
        AttrValue::Int(n) => if 0 <= n <= 255 {
            Ok(Some(n as u8))
        } else {
            Err(SetError::OutOfRange)
        },
        AttrValue::Text(s) => match mode_of_name(s@) {
            Some(m) => Ok(Some(mode_number(m))),
            None => Err(SetError::InvalidGameMode),
        },
        _ => Err(SetError::WrongType),
    }
}

/// A value read as an optional accuracy in hundredths of a percent: a whole
/// percentage is scaled by 100.
pub open spec fn accuracy_of_value(v: AttrValue) -> Result<Option<u32>, SetError> {
    match v {
        AttrValue::Null => Ok(None),
        AttrValue::Int(n) => if 0 <= n && n * 100 <= u32::MAX {
            Ok(Some((n * 100) as u32))
        } else {
            Err(SetError::OutOfRange)
        },
        AttrValue::Hundredths(h) => Ok(Some(h)),
        _ => Err(SetError::WrongType),
    }
}

/// The calculator after assigning `v` to the attribute keyed `key`; a key
/// that names no attribute changes nothing.
pub open spec fn after_set(c: Calculator, key: Seq<char>, v: AttrValue) -> Result<Calculator, SetError> {
    match field_of_name(key) {
        None => Ok(c),
        Some(f) => match f {
            Field::Mode => match selector_of_value(v) {
                Ok(x) => Ok(Calculator { mode: x, ..c }),
                Err(e) => Err(e),
            },
            Field::Mods => match word_of_value(v) {
                Ok(x) => Ok(Calculator { mods: x, ..c }),
                Err(e) => Err(e),
            },
            Field::N50 => match count_of_value(v) {
                Ok(x) => Ok(Calculator { n50: x, ..c }),
                Err(e) => Err(e),
            },
            Field::N100 => match count_of_value(v) {
                Ok(x) => Ok(Calculator { n100: x, ..c }),
                Err(e) => Err(e),
            },
            Field::N300 => match count_of_value(v) {
                Ok(x) => Ok(Calculator { n300: x, ..c }),
                Err(e) => Err(e),
            },
            Field::Katu => match count_of_value(v) {
                Ok(x) => Ok(Calculator { katu: x, ..c }),
                Err(e) => Err(e),
            },
            Field::Acc => match accuracy_of_value(v) {
                Ok(x) => Ok(Calculator { acc: x, ..c }),
                Err(e) => Err(e),
            },
            Field::PassedObj => match count_of_value(v) {
                Ok(x) => Ok(Calculator { passed_obj: x, ..c }),
                Err(e) => Err(e),
            },
            Field::Combo => match count_of_value(v) {
                Ok(x) => Ok(Calculator { combo: x, ..c }),
                Err(e) => Err(e),
            },
            Field::Miss => match count_of_value(v) {
                Ok(x) => Ok(Calculator { miss: x, ..c }),
                Err(e) => Err(e),
            },
            Field::Score => match word_of_value(v) {
                Ok(x) => Ok(Calculator { score: x, ..c }),
                Err(e) => Err(e),
            },
        },
    }
}

/// The calculator after assigning each pair in turn, and the outcome: the
/// first refused pair stops the load, leaving what was assigned before it.
pub open spec fn after_load(c: Calculator, pairs: Seq<(String, AttrValue)>) -> (Calculator, Result<(), SetError>)
    decreases pairs.len(),
{
    if pairs.len() == 0 {
        (c, Ok(()))
    } else {
        match after_set(c, pairs[0].0@, pairs[0].1) {
            Ok(c2) => after_load(c2, pairs.drop_first()),
            Err(e) => (c, Err(e)),
        }
    }
}

/// The discipline a calculation commits to: the selector when it names one
/// of the four, the chart's own otherwise.
pub open spec fn resolve_mode(selector: Option<u8>, chart_mode: Mode) -> Mode {
    match selector {
        Some(n) => match mode_of_number(n) {
            Some(m) => m,
            None => chart_mode,
        },
        None => chart_mode,
    }
}

/// `s`, followed by the step when there is one.
pub open spec fn with_step(s: Seq<Step>, o: Option<Step>) -> Seq<Step> {
    match o {
        Some(x) => s.push(x),
        None => s,
    }
}

/// The setter calls for a calculator's attributes: one for each attribute
/// that is set, in the order mods, combo, n50, n100, n300, katu, misses,
/// passed objects, score, accuracy.
pub open spec fn plan_steps(c: Calculator) -> Seq<Step> {
    let s = Seq::empty();
    let s = with_step(s, match c.mods { Some(x) => Some(Step::Mods(x)), None => None });
    let s = with_step(s, match c.combo { Some(x) => Some(Step::Combo(x)), None => None });
    let s = with_step(s, match c.n50 { Some(x) => Some(Step::N50(x)), None => None });
    let s = with_step(s, match c.n100 { Some(x) => Some(Step::N100(x)), None => None });
    let s = with_step(s, match c.n300 { Some(x) => Some(Step::N300(x)), None => None });
    let s = with_step(s, match c.katu { Some(x) => Some(Step::Katu(x)), None => None });
    let s = with_step(s, match c.miss { Some(x) => Some(Step::Misses(x)), None => None });
    let s = with_step(s, match c.passed_obj { Some(x) => Some(Step::PassedObjects(x)), None => None });
    let s = with_step(s, match c.score { Some(x) => Some(Step::Score(x)), None => None });
    let s = with_step(s, match c.acc { Some(x) => Some(Step::Accuracy(x)), None => None });
    s
}

/// The discipline that a selector resolves to against a chart of
/// discipline `chart_mode`.
pub fn mode_any_pp(mode: Option<u8>, chart_mode: Mode) -> (r: Mode)
    ensures
        r == resolve_mode(mode, chart_mode),
{
    match mode {
        Some(n) => match n {
            0 => Mode::Osu,
            1 => Mode::Taiko,
            2 => Mode::Catch,
            3 => Mode::Mania,
            _ => chart_mode,
        },
        None => chart_mode,
    }
}

/// A calculator with no attribute set.
pub fn new_calculator() -> (r: Calculator)
    ensures
        r == empty_calculator(),
{
    Calculator::new_empty()
}

/// The attribute that a key names, if any.
fn field_from_key(attr: &str) -> (r: Option<Field>)
    ensures
        r == field_of_name(attr@),
{
    proof {
        reveal_strlit("mode");
        assert("mode"@ =~= field_name(Field::Mode));
        reveal_strlit("mods");
        assert("mods"@ =~= field_name(Field::Mods));
        reveal_strlit("n50");
        assert("n50"@ =~= field_name(Field::N50));
        reveal_strlit("n100");
        assert("n100"@ =~= field_name(Field::N100));
        reveal_strlit("n300");
        assert("n300"@ =~= field_name(Field::N300));
        reveal_strlit("katu");
        assert("katu"@ =~= field_name(Field::Katu));
        reveal_strlit("acc");
        assert("acc"@ =~= field_name(Field::Acc));
        reveal_strlit("passed_obj");
        assert("passed_obj"@ =~= field_name(Field::PassedObj));
        reveal_strlit("combo");
        assert("combo"@ =~= field_name(Field::Combo));
        reveal_strlit("miss");
        assert("miss"@ =~= field_name(Field::Miss));
        reveal_strlit("score");
        assert("score"@ =~= field_name(Field::Score));
    }
    if same_text(attr, "mode") {
        Some(Field::Mode)
    } else if same_text(attr, "mods") {
        Some(Field::Mods)
    } else if same_text(attr, "n50") {
        Some(Field::N50)
    } else if same_text(attr, "n100") {
        Some(Field::N100)
    } else if same_text(attr, "n300") {
        Some(Field::N300)
    } else if same_text(attr, "katu") {
        Some(Field::Katu)
    } else if same_text(attr, "acc") {
        Some(Field::Acc)
    } else if same_text(attr, "passed_obj") {
        Some(Field::PassedObj)
    } else if same_text(attr, "combo") {
        Some(Field::Combo)
    } else if same_text(attr, "miss") {
        Some(Field::Miss)
    } else if same_text(attr, "score") {
        Some(Field::Score)
    } else {
        None
    }
}

fn count_from(v: &AttrValue) -> (r: Result<Option<usize>, SetError>)
    ensures
        r == count_of_value(*v),
{
    match v {
        AttrValue::Null => Ok(None),
        AttrValue::Int(n) => {
            if 0 <= *n && (*n as u64) <= (usize::MAX as u64) {
                Ok(Some(*n as usize))
            } else {
                Err(SetError::OutOfRange)
            }
        },
        _ => Err(SetError::WrongType),
    }
}

fn word_from(v: &AttrValue) -> (r: Result<Option<u32>, SetError>)
    ensures
        r == word_of_value(*v),
{
    match v {
        AttrValue::Null => Ok(None),
        AttrValue::Int(n) => {
            if 0 <= *n && *n <= (u32::MAX as i64) {
                Ok(Some(*n as u32))
            } else {
                Err(SetError::OutOfRange)
            }
        },
        _ => Err(SetError::WrongType),
    }
}

fn selector_from(v: &AttrValue) -> (r: Result<Option<u8>, SetError>)
    ensures
        r == selector_of_value(*v),
{
    match v {
        AttrValue::Null => Ok(None),
        AttrValue::Int(n) => {
            if 0 <= *n && *n <= 255 {
                Ok(Some(*n as u8))
            } else {
                Err(SetError::OutOfRange)
            }
        },
        AttrValue::Text(s) => match str_into_osu_mode(s.as_str()) {
            Ok(m) => Ok(Some(m.as_int())),
            Err(_) => Err(SetError::InvalidGameMode),
        },
        _ => Err(SetError::WrongType),
    }
}

fn accuracy_from(v: &AttrValue) -> (r: Result<Option<u32>, SetError>)
    ensures
        r == accuracy_of_value(*v),
{
    match v {
        AttrValue::Null => Ok(None),
        AttrValue::Int(n) => {
            if 0 <= *n && *n <= 42949672 {
                Ok(Some((*n * 100) as u32))
            } else {
                Err(SetError::OutOfRange)
            }
        },
        AttrValue::Hundredths(h) => Ok(Some(*h)),
        _ => Err(SetError::WrongType),
    }
}

fn push_step(steps: &mut Vec<Step>, o: Option<Step>)
    ensures
        final(steps)@ == with_step(old(steps)@, o),
{
    if let Some(x) = o {
        steps.push(x);
    }
}

impl Calculator {
    /// A calculator with no attribute set.
    pub fn new_empty() -> (r: Calculator)
        ensures
            r == empty_calculator(),
    {
        Calculator {
            mode: None,
            mods: None,
            n50: None,
            n100: None,
            n300: None,
            katu: None,
            acc: None,
            passed_obj: None,
            combo: None,
            miss: None,
            score: None,
        }
    }

    /// A calculator loaded from key-value pairs, when given.
    pub fn new(data: Option<&Vec<(String, AttrValue)>>) -> (r: Result<Calculator, SetError>)
        ensures
            match data {
                None => r == Ok::<Calculator, SetError>(empty_calculator()),
                Some(d) => match after_load(empty_calculator(), d@).1 {
                    Ok(_) => r == Ok::<Calculator, SetError>(after_load(empty_calculator(), d@).0),
                    Err(e) => r == Err::<Calculator, SetError>(e),
                },
            },
    {
        let mut c = Calculator::new_empty();
        match data {
            None => Ok(c),
            Some(d) => match c.set_with_dict(d) {
                Ok(()) => Ok(c),
                Err(e) => Err(e),
            },
        }
    }

    /// Clears every attribute.
    pub fn reset(&mut self)
        ensures
            *final(self) == empty_calculator(),
    {
        *self = Calculator::new_empty();
    }

    /// Assigns `value` to the attribute keyed `attr`; `Null` clears it and an
    /// unknown key is ignored. A refused value leaves the calculator as it was.
    pub fn set_with_str(&mut self, attr: &str, value: &AttrValue) -> (r: Result<(), SetError>)
        ensures
            match after_set(*old(self), attr@, *value) {
                Ok(c) => r is Ok && *final(self) == c,
                Err(e) => r == Err::<(), SetError>(e) && *final(self) == *old(self),
            },
    {
        match field_from_key(attr) {
            None => Ok(()),
            Some(Field::Mode) => match selector_from(value) {
                Ok(x) => {
                    self.mode = x;
                    Ok(())
                },
                Err(e) => Err(e),
            },
            Some(Field::Mods) => match word_from(value) {
                Ok(x) => {
                    self.mods = x;
                    Ok(())
                },
                Err(e) => Err(e),
            },
            Some(Field::N50) => match count_from(value) {
                Ok(x) => {
                    self.n50 = x;
                    Ok(())
                },
                Err(e) => Err(e),
            },
            Some(Field::N100) => match count_from(value) {
                Ok(x) => {
                    self.n100 = x;
                    Ok(())
                },
                Err(e) => Err(e),
            },
            Some(Field::N300) => match count_from(value) {
                Ok(x) => {
                    self.n300 = x;
                    Ok(())
                },
                Err(e) => Err(e),
            },
            Some(Field::Katu) => match count_from(value) {
                Ok(x) => {
                    self.katu = x;
                    Ok(())
                },
                Err(e) => Err(e),
            },
            Some(Field::Acc) => match accuracy_from(value) {
                Ok(x) => {
                    self.acc = x;
                    Ok(())
                },
                Err(e) => Err(e),
            },
            Some(Field::PassedObj) => match count_from(value) {
                Ok(x) => {
                    self.passed_obj = x;
                    Ok(())
                },
                Err(e) => Err(e),
            },
            Some(Field::Combo) => match count_from(value) {
                Ok(x) => {
                    self.combo = x;
                    Ok(())
                },
                Err(e) => Err(e),
            },
            Some(Field::Miss) => match count_from(value) {
                Ok(x) => {
                    self.miss = x;
                    Ok(())
                },
                Err(e) => Err(e),
            },
            Some(Field::Score) => match word_from(value) {
                Ok(x) => {
                    self.score = x;
                    Ok(())
                },
                Err(e) => Err(e),
            },
        }
    }

    /// Assigns each pair in turn, stopping at the first refused one.
    pub fn set_with_dict(&mut self, data: &Vec<(String, AttrValue)>) -> (r: Result<(), SetError>)
        ensures
            (*final(self), r) == after_load(*old(self), data@),
    {
        let mut i: usize = 0;
        proof {
            assert(data@.skip(0) =~= data@);
        }
        while i < data.len()
            invariant
                i <= data@.len(),
                after_load(*old(self), data@) == after_load(*self, data@.skip(i as int)),
            decreases data@.len() - i,
        {
            proof {
                assert(data@.skip(i as int).drop_first() =~= data@.skip(i + 1));
                assert(data@.skip(i as int)[0] == data@[i as int]);
            }
            match self.set_with_str(data[i].0.as_str(), &data[i].1) {
                Ok(()) => {},
                Err(e) => {
                    return Err(e);
                },
            }
            i = i + 1;
        }
        proof {
            assert(data@.skip(i as int).len() == 0);
        }
        Ok(())
    }

    /// The engine input for this calculator against a chart of discipline
    /// `chart_mode`.
    pub fn plan(&self, chart_mode: Mode) -> (r: CalcPlan)
        ensures
            r.mode == resolve_mode(self.mode, chart_mode),
            r.steps@ == plan_steps(*self),
    {
        let mut steps: Vec<Step> = Vec::new();
        push_step(&mut steps, match self.mods { Some(x) => Some(Step::Mods(x)), None => None });
        push_step(&mut steps, match self.combo { Some(x) => Some(Step::Combo(x)), None => None });
        push_step(&mut steps, match self.n50 { Some(x) => Some(Step::N50(x)), None => None });
        push_step(&mut steps, match self.n100 { Some(x) => Some(Step::N100(x)), None => None });
        push_step(&mut steps, match self.n300 { Some(x) => Some(Step::N300(x)), None => None });
        push_step(&mut steps, match self.katu { Some(x) => Some(Step::Katu(x)), None => None });
        push_step(&mut steps, match self.miss { Some(x) => Some(Step::Misses(x)), None => None });
        push_step(&mut steps, match self.passed_obj { Some(x) => Some(Step::PassedObjects(x)), None => None });
        push_step(&mut steps, match self.score { Some(x) => Some(Step::Score(x)), None => None });
        push_step(&mut steps, match self.acc { Some(x) => Some(Step::Accuracy(x)), None => None });
        CalcPlan { mode: mode_any_pp(self.mode, chart_mode), steps }
    }
}

/// Attribute-by-attribute access, for hosts that address fields one at a time.
impl Calculator {
    pub fn get_mode(&self) -> (r: Option<u8>)
        ensures
            r == self.mode,
    {
        self.mode
    }

    pub fn set_mode(&mut self, value: Option<u8>)
        ensures
            *final(self) == (Calculator { mode: value, ..*old(self) }),
    {
        self.mode = value;
    }

    pub fn del_mode(&mut self)
        ensures
            *final(self) == (Calculator { mode: None, ..*old(self) }),
    {
        self.mode = None;
    }

    pub fn get_mods(&self) -> (r: Option<u32>)
        ensures
            r == self.mods,
    {
        self.mods
    }

    pub fn set_mods(&mut self, value: Option<u32>)
        ensures
            *final(self) == (Calculator { mods: value, ..*old(self) }),
    {
        self.mods = value;
    }

    pub fn del_mods(&mut self)
        ensures
            *final(self) == (Calculator { mods: None, ..*old(self) }),
    {
        self.mods = None;
    }

    pub fn get_n50(&self) -> (r: Option<usize>)
        ensures
            r == self.n50,
    {
        self.n50
    }

    pub fn set_n50(&mut self, value: Option<usize>)
        ensures
            *final(self) == (Calculator { n50: value, ..*old(self) }),
    {
        self.n50 = value;
    }

    pub fn del_n50(&mut self)
        ensures
            *final(self) == (Calculator { n50: None, ..*old(self) }),
    {
        self.n50 = None;
    }

    pub fn get_n100(&self) -> (r: Option<usize>)
        ensures
            r == self.n100,
    {
        self.n100
    }

    pub fn set_n100(&mut self, value: Option<usize>)
        ensures
            *final(self) == (Calculator { n100: value, ..*old(self) }),
    {
        self.n100 = value;
    }

    pub fn del_n100(&mut self)
        ensures
            *final(self) == (Calculator { n100: None, ..*old(self) }),
    {
        self.n100 = None;
    }

    pub fn get_n300(&self) -> (r: Option<usize>)
        ensures
            r == self.n300,
    {
        self.n300
    }

    pub fn set_n300(&mut self, value: Option<usize>)
        ensures
            *final(self) == (Calculator { n300: value, ..*old(self) }),
    {
        self.n300 = value;
    }

    pub fn del_n300(&mut self)
        ensures
            *final(self) == (Calculator { n300: None, ..*old(self) }),
    {
        self.n300 = None;
    }

    pub fn get_katu(&self) -> (r: Option<usize>)
        ensures
            r == self.katu,
    {
        self.katu
    }

    pub fn set_katu(&mut self, value: Option<usize>)
        ensures
            *final(self) == (Calculator { katu: value, ..*old(self) }),
    {
        self.katu = value;
    }

    pub fn del_katu(&mut self)
        ensures
            *final(self) == (Calculator { katu: None, ..*old(self) }),
    {
        self.katu = None;
    }

    pub fn get_acc(&self) -> (r: Option<u32>)
        ensures
            r == self.acc,
    {
        self.acc
    }

    pub fn set_acc(&mut self, value: Option<u32>)
        ensures
            *final(self) == (Calculator { acc: value, ..*old(self) }),
    {
        self.acc = value;
    }

    pub fn del_acc(&mut self)
        ensures
            *final(self) == (Calculator { acc: None, ..*old(self) }),
    {
        self.acc = None;
    }

    pub fn get_passed_obj(&self) -> (r: Option<usize>)
        ensures
            r == self.passed_obj,
    {
        self.passed_obj
    }

    pub fn set_passed_obj(&mut self, value: Option<usize>)
        ensures
            *final(self) == (Calculator { passed_obj: value, ..*old(self) }),
    {
        self.passed_obj = value;
    }

    pub fn del_passed_obj(&mut self)
        ensures
            *final(self) == (Calculator { passed_obj: None, ..*old(self) }),
    {
        self.passed_obj = None;
    }

    pub fn get_combo(&self) -> (r: Option<usize>)
        ensures
            r == self.combo,
    {
        self.combo
    }

    pub fn set_combo(&mut self, value: Option<usize>)
        ensures
            *final(self) == (Calculator { combo: value, ..*old(self) }),
    {
        self.combo = value;
    }

    pub fn del_combo(&mut self)
        ensures
            *final(self) == (Calculator { combo: None, ..*old(self) }),
    {
        self.combo = None;
    }

    pub fn get_miss(&self) -> (r: Option<usize>)
        ensures
            r == self.miss,
    {
        self.miss
    }

    pub fn set_miss(&mut self, value: Option<usize>)
        ensures
            *final(self) == (Calculator { miss: value, ..*old(self) }),
    {
        self.miss = value;
    }

    pub fn del_miss(&mut self)
        ensures
            *final(self) == (Calculator { miss: None, ..*old(self) }),
    {
        self.miss = None;
    }

    pub fn get_score(&self) -> (r: Option<u32>)
        ensures
            r == self.score,
    {
        self.score
    }

    pub fn set_score(&mut self, value: Option<u32>)
        ensures
            *final(self) == (Calculator { score: value, ..*old(self) }),
    {
        self.score = value;
    }

    pub fn del_score(&mut self)
        ensures
            *final(self) == (Calculator { score: None, ..*old(self) }),
    {
        self.score = None;
    }
}

impl Default for Calculator {
    fn default() -> (r: Calculator)
        ensures
            r == empty_calculator(),
    {
        Calculator::new_empty()
    }
}

} // verus!
