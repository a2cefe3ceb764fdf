use vstd::prelude::*;
use vstd::string::*;

use crate::text::same_text;
use crate::value::AttrValue;

verus! {

/// The four scored disciplines.
#[derive(Clone, Copy, Debug, PartialEq, Eq, Structural)]
pub enum Mode {
    Osu,
    Taiko,
    Catch,
    Mania,
}

/// The error raised when a value does not name a discipline.
#[derive(Clone, Copy, Debug, PartialEq, Eq, Structural)]
pub enum ModeError {
    InvalidGameMode,
}

/// The number of a discipline: 0 to 3, in the order Osu, Taiko, Catch, Mania.
pub open spec fn mode_number(m: Mode) -> u8 {
    match m {
        Mode::Osu => 0,
        Mode::Taiko => 1,
        Mode::Catch => 2,
        Mode::Mania => 3,
    }
}

/// The discipline that a number selects, if any.
pub open spec fn mode_of_number(n: u8) -> Option<Mode> {
    if n == 0 {
        Some(Mode::Osu)
    } else if n == 1 {
        Some(Mode::Taiko)
    } else if n == 2 {
        Some(Mode::Catch)
    } else if n == 3 {
        Some(Mode::Mania)
    } else {
        None
    }
}

/// The short name of a discipline.
pub open spec fn mode_name(m: Mode) -> Seq<char> {
    match m {
        Mode::Osu => seq!['s', 't', 'd'],
        Mode::Taiko => seq!['t', 'a', 'i', 'k', 'o'],
        Mode::Catch => seq!['c', 't', 'b'],
        Mode::Mania => seq!['m', 'a', 'n', 'i', 'a'],
    }
}

/// The discipline that a short name selects, if any.
pub open spec fn mode_of_name(s: Seq<char>) -> Option<Mode> {
    if s == mode_name(Mode::Osu) {
        Some(Mode::Osu)
    } else if s == mode_name(Mode::Taiko) {
        Some(Mode::Taiko)
    } else if s == mode_name(Mode::Catch) {
        Some(Mode::Catch)
    } else if s == mode_name(Mode::Mania) {
        Some(Mode::Mania)
    } else {
        None
    }
}

impl Mode {
    /// The number of this discipline.
    pub fn as_int(&self) -> (r: u8)
        ensures
            r == mode_number(*self),
    {
        match self {
            Mode::Osu => 0,
            Mode::Taiko => 1,
            Mode::Catch => 2,
            Mode::Mania => 3,
        }
    }
}

/// The short name of a discipline.
pub fn osu_mode_str(mode: &Mode) -> (r: String)
    ensures
        r@ == mode_name(*mode),
{
    let s = match mode {
        Mode::Osu => "std",
        Mode::Taiko => "taiko",
        Mode::Catch => "ctb",
        Mode::Mania => "mania",
    };
    proof {
        reveal_strlit("std");
        reveal_strlit("taiko");
        reveal_strlit("ctb");
        reveal_strlit("mania");
    }
    let r = String::from_str(s);
    proof {
        assert(r@ =~= mode_name(*mode));
    }
    r
}

/// The discipline named by `s`; unknown names are an error.
pub fn str_into_osu_mode(s: &str) -> (r: Result<Mode, ModeError>)
    ensures
        r == match mode_of_name(s@) {
            Some(m) => Ok::<Mode, ModeError>(m),
            None => Err(ModeError::InvalidGameMode),
        },
{
    proof {
        reveal_strlit("std");
        reveal_strlit("taiko");
        reveal_strlit("ctb");
        reveal_strlit("mania");
        assert("std"@ =~= mode_name(Mode::Osu));
        assert("taiko"@ =~= mode_name(Mode::Taiko));
        assert("ctb"@ =~= mode_name(Mode::Catch));
        assert("mania"@ =~= mode_name(Mode::Mania));
    }
    if same_text(s, "std") {
        Ok(Mode::Osu)
    } else if same_text(s, "taiko") {
        Ok(Mode::Taiko)
    } else if same_text(s, "ctb") {
        Ok(Mode::Catch)
    } else if same_text(s, "mania") {
        Ok(Mode::Mania)
    } else {
        Err(ModeError::InvalidGameMode)
    }
}

/// The discipline numbered `n`; numbers above 3 are an error.
pub fn int_into_osu_mode(n: u8) -> (r: Result<Mode, ModeError>)
    ensures
        r == match mode_of_number(n) {
            Some(m) => Ok::<Mode, ModeError>(m),
            None => Err(ModeError::InvalidGameMode),
        },
{
    match n {
        0 => Ok(Mode::Osu),
        1 => Ok(Mode::Taiko),
        2 => Ok(Mode::Catch),
        3 => Ok(Mode::Mania),
        _ => Err(ModeError::InvalidGameMode),
    }
}

/// The discipline that a dynamic value selects: a name, or a number that
/// fits in a byte; anything else is an error.
pub open spec fn mode_of_value(v: AttrValue) -> Option<Mode> {
    match v {
        AttrValue::Text(s) => mode_of_name(s@),
        AttrValue::Int(n) => if 0 <= n <= 255 {
            mode_of_number(n as u8)
        } else {
            None
        },
        _ => None,
    }
}

/// The discipline that a dynamic value selects, by name or by number.
pub fn py_any_into_osu_mode(v: &AttrValue) -> (r: Result<Mode, ModeError>)
    ensures
        r == match mode_of_value(*v) {
            Some(m) => Ok::<Mode, ModeError>(m),
            None => Err(ModeError::InvalidGameMode),
        },
{
    match v {
        AttrValue::Text(s) => str_into_osu_mode(s.as_str()),
        AttrValue::Int(n) => {
            if 0 <= *n && *n <= 255 {
                int_into_osu_mode(*n as u8)
            } else {
                Err(ModeError::InvalidGameMode)
            }
        },
        _ => Err(ModeError::InvalidGameMode),
    }
}

/// The short name of the discipline numbered `n`, if there is one.
pub fn osu_mode_int_str(n: u8) -> (r: Option<String>)
    ensures
        match mode_of_number(n) {
            Some(m) => r matches Some(s) && s@ == mode_name(m),
            None => r is None,
        },
{
    match int_into_osu_mode(n) {
        Ok(m) => Some(osu_mode_str(&m)),
        Err(_) => None,
    }
}

/// The number of the discipline named `s`, if there is one.
pub fn osu_mode_str_int(s: &str) -> (r: Option<u8>)
    ensures
        r == match mode_of_name(s@) {
            Some(m) => Some(mode_number(m)),
            None => None::<u8>,
        },
{
    match str_into_osu_mode(s) {
        Ok(m) => Some(m.as_int()),
        Err(_) => None,
    }
}

} // verus!
