use super::{Parameter, Select};
use crate::utils::text::str_eq;
use std::marker::PhantomData;
use std::str::FromStr;
use vstd::prelude::*;

verus! {

/// Polarity inversion of the left channel, of none, or of the right channel.
#[derive(Clone, Copy, PartialEq, Eq, Debug)]
#[allow(non_camel_case_types)]
pub enum Phase {
    L,
    OFF,
    R,
}

/// The option value that stands for each setting.
pub open spec fn phase_value(p: Phase) -> u8 {
    match p {
        Phase::L => 0,
        Phase::OFF => 1,
        Phase::R => 2,
    }
}

/// The setting that an option value selects: 0 is L, 2 is R, anything else OFF.
pub open spec fn phase_from_value(v: u8) -> Phase {
    if v == 0 {
        Phase::L
    } else if v == 2 {
        Phase::R
    } else {
        Phase::OFF
    }
}

/// The text of each setting.
pub open spec fn phase_text(p: Phase) -> Seq<char> {
    match p {
        Phase::L => "L"@,
        Phase::OFF => "Off"@,
        Phase::R => "R"@,
    }
}

/// The setting that a text names, if any.
pub open spec fn phase_parse(s: Seq<char>) -> Result<Phase, ()> {
    if s == "L"@ {
        Ok(Phase::L)
    } else if s == "Off"@ {
        Ok(Phase::OFF)
    } else if s == "R"@ {
        Ok(Phase::R)
    } else {
        Err(())
    }
}

impl Phase {
    /// The option value of this setting.
    pub fn as_u8(self) -> (v: u8)
        ensures
            v == phase_value(self),
    {
        match self {
            Phase::L => 0,
            Phase::OFF => 1,
            Phase::R => 2,
        }
    }

    /// The text of this setting ("L", "Off" or "R").
    pub fn to_string(&self) -> (s: String)
        ensures
            s@ == phase_text(*self),
    {
        match self {
            Phase::L => "L".to_owned(),
            Phase::OFF => "Off".to_owned(),
            Phase::R => "R".to_owned(),
        }
    }

    /// The setting named by `s`: exactly "L", "Off" or "R".
    pub fn parse(s: &str) -> (r: Result<Phase, ()>)
        ensures
            r == phase_parse(s@),
    {
        if str_eq(s, "L") {
            Ok(Phase::L)
        } else if str_eq(s, "Off") {
            Ok(Phase::OFF)
        } else if str_eq(s, "R") {
            Ok(Phase::R)
        } else {
            Err(())
        }
    }
}

impl From<u8> for Phase {
    fn from(v: u8) -> (r: Self) {
        match v {
            0 => Phase::L,
            2 => Phase::R,
            _ => Phase::OFF,
        }
    }
}

impl vstd::std_specs::convert::FromSpecImpl<u8> for Phase {
    open spec fn obeys_from_spec() -> bool {
        true
    }

    open spec fn from_spec(v: u8) -> Phase {
        phase_from_value(v)
    }
}

impl FromStr for Phase {
    type Err = ();

    fn from_str(s: &str) -> (r: Result<Self, Self::Err>)
        ensures
            r == phase_parse(s@),
    {
        Phase::parse(s)
    }
}

impl Parameter<Phase, Select> {
    pub const ID: usize = 7;

    /// The parameter's definition: L, Off or R, off by default, no gestures.
    pub open spec fn defined(self) -> bool {
        &&& self.id == Self::ID
        &&& self.name@ == "Phase"@
        &&& self.gestures == 0
        &&& self.behave.options@ == seq![phase_value(Phase::L), phase_value(Phase::OFF), phase_value(Phase::R)]
        &&& self.behave.def == phase_value(Phase::OFF)
    }

    /// Builds the parameter as [`Self::defined`] describes it.
    pub fn new() -> (p: Self)
        ensures
            p.defined(),
    {
        let p = Self {
            id: Self::ID,
            name: "Phase",
            gestures: 0,
            behave: Select { options: &[0, 1, 2], def: 1 },
            _marker_type: PhantomData,
            _marker_behaviour: PhantomData,
        };
        assert(p.behave.options@ == seq![0u8, 1u8, 2u8]);
        p
    }
}

} // verus!
