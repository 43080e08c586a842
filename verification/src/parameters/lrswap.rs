use super::{Parameter, Select};
use crate::utils::text::str_eq;
use std::marker::PhantomData;
use std::str::FromStr;
use vstd::prelude::*;

verus! {

/// Left/right channel swap.
#[derive(Clone, Copy, PartialEq, Eq, Debug)]
pub enum LRSwap {
    Off,
    On,
}

/// The option value that stands for each setting.
pub open spec fn lrswap_value(s: LRSwap) -> u8 {
    match s {
        LRSwap::Off => 0,
        LRSwap::On => 1,
    }
}

/// The setting that an option value selects: 1 is On, anything else Off.
pub open spec fn lrswap_from_value(v: u8) -> LRSwap {
    if v == 1 {
        LRSwap::On
    } else {
        LRSwap::Off
    }
}

/// The text of each setting.
pub open spec fn lrswap_text(s: LRSwap) -> Seq<char> {
    match s {
        LRSwap::On => "On"@,
        LRSwap::Off => "Off"@,
    }
}

/// The setting that a text names, if any.
pub open spec fn lrswap_parse(s: Seq<char>) -> Result<LRSwap, ()> {
    if s == "On"@ {
        Ok(LRSwap::On)
    } else if s == "Off"@ {
        Ok(LRSwap::Off)
    } else {
        Err(())
    }
}

impl LRSwap {
    /// The option value of this setting.
    pub fn as_u8(self) -> (v: u8)
        ensures
            v == lrswap_value(self),
    {
        match self {
            LRSwap::Off => 0,
            LRSwap::On => 1,
        }
    }

    /// The text of this setting ("On" or "Off").
    pub fn to_string(&self) -> (s: String)
        ensures
            s@ == lrswap_text(*self),
    {
        match self {
            LRSwap::On => "On".to_owned(),
            LRSwap::Off => "Off".to_owned(),
        }
    }

    /// The setting named by `s`: exactly "On" or "Off".
    pub fn parse(s: &str) -> (r: Result<LRSwap, ()>)
        ensures
            r == lrswap_parse(s@),
    {
        if str_eq(s, "On") {
            Ok(LRSwap::On)
        } else if str_eq(s, "Off") {
            Ok(LRSwap::Off)
        } else {
            Err(())
        }
    }
}

impl From<u8> for LRSwap {
    fn from(v: u8) -> (r: Self) {
        match v {
            1 => LRSwap::On,
            _ => LRSwap::Off,
        }
    }
}

impl vstd::std_specs::convert::FromSpecImpl<u8> for LRSwap {
    open spec fn obeys_from_spec() -> bool {
        true
    }

    open spec fn from_spec(v: u8) -> LRSwap {
        lrswap_from_value(v)
    }
}

impl FromStr for LRSwap {
    type Err = ();

    fn from_str(s: &str) -> (r: Result<Self, Self::Err>)
        ensures
            r == lrswap_parse(s@),
    {
        LRSwap::parse(s)
    }
}

impl Parameter<LRSwap, Select> {
    pub const ID: usize = 5;

    /// The parameter's definition: Off or On, off by default, no gestures.
    pub open spec fn defined(self) -> bool {
        &&& self.id == Self::ID
        &&& self.name@ == "L/R Swap"@
        &&& self.gestures == 0
        &&& self.behave.options@ == seq![lrswap_value(LRSwap::Off), lrswap_value(LRSwap::On)]
        &&& self.behave.def == lrswap_value(LRSwap::Off)
    }

    /// Builds the parameter as [`Self::defined`] describes it.
    pub fn new() -> (p: Self)
        ensures
            p.defined(),
    {
        let p = Self {
            id: Self::ID,
            name: "L/R Swap",
            gestures: 0,
            behave: Select { options: &[0, 1], def: 0 },
            _marker_type: PhantomData,
            _marker_behaviour: PhantomData,
        };
        assert(p.behave.options@ == seq![0u8, 1u8]);
        p
    }
}

} // verus!
