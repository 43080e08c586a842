use super::{Parameter, Select};
use std::marker::PhantomData;
use vstd::prelude::*;

verus! {

/// Solo: copy one processed channel to both ears (after the matrix).
#[derive(Clone, Copy)]
pub struct Solo;

/// The label shown for a solo value.
pub open spec fn solo_label(value: u8) -> Seq<char> {
    if value == Solo::L {
        "L"@
    } else if value == Solo::R {
        "R"@
    } else {
        "Off"@
    }
}

impl Solo {
    pub const L: u8 = 0;
    pub const OFF: u8 = 1;
    pub const R: u8 = 2;

    /// The label of a solo value; any value that is neither L nor R reads "Off".
    pub fn label(v: u8) -> (r: &'static str)
        ensures
            r@ == solo_label(v),
    {
        if v == Self::L {
            "L"
        } else if v == Self::R {
            "R"
        } else {
            "Off"
        }
    }
}

impl Parameter<Solo, Select> {
    pub const ID: usize = 6;

    /// The parameter's definition: L, Off or R, off by default, no gestures.
    pub open spec fn defined(self) -> bool {
        &&& self.id == Self::ID
        &&& self.name@ == "Solo"@
        &&& self.gestures == 0
        &&& self.behave.options@ == seq![Solo::L, Solo::OFF, Solo::R]
        &&& self.behave.def == Solo::OFF
    }

    /// Builds the parameter as [`Self::defined`] describes it.
    pub fn new() -> (p: Self)
        ensures
            p.defined(),
    {
        let p = Self {
            id: Self::ID,
            name: "Solo",
            gestures: 0,
            behave: Select { options: &[Solo::L, Solo::OFF, Solo::R], def: Solo::OFF },
            _marker_type: PhantomData,
            _marker_behaviour: PhantomData,
        };
        assert(p.behave.options@ == seq![0u8, 1u8, 2u8]);
        p
    }
}

} // verus!
