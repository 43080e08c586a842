use super::angle::Angle;
use super::bs2b_low_shelf::Bs2bLowShelf;
use super::calibration_mode::CalibrationMode;
use super::center::Center;
use super::cutoff::Cutoff;
use super::gain::Gain;
use super::lrswap::LRSwap;
use super::phase::Phase;
use super::solo::Solo;
use super::xfeed::XFeed;
use super::xfeed_slope::XFeedSlope;
use super::{has_gesture, Parameter, Range, Select, PARAMETER_GESTURE_DOUBLE_CLICK, PARAMETER_GESTURE_DRAG};
use vstd::prelude::*;

verus! {

/// The number of parameters; their IDs are `0 .. PARAMS_COUNT`.
pub const PARAMS_COUNT: usize = 11;

/// Any one of the plugin's parameters, found by its ID.
#[allow(inconsistent_fields)]
pub enum AnyParameter {
    Cutoff { inner: Parameter<Cutoff, Range> },
    XFeed { inner: Parameter<XFeed, Range> },
    XFeedSlope { inner: Parameter<XFeedSlope, Range> },
    Bs2bLowShelf { inner: Parameter<Bs2bLowShelf, Range> },
    CalibrationMode { inner: Parameter<CalibrationMode, Select> },
    Center { inner: Parameter<Center, Range> },
    Angle { inner: Parameter<Angle, Range> },
    LRSwap { inner: Parameter<LRSwap, Select> },
    Solo { inner: Parameter<Solo, Select> },
    Phase { inner: Parameter<Phase, Select> },
    Gain { inner: Parameter<Gain, Range> },
}

/// The IDs under which a parameter is registered.
pub open spec fn is_parameter_id(id: usize) -> bool {
    ||| id == Parameter::<Cutoff, Range>::ID
    ||| id == Parameter::<Angle, Range>::ID
    ||| id == Parameter::<Center, Range>::ID
    ||| id == Parameter::<Gain, Range>::ID
    ||| id == Parameter::<XFeed, Range>::ID
    ||| id == Parameter::<XFeedSlope, Range>::ID
    ||| id == Parameter::<Bs2bLowShelf, Range>::ID
    ||| id == Parameter::<CalibrationMode, Select>::ID
    ||| id == Parameter::<LRSwap, Select>::ID
    ||| id == Parameter::<Solo, Select>::ID
    ||| id == Parameter::<Phase, Select>::ID
}

/// The gestures of the parameter registered under `id`.
pub open spec fn parameter_gestures(id: usize) -> u8 {
    if parameter_is_range(id) {
        PARAMETER_GESTURE_DRAG | PARAMETER_GESTURE_DOUBLE_CLICK
    } else if id == Parameter::<CalibrationMode, Select>::ID {
        PARAMETER_GESTURE_DOUBLE_CLICK
    } else {
        0
    }
}

/// Whether the parameter registered under `id` is continuous (a [`Range`]).
pub open spec fn parameter_is_range(id: usize) -> bool {
    ||| id == Parameter::<Cutoff, Range>::ID
    ||| id == Parameter::<XFeed, Range>::ID
    ||| id == Parameter::<Angle, Range>::ID
    ||| id == Parameter::<Center, Range>::ID
    ||| id == Parameter::<Gain, Range>::ID
    ||| id == Parameter::<XFeedSlope, Range>::ID
    ||| id == Parameter::<Bs2bLowShelf, Range>::ID
}

/// The range of each continuous parameter, by ID, in thousandths, as the
/// plugin documents it: Cutoff 300–2000 Hz (default 822), XFeed 1–15 dB (6.2),
/// Angle 0–75° (30), Center −6–0 dB (−0.27), Gain ±12 dB (0), Slope 0.1–2.0
/// (0.707), Low Shelf −12–0 dB (−3.1).
pub open spec fn parameter_range(id: usize) -> Range {
    if id == 0 {
        Range { min: 300000, max: 2000000, def: 822000 }
    } else if id == 1 {
        Range { min: 1000, max: 15000, def: 6200 }
    } else if id == 2 {
        Range { min: 0, max: 75000, def: 30000 }
    } else if id == 3 {
        Range { min: -6000i64, max: 0, def: -270i64 }
    } else if id == 4 {
        Range { min: -12000i64, max: 12000, def: 0 }
    } else if id == 9 {
        Range { min: 100, max: 2000, def: 707 }
    } else {
        Range { min: -12000i64, max: 0, def: -3100i64 }
    }
}

/// The default value of every parameter, by ID, in thousandths: the range
/// default of a continuous parameter, and for the stepped ones L/R Swap Off
/// (0), Solo Off (1), Phase Off (1), Calibration Off (0).
pub open spec fn parameter_default(id: usize) -> i64 {
    if id == 5 || id == 8 {
        0
    } else if id == 6 || id == 7 {
        1000
    } else {
        parameter_range(id).def
    }
}

impl AnyParameter {
    /// Each variant holds its parameter as that parameter's definition states it.
    pub open spec fn defined(self) -> bool {
        match self {
            AnyParameter::Cutoff { inner } => inner.defined(),
            AnyParameter::Center { inner } => inner.defined(),
            AnyParameter::Angle { inner } => inner.defined(),
            AnyParameter::Gain { inner } => inner.defined(),
            AnyParameter::XFeed { inner } => inner.defined(),
            AnyParameter::XFeedSlope { inner } => inner.defined(),
            AnyParameter::Bs2bLowShelf { inner } => inner.defined(),
            AnyParameter::CalibrationMode { inner } => inner.defined(),
            AnyParameter::LRSwap { inner } => inner.defined(),
            AnyParameter::Solo { inner } => inner.defined(),
            AnyParameter::Phase { inner } => inner.defined(),
        }
    }

    /// The parameter's ID.
    pub open spec fn spec_id(self) -> usize {
        match self {
            AnyParameter::Cutoff { inner } => inner.id,
            AnyParameter::Center { inner } => inner.id,
            AnyParameter::Angle { inner } => inner.id,
            AnyParameter::Gain { inner } => inner.id,
            AnyParameter::XFeed { inner } => inner.id,
            AnyParameter::XFeedSlope { inner } => inner.id,
            AnyParameter::Bs2bLowShelf { inner } => inner.id,
            AnyParameter::CalibrationMode { inner } => inner.id,
            AnyParameter::LRSwap { inner } => inner.id,
            AnyParameter::Solo { inner } => inner.id,
            AnyParameter::Phase { inner } => inner.id,
        }
    }

    /// The parameter's gesture bits.
    pub open spec fn spec_gestures(self) -> u8 {
        match self {
            AnyParameter::Cutoff { inner } => inner.gestures,
            AnyParameter::Center { inner } => inner.gestures,
            AnyParameter::Angle { inner } => inner.gestures,
            AnyParameter::Gain { inner } => inner.gestures,
            AnyParameter::XFeed { inner } => inner.gestures,
            AnyParameter::XFeedSlope { inner } => inner.gestures,
            AnyParameter::Bs2bLowShelf { inner } => inner.gestures,
            AnyParameter::CalibrationMode { inner } => inner.gestures,
            AnyParameter::LRSwap { inner } => inner.gestures,
            AnyParameter::Solo { inner } => inner.gestures,
            AnyParameter::Phase { inner } => inner.gestures,
        }
    }

    /// Whether the parameter is continuous (a [`Range`]).
    pub open spec fn spec_is_range(self) -> bool {
        match self {
            AnyParameter::Cutoff { .. } | AnyParameter::XFeed { .. } | AnyParameter::XFeedSlope { .. }
            | AnyParameter::Bs2bLowShelf { .. } | AnyParameter::Center { .. } | AnyParameter::Angle {
                ..
            } | AnyParameter::Gain { .. } => true,
            _ => false,
        }
    }

    /// The range of a continuous parameter.
    pub open spec fn spec_range(self) -> Range
        recommends
            self.spec_is_range(),
    {
        match self {
            AnyParameter::Cutoff { inner } => inner.behave,
            AnyParameter::Center { inner } => inner.behave,
            AnyParameter::Angle { inner } => inner.behave,
            AnyParameter::Gain { inner } => inner.behave,
            AnyParameter::XFeed { inner } => inner.behave,
            AnyParameter::XFeedSlope { inner } => inner.behave,
            AnyParameter::Bs2bLowShelf { inner } => inner.behave,
            _ => Range { min: 0, max: 0, def: 0 },
        }
    }

    /// Whether the parameter can take the value `v` (in thousandths): within
    /// the range of a continuous parameter, one of the options of a stepped one.
    pub open spec fn accepts(self, v: i64) -> bool {
        match self {
            AnyParameter::CalibrationMode { inner } => v % 1000 == 0 && inner.behave.options@.contains(
                (v / 1000) as u8,
            ),
            AnyParameter::LRSwap { inner } => v % 1000 == 0 && inner.behave.options@.contains(
                (v / 1000) as u8,
            ),
            AnyParameter::Solo { inner } => v % 1000 == 0 && inner.behave.options@.contains(
                (v / 1000) as u8,
            ),
            AnyParameter::Phase { inner } => v % 1000 == 0 && inner.behave.options@.contains(
                (v / 1000) as u8,
            ),
            _ => self.spec_range().min <= v <= self.spec_range().max,
        }
    }

    /// The parameter's default value, in thousandths.
    pub open spec fn spec_default(self) -> i64 {
        match self {
            AnyParameter::Cutoff { inner } => inner.behave.def,
            AnyParameter::Center { inner } => inner.behave.def,
            AnyParameter::Angle { inner } => inner.behave.def,
            AnyParameter::Gain { inner } => inner.behave.def,
            AnyParameter::XFeed { inner } => inner.behave.def,
            AnyParameter::XFeedSlope { inner } => inner.behave.def,
            AnyParameter::Bs2bLowShelf { inner } => inner.behave.def,
            AnyParameter::CalibrationMode { inner } => (inner.behave.def * 1000) as i64,
            AnyParameter::LRSwap { inner } => (inner.behave.def * 1000) as i64,
            AnyParameter::Solo { inner } => (inner.behave.def * 1000) as i64,
            AnyParameter::Phase { inner } => (inner.behave.def * 1000) as i64,
        }
    }

    /// The parameter registered under `id`, or `Err(())` if no parameter has
    /// that ID: every ID below [`PARAMS_COUNT`] names a parameter.
    pub fn try_from(id: usize) -> (r: Result<Self, ()>)
        ensures
            r is Ok <==> is_parameter_id(id),
            r is Ok <==> id < PARAMS_COUNT,
            r matches Ok(p) ==> p.defined() && p.spec_id() == id,
            r matches Ok(p) ==> p.spec_default() == parameter_default(id),
            r matches Ok(p) ==> (p.spec_is_range() ==> p.spec_range() == parameter_range(id)),
    {
        proof {
            assert forall|p: AnyParameter| p.defined() implies p.spec_default() == parameter_default(
                p.spec_id(),
            ) && (p.spec_is_range() ==> p.spec_range() == parameter_range(p.spec_id())) by {
                lemma_parameter_values(p);
            }
        }
        if id == Parameter::<Cutoff, Range>::ID {
            Ok(AnyParameter::Cutoff { inner: Parameter::<Cutoff, Range>::new() })
        } else if id == Parameter::<Angle, Range>::ID {
            Ok(AnyParameter::Angle { inner: Parameter::<Angle, Range>::new() })
        } else if id == Parameter::<Center, Range>::ID {
            Ok(AnyParameter::Center { inner: Parameter::<Center, Range>::new() })
        } else if id == Parameter::<Gain, Range>::ID {
            Ok(AnyParameter::Gain { inner: Parameter::<Gain, Range>::new() })
        } else if id == Parameter::<XFeed, Range>::ID {
            Ok(AnyParameter::XFeed { inner: Parameter::<XFeed, Range>::new() })
        } else if id == Parameter::<XFeedSlope, Range>::ID {
            Ok(AnyParameter::XFeedSlope { inner: Parameter::<XFeedSlope, Range>::new() })
        } else if id == Parameter::<Bs2bLowShelf, Range>::ID {
            Ok(AnyParameter::Bs2bLowShelf { inner: Parameter::<Bs2bLowShelf, Range>::new() })
        } else if id == Parameter::<CalibrationMode, Select>::ID {
            Ok(AnyParameter::CalibrationMode { inner: Parameter::<CalibrationMode, Select>::new() })
        } else if id == Parameter::<LRSwap, Select>::ID {
            Ok(AnyParameter::LRSwap { inner: Parameter::<LRSwap, Select>::new() })
        } else if id == Parameter::<Solo, Select>::ID {
            Ok(AnyParameter::Solo { inner: Parameter::<Solo, Select>::new() })
        } else if id == Parameter::<Phase, Select>::ID {
            Ok(AnyParameter::Phase { inner: Parameter::<Phase, Select>::new() })
        } else {
            Err(())
        }
    }
}

/// A registered parameter carries the gestures, kind and ID that the registry
/// gives its ID, its ID is a slot of the parameter snapshot, its range is
/// ordered with the default inside, and a stepped parameter's default is one of
/// its options.
pub proof fn lemma_registered_parameter(p: AnyParameter)
    requires
        p.defined(),
    ensures
        is_parameter_id(p.spec_id()),
        p.spec_id() < PARAMS_COUNT,
        p.spec_gestures() == parameter_gestures(p.spec_id()),
        p.spec_is_range() == parameter_is_range(p.spec_id()),
        p.spec_is_range() ==> p.spec_range().well_formed(),
        match p {
            AnyParameter::CalibrationMode { inner } => inner.behave.well_formed(),
            AnyParameter::LRSwap { inner } => inner.behave.well_formed(),
            AnyParameter::Solo { inner } => inner.behave.well_formed(),
            AnyParameter::Phase { inner } => inner.behave.well_formed(),
            _ => true,
        },
{
    match p {
        AnyParameter::CalibrationMode { inner } => {
            assert(inner.behave.options@[0] == inner.behave.def);
        },
        AnyParameter::LRSwap { inner } => {
            assert(inner.behave.options@[0] == inner.behave.def);
        },
        AnyParameter::Solo { inner } => {
            assert(inner.behave.options@[1] == inner.behave.def);
        },
        AnyParameter::Phase { inner } => {
            assert(inner.behave.options@[1] == inner.behave.def);
        },
        _ => {},
    }
}

/// Every registered parameter carries the documented range and default of its
/// ID, a continuous parameter's default is the default of its range, and every
/// parameter accepts its own default.
pub proof fn lemma_parameter_values(p: AnyParameter)
    requires
        p.defined(),
    ensures
        p.spec_is_range() ==> p.spec_range() == parameter_range(p.spec_id()),
        p.spec_default() == parameter_default(p.spec_id()),
        p.spec_is_range() ==> p.spec_default() == p.spec_range().def,
        p.accepts(p.spec_default()),
{
    match p {
        AnyParameter::CalibrationMode { inner } => {
            assert(inner.behave.options@[0] == 0);
        },
        AnyParameter::LRSwap { inner } => {
            assert(inner.behave.options@[0] == 0);
        },
        AnyParameter::Solo { inner } => {
            assert(inner.behave.options@[1] == 1);
        },
        AnyParameter::Phase { inner } => {
            assert(inner.behave.options@[1] == 1);
        },
        _ => {},
    }
}

/// Different registered parameters have different IDs: the registry maps an ID
/// to one parameter kind.
pub proof fn lemma_registry_ids_distinct(p: AnyParameter, q: AnyParameter)
    requires
        p.defined(),
        q.defined(),
        p.spec_id() == q.spec_id(),
    ensures
        p.spec_is_range() == q.spec_is_range(),
        p.spec_gestures() == q.spec_gestures(),
        p.spec_default() == q.spec_default(),
        p.spec_is_range() ==> p.spec_range() == q.spec_range(),
{
}

} // verus!
