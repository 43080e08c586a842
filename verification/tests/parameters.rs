use audio_plugins::gestures::{ActiveClick, ActiveDrag};
use audio_plugins::parameters::angle::Angle;
use audio_plugins::parameters::any::{AnyParameter, PARAMS_COUNT};
use audio_plugins::parameters::center::Center;
use audio_plugins::parameters::cutoff::Cutoff;
use audio_plugins::parameters::gain::Gain;
use audio_plugins::parameters::bs2b_low_shelf::Bs2bLowShelf;
use audio_plugins::parameters::calibration_mode::CalibrationMode;
use audio_plugins::parameters::feed::Feed;
use audio_plugins::parameters::lrswap::LRSwap;
use audio_plugins::parameters::phase::Phase;
use audio_plugins::parameters::solo::Solo;
use audio_plugins::parameters::xfeed::XFeed;
use audio_plugins::parameters::xfeed_slope::XFeedSlope;
use audio_plugins::parameters::{
    Parameter, Range, Select, PARAMETER_GESTURE_DOUBLE_CLICK, PARAMETER_GESTURE_DRAG,
};

fn range_of<T>(p: &Parameter<T, Range>) -> (i64, i64, i64) {
    (p.behave.min, p.behave.max, p.behave.def)
}

#[test]
fn xfeed_definition() {
    let p = Parameter::<XFeed, Range>::new();
    assert_eq!(p.id, 1);
    assert_eq!(p.name, "XFeed");
    assert_eq!(p.gestures, PARAMETER_GESTURE_DRAG | PARAMETER_GESTURE_DOUBLE_CLICK);
    assert_eq!(range_of(&p), (1000, 15000, 6200));
}

#[test]
fn feed_definition() {
    let p = Parameter::<Feed, Range>::new();
    assert_eq!(p.id, 1);
    assert_eq!(p.name, "Feed");
    assert_eq!(range_of(&p), (1000, 15000, 4500));
}

#[test]
fn xfeed_slope_definition() {
    let p = Parameter::<XFeedSlope, Range>::new();
    assert_eq!(p.id, 9);
    assert_eq!(p.name, "Slope");
    assert_eq!(range_of(&p), (100, 2000, 707));
}

#[test]
fn low_shelf_definition() {
    let p = Parameter::<Bs2bLowShelf, Range>::new();
    assert_eq!(p.id, 10);
    assert_eq!(p.name, "Low Shelf");
    assert_eq!(range_of(&p), (-12000, 0, -3100));
}

#[test]
fn knob_definitions() {
    let p = Parameter::<Cutoff, Range>::new();
    assert_eq!((p.id, p.name), (0, "Cutoff"));
    assert_eq!(range_of(&p), (300000, 2000000, 822000));
    let p = Parameter::<Angle, Range>::new();
    assert_eq!((p.id, p.name), (2, "Angle"));
    assert_eq!(range_of(&p), (0, 75000, 30000));
    let p = Parameter::<Center, Range>::new();
    assert_eq!((p.id, p.name), (3, "Center"));
    assert_eq!(range_of(&p), (-6000, 0, -270));
    let p = Parameter::<Gain, Range>::new();
    assert_eq!((p.id, p.name, p.gestures), (4, "Gain", PARAMETER_GESTURE_DRAG | PARAMETER_GESTURE_DOUBLE_CLICK));
    assert_eq!(range_of(&p), (-12000, 12000, 0));
    match AnyParameter::try_from(0) {
        Ok(AnyParameter::Cutoff { inner }) => assert_eq!(inner.id, 0),
        _ => panic!("0 is the cutoff"),
    }
}

#[test]
fn select_definitions() {
    let cal: Parameter<CalibrationMode, Select> = Parameter::<CalibrationMode, Select>::new();
    assert_eq!(cal.id, 8);
    assert_eq!(cal.name, "CalibrationMode");
    assert_eq!(cal.gestures, PARAMETER_GESTURE_DOUBLE_CLICK);
    assert_eq!(cal.behave.options, &[0u8, 1, 2][..]);
    assert_eq!(cal.behave.def, 0);

    let swap = Parameter::<LRSwap, Select>::new();
    assert_eq!((swap.id, swap.name, swap.gestures), (5, "L/R Swap", 0));
    assert_eq!(swap.behave.options, &[0u8, 1][..]);
    assert_eq!(swap.behave.def, 0);

    let solo = Parameter::<Solo, Select>::new();
    assert_eq!((solo.id, solo.name, solo.gestures), (6, "Solo", 0));
    assert_eq!(solo.behave.options, &[0u8, 1, 2][..]);
    assert_eq!(solo.behave.def, Solo::OFF);

    let phase = Parameter::<Phase, Select>::new();
    assert_eq!((phase.id, phase.name, phase.gestures), (7, "Phase", 0));
    assert_eq!(phase.behave.options, &[0u8, 1, 2][..]);
    assert_eq!(phase.behave.def, 1);
}

#[test]
fn gesture_views_follow_flags() {
    let p = Parameter::<XFeed, Range>::new();
    let d = p.as_draggable().expect("XFeed drags");
    assert_eq!(d.inner.id, 1);
    let c = p.as_clickable().expect("XFeed resets");
    let change = c.on_double_click().unwrap();
    assert_eq!((change.index, change.value), (1, 6200));

    let mut q = Parameter::<XFeedSlope, Range>::new();
    q.gestures = PARAMETER_GESTURE_DOUBLE_CLICK;
    assert!(q.as_draggable().is_none());
    assert!(q.as_clickable().is_some());
    q.gestures = 0;
    assert!(q.as_clickable().is_none());

    let cal = Parameter::<CalibrationMode, Select>::new();
    let change = cal.as_clickable().unwrap().on_double_click().unwrap();
    assert_eq!((change.index, change.value), (8, 0));
}

#[test]
fn calibration_mode_labels() {
    assert_eq!(CalibrationMode::label(CalibrationMode::OFF), "Off");
    assert_eq!(CalibrationMode::label(CalibrationMode::CONTINUOUS), "Continuous");
    assert_eq!(CalibrationMode::label(CalibrationMode::INTERMITTENT), "Intermittent");
    assert_eq!(CalibrationMode::label(200), "Off");
}

#[test]
fn solo_labels() {
    assert_eq!(Solo::label(Solo::L), "L");
    assert_eq!(Solo::label(Solo::OFF), "Off");
    assert_eq!(Solo::label(Solo::R), "R");
    assert_eq!(Solo::label(9), "Off");
}

#[test]
fn lrswap_conversions() {
    assert_eq!(LRSwap::from(1u8), LRSwap::On);
    assert_eq!(LRSwap::from(0u8), LRSwap::Off);
    assert_eq!(LRSwap::from(7u8), LRSwap::Off);
    assert_eq!(LRSwap::On.as_u8(), 1);
    assert_eq!(LRSwap::On.to_string(), "On");
    assert_eq!(LRSwap::Off.to_string(), "Off");
    assert_eq!("On".parse::<LRSwap>(), Ok(LRSwap::On));
    assert_eq!(LRSwap::parse("Off"), Ok(LRSwap::Off));
    assert_eq!(LRSwap::parse("on"), Err(()));
    assert_eq!(LRSwap::parse(""), Err(()));
    for s in [LRSwap::On, LRSwap::Off] {
        assert_eq!(LRSwap::from(s.as_u8()), s);
        assert_eq!(LRSwap::parse(&s.to_string()), Ok(s));
    }
}

#[test]
fn phase_conversions() {
    assert_eq!(Phase::from(0u8), Phase::L);
    assert_eq!(Phase::from(1u8), Phase::OFF);
    assert_eq!(Phase::from(2u8), Phase::R);
    assert_eq!(Phase::from(3u8), Phase::OFF);
    assert_eq!(Phase::R.as_u8(), 2);
    assert_eq!(Phase::OFF.to_string(), "Off");
    assert_eq!("L".parse::<Phase>(), Ok(Phase::L));
    assert_eq!(Phase::parse("R"), Ok(Phase::R));
    assert_eq!(Phase::parse("OFF"), Err(()));
    for p in [Phase::L, Phase::OFF, Phase::R] {
        assert_eq!(Phase::from(p.as_u8()), p);
        assert_eq!(Phase::parse(&p.to_string()), Ok(p));
    }
}

#[test]
fn registry_lookup() {
    for id in 0..PARAMS_COUNT + 3 {
        let found = AnyParameter::try_from(id).is_ok();
        assert_eq!(found, id < PARAMS_COUNT, "id {id}");
    }
    match AnyParameter::try_from(10) {
        Ok(AnyParameter::Bs2bLowShelf { inner }) => assert_eq!(inner.id, 10),
        _ => panic!("10 is the low shelf"),
    }
    match AnyParameter::try_from(6) {
        Ok(AnyParameter::Solo { inner }) => assert_eq!(inner.id, 6),
        _ => panic!("6 is solo"),
    }
}

#[test]
fn double_click_resets_to_default() {
    let c = ActiveClick::from_index(1).unwrap();
    let change = c.on_double_click().unwrap();
    assert_eq!((change.index, change.value), (1, 6200));

    let c = ActiveClick::from_index(10).unwrap();
    let change = c.on_double_click().unwrap();
    assert_eq!((change.index, change.value), (10, -3100));

    let c = ActiveClick::from_index(8).unwrap();
    let change = c.on_double_click().unwrap();
    assert_eq!((change.index, change.value), (8, 0));

    let c = ActiveClick::from_index(0).unwrap();
    let change = c.on_double_click().unwrap();
    assert_eq!((change.index, change.value), (0, 822000));

    let c = ActiveClick::from_index(3).unwrap();
    let change = c.on_double_click().unwrap();
    assert_eq!((change.index, change.value), (3, -270));

    for id in [5, 6, 7, 11, usize::MAX] {
        assert!(ActiveClick::from_index(id).is_none(), "id {id}");
    }
}

#[test]
fn drag_only_on_continuous_parameters() {
    let d = ActiveDrag::from_index(9, (1.5f64, 2.5f64)).unwrap();
    assert_eq!(d.param_id(), 9);
    assert_eq!(*d.start(), (1.5, 2.5));
    let r = d.drag_range();
    assert_eq!((r.min, r.max, r.def), (100, 2000, 707));

    assert!(ActiveDrag::from_index(8, ()).is_none());
    assert!(ActiveDrag::from_index(5, ()).is_none());
    assert!(ActiveDrag::from_index(11, ()).is_none());
    assert!(ActiveDrag::from_index(6, ()).is_none());
    assert_eq!(ActiveDrag::from_index(2, ()).unwrap().param_id(), 2);
    let gain = ActiveDrag::from_index(4, ()).unwrap().drag_range();
    assert_eq!((gain.min, gain.max, gain.def), (-12000, 12000, 0));
    assert_eq!(ActiveDrag::from_index(1, ()).unwrap().param_id(), 1);
}
