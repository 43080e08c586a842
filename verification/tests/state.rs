use audio_plugins::channel::channel;
use audio_plugins::parameters::any::PARAMS_COUNT;
use audio_plugins::preset_factory::{preset_values, presets, PRESET_VALUES};
use audio_plugins::state::{
    decode_snapshot, encode_snapshot, ByteOrder, ParamSnapshot, Transfer, TransferStep, STATE_SIZE,
};

fn sample_snapshot() -> ParamSnapshot {
    let mut values = [0u64; PARAMS_COUNT];
    let floats = [822.0f64, 6.2, 30.0, -0.27, 0.0, 0.0, 1.0, 1.0, 0.0, 0.707, -3.1];
    for (v, f) in values.iter_mut().zip(floats.iter()) {
        *v = f.to_bits();
    }
    ParamSnapshot { values }
}

#[test]
fn state_roundtrip_both_orders() {
    let s = sample_snapshot();
    for order in [ByteOrder::Little, ByteOrder::Big] {
        let bytes = encode_snapshot(&s, order);
        assert_eq!(bytes.len(), STATE_SIZE);
        let back = decode_snapshot(&bytes, order);
        assert_eq!(back.values, s.values);
    }
}

#[test]
fn state_layout_matches_native_bytes() {
    let s = sample_snapshot();
    let le = encode_snapshot(&s, ByteOrder::Little);
    let be = encode_snapshot(&s, ByteOrder::Big);
    for (i, v) in s.values.iter().enumerate() {
        assert_eq!(&le[8 * i..8 * i + 8], &v.to_le_bytes());
        assert_eq!(&be[8 * i..8 * i + 8], &v.to_be_bytes());
    }
    let mut one = [0u64; PARAMS_COUNT];
    one[0] = 1;
    let bytes = encode_snapshot(&ParamSnapshot { values: one }, ByteOrder::Little);
    assert_eq!(bytes[0], 1);
    assert!(bytes[1..].iter().all(|b| *b == 0));
}

#[test]
fn transfer_handles_short_calls() {
    let mut t = Transfer::new(10);
    match t.next_request() {
        TransferStep::Again { offset, count } => assert_eq!((offset, count), (0, 10)),
        TransferStep::Done => panic!("nothing moved yet"),
    }
    assert!(t.record(4));
    match t.next_request() {
        TransferStep::Again { offset, count } => assert_eq!((offset, count), (4, 6)),
        TransferStep::Done => panic!("six bytes left"),
    }
    assert!(t.record(6));
    assert!(matches!(t.next_request(), TransferStep::Done));
}

#[test]
fn transfer_fails_on_no_progress() {
    let mut t = Transfer::new(3);
    assert!(!t.record(0));
    assert!(!t.record(-1));
    assert_eq!(t.offset, 0);
    let mut empty = Transfer::new(0);
    assert!(matches!(empty.next_request(), TransferStep::Done));
    assert!(empty.record(1));
}

#[test]
fn preset_lookup() {
    assert_eq!(
        preset_values("chu-moy"),
        Some([700000, 6000, 30000, -270, 0, 0, 1000, 1000, 0])
    );
    assert_eq!(preset_values("default").unwrap()[0], 822000);
    assert_eq!(preset_values("jan-meier").unwrap()[1], 9500);
    assert_eq!(preset_values("Chu Moy"), None);
    assert_eq!(preset_values(""), None);
    let all = presets();
    let names: Vec<&str> = all.iter().map(|p| p.name).collect();
    assert_eq!(names, vec!["Default", "Chu Moy", "Jan Meier"]);
    assert!(all.iter().all(|p| p.values.len() == PRESET_VALUES));
}

#[test]
fn channel_is_bounded_fifo() {
    let (tx, rx) = channel::<u32>(2);
    assert_eq!(tx.push(1), Ok(()));
    assert_eq!(tx.push(2), Ok(()));
    assert_eq!(tx.push(3), Err(3));
    assert_eq!(rx.pop(), Some(1));
    let tx2 = rx.new_sender();
    assert_eq!(tx2.push(4), Ok(()));
    let rx2 = tx.clone().new_receiver();
    assert_eq!(rx2.pop(), Some(2));
    assert_eq!(rx.pop(), Some(4));
    assert_eq!(rx.pop(), None);
}
