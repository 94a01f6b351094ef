use elm327::decoder::FuelSystem;
use elm327::decoder::ObdStandard;
use elm327::decoder::State;
use elm327::pids::ResultSize;
use elm327::ratio::Ratio;
use elm327::registry::Bound;
use elm327::registry::Decoded;
use elm327::registry::DecodeKind;
use elm327::registry::ObdError;
use elm327::registry::Registry;

fn as_f64(r: Ratio) -> f64 {
    r.num as f64 / r.den as f64
}

#[test]
fn lookup_resolves_engine_speed() {
    let registry = Registry::new();
    let d = registry.lookup(0x01, 0x0C).unwrap();
    assert_eq!(d.mode, 0x01);
    assert_eq!(d.pid, 0x0C);
    assert_eq!(d.kind, DecodeKind::EngineRpm);
    assert_eq!(d.result_size, ResultSize::Value(2));
    assert_eq!(d.unit, Some("rpm"));
}

#[test]
fn lookup_unregistered_pid_fails() {
    let registry = Registry::new();
    assert!(registry.lookup(0x01, 0xFF).is_none());
    assert!(registry.lookup(0x02, 0x0C).is_none());
    assert_eq!(
        registry.decode(0x01, 0xFF, &vec![0]),
        Err(ObdError::NotFound)
    );
}

#[test]
fn lookup_finds_every_table_entry() {
    let registry = Registry::new();
    for d in registry.all(0x01) {
        let found = registry.lookup(d.mode, d.pid).unwrap();
        assert_eq!(found.pid, d.pid);
        assert_eq!(found.kind, d.kind);
    }
}

#[test]
fn decode_engine_speed_payload() {
    let registry = Registry::new();
    let r = registry.decode(0x01, 0x0C, &vec![0x1A, 0xF8]).unwrap();
    match r {
        Decoded::Rational(q) => assert_eq!(as_f64(q), 1726.0),
        other => panic!("unexpected decode result: {:?}", other),
    }
}

#[test]
fn decode_rejects_wrong_width() {
    let registry = Registry::new();
    assert_eq!(
        registry.decode(0x01, 0x0C, &vec![0x1A]),
        Err(ObdError::InvalidLength)
    );
    assert_eq!(
        registry.decode(0x01, 0x05, &vec![0x00, 0x01]),
        Err(ObdError::InvalidLength)
    );
    assert_eq!(
        registry.decode(0x01, 0x00, &vec![]),
        Err(ObdError::InvalidLength)
    );
}

#[test]
fn decode_supported_pids_payload() {
    let registry = Registry::new();
    let r = registry.decode(0x01, 0x00, &vec![0xBE, 0x1F, 0xA8, 0x13]).unwrap();
    assert_eq!(
        r,
        Decoded::Pids(vec![1, 3, 4, 5, 6, 7, 12, 13, 14, 15, 16, 17, 19, 21, 28, 31, 32])
    );
}

#[test]
fn decode_temperature_and_status_payloads() {
    let registry = Registry::new();
    assert_eq!(registry.decode(0x01, 0x05, &vec![0]).unwrap(), Decoded::Celsius(-40));
    assert_eq!(registry.decode(0x01, 0x0F, &vec![255]).unwrap(), Decoded::Celsius(215));
    assert_eq!(
        registry.decode(0x01, 0x1C, &vec![1]).unwrap(),
        Decoded::Standard(ObdStandard::Obd2CARB)
    );
    assert_eq!(
        registry.decode(0x01, 0x1E, &vec![0x80]).unwrap(),
        Decoded::Binary(State::On)
    );
    assert_eq!(
        registry.decode(0x01, 0x03, &vec![0x01, 0x02]).unwrap(),
        Decoded::Fuel(
            FuelSystem::ClosedLoopOxygenFeedback,
            FuelSystem::OpenLoopInsufficientTemperature,
        )
    );
    assert_eq!(registry.decode(0x01, 0x02, &vec![0, 0]).unwrap(), Decoded::Empty);
    assert_eq!(
        registry.decode(0x01, 0x01, &vec![0x81, 0x07, 0x65, 0x04]).unwrap(),
        Decoded::Dword(0x81076504)
    );
}

#[test]
fn decode_word_payloads() {
    let registry = Registry::new();
    assert_eq!(registry.decode(0x01, 0x1F, &vec![0x04, 0xD2]).unwrap(), Decoded::Word(1234));
    assert_eq!(registry.decode(0x01, 0x21, &vec![0x10, 0xE1]).unwrap(), Decoded::Word(4321));
    assert_eq!(registry.decode(0x01, 0x0A, &vec![255]).unwrap(), Decoded::Word(765));
    assert_eq!(registry.decode(0x01, 0x0D, &vec![88]).unwrap(), Decoded::Byte(88));
    assert_eq!(
        registry.decode(0x01, 0x23, &vec![0xFF, 0xFF]).unwrap(),
        Decoded::Dword(655350)
    );
}

#[test]
fn all_lists_the_mode_in_ascending_pid_order() {
    let registry = Registry::new();
    let table = registry.all(0x01);
    assert_eq!(table.len(), 47);
    for pair in table.windows(2) {
        assert!(pair[0].pid < pair[1].pid);
    }
    assert!(registry.all(0x02).is_empty());
    assert!(registry.all(0x09).is_empty());
}

#[test]
fn table_has_one_entry_per_declared_fuel_trim_pid() {
    // Long-term fuel trim is declared for both banks under PID 0x07; the
    // registry keeps unique keys, so 0x07 appears once and 0x09 is absent.
    let registry = Registry::new();
    let trims: Vec<u8> = registry
        .all(0x01)
        .into_iter()
        .filter(|d| d.kind == DecodeKind::FuelTrim)
        .map(|d| d.pid)
        .collect();
    assert_eq!(trims, vec![0x06, 0x07, 0x08, 0x2D]);
    assert!(registry.lookup(0x01, 0x09).is_none());
}

#[test]
fn declared_bounds_reproduced_at_extreme_inputs() {
    let registry = Registry::new();
    // Percent-style: byte 0 and byte 255 reproduce the declared bounds.
    let d = registry.lookup(0x01, 0x04).unwrap();
    let (lo, hi) = (d.min.unwrap(), d.max.unwrap());
    match (
        registry.decode(0x01, 0x04, &vec![0]).unwrap(),
        registry.decode(0x01, 0x04, &vec![255]).unwrap(),
        lo,
        hi,
    ) {
        (Decoded::Rational(a), Decoded::Rational(b), Bound::Rational(l), Bound::Rational(h)) => {
            assert!((as_f64(a) - as_f64(l)).abs() < 1e-9);
            assert!((as_f64(b) - as_f64(h)).abs() < 1e-9);
        },
        other => panic!("unexpected shapes: {:?}", other),
    }
    // Temperature: bytes 0 and 255 give the declared -40 and 215.
    let t = registry.lookup(0x01, 0x05).unwrap();
    assert_eq!(t.min, Some(Bound::Celsius(-40)));
    assert_eq!(t.max, Some(Bound::Celsius(215)));
    assert_eq!(registry.decode(0x01, 0x05, &vec![0]).unwrap(), Decoded::Celsius(-40));
    assert_eq!(registry.decode(0x01, 0x05, &vec![255]).unwrap(), Decoded::Celsius(215));
    // Engine speed: words 0x0000 and 0xFFFF give the declared 0 and 16383.75.
    let s = registry.lookup(0x01, 0x0C).unwrap();
    match (
        registry.decode(0x01, 0x0C, &vec![0, 0]).unwrap(),
        registry.decode(0x01, 0x0C, &vec![0xFF, 0xFF]).unwrap(),
        s.min.unwrap(),
        s.max.unwrap(),
    ) {
        (Decoded::Rational(a), Decoded::Rational(b), Bound::Rational(l), Bound::Rational(h)) => {
            assert_eq!(as_f64(a), as_f64(l));
            assert_eq!(as_f64(b), as_f64(h));
        },
        other => panic!("unexpected shapes: {:?}", other),
    }
}

#[test]
fn error_variants_are_distinct() {
    assert_ne!(ObdError::NotFound, ObdError::InvalidLength);
    assert_eq!(ObdError::NotFound, ObdError::NotFound);
}
