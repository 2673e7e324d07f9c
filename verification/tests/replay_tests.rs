use rngtape::dispatch::Sample;
use rngtape::distributions::{AbstractNormal, AbstractUniform, DistRequest};
use rngtape::error::{DistKind, NumericKind, OpKind, TapeError};
use rngtape::replay::ReplayTapeRng;
use rngtape::tape::TapeOp;

fn header() -> Vec<u8> {
    let mut v = b"RNGTAPE".to_vec();
    v.push(1);
    v
}

fn push_i64(v: &mut Vec<u8>, x: i64) {
    v.extend_from_slice(&x.to_le_bytes());
}

fn push_f64(v: &mut Vec<u8>, x: f64) {
    v.extend_from_slice(&x.to_le_bytes());
}

fn random_integers_op(v: &mut Vec<u8>, low: i64, high: i64, shape: &[i64], data: &[i64]) {
    v.extend_from_slice(b"Dri.");
    push_i64(v, low);
    push_i64(v, high);
    push_i64(v, shape.len() as i64);
    for &d in shape {
        push_i64(v, d);
    }
    for &x in data {
        push_i64(v, x);
    }
}

fn standard_normal_op(v: &mut Vec<u8>, shape: &[i64], data: &[f64]) {
    v.extend_from_slice(b"Dsn.");
    push_i64(v, shape.len() as i64);
    for &d in shape {
        push_i64(v, d);
    }
    for &x in data {
        push_f64(v, x);
    }
}

fn normal_op(v: &mut Vec<u8>, mean: f64, std_dev: f64, shape: &[i64], data: &[f64]) {
    v.extend_from_slice(b"Dn..");
    push_f64(v, mean);
    push_f64(v, std_dev);
    push_i64(v, shape.len() as i64);
    for &d in shape {
        push_i64(v, d);
    }
    for &x in data {
        push_f64(v, x);
    }
}

#[test]
fn uniform_round_trip_and_exhaustion() {
    // One integer-range operation, low 0, high 9, shape [3], values [2, 7, 4].
    let mut bytes = header();
    random_integers_op(&mut bytes, 0, 9, &[3], &[2, 7, 4]);
    let mut rng = ReplayTapeRng::from_bytes(&bytes).unwrap();
    let req = DistRequest::AbstractUniformSigned(AbstractUniform::new_inclusive(0, 9));
    assert_eq!(rng.sample(&req), Ok(Sample::Signed(2)));
    assert_eq!(rng.sample(&req), Ok(Sample::Signed(7)));
    assert_eq!(rng.sample(&req), Ok(Sample::Signed(4)));
    assert!(!rng.is_open());
    assert_eq!(rng.sample(&req), Err(TapeError::TapeExhausted));
}

#[test]
fn standard_normal_round_trip() {
    // One standard-normal operation, shape [2], values [0.5, -1.2].
    let mut bytes = header();
    standard_normal_op(&mut bytes, &[2], &[0.5, -1.2]);
    let mut rng = ReplayTapeRng::from_bytes(&bytes).unwrap();
    let req = DistRequest::StandardNormal(NumericKind::Float);
    assert_eq!(rng.sample(&req), Ok(Sample::FloatBits(0.5f64.to_bits())));
    assert_eq!(rng.sample(&req), Ok(Sample::FloatBits((-1.2f64).to_bits())));
    assert_eq!(rng.sample(&req), Err(TapeError::TapeExhausted));
}

#[test]
fn normal_validating_then_exhausted() {
    // One normal operation, mean 1.0, stddev 2.0, one value 1.1.
    let mut bytes = header();
    normal_op(&mut bytes, 1.0, 2.0, &[1], &[1.1]);
    let mut rng = ReplayTapeRng::from_bytes(&bytes).unwrap();
    let matching = DistRequest::AbstractNormal(AbstractNormal::new(
        1.0f64.to_bits(),
        2.0f64.to_bits(),
    ));
    assert_eq!(rng.sample(&matching), Ok(Sample::FloatBits(1.1f64.to_bits())));
    let drifted = DistRequest::AbstractNormal(AbstractNormal::new(
        0.0f64.to_bits(),
        1.0f64.to_bits(),
    ));
    assert_eq!(rng.sample(&drifted), Err(TapeError::TapeExhausted));
}

#[test]
fn normal_drift_before_exhaustion() {
    let mut bytes = header();
    normal_op(&mut bytes, 1.0, 2.0, &[2], &[1.1, 1.2]);
    let mut rng = ReplayTapeRng::from_bytes(&bytes).unwrap();
    let matching = DistRequest::AbstractNormal(AbstractNormal::new(
        1.0f64.to_bits(),
        2.0f64.to_bits(),
    ));
    assert_eq!(rng.sample(&matching), Ok(Sample::FloatBits(1.1f64.to_bits())));
    let drifted = DistRequest::AbstractNormal(AbstractNormal::new(
        0.0f64.to_bits(),
        1.0f64.to_bits(),
    ));
    assert_eq!(rng.sample(&drifted), Err(TapeError::ParameterDrift));
    // The failed call consumed nothing: the matching request still
    // gets the second value.
    assert_eq!(rng.sample(&matching), Ok(Sample::FloatBits(1.2f64.to_bits())));
}

#[test]
fn uniform_drift_detected() {
    let mut bytes = header();
    random_integers_op(&mut bytes, 0, 9, &[3], &[2, 7, 4]);
    let mut rng = ReplayTapeRng::from_bytes(&bytes).unwrap();
    let wrong_bounds = DistRequest::AbstractUniformSigned(AbstractUniform::new_inclusive(0, 8));
    assert_eq!(rng.sample(&wrong_bounds), Err(TapeError::ParameterDrift));
    // A half-open request never matches the recorded inclusive bounds.
    let half_open = DistRequest::AbstractUniformSigned(AbstractUniform::new(0, 9));
    assert_eq!(rng.sample(&half_open), Err(TapeError::ParameterDrift));
}

#[test]
fn pairing_mismatch_never_returns_a_value() {
    let mut bytes = header();
    random_integers_op(&mut bytes, 0, 9, &[1], &[5]);
    let mut rng = ReplayTapeRng::from_bytes(&bytes).unwrap();
    assert_eq!(
        rng.sample(&DistRequest::StandardNormal(NumericKind::Float)),
        Err(TapeError::OperationMismatch {
            requested: DistKind::StandardNormal,
            found: OpKind::RandomIntegers,
        })
    );
    assert_eq!(
        rng.sample(&DistRequest::AbstractNormal(AbstractNormal::new(0, 0))),
        Err(TapeError::OperationMismatch {
            requested: DistKind::AbstractNormal,
            found: OpKind::RandomIntegers,
        })
    );
    // The mismatches consumed nothing.
    assert_eq!(
        rng.sample(&DistRequest::Uniform(NumericKind::Signed)),
        Ok(Sample::Signed(5))
    );
}

#[test]
fn pairing_unsupported_reports_kind_and_type() {
    let mut bytes = header();
    random_integers_op(&mut bytes, 0, 9, &[1], &[5]);
    let mut rng = ReplayTapeRng::from_bytes(&bytes).unwrap();
    assert_eq!(
        rng.sample(&DistRequest::Uniform(NumericKind::Float)),
        Err(TapeError::PairingUnsupported { kind: DistKind::Uniform, num: NumericKind::Float })
    );
    assert_eq!(
        rng.sample(&DistRequest::StandardNormal(NumericKind::Signed)),
        Err(TapeError::PairingUnsupported {
            kind: DistKind::StandardNormal,
            num: NumericKind::Signed,
        })
    );
    assert_eq!(
        rng.sample(&DistRequest::Normal(NumericKind::Unsigned)),
        Err(TapeError::PairingUnsupported { kind: DistKind::Normal, num: NumericKind::Unsigned })
    );
}

#[test]
fn non_validating_requests_skip_the_parameter_check() {
    let mut bytes = header();
    random_integers_op(&mut bytes, 3, 17, &[1], &[11]);
    normal_op(&mut bytes, 5.0, 0.25, &[1], &[4.75]);
    let mut rng = ReplayTapeRng::from_bytes(&bytes).unwrap();
    // The bare requests carry no bounds, so nothing is compared.
    assert_eq!(
        rng.sample(&DistRequest::Uniform(NumericKind::Signed)),
        Ok(Sample::Signed(11))
    );
    assert_eq!(
        rng.sample(&DistRequest::Normal(NumericKind::Float)),
        Ok(Sample::FloatBits(4.75f64.to_bits()))
    );
}

#[test]
fn unsigned_narrowing_rejects_negative_values() {
    let mut bytes = header();
    random_integers_op(&mut bytes, -5, 5, &[2], &[-3, 4]);
    let mut rng = ReplayTapeRng::from_bytes(&bytes).unwrap();
    assert_eq!(
        rng.sample(&DistRequest::Uniform(NumericKind::Unsigned)),
        Err(TapeError::RangeViolation)
    );
    // The failed call consumed nothing; a signed request reads the value.
    assert_eq!(
        rng.sample(&DistRequest::Uniform(NumericKind::Signed)),
        Ok(Sample::Signed(-3))
    );
    assert_eq!(
        rng.sample(&DistRequest::Uniform(NumericKind::Unsigned)),
        Ok(Sample::Unsigned(4))
    );
}

#[test]
fn unsigned_validating_rejects_negative_bounds() {
    let mut bytes = header();
    random_integers_op(&mut bytes, -1, 9, &[1], &[5]);
    let mut rng = ReplayTapeRng::from_bytes(&bytes).unwrap();
    let req = DistRequest::AbstractUniformUnsigned(AbstractUniform::new_inclusive(0u64, 9u64));
    assert_eq!(rng.sample(&req), Err(TapeError::RangeViolation));
}

#[test]
fn unsigned_validating_round_trip() {
    let mut bytes = header();
    random_integers_op(&mut bytes, 0, 9, &[2], &[8, 0]);
    let mut rng = ReplayTapeRng::from_bytes(&bytes).unwrap();
    let req = DistRequest::AbstractUniformUnsigned(AbstractUniform::new_inclusive(0u64, 9u64));
    assert_eq!(rng.sample(&req), Ok(Sample::Unsigned(8)));
    assert_eq!(rng.sample(&req), Ok(Sample::Unsigned(0)));
    assert_eq!(rng.sample(&req), Err(TapeError::TapeExhausted));
}

#[test]
fn shape_metadata_is_irrelevant_to_replay() {
    // Identical flat values under different shape metadata replay
    // identically.
    let mut t1 = header();
    random_integers_op(&mut t1, 0, 9, &[3], &[2, 7, 4]);
    let mut t2 = header();
    random_integers_op(&mut t2, 0, 9, &[3, 1, 1], &[2, 7, 4]);
    let mut r1 = ReplayTapeRng::from_bytes(&t1).unwrap();
    let mut r2 = ReplayTapeRng::from_bytes(&t2).unwrap();
    let req = DistRequest::Uniform(NumericKind::Signed);
    for _ in 0..3 {
        let a = r1.sample(&req);
        let b = r2.sample(&req);
        assert_eq!(a, b);
        assert!(a.is_ok());
    }
    assert_eq!(r1.sample(&req), r2.sample(&req));
}

#[test]
fn multiple_operations_replay_in_order() {
    let mut bytes = header();
    random_integers_op(&mut bytes, 0, 9, &[2], &[1, 2]);
    standard_normal_op(&mut bytes, &[1], &[0.25]);
    normal_op(&mut bytes, 0.5, 1.5, &[1], &[0.75]);
    let mut rng = ReplayTapeRng::from_bytes(&bytes).unwrap();
    let uni = DistRequest::AbstractUniformSigned(AbstractUniform::new_inclusive(0, 9));
    assert_eq!(rng.sample(&uni), Ok(Sample::Signed(1)));
    assert_eq!(rng.sample(&uni), Ok(Sample::Signed(2)));
    assert_eq!(
        rng.sample(&DistRequest::StandardNormal(NumericKind::Float)),
        Ok(Sample::FloatBits(0.25f64.to_bits()))
    );
    let nrm = DistRequest::AbstractNormal(AbstractNormal::new(
        0.5f64.to_bits(),
        1.5f64.to_bits(),
    ));
    assert_eq!(rng.sample(&nrm), Ok(Sample::FloatBits(0.75f64.to_bits())));
    assert_eq!(rng.sample(&nrm), Err(TapeError::TapeExhausted));
}

#[test]
fn empty_operations_are_skipped() {
    // A zero-sized shape spans no values; replay flows past it.
    let mut bytes = header();
    random_integers_op(&mut bytes, 0, 9, &[0], &[]);
    random_integers_op(&mut bytes, 0, 9, &[1], &[6]);
    random_integers_op(&mut bytes, 0, 9, &[0], &[]);
    let mut rng = ReplayTapeRng::from_bytes(&bytes).unwrap();
    assert!(rng.is_open());
    let req = DistRequest::Uniform(NumericKind::Signed);
    assert_eq!(rng.sample(&req), Ok(Sample::Signed(6)));
    assert!(!rng.is_open());
    assert_eq!(rng.sample(&req), Err(TapeError::TapeExhausted));
}

#[test]
fn empty_tape_fails_fast() {
    let bytes = header();
    let mut rng = ReplayTapeRng::from_bytes(&bytes).unwrap();
    assert!(!rng.is_open());
    assert_eq!(
        rng.sample(&DistRequest::Uniform(NumericKind::Signed)),
        Err(TapeError::TapeExhausted)
    );
}

#[test]
fn session_from_parsed_operations() {
    let ops = vec![
        TapeOp::RandomIntegers { low: 0, high: 1, shape: vec![2], data: vec![0, 1] },
        TapeOp::Normal {
            mean_bits: 2.5f64.to_bits(),
            std_dev_bits: 0.5f64.to_bits(),
            data: vec![2.25f64.to_bits()],
        },
    ];
    let mut rng = ReplayTapeRng::from_ops(ops);
    let uni = DistRequest::Uniform(NumericKind::Signed);
    assert_eq!(rng.sample(&uni), Ok(Sample::Signed(0)));
    assert_eq!(rng.sample(&uni), Ok(Sample::Signed(1)));
    let nrm = DistRequest::AbstractNormal(AbstractNormal::new(
        2.5f64.to_bits(),
        0.5f64.to_bits(),
    ));
    assert_eq!(rng.sample(&nrm), Ok(Sample::FloatBits(2.25f64.to_bits())));
    assert_eq!(rng.sample(&nrm), Err(TapeError::TapeExhausted));
}

#[test]
fn zero_sign_does_not_drift() {
    // Recorded mean -0.0 against requested +0.0 (and the reverse for
    // the deviation): equal as doubles, so validation passes.
    let mut bytes = header();
    normal_op(&mut bytes, -0.0, 1.0, &[1], &[0.25]);
    let mut rng = ReplayTapeRng::from_bytes(&bytes).unwrap();
    let req = DistRequest::AbstractNormal(AbstractNormal::new(
        0.0f64.to_bits(),
        1.0f64.to_bits(),
    ));
    assert_eq!(rng.sample(&req), Ok(Sample::FloatBits(0.25f64.to_bits())));
}

#[test]
fn nan_parameters_always_drift() {
    // A recorded NaN parameter is equal to nothing, itself included:
    // even a request carrying the identical bit pattern drifts.
    let mut bytes = header();
    normal_op(&mut bytes, f64::NAN, 1.0, &[1], &[0.25]);
    let mut rng = ReplayTapeRng::from_bytes(&bytes).unwrap();
    let bit_identical = DistRequest::AbstractNormal(AbstractNormal::new(
        f64::NAN.to_bits(),
        1.0f64.to_bits(),
    ));
    assert_eq!(rng.sample(&bit_identical), Err(TapeError::ParameterDrift));
    // The value is still there for a non-validating request.
    assert_eq!(
        rng.sample(&DistRequest::Normal(NumericKind::Float)),
        Ok(Sample::FloatBits(0.25f64.to_bits()))
    );
}
