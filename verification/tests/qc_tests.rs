use consensus_core::bitmap::SignerBitmap;
use consensus_core::qc::{
    finish_assembly, finish_check, finish_trace, AggregateSignatureScheme, BitVectorQc,
    ParameterError, QcError, QcParams, QuorumCertificate,
};
use consensus_core::stake::{collect_signer_keys, sum_weight, StakeAmount, StakeTableEntry};

/// A toy primitive: the partial signature of a key over a message is a
/// 64-bit mix of both, an aggregate is the wrapping sum of its parts, and
/// the verification key of a signing key is its little-endian bytes.
struct ToyScheme;

#[derive(Debug, Clone, PartialEq, Eq)]
enum ToyError {
    Malformed,
    Rejected,
}

fn mix(pp: u64, key: u64, msg: &[u8]) -> u64 {
    let mut acc: u64 = pp ^ key.wrapping_mul(0x9e37_79b9_7f4a_7c15);
    for b in msg {
        acc = acc.rotate_left(7) ^ u64::from(*b);
        acc = acc.wrapping_mul(0x0000_0100_0000_01b3);
    }
    acc ^ key.rotate_left(29)
}

fn word(bytes: &[u8]) -> Result<u64, ToyError> {
    let fixed: [u8; 8] = bytes.try_into().map_err(|_| ToyError::Malformed)?;
    Ok(u64::from_le_bytes(fixed))
}

impl AggregateSignatureScheme for ToyScheme {
    type PublicParameter = u64;
    type SigningKey = u64;
    type Randomness = u64;
    type Error = ToyError;

    fn sign(pp: &u64, sk: &u64, msg: &[u8], prng: &mut u64) -> Result<Vec<u8>, ToyError> {
        *prng += 1;
        if *sk == 0 {
            return Err(ToyError::Malformed);
        }
        Ok(mix(*pp, *sk, msg).to_le_bytes().to_vec())
    }

    fn aggregate(_pp: &u64, vks: &Vec<Vec<u8>>, sigs: &Vec<Vec<u8>>) -> Result<Vec<u8>, ToyError> {
        if vks.len() != sigs.len() {
            return Err(ToyError::Malformed);
        }
        let mut sum: u64 = 0;
        for sig in sigs {
            sum = sum.wrapping_add(word(sig)?);
        }
        Ok(sum.to_le_bytes().to_vec())
    }

    fn multi_sig_verify(
        pp: &u64,
        vks: &Vec<Vec<u8>>,
        msg: &[u8; 32],
        sig: &Vec<u8>,
    ) -> Result<(), ToyError> {
        let mut expected: u64 = 0;
        for vk in vks {
            expected = expected.wrapping_add(mix(*pp, word(vk)?, msg));
        }
        if word(sig)? == expected {
            Ok(())
        } else {
            Err(ToyError::Rejected)
        }
    }
}

type Scheme = BitVectorQc<ToyScheme>;

fn ver_key(sk: u64) -> Vec<u8> {
    sk.to_le_bytes().to_vec()
}

fn entry(sk: u64, stake: u64) -> StakeTableEntry {
    StakeTableEntry { stake_key: ver_key(sk), stake_amount: StakeAmount::from_u64(stake) }
}

fn three_validators() -> QcParams<u64> {
    QcParams {
        stake_entries: vec![entry(11, 3), entry(22, 5), entry(33, 7)],
        threshold: StakeAmount::from_u64(10),
        agg_sig_pp: 99,
    }
}

fn bitmap(bits: &[bool]) -> SignerBitmap {
    SignerBitmap::from_bools(bits)
}

#[test]
fn test_quorum_certificate() {
    let mut rng: u64 = 0;
    let agg_sig_pp: u64 = 99;
    let qc_pp = three_validators();
    let msg = [72u8; 32];
    let sig1 = Scheme::sign(&agg_sig_pp, &11, &msg, &mut rng).unwrap();
    let sig2 = Scheme::sign(&agg_sig_pp, &22, &msg, &mut rng).unwrap();
    let sig3 = Scheme::sign(&agg_sig_pp, &33, &msg, &mut rng).unwrap();

    // happy path
    let signers = bitmap(&[false, true, true]);
    let qc = Scheme::assemble(&qc_pp, &signers, &vec![sig2.clone(), sig3.clone()]).unwrap();
    assert!(Scheme::check(&qc_pp, &msg, &qc).is_ok());
    assert_eq!(Scheme::trace(&qc_pp, &msg, &qc).unwrap(), vec![ver_key(22), ver_key(33)]);

    // bad paths
    // number of signatures unmatch
    assert!(Scheme::assemble(&qc_pp, &signers, &vec![sig2.clone()]).is_err());
    // total weight under threshold
    let active_bad = bitmap(&[true, true, false]);
    assert!(Scheme::assemble(&qc_pp, &active_bad, &vec![sig1.clone(), sig2.clone()]).is_err());
    // wrong bool vector length
    let active_bad_2 = bitmap(&[false, true, true, false]);
    assert!(Scheme::assemble(&qc_pp, &active_bad_2, &vec![sig2, sig3]).is_err());

    assert!(Scheme::check(
        &qc_pp,
        &msg,
        &QuorumCertificate { signature: qc.signature.clone(), signers: active_bad }
    )
    .is_err());
    assert!(Scheme::check(
        &qc_pp,
        &msg,
        &QuorumCertificate { signature: qc.signature.clone(), signers: active_bad_2 }
    )
    .is_err());
    let bad_msg = [70u8; 32];
    assert!(Scheme::check(&qc_pp, &bad_msg, &qc).is_err());

    let bad_sig = &sig1;
    assert!(Scheme::check(
        &qc_pp,
        &msg,
        &QuorumCertificate { signature: bad_sig.clone(), signers: qc.signers }
    )
    .is_err());
}

#[test]
fn quorum_of_two_assembles_checks_and_traces() {
    let mut rng: u64 = 0;
    let qc_pp = three_validators();
    let msg = [1u8; 32];
    let sig2 = Scheme::sign(&99, &22, &msg, &mut rng).unwrap();
    let sig3 = Scheme::sign(&99, &33, &msg, &mut rng).unwrap();
    let signers = bitmap(&[false, true, true]);
    let qc = Scheme::assemble(&qc_pp, &signers, &vec![sig2, sig3]).unwrap();
    assert_eq!(qc.signers.to_bools(), vec![false, true, true]);
    assert_eq!(Scheme::check(&qc_pp, &msg, &qc), Ok(StakeAmount::from_u64(12)));
    assert_eq!(Scheme::trace(&qc_pp, &msg, &qc), Ok(vec![ver_key(22), ver_key(33)]));
}

#[test]
fn weight_below_threshold_is_a_parameter_error() {
    let mut rng: u64 = 0;
    let qc_pp = three_validators();
    let msg = [1u8; 32];
    let sig1 = Scheme::sign(&99, &11, &msg, &mut rng).unwrap();
    let sig2 = Scheme::sign(&99, &22, &msg, &mut rng).unwrap();
    let signers = bitmap(&[true, true, false]);
    assert_eq!(
        Scheme::assemble(&qc_pp, &signers, &vec![sig1.clone(), sig2.clone()]),
        Err(QcError::Parameter(ParameterError::BelowThreshold))
    );
    // whatever the signatures are
    assert_eq!(
        Scheme::assemble(&qc_pp, &signers, &vec![vec![0u8; 3]]),
        Err(QcError::Parameter(ParameterError::BelowThreshold))
    );
    assert_eq!(
        Scheme::assemble(&qc_pp, &signers, &vec![]),
        Err(QcError::Parameter(ParameterError::BelowThreshold))
    );
    let forged = QuorumCertificate { signature: sig1, signers };
    assert_eq!(
        Scheme::check(&qc_pp, &msg, &forged),
        Err(QcError::Parameter(ParameterError::BelowThreshold))
    );
    assert_eq!(
        Scheme::trace(&qc_pp, &msg, &forged),
        Err(QcError::Parameter(ParameterError::BelowThreshold))
    );
}

#[test]
fn weight_equal_to_threshold_is_a_quorum() {
    let mut rng: u64 = 0;
    let mut qc_pp = three_validators();
    qc_pp.threshold = StakeAmount::from_u64(12);
    let msg = [5u8; 32];
    let sig2 = Scheme::sign(&99, &22, &msg, &mut rng).unwrap();
    let sig3 = Scheme::sign(&99, &33, &msg, &mut rng).unwrap();
    let signers = bitmap(&[false, true, true]);
    let qc = Scheme::assemble(&qc_pp, &signers, &vec![sig2, sig3]).unwrap();
    assert_eq!(Scheme::check(&qc_pp, &msg, &qc), Ok(StakeAmount::from_u64(12)));
    qc_pp.threshold = StakeAmount::from_u64(13);
    assert_eq!(
        Scheme::check(&qc_pp, &msg, &qc),
        Err(QcError::Parameter(ParameterError::BelowThreshold))
    );
}

#[test]
fn length_mismatch_is_a_parameter_error() {
    let qc_pp = three_validators();
    let msg = [1u8; 32];
    let long = bitmap(&[false, true, true, false]);
    let short = bitmap(&[true, true]);
    assert_eq!(
        Scheme::assemble(&qc_pp, &long, &vec![vec![0u8; 8], vec![0u8; 8]]),
        Err(QcError::Parameter(ParameterError::LengthMismatch { bitmap_len: 4, entries: 3 }))
    );
    assert_eq!(
        Scheme::assemble(&qc_pp, &short, &vec![vec![0u8; 8], vec![0u8; 8]]),
        Err(QcError::Parameter(ParameterError::LengthMismatch { bitmap_len: 2, entries: 3 }))
    );
    // a hand-made certificate that never went through assembly
    let forged = QuorumCertificate { signature: vec![0u8; 8], signers: long };
    assert_eq!(
        Scheme::check(&qc_pp, &msg, &forged),
        Err(QcError::Parameter(ParameterError::LengthMismatch { bitmap_len: 4, entries: 3 }))
    );
    assert_eq!(
        Scheme::trace(&qc_pp, &msg, &forged),
        Err(QcError::Parameter(ParameterError::LengthMismatch { bitmap_len: 4, entries: 3 }))
    );
}

#[test]
fn signature_count_mismatch_is_a_parameter_error() {
    let qc_pp = three_validators();
    let signers = bitmap(&[false, true, true]);
    assert_eq!(
        Scheme::assemble(&qc_pp, &signers, &vec![vec![0u8; 8]]),
        Err(QcError::Parameter(
            ParameterError::SignatureCountMismatch { keys: 2, signatures: 1 }
        ))
    );
    assert_eq!(
        Scheme::assemble(&qc_pp, &signers, &vec![vec![0u8; 8]; 3]),
        Err(QcError::Parameter(
            ParameterError::SignatureCountMismatch { keys: 2, signatures: 3 }
        ))
    );
}

#[test]
fn weight_overflow_is_a_parameter_error() {
    let max = StakeAmount::from_limbs([u64::MAX; 4]);
    let qc_pp = QcParams {
        stake_entries: vec![
            StakeTableEntry { stake_key: ver_key(1), stake_amount: max },
            StakeTableEntry { stake_key: ver_key(2), stake_amount: StakeAmount::from_u64(1) },
        ],
        threshold: StakeAmount::from_u64(1),
        agg_sig_pp: 0u64,
    };
    let both = bitmap(&[true, true]);
    assert_eq!(sum_weight(&qc_pp.stake_entries, &both), None);
    assert_eq!(qc_pp.quorum_weight(&both), Err(ParameterError::WeightOverflow));
    assert_eq!(
        Scheme::assemble(&qc_pp, &both, &vec![vec![0u8; 8], vec![0u8; 8]]),
        Err(QcError::Parameter(ParameterError::WeightOverflow))
    );
    let first = bitmap(&[true, false]);
    assert_eq!(qc_pp.quorum_weight(&first), Ok(max));
}

#[test]
fn check_rejects_a_signature_made_by_other_keys() {
    let mut rng: u64 = 0;
    let qc_pp = three_validators();
    let msg = [9u8; 32];
    let sig1 = Scheme::sign(&99, &11, &msg, &mut rng).unwrap();
    let sig3 = Scheme::sign(&99, &33, &msg, &mut rng).unwrap();
    // validators 1 and 3 signed, the bitmap claims validators 2 and 3
    let claimed = bitmap(&[false, true, true]);
    let qc = Scheme::assemble(&qc_pp, &claimed, &vec![sig1, sig3]).unwrap();
    assert_eq!(Scheme::check(&qc_pp, &msg, &qc), Err(QcError::Scheme(ToyError::Rejected)));
    assert_eq!(Scheme::trace(&qc_pp, &msg, &qc), Err(QcError::Scheme(ToyError::Rejected)));
}

#[test]
fn errors_of_the_primitive_come_back_unchanged() {
    let mut rng: u64 = 0;
    assert_eq!(Scheme::sign(&99, &0, &[1u8, 2, 3], &mut rng), Err(ToyError::Malformed));
    assert_eq!(rng, 1);
    let qc_pp = three_validators();
    let signers = bitmap(&[false, true, true]);
    assert_eq!(
        Scheme::assemble(&qc_pp, &signers, &vec![vec![0u8; 8], vec![0u8; 3]]),
        Err(QcError::Scheme(ToyError::Malformed))
    );
}

#[test]
fn finishing_steps_follow_the_answer_of_the_primitive() {
    let signers = bitmap(&[true, false, true]);
    let made = finish_assembly::<ToyError>(&signers, Ok(vec![7u8, 8, 9])).unwrap();
    assert_eq!(made.signature, vec![7u8, 8, 9]);
    assert_eq!(made.signers.to_bools(), vec![true, false, true]);
    assert_eq!(
        finish_assembly(&signers, Err(ToyError::Rejected)),
        Err(QcError::Scheme(ToyError::Rejected))
    );
    let w = StakeAmount::from_u64(10);
    assert_eq!(finish_check::<ToyError>(w, Ok(())), Ok(w));
    assert_eq!(finish_check(w, Err(ToyError::Rejected)), Err(QcError::Scheme(ToyError::Rejected)));
    let qc_pp = three_validators();
    assert_eq!(
        finish_trace::<u64, ToyError>(&qc_pp, &made, Ok(w)),
        Ok(vec![ver_key(11), ver_key(33)])
    );
    assert_eq!(
        finish_trace(&qc_pp, &made, Err(QcError::Scheme(ToyError::Rejected))),
        Err(QcError::Scheme(ToyError::Rejected))
    );
}

#[test]
fn keys_and_weight_follow_the_set_bits_in_order() {
    let qc_pp = three_validators();
    let all = bitmap(&[true, true, true]);
    assert_eq!(
        collect_signer_keys(&qc_pp.stake_entries, &all),
        vec![ver_key(11), ver_key(22), ver_key(33)]
    );
    assert_eq!(sum_weight(&qc_pp.stake_entries, &all), Some(StakeAmount::from_u64(15)));
    let none = bitmap(&[false, false, false]);
    assert_eq!(collect_signer_keys(&qc_pp.stake_entries, &none), Vec::<Vec<u8>>::new());
    assert_eq!(sum_weight(&qc_pp.stake_entries, &none), Some(StakeAmount::zero()));
    let outer = bitmap(&[true, false, true]);
    assert_eq!(
        collect_signer_keys(&qc_pp.stake_entries, &outer),
        vec![ver_key(11), ver_key(33)]
    );
    assert_eq!(qc_pp.assembly_keys(&outer, 2), Ok(vec![ver_key(11), ver_key(33)]));
    assert_eq!(
        qc_pp.assembly_keys(&outer, 1),
        Err(ParameterError::SignatureCountMismatch { keys: 2, signatures: 1 })
    );
}

#[test]
fn empty_snapshot_with_zero_threshold_is_a_quorum() {
    let qc_pp: QcParams<u64> =
        QcParams { stake_entries: vec![], threshold: StakeAmount::zero(), agg_sig_pp: 0 };
    let empty = bitmap(&[]);
    assert_eq!(qc_pp.quorum_weight(&empty), Ok(StakeAmount::zero()));
    let qc = Scheme::assemble(&qc_pp, &empty, &vec![]).unwrap();
    assert_eq!(Scheme::check(&qc_pp, &[0u8; 32], &qc), Ok(StakeAmount::zero()));
    assert_eq!(Scheme::trace(&qc_pp, &[0u8; 32], &qc), Ok(vec![]));
}

#[test]
fn weight_and_keys_cover_the_positions_in_common() {
    let qc_pp = three_validators();
    // a bitmap shorter than the snapshot
    let short = bitmap(&[true, true]);
    assert_eq!(sum_weight(&qc_pp.stake_entries, &short), Some(StakeAmount::from_u64(8)));
    assert_eq!(collect_signer_keys(&qc_pp.stake_entries, &short), vec![ver_key(11), ver_key(22)]);
    // a bitmap longer than the snapshot
    let long = bitmap(&[false, false, true, true, true]);
    assert_eq!(sum_weight(&qc_pp.stake_entries, &long), Some(StakeAmount::from_u64(7)));
    assert_eq!(collect_signer_keys(&qc_pp.stake_entries, &long), vec![ver_key(33)]);
    // neither is a quorum, whatever its weight
    assert_eq!(
        qc_pp.quorum_weight(&short),
        Err(ParameterError::LengthMismatch { bitmap_len: 2, entries: 3 })
    );
    assert_eq!(
        qc_pp.quorum_weight(&long),
        Err(ParameterError::LengthMismatch { bitmap_len: 5, entries: 3 })
    );
}
