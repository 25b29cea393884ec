//! Quorum certificates over a signer bitmap.
//!
//! A certificate is an aggregate signature together with the bitmap of the
//! snapshot entries whose partial signatures it combines. It is valid for a
//! snapshot when the bitmap is as long as the snapshot, the stake at its set
//! bits reaches the threshold, and the aggregate verifies under the keys at
//! the set bits. The signature primitive is injected: everything here that
//! concerns shape, weight and key selection is proved, and what the primitive
//! answers is passed on unchanged.

use crate::bitmap::{count_set, SignerBitmap};
use crate::stake::{
    byte_strings, collect_signer_keys, keys_upto, signer_keys, stake_limit, sum_weight,
    total_weight, StakeAmount, StakeTableEntry,
};
use std::marker::PhantomData;
use vstd::prelude::*;

verus! {

/// The length in bytes of a message that a certificate endorses.
pub const MESSAGE_LENGTH: usize = 32;

/// An inconsistency in the shape of the arguments. The caller can always fix
/// it; nothing is retried.
#[derive(Clone, Copy, Debug, PartialEq, Eq)]
pub enum ParameterError {
    /// The bitmap is not as long as the stake snapshot.
    LengthMismatch { bitmap_len: usize, entries: usize },
    /// The stake at the set bits does not fit in 256 bits.
    WeightOverflow,
    /// The stake at the set bits is below the threshold.
    BelowThreshold,
    /// The number of partial signatures is not the number of set bits.
    SignatureCountMismatch { keys: usize, signatures: usize },
}

/// Why a certificate could not be assembled, checked or traced.
#[derive(Clone, Debug, PartialEq, Eq)]
pub enum QcError<E> {
    /// The arguments do not fit together.
    Parameter(ParameterError),
    /// The signature primitive failed; its error is carried unchanged.
    Scheme(E),
}

/// An aggregate-signature primitive: partial signatures over a message can be
/// combined into one signature that verifies under the signers' keys. Keys
/// and signatures are opaque byte strings.
pub trait AggregateSignatureScheme {
    /// Public parameters of the primitive.
    type PublicParameter;

    /// A signing key.
    type SigningKey;

    /// A source of randomness for signing.
    type Randomness;

    /// The primitive's own error.
    type Error;

    /// Signs a message.
    fn sign(
        pp: &Self::PublicParameter,
        sk: &Self::SigningKey,
        msg: &[u8],
        prng: &mut Self::Randomness,
    ) -> Result<Vec<u8>, Self::Error>;

    /// Combines one signature per verification key into one signature.
    fn aggregate(pp: &Self::PublicParameter, vks: &Vec<Vec<u8>>, sigs: &Vec<Vec<u8>>) -> Result<
        Vec<u8>,
        Self::Error,
    >;

    /// Verifies an aggregate signature over a message under a list of keys.
    fn multi_sig_verify(
        pp: &Self::PublicParameter,
        vks: &Vec<Vec<u8>>,
        msg: &[u8; MESSAGE_LENGTH],
        sig: &Vec<u8>,
    ) -> Result<(), Self::Error>;
}

/// Public parameters of the certificate scheme: the stake snapshot a
/// certificate is verified against, the stake a quorum needs, and the
/// parameters of the signature primitive. The order of the entries is the
/// meaning of the bitmap's positions.
#[derive(Clone, Debug, PartialEq, Eq)]
pub struct QcParams<P> {
    pub stake_entries: Vec<StakeTableEntry>,
    pub threshold: StakeAmount,
    pub agg_sig_pp: P,
}

/// An aggregate signature and the bitmap of its signers.
#[derive(Clone, Debug, PartialEq, Eq)]
pub struct QuorumCertificate {
    pub signature: Vec<u8>,
    pub signers: SignerBitmap,
}

/// The certificate scheme over the signature primitive `A`.
pub struct BitVectorQc<A: AggregateSignatureScheme>(PhantomData<A>);

impl View for QuorumCertificate {
    type V = (Seq<u8>, Seq<bool>);

    open spec fn view(&self) -> (Seq<u8>, Seq<bool>) {
        (self.signature@, self.signers@)
    }
}

/// What the primitive answered when asked to aggregate, as plain values.
pub open spec fn aggregated_view<E>(r: Result<Vec<u8>, E>) -> Result<Seq<u8>, E> {
    match r {
        Ok(sig) => Ok(sig@),
        Err(e) => Err(e),
    }
}

/// The result of an assembly, as plain values.
pub open spec fn assembled_view<E>(r: Result<QuorumCertificate, QcError<E>>) -> Result<
    (Seq<u8>, Seq<bool>),
    QcError<E>,
> {
    match r {
        Ok(qc) => Ok(qc@),
        Err(e) => Err(e),
    }
}

/// The result of a check, as plain values.
pub open spec fn checked_view<E>(r: Result<StakeAmount, QcError<E>>) -> Result<nat, QcError<E>> {
    match r {
        Ok(w) => Ok(w@),
        Err(e) => Err(e),
    }
}

/// The result of a trace, as plain values.
pub open spec fn traced_view<E>(r: Result<Vec<Vec<u8>>, QcError<E>>) -> Result<
    Seq<Seq<u8>>,
    QcError<E>,
> {
    match r {
        Ok(keys) => Ok(byte_strings(keys@)),
        Err(e) => Err(e),
    }
}

/// The first reason, if any, why a bitmap is no quorum of a snapshot: its
/// length, then the size of the selected stake, then the threshold.
pub open spec fn quorum_failure(
    entries: Seq<StakeTableEntry>,
    threshold: nat,
    bits: Seq<bool>,
) -> Option<ParameterError> {
    if bits.len() != entries.len() {
        Some(
            ParameterError::LengthMismatch {
                bitmap_len: bits.len() as usize,
                entries: entries.len() as usize,
            },
        )
    } else if total_weight(entries, bits) >= stake_limit() {
        Some(ParameterError::WeightOverflow)
    } else if total_weight(entries, bits) < threshold {
        Some(ParameterError::BelowThreshold)
    } else {
        None
    }
}

/// The first reason, if any, why a bitmap and a number of partial signatures
/// cannot be assembled: no quorum, then a signature count that is not the
/// number of set bits.
pub open spec fn assembly_failure(
    entries: Seq<StakeTableEntry>,
    threshold: nat,
    bits: Seq<bool>,
    signatures: nat,
) -> Option<ParameterError> {
    match quorum_failure(entries, threshold, bits) {
        Some(e) => Some(e),
        None => if count_set(bits, bits.len()) != signatures {
            Some(
                ParameterError::SignatureCountMismatch {
                    keys: count_set(bits, bits.len()) as usize,
                    signatures: signatures as usize,
                },
            )
        } else {
            None
        },
    }
}

/// What assembling returns, given what the primitive answered when asked to
/// aggregate: the signature and the bitmap, or the first failure.
pub open spec fn assemble_outcome<E>(
    entries: Seq<StakeTableEntry>,
    threshold: nat,
    bits: Seq<bool>,
    signatures: nat,
    aggregated: Result<Seq<u8>, E>,
) -> Result<(Seq<u8>, Seq<bool>), QcError<E>> {
    match assembly_failure(entries, threshold, bits, signatures) {
        Some(e) => Err(QcError::Parameter(e)),
        None => match aggregated {
            Ok(sig) => Ok((sig, bits)),
            Err(e) => Err(QcError::Scheme(e)),
        },
    }
}

/// What checking returns, given what the primitive answered when asked to
/// verify: the selected stake, or the first failure.
pub open spec fn check_outcome<E>(
    entries: Seq<StakeTableEntry>,
    threshold: nat,
    bits: Seq<bool>,
    verified: Result<(), E>,
) -> Result<nat, QcError<E>> {
    match quorum_failure(entries, threshold, bits) {
        Some(e) => Err(QcError::Parameter(e)),
        None => match verified {
            Ok(_) => Ok(total_weight(entries, bits)),
            Err(e) => Err(QcError::Scheme(e)),
        },
    }
}

/// What tracing returns, given what checking returned: the signers' keys when
/// the certificate checked, the failure of the check otherwise.
pub open spec fn trace_outcome<E>(
    entries: Seq<StakeTableEntry>,
    bits: Seq<bool>,
    checked: Result<nat, QcError<E>>,
) -> Result<Seq<Seq<u8>>, QcError<E>> {
    match checked {
        Ok(_) => Ok(signer_keys(entries, bits)),
        Err(e) => Err(e),
    }
}

/// As many keys are selected as bits are set.
pub proof fn lemma_key_count(entries: Seq<StakeTableEntry>, bits: Seq<bool>, n: nat)
    requires
        n <= entries.len(),
        n <= bits.len(),
    ensures
        keys_upto(entries, bits, n).len() == count_set(bits, n),
    decreases n,
{
    if n > 0 {
        lemma_key_count(entries, bits, (n - 1) as nat);
    }
}

/// The positions of the set bits among the first `n` bits, in ascending
/// order.
pub open spec fn set_positions(bits: Seq<bool>, n: nat) -> Seq<int>
    decreases n,
{
    if n == 0 || n > bits.len() {
        Seq::empty()
    } else if bits[n - 1] {
        set_positions(bits, (n - 1) as nat).push(n - 1)
    } else {
        set_positions(bits, (n - 1) as nat)
    }
}

/// Law: the positions of the set bits are exactly the indices below `n`
/// whose bit is set, each once and in ascending order.
pub proof fn law_set_positions_ascend(bits: Seq<bool>, n: nat)
    requires
        n <= bits.len(),
    ensures
        set_positions(bits, n).len() == count_set(bits, n),
        forall|j: int|
            0 <= j < set_positions(bits, n).len() ==> 0 <= #[trigger] set_positions(bits, n)[j]
                < n && bits[set_positions(bits, n)[j]],
        forall|j: int, k: int|
            0 <= j < k < set_positions(bits, n).len() ==> #[trigger] set_positions(bits, n)[j]
                < #[trigger] set_positions(bits, n)[k],
        forall|i: int|
            0 <= i < n && #[trigger] bits[i] ==> set_positions(bits, n).contains(i),
    decreases n,
{
    if n > 0 {
        let prev = set_positions(bits, (n - 1) as nat);
        law_set_positions_ascend(bits, (n - 1) as nat);
        if bits[n - 1] {
            let cur = set_positions(bits, n);
            assert(cur[prev.len() as int] == n - 1);
            assert forall|i: int| 0 <= i < n && #[trigger] bits[i] implies cur.contains(i) by {
                if i < n - 1 {
                    let j = choose|j: int| 0 <= j < prev.len() && prev[j] == i;
                    assert(cur[j] == i);
                }
            }
        }
    }
}

/// Law: tracing yields the verification keys at the set bits, in ascending
/// index order. The selected keys are the keys of the entries at the
/// positions of the set bits, one key for each position.
pub proof fn law_signer_keys_follow_set_bits(entries: Seq<StakeTableEntry>, bits: Seq<bool>, n: nat)
    requires
        n <= entries.len(),
        n <= bits.len(),
    ensures
        keys_upto(entries, bits, n).len() == set_positions(bits, n).len(),
        forall|j: int|
            0 <= j < set_positions(bits, n).len() ==> 0 <= #[trigger] set_positions(bits, n)[j]
                < n && keys_upto(entries, bits, n)[j] == entries[set_positions(
                bits,
                n,
            )[j]].stake_key@,
    decreases n,
{
    if n > 0 {
        law_signer_keys_follow_set_bits(entries, bits, (n - 1) as nat);
    }
}

/// Law: a trace succeeds exactly when the check it is built on succeeds, and
/// then it yields the keys at the set bits.
pub proof fn law_trace_follows_check<E>(
    entries: Seq<StakeTableEntry>,
    bits: Seq<bool>,
    checked: Result<nat, QcError<E>>,
)
    ensures
        trace_outcome(entries, bits, checked) is Ok <==> checked is Ok,
        checked is Ok ==> trace_outcome(entries, bits, checked) == Ok::<
            Seq<Seq<u8>>,
            QcError<E>,
        >(signer_keys(entries, bits)),
        checked is Err ==> trace_outcome(entries, bits, checked) == Err::<
            Seq<Seq<u8>>,
            QcError<E>,
        >(checked->Err_0),
{
}

/// Law: a bitmap of the snapshot's length whose stake reaches the threshold,
/// with as many signatures as set bits, assembles into the signature that the
/// primitive aggregates, and the certificate then checks with the bitmap's
/// stake whenever the primitive verifies it.
pub proof fn law_quorum_assembles_and_checks<E>(
    entries: Seq<StakeTableEntry>,
    threshold: nat,
    bits: Seq<bool>,
    signatures: nat,
    sig: Seq<u8>,
)
    requires
        bits.len() == entries.len(),
        threshold <= total_weight(entries, bits) < stake_limit(),
        signatures == count_set(bits, bits.len()),
    ensures
        assemble_outcome::<E>(entries, threshold, bits, signatures, Ok(sig)) == Ok::<
            (Seq<u8>, Seq<bool>),
            QcError<E>,
        >((sig, bits)),
        check_outcome::<E>(entries, threshold, bits, Ok(())) == Ok::<nat, QcError<E>>(
            total_weight(entries, bits),
        ),
{
}

/// Law: a bitmap whose stake is below the threshold never assembles and never
/// checks, whatever the signatures are and whatever the primitive answers:
/// both fail with a parameter error.
pub proof fn law_below_threshold_is_rejected<E>(
    entries: Seq<StakeTableEntry>,
    threshold: nat,
    bits: Seq<bool>,
    signatures: nat,
    aggregated: Result<Seq<u8>, E>,
    verified: Result<(), E>,
)
    requires
        total_weight(entries, bits) < threshold,
    ensures
        assemble_outcome(entries, threshold, bits, signatures, aggregated) is Err,
        assemble_outcome(entries, threshold, bits, signatures, aggregated)->Err_0 is Parameter,
        check_outcome(entries, threshold, bits, verified) is Err,
        check_outcome(entries, threshold, bits, verified)->Err_0 is Parameter,
{
}

/// Law: a bitmap that is not as long as the snapshot never assembles and
/// never checks: both fail with the length mismatch, whatever else holds.
pub proof fn law_length_mismatch_is_rejected<E>(
    entries: Seq<StakeTableEntry>,
    threshold: nat,
    bits: Seq<bool>,
    signatures: nat,
    aggregated: Result<Seq<u8>, E>,
    verified: Result<(), E>,
)
    requires
        bits.len() != entries.len(),
    ensures
        assemble_outcome(entries, threshold, bits, signatures, aggregated) == Err::<
            (Seq<u8>, Seq<bool>),
            QcError<E>,
        >(
            QcError::Parameter(
                ParameterError::LengthMismatch {
                    bitmap_len: bits.len() as usize,
                    entries: entries.len() as usize,
                },
            ),
        ),
        check_outcome(entries, threshold, bits, verified) == Err::<nat, QcError<E>>(
            QcError::Parameter(
                ParameterError::LengthMismatch {
                    bitmap_len: bits.len() as usize,
                    entries: entries.len() as usize,
                },
            ),
        ),
        trace_outcome(entries, bits, check_outcome(entries, threshold, bits, verified)) is Err,
{
}

/// Law: a check succeeds only when the primitive has verified the signature
/// under the keys at the set bits; when the primitive rejects that key set,
/// the check fails with the primitive's error.
pub proof fn law_check_needs_verification<E>(
    entries: Seq<StakeTableEntry>,
    threshold: nat,
    bits: Seq<bool>,
    verified: Result<(), E>,
)
    ensures
        check_outcome(entries, threshold, bits, verified) is Ok ==> verified is Ok,
        verified is Err ==> check_outcome(entries, threshold, bits, verified) is Err,
        verified is Err && quorum_failure(entries, threshold, bits) is None ==> check_outcome(
            entries,
            threshold,
            bits,
            verified,
        ) == Err::<nat, QcError<E>>(QcError::Scheme(verified->Err_0)),
{
}

impl<P> QcParams<P> {
    /// Decides whether a bitmap is a quorum of this snapshot, and computes the
    /// stake it selects.
    pub fn quorum_weight(&self, signers: &SignerBitmap) -> (r: Result<StakeAmount, ParameterError>)
        ensures
            match r {
                Ok(w) => quorum_failure(self.stake_entries@, self.threshold@, signers@) is None
                    && w@ == total_weight(self.stake_entries@, signers@),
                Err(e) => quorum_failure(self.stake_entries@, self.threshold@, signers@) == Some(
                    e,
                ),
            },
    {
        let bitmap_len: usize = signers.len();
        let entries: usize = self.stake_entries.len();
        if bitmap_len != entries {
            return Err(ParameterError::LengthMismatch { bitmap_len, entries });
        }
        match sum_weight(&self.stake_entries, signers) {
            None => Err(ParameterError::WeightOverflow),
            Some(w) => {
                proof {
                    w.lemma_below_limit();
                }
                if w.less_than(&self.threshold) {
                    Err(ParameterError::BelowThreshold)
                } else {
                    Ok(w)
                }
            },
        }
    }

    /// Validates the arguments of an assembly and selects the keys under
    /// which the partial signatures are to be aggregated.
    pub fn assembly_keys(&self, signers: &SignerBitmap, signatures: usize) -> (r: Result<
        Vec<Vec<u8>>,
        ParameterError,
    >)
        ensures
            match r {
                Ok(keys) => assembly_failure(
                    self.stake_entries@,
                    self.threshold@,
                    signers@,
                    signatures as nat,
                ) is None && byte_strings(keys@) == signer_keys(self.stake_entries@, signers@),
                Err(e) => assembly_failure(
                    self.stake_entries@,
                    self.threshold@,
                    signers@,
                    signatures as nat,
                ) == Some(e),
            },
    {
        match self.quorum_weight(signers) {
            Err(e) => Err(e),
            Ok(_) => {
                let keys: Vec<Vec<u8>> = collect_signer_keys(&self.stake_entries, signers);
                proof {
                    lemma_key_count(self.stake_entries@, signers@, signers@.len());
                }
                if keys.len() != signatures {
                    Err(
                        ParameterError::SignatureCountMismatch {
                            keys: keys.len(),
                            signatures,
                        },
                    )
                } else {
                    Ok(keys)
                }
            },
        }
    }

    /// Validates a certificate's bitmap against this snapshot, and returns
    /// the stake it selects and the keys under which its signature is to be
    /// verified.
    pub fn verification_keys(&self, qc: &QuorumCertificate) -> (r: Result<
        (StakeAmount, Vec<Vec<u8>>),
        ParameterError,
    >)
        ensures
            match r {
                Ok((w, keys)) => quorum_failure(self.stake_entries@, self.threshold@, qc.signers@)
                    is None && w@ == total_weight(self.stake_entries@, qc.signers@)
                    && byte_strings(keys@) == signer_keys(self.stake_entries@, qc.signers@),
                Err(e) => quorum_failure(self.stake_entries@, self.threshold@, qc.signers@)
                    == Some(e),
            },
    {
        match self.quorum_weight(&qc.signers) {
            Err(e) => Err(e),
            Ok(w) => {
                let keys: Vec<Vec<u8>> = collect_signer_keys(&self.stake_entries, &qc.signers);
                Ok((w, keys))
            },
        }
    }
}

/// Builds the result of an assembly whose arguments have been validated from
/// what the primitive answered when asked to aggregate: its signature with a
/// copy of the bitmap, or its error unchanged.
pub fn finish_assembly<E>(signers: &SignerBitmap, aggregated: Result<Vec<u8>, E>) -> (r: Result<
    QuorumCertificate,
    QcError<E>,
>)
    ensures
        assembled_view(r) == match aggregated {
            Ok(sig) => Ok::<(Seq<u8>, Seq<bool>), QcError<E>>((sig@, signers@)),
            Err(e) => Err::<(Seq<u8>, Seq<bool>), QcError<E>>(QcError::Scheme(e)),
        },
        aggregated is Ok ==> r is Ok && r->Ok_0.signature == aggregated->Ok_0,
{
    match aggregated {
        Ok(signature) => Ok(QuorumCertificate { signature, signers: signers.clone() }),
        Err(e) => Err(QcError::Scheme(e)),
    }
}

/// Builds the result of a check whose certificate has been validated from
/// what the primitive answered when asked to verify: the selected stake when
/// the signature verified, the primitive's error unchanged otherwise.
pub fn finish_check<E>(weight: StakeAmount, verified: Result<(), E>) -> (r: Result<
    StakeAmount,
    QcError<E>,
>)
    ensures
        r == match verified {
            Ok(_) => Ok::<StakeAmount, QcError<E>>(weight),
            Err(e) => Err::<StakeAmount, QcError<E>>(QcError::Scheme(e)),
        },
{
    match verified {
        Ok(_) => Ok(weight),
        Err(e) => Err(QcError::Scheme(e)),
    }
}

/// Builds the result of a trace from the result of the check: the keys at the
/// set bits when the certificate checked, the failure of the check otherwise.
pub fn finish_trace<P, E>(
    qc_vp: &QcParams<P>,
    qc: &QuorumCertificate,
    checked: Result<StakeAmount, QcError<E>>,
) -> (r: Result<Vec<Vec<u8>>, QcError<E>>)
    ensures
        traced_view(r) == trace_outcome(qc_vp.stake_entries@, qc.signers@, checked_view(checked)),
{
    match checked {
        Ok(_) => Ok(collect_signer_keys(&qc_vp.stake_entries, &qc.signers)),
        Err(e) => Err(e),
    }
}

impl<A: AggregateSignatureScheme> BitVectorQc<A> {
    /// Signs a message with a signing key: the primitive is asked to sign
    /// the message with the key and the source of randomness, and its answer
    /// is returned as it is.
    pub fn sign(
        pp: &A::PublicParameter,
        sk: &A::SigningKey,
        msg: &[u8],
        prng: &mut A::Randomness,
    ) -> (r: Result<Vec<u8>, A::Error>)
        ensures
            exists|lent: &mut A::Randomness|
                *lent == *old(prng) && *final(lent) == *final(prng) && #[trigger] call_ensures(
                    A::sign,
                    (pp, sk, msg, lent),
                    r,
                ),
    {
        A::sign(pp, sk, msg, prng)
    }

    /// Combines partial signatures into a certificate for the signers named
    /// by the bitmap. One signature is expected per set bit, in ascending
    /// index order.
    ///
    /// Fails with the first parameter error, if there is one, whatever the
    /// signatures are. Otherwise the primitive is asked to aggregate the
    /// signatures under the keys at the set bits: its signature comes back
    /// with a copy of the bitmap, its error unchanged.
    pub fn assemble(
        qc_pp: &QcParams<A::PublicParameter>,
        signers: &SignerBitmap,
        sigs: &Vec<Vec<u8>>,
    ) -> (r: Result<QuorumCertificate, QcError<A::Error>>)
        ensures
            match assembly_failure(
                qc_pp.stake_entries@,
                qc_pp.threshold@,
                signers@,
                sigs@.len(),
            ) {
                Some(e) => r == Err::<QuorumCertificate, QcError<A::Error>>(QcError::Parameter(e)),
                None => exists|ver_keys: Vec<Vec<u8>>, answer: Result<Vec<u8>, A::Error>|
                    byte_strings(ver_keys@) == signer_keys(qc_pp.stake_entries@, signers@)
                        && #[trigger] call_ensures(
                        A::aggregate,
                        (&qc_pp.agg_sig_pp, &ver_keys, sigs),
                        answer,
                    ) && assembled_view(r) == assemble_outcome(
                        qc_pp.stake_entries@,
                        qc_pp.threshold@,
                        signers@,
                        sigs@.len(),
                        aggregated_view(answer),
                    ),
            },
            r is Ok ==> r->Ok_0.signers@ == signers@,
    {
        match qc_pp.assembly_keys(signers, sigs.len()) {
            Err(e) => Err(QcError::Parameter(e)),
            Ok(ver_keys) => {
                let aggregated = A::aggregate(&qc_pp.agg_sig_pp, &ver_keys, sigs);
                finish_assembly(signers, aggregated)
            },
        }
    }

    /// Verifies a certificate against a snapshot and a message, trusting
    /// nothing about how the certificate was made.
    ///
    /// Fails with the first parameter error, if there is one. Otherwise the
    /// primitive is asked to verify the signature under the keys at the set
    /// bits: on success the stake at the set bits is returned, on failure
    /// the primitive's error unchanged.
    pub fn check(
        qc_vp: &QcParams<A::PublicParameter>,
        message: &[u8; MESSAGE_LENGTH],
        qc: &QuorumCertificate,
    ) -> (r: Result<StakeAmount, QcError<A::Error>>)
        ensures
            match quorum_failure(qc_vp.stake_entries@, qc_vp.threshold@, qc.signers@) {
                Some(e) => r == Err::<StakeAmount, QcError<A::Error>>(QcError::Parameter(e)),
                None => exists|ver_keys: Vec<Vec<u8>>, answer: Result<(), A::Error>|
                    byte_strings(ver_keys@) == signer_keys(qc_vp.stake_entries@, qc.signers@)
                        && #[trigger] call_ensures(
                        A::multi_sig_verify,
                        (&qc_vp.agg_sig_pp, &ver_keys, message, &qc.signature),
                        answer,
                    ) && checked_view(r) == check_outcome(
                        qc_vp.stake_entries@,
                        qc_vp.threshold@,
                        qc.signers@,
                        answer,
                    ),
            },
            r is Ok ==> r->Ok_0@ == total_weight(qc_vp.stake_entries@, qc.signers@),
    {
        match qc_vp.verification_keys(qc) {
            Err(e) => Err(QcError::Parameter(e)),
            Ok((weight, ver_keys)) => {
                let verified = A::multi_sig_verify(
                    &qc_vp.agg_sig_pp,
                    &ver_keys,
                    message,
                    &qc.signature,
                );
                finish_check(weight, verified)
            },
        }
    }

    /// Recovers the signers of a certificate. The certificate is checked
    /// first: no keys are returned for one that does not check, and the
    /// failure of the check is returned unchanged.
    pub fn trace(
        qc_vp: &QcParams<A::PublicParameter>,
        message: &[u8; MESSAGE_LENGTH],
        qc: &QuorumCertificate,
    ) -> (r: Result<Vec<Vec<u8>>, QcError<A::Error>>)
        ensures
            match quorum_failure(qc_vp.stake_entries@, qc_vp.threshold@, qc.signers@) {
                Some(e) => r == Err::<Vec<Vec<u8>>, QcError<A::Error>>(QcError::Parameter(e)),
                None => exists|ver_keys: Vec<Vec<u8>>, answer: Result<(), A::Error>|
                    byte_strings(ver_keys@) == signer_keys(qc_vp.stake_entries@, qc.signers@)
                        && #[trigger] call_ensures(
                        A::multi_sig_verify,
                        (&qc_vp.agg_sig_pp, &ver_keys, message, &qc.signature),
                        answer,
                    ) && traced_view(r) == trace_outcome(
                        qc_vp.stake_entries@,
                        qc.signers@,
                        check_outcome(
                            qc_vp.stake_entries@,
                            qc_vp.threshold@,
                            qc.signers@,
                            answer,
                        ),
                    ),
            },
            r is Ok ==> byte_strings(r->Ok_0@) == signer_keys(qc_vp.stake_entries@, qc.signers@),
    {
        let checked = Self::check(qc_vp, message, qc);
        finish_trace(qc_vp, qc, checked)
    }
}

} // verus!
