//! What the consensus storage holds: proposal envelopes, their payloads in
//! each schema generation, and certificates.
//!
//! The storage never looks inside a payload or a certificate beyond the
//! fields it is keyed or ordered by: the view number of an envelope or of a
//! certificate, the epoch of a state certificate, the recipient of a share.
//! Everything else is carried as opaque bytes.

use vstd::prelude::*;

verus! {

/// A proposal as it travels: a payload, the view it was made in, its sender's
/// key and the sender's signature over it.
#[derive(Clone, Debug, PartialEq, Eq)]
pub struct Proposal<P> {
    pub data: P,
    pub view_number: u64,
    pub sender: Vec<u8>,
    pub signature: Vec<u8>,
}

/// A data-availability proposal of the first schema.
#[derive(Clone, Debug, PartialEq, Eq)]
pub struct DaProposal {
    pub encoded_transactions: Vec<u8>,
    pub metadata: Vec<u8>,
}

/// A data-availability proposal of the revised schema.
#[derive(Clone, Debug, PartialEq, Eq)]
pub struct DaProposal2 {
    pub encoded_transactions: Vec<u8>,
    pub metadata: Vec<u8>,
    pub epoch: Option<u64>,
}

/// A certificate that a quorum endorsed some data in a view. What it
/// certifies and the signatures that prove it are opaque here.
#[derive(Clone, Debug, PartialEq, Eq)]
pub struct SimpleCertificate {
    pub view_number: u64,
    pub epoch: Option<u64>,
    pub data: Vec<u8>,
    pub signatures: Vec<u8>,
}

/// A certificate of the light client's state at the end of an epoch.
#[derive(Clone, Debug, PartialEq, Eq)]
pub struct LightClientStateUpdateCertificate {
    pub epoch: u64,
    pub light_client_state: Vec<u8>,
    pub signatures: Vec<u8>,
}

/// A quorum proposal of the first schema.
#[derive(Clone, Debug, PartialEq, Eq)]
pub struct QuorumProposal {
    pub block_header: Vec<u8>,
    pub justify_qc: SimpleCertificate,
}

/// A quorum proposal of the revised schema, which knows epochs.
#[derive(Clone, Debug, PartialEq, Eq)]
pub struct QuorumProposal2 {
    pub block_header: Vec<u8>,
    pub justify_qc: SimpleCertificate,
    pub epoch: Option<u64>,
}

/// A quorum proposal of the wrapped schema.
#[derive(Clone, Debug, PartialEq, Eq)]
pub struct QuorumProposalWrapper {
    pub proposal: QuorumProposal2,
}

/// A verifiable-dispersal share of the first schema, made for one
/// recipient.
#[derive(Clone, Debug, PartialEq, Eq)]
pub struct ADVZDisperseShare {
    pub recipient_key: Vec<u8>,
    pub share: Vec<u8>,
}

/// A verifiable-dispersal share of the revised schema, made for one
/// recipient.
#[derive(Clone, Debug, PartialEq, Eq)]
pub struct VidDisperseShare2 {
    pub recipient_key: Vec<u8>,
    pub share: Vec<u8>,
    pub epoch: Option<u64>,
}

/// A certificate as plain values.
pub struct CertificateView {
    pub view_number: u64,
    pub epoch: Option<u64>,
    pub data: Seq<u8>,
    pub signatures: Seq<u8>,
}

impl View for SimpleCertificate {
    type V = CertificateView;

    open spec fn view(&self) -> CertificateView {
        CertificateView {
            view_number: self.view_number,
            epoch: self.epoch,
            data: self.data@,
            signatures: self.signatures@,
        }
    }
}

/// A state certificate as plain values.
pub struct StateCertificateView {
    pub epoch: u64,
    pub light_client_state: Seq<u8>,
    pub signatures: Seq<u8>,
}

impl View for LightClientStateUpdateCertificate {
    type V = StateCertificateView;

    open spec fn view(&self) -> StateCertificateView {
        StateCertificateView {
            epoch: self.epoch,
            light_client_state: self.light_client_state@,
            signatures: self.signatures@,
        }
    }
}

impl SimpleCertificate {
    /// An independent copy that holds the same values.
    pub fn duplicate(&self) -> (r: SimpleCertificate)
        ensures
            r@ == self@,
    {
        SimpleCertificate {
            view_number: self.view_number,
            epoch: self.epoch,
            data: self.data.clone(),
            signatures: self.signatures.clone(),
        }
    }
}

impl LightClientStateUpdateCertificate {
    /// An independent copy that holds the same values.
    pub fn duplicate(&self) -> (r: LightClientStateUpdateCertificate)
        ensures
            r@ == self@,
    {
        LightClientStateUpdateCertificate {
            epoch: self.epoch,
            light_client_state: self.light_client_state.clone(),
            signatures: self.signatures.clone(),
        }
    }
}

/// The quorum proposal of the revised schema that stands for one of the
/// first schema: the same header and certificate, in no epoch.
pub open spec fn revised(proposal: Proposal<QuorumProposal>) -> Proposal<QuorumProposal2> {
    Proposal {
        data: QuorumProposal2 {
            block_header: proposal.data.block_header,
            justify_qc: proposal.data.justify_qc,
            epoch: None,
        },
        view_number: proposal.view_number,
        sender: proposal.sender,
        signature: proposal.signature,
    }
}

/// Converts a quorum proposal of the first schema to the revised one.
pub fn convert_proposal(proposal: Proposal<QuorumProposal>) -> (r: Proposal<QuorumProposal2>)
    ensures
        r == revised(proposal),
{
    Proposal {
        data: QuorumProposal2 {
            block_header: proposal.data.block_header,
            justify_qc: proposal.data.justify_qc,
            epoch: None,
        },
        view_number: proposal.view_number,
        sender: proposal.sender,
        signature: proposal.signature,
    }
}

} // verus!
