use vstd::prelude::*;

use crate::service::dtos::{
    EnokiEndpoints, SponsorTransactionPayload, SponsorTransactionResponse,
    SubmitSponsorTransactionPayload, SubmitSponsorTransactionResponse,
};
use crate::service::services::Services;
use crate::service::types::{Result, ServiceError};

verus! {

/// Where a sponsored transaction stands in its two-step exchange with the sponsor.
#[derive(Debug, Clone)]
pub enum SponsorStage {
    /// Nothing sent yet.
    Unsubmitted,
    /// The sponsor request is out, its answer not yet in.
    SponsorRequested,
    /// The sponsor answered with the digest and the sponsored bytes.
    Sponsored(SponsorTransactionResponse),
    /// The co-signed transaction was accepted under this digest.
    Submitted(String),
    /// A step failed; nothing is retried.
    Aborted(ServiceError),
}

/// The stage after the sponsor's answer (or failure) comes in.
pub open spec fn sponsor_step(
    stage: SponsorStage,
    response: Result<SponsorTransactionResponse>,
    next: SponsorStage,
) -> bool {
    match stage {
        SponsorStage::SponsorRequested => match response {
            Ok(r) => next == SponsorStage::Sponsored(r),
            Err(e) => next == SponsorStage::Aborted(e),
        },
        _ => next matches SponsorStage::Aborted(e) && e is Service,
    }
}

/// The stage after the answer (or failure) to the submission comes in: it is accepted
/// only under the digest that the sponsor handed out.
pub open spec fn submit_step(
    stage: SponsorStage,
    response: Result<SubmitSponsorTransactionResponse>,
    next: SponsorStage,
) -> bool {
    match stage {
        SponsorStage::Sponsored(r) => match response {
            Ok(s) => if s.digest@ == r.digest@ {
                next == SponsorStage::Submitted(s.digest)
            } else {
                next matches SponsorStage::Aborted(e) && e is InvalidResponse
            },
            Err(e) => next == SponsorStage::Aborted(e),
        },
        _ => next matches SponsorStage::Aborted(e) && e is Service,
    }
}

fn out_of_order() -> (r: ServiceError)
    ensures
        r is Service,
{
    ServiceError::Service(String::from_str("sponsorship step out of order"))
}

impl SponsorStage {
    pub fn new() -> (r: SponsorStage)
        ensures
            r is Unsubmitted,
    {
        SponsorStage::Unsubmitted
    }

    /// Starts the exchange: from `Unsubmitted`, the sponsor request for the transaction
    /// bytes, the sender and the allow-lists, on the session's network.
    pub fn request_sponsor(
        self,
        services: &Services,
        transaction_block_kind_bytes: String,
        sender: String,
        allowed_addresses: Vec<String>,
        allowed_move_call_targets: Vec<String>,
    ) -> (r: (SponsorStage, Option<SponsorTransactionPayload>))
        ensures
            self is Unsubmitted ==> (r.0 is SponsorRequested && (r.1 matches Some(p) && p.network@
                == services@.network.name_spec() && p.transaction_block_kind_bytes@
                == transaction_block_kind_bytes@ && p.sender@ == sender@ && p.allowed_addresses
                == allowed_addresses && p.allowed_move_call_targets == allowed_move_call_targets)),
            !(self is Unsubmitted) ==> (r.1 is None && (r.0 matches SponsorStage::Aborted(e)
                && e is Service)),
    {
        match self {
            SponsorStage::Unsubmitted => {
                let payload = SponsorTransactionPayload::from(
                    (
                        services.get_network().to_string(),
                        transaction_block_kind_bytes,
                        sender,
                        allowed_addresses,
                        allowed_move_call_targets,
                    ),
                );
                (SponsorStage::SponsorRequested, Some(payload))
            },
            _ => (SponsorStage::Aborted(out_of_order()), None),
        }
    }

    /// Takes in the sponsor's answer.
    pub fn on_sponsor_response(self, response: Result<SponsorTransactionResponse>) -> (r:
        SponsorStage)
        ensures
            sponsor_step(self, response, r),
    {
        match self {
            SponsorStage::SponsorRequested => match response {
                Ok(r) => SponsorStage::Sponsored(r),
                Err(e) => SponsorStage::Aborted(e),
            },
            _ => SponsorStage::Aborted(out_of_order()),
        }
    }

    /// The submission once sponsored: the endpoint named by the sponsor's digest and the
    /// signature to send there.
    pub fn submit_request(&self, signature: String) -> (r: Option<
        (String, SubmitSponsorTransactionPayload),
    >)
        ensures
            r is Some <==> self is Sponsored,
            r matches Some(q) ==> self matches SponsorStage::Sponsored(s) && q.0@
                == EnokiEndpoints::SubmitSponsorTransaction(s.digest).url_spec() && q.1.signature
                == signature,
    {
        match self {
            SponsorStage::Sponsored(s) => {
                let endpoint = EnokiEndpoints::SubmitSponsorTransaction(s.digest.clone());
                let url = endpoint.to_string();
                Some((url, SubmitSponsorTransactionPayload::from(signature)))
            },
            _ => None,
        }
    }

    /// Takes in the answer to the submission.
    pub fn on_submit_response(self, response: Result<SubmitSponsorTransactionResponse>) -> (r:
        SponsorStage)
        ensures
            submit_step(self, response, r),
    {
        match self {
            SponsorStage::Sponsored(s) => match response {
                Ok(done) => {
                    if done.digest == s.digest {
                        SponsorStage::Submitted(done.digest)
                    } else {
                        SponsorStage::Aborted(
                            ServiceError::InvalidResponse(
                                String::from_str(
                                    "submitted digest differs from the sponsored digest",
                                ),
                            ),
                        )
                    }
                },
                Err(e) => SponsorStage::Aborted(e),
            },
            _ => SponsorStage::Aborted(out_of_order()),
        }
    }

    /// The outcome of the exchange: the digest once submitted, the failure once aborted.
    pub fn confirmation(self) -> (r: Result<String>)
        ensures
            self matches SponsorStage::Submitted(d) ==> r == Ok::<String, ServiceError>(d),
            self matches SponsorStage::Aborted(e) ==> r == Err::<String, ServiceError>(e),
            !(self is Submitted || self is Aborted) ==> (r matches Err(e) && e is Service),
    {
        match self {
            SponsorStage::Submitted(d) => Ok(d),
            SponsorStage::Aborted(e) => Err(e),
            _ => Err(out_of_order()),
        }
    }
}

/// In a flow that reaches submission, the confirmed digest is the one the sponsor
/// handed out; a submission answered under any other digest is rejected.
pub proof fn lemma_sponsor_digest_kept(
    sponsored: SponsorTransactionResponse,
    response: SubmitSponsorTransactionResponse,
    next: SponsorStage,
)
    requires
        submit_step(
            SponsorStage::Sponsored(sponsored),
            Ok::<SubmitSponsorTransactionResponse, ServiceError>(response),
            next,
        ),
    ensures
        next matches SponsorStage::Submitted(d) ==> d@ == sponsored.digest@,
        next is Submitted <==> response.digest@ == sponsored.digest@,
        response.digest@ != sponsored.digest@ ==> (next matches SponsorStage::Aborted(e)
            && e is InvalidResponse),
{
}

} // verus!
