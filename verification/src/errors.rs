//! Failures of the ledgers. Every failure carries the kind of rule that was
//! broken and a message for the caller.
use vstd::prelude::*;

verus! {

/// The three kinds of rule that a call can break.
#[derive(Clone, Copy, Debug, PartialEq, Eq, Structural)]
pub enum ErrorKind {
    /// Malformed or out-of-policy input.
    Validation,
    /// The record is not in a state that allows the call.
    State,
    /// The caller lacks the required relationship.
    Authorization,
}

/// Failures of the escrow ledger.
#[derive(Clone, Copy, Debug, PartialEq, Eq, Structural)]
pub enum EscrowError {
    DeadlineInPast,
    AlreadyExists,
    NotFound,
    AlreadySettled,
    NotEmployer,
    JobNotVerified,
    DeadlineNotPassed,
    NotOwner,
}

impl EscrowError {
    pub open spec fn spec_kind(self) -> ErrorKind {
        match self {
            EscrowError::DeadlineInPast => ErrorKind::Validation,
            EscrowError::NotEmployer | EscrowError::NotOwner => ErrorKind::Authorization,
            _ => ErrorKind::State,
        }
    }

    pub open spec fn text(self) -> Seq<char> {
        match self {
            EscrowError::DeadlineInPast => "Deadline must be in the future"@,
            EscrowError::AlreadyExists => "Escrow already exists for this job"@,
            EscrowError::NotFound => "Escrow not found"@,
            EscrowError::AlreadySettled => "Escrow already settled"@,
            EscrowError::NotEmployer => "Only the employer can release the escrow"@,
            EscrowError::JobNotVerified => "Job not verified"@,
            EscrowError::DeadlineNotPassed => "Deadline has not passed"@,
            EscrowError::NotOwner => "Endpoint can only be called by owner"@,
        }
    }

    #[verifier::when_used_as_spec(spec_kind)]
    pub fn kind(self) -> (k: ErrorKind)
        ensures
            k == self.spec_kind(),
    {
        match self {
            EscrowError::DeadlineInPast => ErrorKind::Validation,
            EscrowError::NotEmployer | EscrowError::NotOwner => ErrorKind::Authorization,
            _ => ErrorKind::State,
        }
    }

    pub fn message(self) -> (m: &'static str)
        ensures
            m@ == self.text(),
    {
        match self {
            EscrowError::DeadlineInPast => "Deadline must be in the future",
            EscrowError::AlreadyExists => "Escrow already exists for this job",
            EscrowError::NotFound => "Escrow not found",
            EscrowError::AlreadySettled => "Escrow already settled",
            EscrowError::NotEmployer => "Only the employer can release the escrow",
            EscrowError::JobNotVerified => "Job not verified",
            EscrowError::DeadlineNotPassed => "Deadline has not passed",
            EscrowError::NotOwner => "Endpoint can only be called by owner",
        }
    }
}

/// Failures of the validation ledger.
#[derive(Clone, Copy, Debug, PartialEq, Eq, Structural)]
pub enum JobError {
    AlreadyInitialized,
    NotFound,
    InsufficientPayment,
    InvalidPayment,
    ServiceNotFound,
    NotOwner,
}

impl JobError {
    pub open spec fn spec_kind(self) -> ErrorKind {
        match self {
            JobError::InsufficientPayment | JobError::InvalidPayment => ErrorKind::Validation,
            JobError::NotOwner => ErrorKind::Authorization,
            _ => ErrorKind::State,
        }
    }

    pub open spec fn text(self) -> Seq<char> {
        match self {
            JobError::AlreadyInitialized => "Job already initialized"@,
            JobError::NotFound => "Job does not exist"@,
            JobError::InsufficientPayment => "Insufficient payment"@,
            JobError::InvalidPayment => "Invalid payment token"@,
            JobError::ServiceNotFound => "Service config not found for agent"@,
            JobError::NotOwner => "Endpoint can only be called by owner"@,
        }
    }

    #[verifier::when_used_as_spec(spec_kind)]
    pub fn kind(self) -> (k: ErrorKind)
        ensures
            k == self.spec_kind(),
    {
        match self {
            JobError::InsufficientPayment | JobError::InvalidPayment => ErrorKind::Validation,
            JobError::NotOwner => ErrorKind::Authorization,
            _ => ErrorKind::State,
        }
    }

    pub fn message(self) -> (m: &'static str)
        ensures
            m@ == self.text(),
    {
        match self {
            JobError::AlreadyInitialized => "Job already initialized",
            JobError::NotFound => "Job does not exist",
            JobError::InsufficientPayment => "Insufficient payment",
            JobError::InvalidPayment => "Invalid payment token",
            JobError::ServiceNotFound => "Service config not found for agent",
            JobError::NotOwner => "Endpoint can only be called by owner",
        }
    }
}

/// Failures of the reputation ledger.
#[derive(Clone, Copy, Debug, PartialEq, Eq, Structural)]
pub enum FeedbackError {
    NotFound,
    JobNotVerified,
    NotEmployer,
    FeedbackNotAuthorized,
    FeedbackAlreadyProvided,
    NotAgentOwner,
    NotResponder,
    NotOwner,
}

impl FeedbackError {
    pub open spec fn spec_kind(self) -> ErrorKind {
        match self {
            FeedbackError::NotFound
            | FeedbackError::JobNotVerified
            | FeedbackError::FeedbackAlreadyProvided => ErrorKind::State,
            _ => ErrorKind::Authorization,
        }
    }

    pub open spec fn text(self) -> Seq<char> {
        match self {
            FeedbackError::NotFound => "Job not found or not initialized"@,
            FeedbackError::JobNotVerified => "Job not verified"@,
            FeedbackError::NotEmployer => "Only the employer can provide feedback"@,
            FeedbackError::FeedbackNotAuthorized => "Feedback not authorized by agent"@,
            FeedbackError::FeedbackAlreadyProvided => "Feedback already provided for this job"@,
            FeedbackError::NotAgentOwner => "Only the agent owner can authorize feedback"@,
            FeedbackError::NotResponder => "Only the agent owner can respond"@,
            FeedbackError::NotOwner => "Endpoint can only be called by owner"@,
        }
    }

    #[verifier::when_used_as_spec(spec_kind)]
    pub fn kind(self) -> (k: ErrorKind)
        ensures
            k == self.spec_kind(),
    {
        match self {
            FeedbackError::NotFound
            | FeedbackError::JobNotVerified
            | FeedbackError::FeedbackAlreadyProvided => ErrorKind::State,
            _ => ErrorKind::Authorization,
        }
    }

    pub fn message(self) -> (m: &'static str)
        ensures
            m@ == self.text(),
    {
        match self {
            FeedbackError::NotFound => "Job not found or not initialized",
            FeedbackError::JobNotVerified => "Job not verified",
            FeedbackError::NotEmployer => "Only the employer can provide feedback",
            FeedbackError::FeedbackNotAuthorized => "Feedback not authorized by agent",
            FeedbackError::FeedbackAlreadyProvided => "Feedback already provided for this job",
            FeedbackError::NotAgentOwner => "Only the agent owner can authorize feedback",
            FeedbackError::NotResponder => "Only the agent owner can respond",
            FeedbackError::NotOwner => "Endpoint can only be called by owner",
        }
    }
}

/// Failures of the identity directory.
#[derive(Clone, Copy, Debug, PartialEq, Eq, Structural)]
pub enum IdentityError {
    TokenAlreadyIssued,
    TokenNotIssued,
    AlreadyRegistered,
    InvalidNft,
    AgentNotFound,
    NotAgentOwner,
    NotOwner,
}

impl IdentityError {
    pub open spec fn spec_kind(self) -> ErrorKind {
        match self {
            IdentityError::InvalidNft => ErrorKind::Validation,
            IdentityError::NotAgentOwner | IdentityError::NotOwner => ErrorKind::Authorization,
            _ => ErrorKind::State,
        }
    }

    pub open spec fn text(self) -> Seq<char> {
        match self {
            IdentityError::TokenAlreadyIssued => "Token already issued"@,
            IdentityError::TokenNotIssued => "Token not issued"@,
            IdentityError::AlreadyRegistered => "Agent already registered for this address"@,
            IdentityError::InvalidNft => "Invalid NFT sent"@,
            IdentityError::AgentNotFound => "Agent not found"@,
            IdentityError::NotAgentOwner => "Only owner can set metadata"@,
            IdentityError::NotOwner => "Endpoint can only be called by owner"@,
        }
    }

    #[verifier::when_used_as_spec(spec_kind)]
    pub fn kind(self) -> (k: ErrorKind)
        ensures
            k == self.spec_kind(),
    {
        match self {
            IdentityError::InvalidNft => ErrorKind::Validation,
            IdentityError::NotAgentOwner | IdentityError::NotOwner => ErrorKind::Authorization,
            _ => ErrorKind::State,
        }
    }

    pub fn message(self) -> (m: &'static str)
        ensures
            m@ == self.text(),
    {
        match self {
            IdentityError::TokenAlreadyIssued => "Token already issued",
            IdentityError::TokenNotIssued => "Token not issued",
            IdentityError::AlreadyRegistered => "Agent already registered for this address",
            IdentityError::InvalidNft => "Invalid NFT sent",
            IdentityError::AgentNotFound => "Agent not found",
            IdentityError::NotAgentOwner => "Only owner can set metadata",
            IdentityError::NotOwner => "Endpoint can only be called by owner",
        }
    }
}

} // verus!
