//! The validation ledger: the verification state of each job.
//!
//! A job is created `New`, becomes `Pending` when a proof is submitted and
//! `Verified` when the ledger's owner verifies it. A verified job never
//! changes again; a record of any status can be deleted once it is older than
//! the retention window.
use vstd::prelude::*;
use crate::bytes::{copy_bytes, same_bytes};
use crate::codec::{
    be_bytes, lemma_be_bytes_injective, lemma_be_bytes_len, lemma_u64_fits_eight_bytes,
    nested_encode_bytes, nested_encode_u64,
};
use crate::errors::JobError;
use crate::pricing::{config_of, AgentServiceConfig, AgentServiceConfigView, Services};
use crate::store::{value_views, Store};
use crate::types::{Address, Payment, PaymentView, Transfer};

verus! {

/// How long a job record is kept at least: three days, in milliseconds.
pub const RETENTION_MILLIS: u64 = 259_200_000;

/// The verification state of a job.
#[derive(Clone, Copy, Debug, PartialEq, Eq, Structural)]
pub enum JobStatus {
    New,
    Pending,
    Verified,
}

/// What a job record is.
pub struct JobDataView {
    pub status: JobStatus,
    pub proof: Seq<u8>,
    pub employer: Address,
    pub creation_timestamp: u64,
    pub agent_nonce: u64,
}

/// The record of one job.
#[derive(Debug, PartialEq, Eq)]
pub struct JobData {
    pub status: JobStatus,
    pub proof: Vec<u8>,
    pub employer: Address,
    pub creation_timestamp: u64,
    pub agent_nonce: u64,
}

impl View for JobData {
    type V = JobDataView;

    open spec fn view(&self) -> JobDataView {
        JobDataView {
            status: self.status,
            proof: self.proof@,
            employer: self.employer,
            creation_timestamp: self.creation_timestamp,
            agent_nonce: self.agent_nonce,
        }
    }
}

impl Clone for JobData {
    fn clone(&self) -> (j: JobData)
        ensures
            j@ == self@,
    {
        JobData {
            status: self.status,
            proof: copy_bytes(self.proof.as_slice()),
            employer: self.employer,
            creation_timestamp: self.creation_timestamp,
            agent_nonce: self.agent_nonce,
        }
    }
}

/// The record of a job that was just created.
pub open spec fn new_job(employer: Address, now: u64, agent_nonce: u64) -> JobDataView {
    JobDataView {
        status: JobStatus::New,
        proof: Seq::<u8>::empty(),
        employer,
        creation_timestamp: now,
        agent_nonce,
    }
}

/// Whether a record has outlived the retention window at time `now`.
pub open spec fn expired(job: JobDataView, now: u64) -> bool {
    now > job.creation_timestamp + RETENTION_MILLIS
}

/// The record after a proof was submitted: a verified record stays as it
/// is, any other becomes `Pending` and holds the proof.
pub open spec fn with_proof(job: JobDataView, proof: Seq<u8>) -> JobDataView {
    if job.status == JobStatus::Verified {
        job
    } else {
        JobDataView { status: JobStatus::Pending, proof, ..job }
    }
}

/// The bytes of `agentOwner`, the name under which the identity directory
/// keeps the owner of each agent.
pub open spec fn agent_owner_name() -> Seq<u8> {
    seq![97u8, 103u8, 101u8, 110u8, 116u8, 79u8, 119u8, 110u8, 101u8, 114u8]
}

/// The bytes of `agentServicePrice`, the name under which the identity
/// directory keeps the price of each service.
pub open spec fn agent_service_price_name() -> Seq<u8> {
    seq![
        97u8,
        103u8,
        101u8,
        110u8,
        116u8,
        83u8,
        101u8,
        114u8,
        118u8,
        105u8,
        99u8,
        101u8,
        80u8,
        114u8,
        105u8,
        99u8,
        101u8,
    ]
}

/// The storage key of the owner of an agent in the identity directory: the
/// name `agentOwner`, then the agent's nonce on eight bytes.
pub fn agent_owner_key(nonce: u64) -> (key: Vec<u8>)
    ensures
        key@ == agent_owner_name() + be_bytes(nonce as nat, 8),
{
    let name: [u8; 10] = [97u8, 103u8, 101u8, 110u8, 116u8, 79u8, 119u8, 110u8, 101u8, 114u8];
    assert(name@ =~= agent_owner_name());
    let mut key = copy_bytes(name.as_slice());
    nested_encode_u64(nonce, &mut key);
    key
}

/// Different agents have different owner keys.
pub proof fn lemma_owner_keys_differ(a: u64, b: u64)
    requires
        a != b,
    ensures
        agent_owner_name() + be_bytes(a as nat, 8) != agent_owner_name() + be_bytes(b as nat, 8),
{
    let ka = agent_owner_name() + be_bytes(a as nat, 8);
    let kb = agent_owner_name() + be_bytes(b as nat, 8);
    if ka == kb {
        lemma_be_bytes_len(a as nat, 8);
        lemma_be_bytes_len(b as nat, 8);
        assert(ka.subrange(10, 18) =~= be_bytes(a as nat, 8));
        assert(kb.subrange(10, 18) =~= be_bytes(b as nat, 8));
        lemma_u64_fits_eight_bytes(a);
        lemma_u64_fits_eight_bytes(b);
        lemma_be_bytes_injective(a as nat, b as nat, 8);
    }
}

/// The bytes of `agentServicePaymentToken`, the name under which the identity
/// directory keeps the token in which each service is paid.
pub open spec fn agent_service_payment_token_name() -> Seq<u8> {
    seq![
        97u8,
        103u8,
        101u8,
        110u8,
        116u8,
        83u8,
        101u8,
        114u8,
        118u8,
        105u8,
        99u8,
        101u8,
        80u8,
        97u8,
        121u8,
        109u8,
        101u8,
        110u8,
        116u8,
        84u8,
        111u8,
        107u8,
        101u8,
        110u8,
    ]
}

/// The bytes of `agentServicePaymentNonce`, the name under which the identity
/// directory keeps the nonce of the token in which each service is paid.
pub open spec fn agent_service_payment_nonce_name() -> Seq<u8> {
    seq![
        97u8,
        103u8,
        101u8,
        110u8,
        116u8,
        83u8,
        101u8,
        114u8,
        118u8,
        105u8,
        99u8,
        101u8,
        80u8,
        97u8,
        121u8,
        109u8,
        101u8,
        110u8,
        116u8,
        78u8,
        111u8,
        110u8,
        99u8,
        101u8,
    ]
}

/// The storage key of a field of a service: the field's name, the agent's
/// nonce on eight bytes, the length of the service identifier on four bytes,
/// and the identifier.
pub open spec fn service_key(name: Seq<u8>, nonce: u64, service_id: Seq<u8>) -> Seq<u8> {
    name + be_bytes(nonce as nat, 8) + be_bytes(service_id.len(), 4) + service_id
}

/// Different services have different keys under the same name.
pub proof fn lemma_service_keys_differ(
    name: Seq<u8>,
    nonce: u64,
    service_id: Seq<u8>,
    other_nonce: u64,
    other_service_id: Seq<u8>,
)
    requires
        nonce != other_nonce || service_id != other_service_id,
    ensures
        service_key(name, nonce, service_id) != service_key(name, other_nonce, other_service_id),
{
    let k1 = service_key(name, nonce, service_id);
    let k2 = service_key(name, other_nonce, other_service_id);
    if k1 == k2 {
        lemma_be_bytes_len(nonce as nat, 8);
        lemma_be_bytes_len(other_nonce as nat, 8);
        lemma_be_bytes_len(service_id.len(), 4);
        lemma_be_bytes_len(other_service_id.len(), 4);
        let n = name.len() as int;
        assert(k1.len() == n + 12 + service_id.len());
        assert(k2.len() == n + 12 + other_service_id.len());
        assert(k1.subrange(n, n + 8) =~= be_bytes(nonce as nat, 8));
        assert(k2.subrange(n, n + 8) =~= be_bytes(other_nonce as nat, 8));
        assert(k1.subrange(n + 12, k1.len() as int) =~= service_id);
        assert(k2.subrange(n + 12, k2.len() as int) =~= other_service_id);
        lemma_u64_fits_eight_bytes(nonce);
        lemma_u64_fits_eight_bytes(other_nonce);
        lemma_be_bytes_injective(nonce as nat, other_nonce as nat, 8);
    }
}

/// Builds the storage key of a field of a service, see [`service_key`].
/// There is no key for an identifier whose length does not fit on four bytes.
fn build_service_key(name: &[u8], nonce: u64, service_id: &[u8]) -> (key: Option<Vec<u8>>)
    ensures
        key.is_some() == (service_id@.len() <= u32::MAX),
        key.is_some() ==> key.unwrap()@ == service_key(name@, nonce, service_id@),
{
    if service_id.len() > 4294967295usize {
        return None;
    }
    let mut key = copy_bytes(name);
    nested_encode_u64(nonce, &mut key);
    nested_encode_bytes(service_id, &mut key);
    Some(key)
}

/// The storage key of the price of a service in the identity directory.
pub fn agent_service_price_key(nonce: u64, service_id: &[u8]) -> (key: Option<Vec<u8>>)
    ensures
        key.is_some() == (service_id@.len() <= u32::MAX),
        key.is_some() ==> key.unwrap()@ == service_key(agent_service_price_name(), nonce, service_id@),
{
    let name: [u8; 17] = [
        97u8,
        103u8,
        101u8,
        110u8,
        116u8,
        83u8,
        101u8,
        114u8,
        118u8,
        105u8,
        99u8,
        101u8,
        80u8,
        114u8,
        105u8,
        99u8,
        101u8,
    ];
    assert(name@ =~= agent_service_price_name());
    build_service_key(name.as_slice(), nonce, service_id)
}

/// The storage key of the payment token of a service in the identity directory.
pub fn agent_service_payment_token_key(nonce: u64, service_id: &[u8]) -> (key: Option<Vec<u8>>)
    ensures
        key.is_some() == (service_id@.len() <= u32::MAX),
        key.is_some() ==> key.unwrap()@ == service_key(
            agent_service_payment_token_name(),
            nonce,
            service_id@,
        ),
{
    let name: [u8; 24] = [
        97u8,
        103u8,
        101u8,
        110u8,
        116u8,
        83u8,
        101u8,
        114u8,
        118u8,
        105u8,
        99u8,
        101u8,
        80u8,
        97u8,
        121u8,
        109u8,
        101u8,
        110u8,
        116u8,
        84u8,
        111u8,
        107u8,
        101u8,
        110u8,
    ];
    assert(name@ =~= agent_service_payment_token_name());
    build_service_key(name.as_slice(), nonce, service_id)
}

/// The storage key of the payment token's nonce of a service in the identity directory.
pub fn agent_service_payment_nonce_key(nonce: u64, service_id: &[u8]) -> (key: Option<Vec<u8>>)
    ensures
        key.is_some() == (service_id@.len() <= u32::MAX),
        key.is_some() ==> key.unwrap()@ == service_key(
            agent_service_payment_nonce_name(),
            nonce,
            service_id@,
        ),
{
    let name: [u8; 24] = [
        97u8,
        103u8,
        101u8,
        110u8,
        116u8,
        83u8,
        101u8,
        114u8,
        118u8,
        105u8,
        99u8,
        101u8,
        80u8,
        97u8,
        121u8,
        109u8,
        101u8,
        110u8,
        116u8,
        78u8,
        111u8,
        110u8,
        99u8,
        101u8,
    ];
    assert(name@ =~= agent_service_payment_nonce_name());
    build_service_key(name.as_slice(), nonce, service_id)
}

/// Whether a payment meets the terms of a service: it must be made in the
/// service's token and cover the price.
pub open spec fn payment_check(payment: PaymentView, terms: AgentServiceConfigView) -> Result<
    (),
    JobError,
> {
    if payment.token != terms.token || payment.nonce != terms.pnonce {
        Err(JobError::InvalidPayment)
    } else if payment.amount < terms.price {
        Err(JobError::InsufficientPayment)
    } else {
        Ok(())
    }
}

/// Decides whether a payment meets the terms of a service.
pub fn check_service_payment(payment: &Payment, terms: &AgentServiceConfig) -> (r: Result<(), JobError>)
    ensures
        r == payment_check(payment@, terms@),
{
    if !same_bytes(payment.token().as_slice(), terms.token.as_slice())
        || payment.nonce() != terms.pnonce {
        Err(JobError::InvalidPayment)
    } else if payment.amount() < terms.price {
        Err(JobError::InsufficientPayment)
    } else {
        Ok(())
    }
}

impl JobData {
    /// The record of a job that `employer` creates at time `now`.
    pub fn new(employer: Address, now: u64, agent_nonce: u64) -> (j: JobData)
        ensures
            j@ == new_job(employer, now, agent_nonce),
    {
        JobData {
            status: JobStatus::New,
            proof: Vec::new(),
            employer,
            creation_timestamp: now,
            agent_nonce,
        }
    }

    /// Whether the record has outlived the retention window at time `now`.
    pub fn is_expired(&self, now: u64) -> (r: bool)
        ensures
            r == expired(self@, now),
    {
        now > self.creation_timestamp && now - self.creation_timestamp > RETENTION_MILLIS
    }

    /// Takes a proof, see [`with_proof`].
    pub fn accept_proof(&mut self, proof: Vec<u8>)
        ensures
            final(self)@ == with_proof(old(self)@, proof@),
    {
        if self.status != JobStatus::Verified {
            self.status = JobStatus::Pending;
            self.proof = proof;
        }
    }
}

/// Announces that a job was verified.
#[derive(Debug, PartialEq, Eq)]
pub struct JobVerifiedEvent {
    pub job_id: Vec<u8>,
    pub agent_nonce: u64,
    pub status: JobStatus,
}

/// What the validation ledger holds.
pub struct ValidationView {
    /// The account that may verify jobs and change the configuration.
    pub owner: Address,
    /// Where the identity directory lives.
    pub identity_registry_address: Address,
    /// The record of each job.
    pub jobs: Map<Seq<u8>, JobDataView>,
}

/// The outcome of creating a job without payment.
pub open spec fn init_job_spec(
    s: ValidationView,
    caller: Address,
    now: u64,
    job_id: Seq<u8>,
    agent_nonce: u64,
) -> Result<ValidationView, JobError> {
    if s.jobs.contains_key(job_id) {
        Err(JobError::AlreadyInitialized)
    } else {
        Ok(ValidationView { jobs: s.jobs.insert(job_id, new_job(caller, now, agent_nonce)), ..s })
    }
}

/// The outcome of creating a job for a paid service: the failure, or the
/// ledger after it together with the account that is paid.
pub open spec fn init_job_with_payment_spec(
    s: ValidationView,
    owners: Map<u64, Address>,
    services: Services,
    caller: Address,
    now: u64,
    job_id: Seq<u8>,
    agent_nonce: u64,
    service_id: Seq<u8>,
    payment: PaymentView,
) -> Result<(ValidationView, Address), JobError> {
    if s.jobs.contains_key(job_id) {
        Err(JobError::AlreadyInitialized)
    } else if !owners.contains_key(agent_nonce) {
        Err(JobError::ServiceNotFound)
    } else {
        match payment_check(payment, config_of(services, agent_nonce, service_id)) {
            Err(e) => Err(e),
            Ok(()) => Ok(
                (
                    ValidationView {
                        jobs: s.jobs.insert(job_id, new_job(caller, now, agent_nonce)),
                        ..s
                    },
                    owners[agent_nonce],
                ),
            ),
        }
    }
}

/// The outcome of submitting a proof.
pub open spec fn submit_proof_spec(s: ValidationView, job_id: Seq<u8>, proof: Seq<u8>) -> Result<
    ValidationView,
    JobError,
> {
    if !s.jobs.contains_key(job_id) {
        Err(JobError::NotFound)
    } else {
        Ok(ValidationView { jobs: s.jobs.insert(job_id, with_proof(s.jobs[job_id], proof)), ..s })
    }
}

/// The outcome of verifying a job.
pub open spec fn verify_job_spec(s: ValidationView, caller: Address, job_id: Seq<u8>) -> Result<
    ValidationView,
    JobError,
> {
    if caller != s.owner {
        Err(JobError::NotOwner)
    } else if !s.jobs.contains_key(job_id) {
        Err(JobError::NotFound)
    } else {
        Ok(
            ValidationView {
                jobs: s.jobs.insert(
                    job_id,
                    JobDataView { status: JobStatus::Verified, ..s.jobs[job_id] },
                ),
                ..s
            },
        )
    }
}

/// The jobs that are left after a clean-up at time `now` that names `job_ids`:
/// a named job goes if it has outlived the retention window, whatever its status.
pub open spec fn cleaned(jobs: Map<Seq<u8>, JobDataView>, now: u64, job_ids: Seq<Seq<u8>>) -> Map<
    Seq<u8>,
    JobDataView,
> {
    jobs.remove_keys(
        Set::new(|id: Seq<u8>| job_ids.contains(id) && jobs.contains_key(id) && expired(jobs[id], now)),
    )
}

/// Whether a job is on record as verified.
pub open spec fn verified(jobs: Map<Seq<u8>, JobDataView>, job_id: Seq<u8>) -> bool {
    jobs.contains_key(job_id) && jobs[job_id].status == JobStatus::Verified
}

/// The read-only queries that other ledgers put to the validation ledger.
pub trait ViewsModule {
    /// The job records that the queries are answered from.
    spec fn job_records(&self) -> Map<Seq<u8>, JobDataView>;

    /// Whether a job is on record as verified. An unknown job is not.
    fn is_job_verified(&self, job_id: &Vec<u8>) -> (r: bool)
        ensures
            r == verified(self.job_records(), job_id@),
    ;

    /// The record of a job, if there is one.
    fn get_job_data(&self, job_id: &Vec<u8>) -> (r: Option<JobData>)
        ensures
            r.is_some() == self.job_records().contains_key(job_id@),
            r.is_some() ==> r.unwrap()@ == self.job_records()[job_id@],
    ;
}

/// What the ledgers read in the identity directory: the owner of an agent
/// and the payment terms of its services.
pub trait ExternalStorageModule {
    /// The owner of each agent.
    spec fn agent_owners(&self) -> Map<u64, Address>;

    /// The payment terms on record.
    spec fn service_terms(&self) -> Services;

    /// The owner of an agent, if the agent is on record.
    fn identity_agent_owner(&self, nonce: u64) -> (r: Option<Address>)
        ensures
            r == if self.agent_owners().contains_key(nonce) {
                Some(self.agent_owners()[nonce])
            } else {
                None
            },
    ;

    /// The price of a service of an agent.
    fn identity_agent_service_price(&self, nonce: u64, service_id: &[u8]) -> (price: u128)
        ensures
            price == config_of(self.service_terms(), nonce, service_id@).price,
    ;

    /// The token in which a service of an agent is paid.
    fn identity_agent_service_payment_token(&self, nonce: u64, service_id: &[u8]) -> (token: Vec<u8>)
        ensures
            token@ == config_of(self.service_terms(), nonce, service_id@).token,
    ;

    /// The nonce of the token in which a service of an agent is paid.
    fn identity_agent_service_payment_nonce(&self, nonce: u64, service_id: &[u8]) -> (pnonce: u64)
        ensures
            pnonce == config_of(self.service_terms(), nonce, service_id@).pnonce,
    ;
}

/// The identifiers of a list of jobs.
pub open spec fn id_views(job_ids: Seq<Vec<u8>>) -> Seq<Seq<u8>> {
    Seq::new(job_ids.len(), |i: int| job_ids[i]@)
}

/// The validation ledger.
pub struct ValidationRegistry {
    owner: Address,
    identity_registry_address: Address,
    jobs: Store<Vec<u8>, JobData>,
}

impl View for ValidationRegistry {
    type V = ValidationView;

    closed spec fn view(&self) -> ValidationView {
        ValidationView {
            owner: self.owner,
            identity_registry_address: self.identity_registry_address,
            jobs: value_views(self.jobs@),
        }
    }
}

impl ValidationRegistry {
    /// A new ledger without jobs, owned by `owner`.
    pub fn init(owner: Address, identity_registry_address: Address) -> (r: ValidationRegistry)
        ensures
            r@ == (ValidationView { owner, identity_registry_address, jobs: Map::empty() }),
    {
        let r = ValidationRegistry { owner, identity_registry_address, jobs: Store::new() };
        assert(r@.jobs =~= Map::empty());
        r
    }

    /// Changes where the identity directory lives. Only the owner may.
    pub fn set_identity_registry_address(&mut self, caller: &Address, address: Address) -> (r: Result<
        (),
        JobError,
    >)
        ensures
            *caller == old(self)@.owner ==> r.is_ok() && final(self)@ == (ValidationView {
                identity_registry_address: address,
                ..old(self)@
            }),
            *caller != old(self)@.owner ==> final(self)@ == old(self)@ && r == Err::<(), JobError>(
                JobError::NotOwner,
            ),
    {
        if !caller.is(&self.owner) {
            return Err(JobError::NotOwner);
        }
        self.identity_registry_address = address;
        Ok(())
    }

    /// Where the identity directory lives.
    pub fn identity_registry_address(&self) -> (a: Address)
        ensures
            a == self@.identity_registry_address,
    {
        self.identity_registry_address
    }

    /// Creates the record of a job, with the caller as employer.
    pub fn init_job(&mut self, caller: Address, now: u64, job_id: Vec<u8>, agent_nonce: u64) -> (r:
        Result<(), JobError>)
        ensures
            match init_job_spec(old(self)@, caller, now, job_id@, agent_nonce) {
                Ok(after) => r.is_ok() && final(self)@ == after,
                Err(e) => r == Err::<(), JobError>(e) && final(self)@ == old(self)@,
            },
    {
        if self.jobs.contains(&job_id) {
            return Err(JobError::AlreadyInitialized);
        }
        let ghost before = self@;
        self.jobs.insert(job_id, JobData::new(caller, now, agent_nonce));
        assert(self@.jobs =~= before.jobs.insert(job_id@, new_job(caller, now, agent_nonce)));
        Ok(())
    }

    /// Creates the record of a job for a paid service.
    ///
    /// The payment must meet the terms that the identity directory holds for
    /// the service. The record is created first; the order to pay the agent's
    /// owner is what the call returns.
    pub fn init_job_with_payment<I: ExternalStorageModule>(
        &mut self,
        caller: Address,
        now: u64,
        job_id: Vec<u8>,
        agent_nonce: u64,
        service_id: &[u8],
        payment: Payment,
        identity: &I,
    ) -> (r: Result<Transfer, JobError>)
        ensures
            match init_job_with_payment_spec(
                old(self)@,
                identity.agent_owners(),
                identity.service_terms(),
                caller,
                now,
                job_id@,
                agent_nonce,
                service_id@,
                payment@,
            ) {
                Ok((after, payee)) => final(self)@ == after && (r matches Ok(t) && t.to == payee
                    && t.payment@ == payment@),
                Err(e) => r == Err::<Transfer, JobError>(e) && final(self)@ == old(self)@,
            },
    {
        if self.jobs.contains(&job_id) {
            return Err(JobError::AlreadyInitialized);
        }
        let payee = match identity.identity_agent_owner(agent_nonce) {
            Some(a) => a,
            None => {
                return Err(JobError::ServiceNotFound);
            },
        };
        let terms = AgentServiceConfig {
            token: identity.identity_agent_service_payment_token(agent_nonce, service_id),
            pnonce: identity.identity_agent_service_payment_nonce(agent_nonce, service_id),
            price: identity.identity_agent_service_price(agent_nonce, service_id),
        };
        match check_service_payment(&payment, &terms) {
            Err(e) => {
                return Err(e);
            },
            Ok(()) => {},
        }
        let ghost before = self@;
        self.jobs.insert(job_id, JobData::new(caller, now, agent_nonce));
        assert(self@.jobs =~= before.jobs.insert(job_id@, new_job(caller, now, agent_nonce)));
        Ok(Transfer { to: payee, payment })
    }

    /// Stores the proof of a job and marks the job `Pending`. A verified job
    /// is left as it is. Anyone may call.
    pub fn submit_proof(&mut self, job_id: &Vec<u8>, proof: Vec<u8>) -> (r: Result<(), JobError>)
        ensures
            match submit_proof_spec(old(self)@, job_id@, proof@) {
                Ok(after) => r.is_ok() && final(self)@ == after,
                Err(e) => r == Err::<(), JobError>(e) && final(self)@ == old(self)@,
            },
    {
        let mut job = match self.jobs.get(job_id) {
            Some(j) => j.clone(),
            None => {
                return Err(JobError::NotFound);
            },
        };
        let ghost before = self@;
        job.accept_proof(proof);
        self.jobs.insert(copy_bytes(job_id.as_slice()), job);
        assert(self@.jobs =~= before.jobs.insert(job_id@, with_proof(before.jobs[job_id@], proof@)));
        Ok(())
    }

    /// Marks a job `Verified`. Only the owner may; verifying twice changes nothing more.
    pub fn verify_job(&mut self, caller: &Address, job_id: &Vec<u8>) -> (r: Result<
        JobVerifiedEvent,
        JobError,
    >)
        ensures
            match verify_job_spec(old(self)@, *caller, job_id@) {
                Ok(after) => final(self)@ == after && (r matches Ok(ev) && ev.job_id@ == job_id@
                    && ev.agent_nonce == after.jobs[job_id@].agent_nonce && ev.status
                    == JobStatus::Verified),
                Err(e) => r == Err::<JobVerifiedEvent, JobError>(e) && final(self)@ == old(self)@,
            },
    {
        if !caller.is(&self.owner) {
            return Err(JobError::NotOwner);
        }
        let mut job = match self.jobs.get(job_id) {
            Some(j) => j.clone(),
            None => {
                return Err(JobError::NotFound);
            },
        };
        let ghost before = self@;
        job.status = JobStatus::Verified;
        let agent_nonce = job.agent_nonce;
        self.jobs.insert(copy_bytes(job_id.as_slice()), job);
        assert(self@.jobs =~= before.jobs.insert(
            job_id@,
            JobDataView { status: JobStatus::Verified, ..before.jobs[job_id@] },
        ));
        Ok(
            JobVerifiedEvent {
                job_id: copy_bytes(job_id.as_slice()),
                agent_nonce,
                status: JobStatus::Verified,
            },
        )
    }

    /// Deletes the named jobs that have outlived the retention window.
    /// Names of unknown jobs and of younger jobs are passed over.
    pub fn clean_old_jobs(&mut self, now: u64, job_ids: &Vec<Vec<u8>>)
        ensures
            final(self)@ == (ValidationView {
                jobs: cleaned(old(self)@.jobs, now, id_views(job_ids@)),
                ..old(self)@
            }),
    {
        let ghost before = self@;
        let ghost ids = id_views(job_ids@);
        let mut i: usize = 0;
        assert(self@.jobs =~= cleaned(before.jobs, now, ids.subrange(0, 0)));
        while i < job_ids.len()
            invariant
                i <= job_ids@.len(),
                ids == id_views(job_ids@),
                self@.owner == before.owner,
                self@.identity_registry_address == before.identity_registry_address,
                self@.jobs == cleaned(before.jobs, now, ids.subrange(0, i as int)),
            decreases job_ids@.len() - i,
        {
            let job_id = &job_ids[i];
            let ghost current = self@.jobs;
            let gone = match self.jobs.get(job_id) {
                Some(job) => job.is_expired(now),
                None => false,
            };
            if gone {
                self.jobs.remove(job_id);
            }
            proof {
                let done = ids.subrange(0, i as int);
                let next = ids.subrange(0, i + 1);
                assert(next.drop_last() =~= done);
                assert(next.last() == job_id@);
                assert forall|id: Seq<u8>| next.contains(id) == (done.contains(id) || id == job_id@) by {
                    if next.contains(id) {
                        let k = choose|k: int| 0 <= k < next.len() && next[k] == id;
                        if k < i {
                            assert(done[k] == id);
                        }
                    }
                    if done.contains(id) {
                        let k = choose|k: int| 0 <= k < done.len() && done[k] == id;
                        assert(next[k] == id);
                    }
                    if id == job_id@ {
                        assert(next[i as int] == id);
                    }
                }
                let target = cleaned(before.jobs, now, next);
                assert(gone == (current.contains_key(job_id@) && expired(current[job_id@], now)));
                assert(self@.jobs =~= if gone {
                    current.remove(job_id@)
                } else {
                    current
                });
                assert forall|id: Seq<u8>| #[trigger] self@.jobs.contains_key(id) == target.contains_key(id) by {
                    if current.contains_key(id) {
                        assert(before.jobs.contains_key(id));
                        assert(current[id] == before.jobs[id]);
                    }
                }
                assert(self@.jobs =~= target);
            }
            i += 1;
        }
        assert(ids.subrange(0, ids.len() as int) =~= ids);
    }
}

impl ViewsModule for ValidationRegistry {
    open spec fn job_records(&self) -> Map<Seq<u8>, JobDataView> {
        self@.jobs
    }

    fn is_job_verified(&self, job_id: &Vec<u8>) -> (r: bool) {
        match self.jobs.get(job_id) {
            Some(j) => j.status == JobStatus::Verified,
            None => false,
        }
    }

    fn get_job_data(&self, job_id: &Vec<u8>) -> (r: Option<JobData>) {
        match self.jobs.get(job_id) {
            Some(j) => Some(j.clone()),
            None => None,
        }
    }
}

/// How far a job has come: `New`, then `Pending`, then `Verified`.
pub open spec fn progress(status: JobStatus) -> nat {
    match status {
        JobStatus::New => 0,
        JobStatus::Pending => 1,
        JobStatus::Verified => 2,
    }
}

/// One call of the validation ledger, with everything that its outcome depends on.
pub enum ValidationCall {
    SetIdentityRegistryAddress { caller: Address, address: Address },
    InitJob { caller: Address, now: u64, job_id: Seq<u8>, agent_nonce: u64 },
    InitJobWithPayment {
        caller: Address,
        now: u64,
        job_id: Seq<u8>,
        agent_nonce: u64,
        service_id: Seq<u8>,
        payment: PaymentView,
        owners: Map<u64, Address>,
        services: Services,
    },
    SubmitProof { job_id: Seq<u8>, proof: Seq<u8> },
    VerifyJob { caller: Address, job_id: Seq<u8> },
    CleanOldJobs { now: u64, job_ids: Seq<Seq<u8>> },
}

/// The ledger after a call: a failed call leaves it as it was.
pub open spec fn after_call(s: ValidationView, call: ValidationCall) -> ValidationView {
    match call {
        ValidationCall::SetIdentityRegistryAddress { caller, address } => if caller == s.owner {
            ValidationView { identity_registry_address: address, ..s }
        } else {
            s
        },
        ValidationCall::InitJob { caller, now, job_id, agent_nonce } => match init_job_spec(
            s,
            caller,
            now,
            job_id,
            agent_nonce,
        ) {
            Ok(after) => after,
            Err(_) => s,
        },
        ValidationCall::InitJobWithPayment {
            caller,
            now,
            job_id,
            agent_nonce,
            service_id,
            payment,
            owners,
            services,
        } => match init_job_with_payment_spec(
            s,
            owners,
            services,
            caller,
            now,
            job_id,
            agent_nonce,
            service_id,
            payment,
        ) {
            Ok((after, _)) => after,
            Err(_) => s,
        },
        ValidationCall::SubmitProof { job_id, proof } => match submit_proof_spec(s, job_id, proof) {
            Ok(after) => after,
            Err(_) => s,
        },
        ValidationCall::VerifyJob { caller, job_id } => match verify_job_spec(s, caller, job_id) {
            Ok(after) => after,
            Err(_) => s,
        },
        ValidationCall::CleanOldJobs { now, job_ids } => ValidationView {
            jobs: cleaned(s.jobs, now, job_ids),
            ..s
        },
    }
}

/// Whether a call is a clean-up that deletes the job `job_id` from `s`.
pub open spec fn deletes(s: ValidationView, call: ValidationCall, job_id: Seq<u8>) -> bool {
    call matches ValidationCall::CleanOldJobs { now, job_ids } && job_ids.contains(job_id)
        && s.jobs.contains_key(job_id) && expired(s.jobs[job_id], now)
}

/// A job stays on record until a clean-up deletes it, and a call never sets
/// it back: its status stays or advances, and who employs which agent since
/// when stays as it is.
pub proof fn lemma_job_never_regresses(s: ValidationView, call: ValidationCall, job_id: Seq<u8>)
    requires
        s.jobs.contains_key(job_id),
    ensures
        after_call(s, call).jobs.contains_key(job_id) == !deletes(s, call, job_id),
        !deletes(s, call, job_id) ==> {
            let before = s.jobs[job_id];
            let after = after_call(s, call).jobs[job_id];
            &&& progress(after.status) >= progress(before.status)
            &&& after.employer == before.employer
            &&& after.agent_nonce == before.agent_nonce
            &&& after.creation_timestamp == before.creation_timestamp
        },
{
}

/// A verified job is immutable: until a clean-up deletes it, its record is
/// the same after any call.
pub proof fn lemma_verified_is_final(s: ValidationView, call: ValidationCall, job_id: Seq<u8>)
    requires
        verified(s.jobs, job_id),
        !deletes(s, call, job_id),
    ensures
        after_call(s, call).jobs.contains_key(job_id),
        after_call(s, call).jobs[job_id] == s.jobs[job_id],
{
}

/// A job is created once: the record of a job on record is not replaced by a
/// later creation under the same identifier.
pub proof fn lemma_job_is_created_once(
    s: ValidationView,
    caller: Address,
    now: u64,
    job_id: Seq<u8>,
    agent_nonce: u64,
)
    requires
        s.jobs.contains_key(job_id),
    ensures
        init_job_spec(s, caller, now, job_id, agent_nonce) == Err::<ValidationView, JobError>(
            JobError::AlreadyInitialized,
        ),
{
}

/// A clean-up deletes expired jobs only, and changes no job that it leaves.
pub proof fn lemma_clean_up_spares_young_jobs(
    jobs: Map<Seq<u8>, JobDataView>,
    now: u64,
    job_ids: Seq<Seq<u8>>,
    job_id: Seq<u8>,
)
    requires
        jobs.contains_key(job_id),
    ensures
        !expired(jobs[job_id], now) || !job_ids.contains(job_id) ==> cleaned(jobs, now, job_ids).contains_key(
            job_id,
        ) && cleaned(jobs, now, job_ids)[job_id] == jobs[job_id],
        expired(jobs[job_id], now) && job_ids.contains(job_id) ==> !cleaned(
            jobs,
            now,
            job_ids,
        ).contains_key(job_id),
{
}

} // verus!
