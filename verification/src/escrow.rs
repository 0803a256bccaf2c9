//! The escrow ledger: custody of the payment for each job.
//!
//! A deposit creates an `Active` record. The employer releases it to the
//! receiver once the job is verified; after the deadline anyone can have it
//! refunded to the employer. A record that was released or refunded never
//! changes again. Every operation records the new status first and hands
//! out the order to move the funds afterwards.
use vstd::prelude::*;
use crate::bytes::copy_bytes;
use crate::errors::EscrowError;
use crate::store::{value_views, Store};
use crate::types::{Address, Payment, PaymentView, Transfer};
use crate::validation::{verified, JobDataView, ViewsModule};

verus! {

/// Settlement status of an escrow record.
#[derive(Clone, Copy, Debug, PartialEq, Eq, Structural)]
pub enum EscrowStatus {
    Active,
    Released,
    Refunded,
}

/// What an escrow record is.
pub struct EscrowDataView {
    pub employer: Address,
    pub receiver: Address,
    pub payment: PaymentView,
    pub poa_hash: Seq<u8>,
    pub deadline: u64,
    pub status: EscrowStatus,
}

/// The escrow record of one job.
#[derive(Debug, PartialEq, Eq)]
pub struct EscrowData {
    /// Who deposited the funds.
    pub employer: Address,
    /// Who receives them on release.
    pub receiver: Address,
    /// The funds held.
    pub payment: Payment,
    /// Hash of the proof of agreement.
    pub poa_hash: Vec<u8>,
    /// Time, in seconds, after which a refund is allowed.
    pub deadline: u64,
    pub status: EscrowStatus,
}

impl View for EscrowData {
    type V = EscrowDataView;

    open spec fn view(&self) -> EscrowDataView {
        EscrowDataView {
            employer: self.employer,
            receiver: self.receiver,
            payment: self.payment@,
            poa_hash: self.poa_hash@,
            deadline: self.deadline,
            status: self.status,
        }
    }
}

impl Clone for EscrowData {
    fn clone(&self) -> (e: EscrowData)
        ensures
            e@ == self@,
    {
        EscrowData {
            employer: self.employer,
            receiver: self.receiver,
            payment: self.payment.clone(),
            poa_hash: copy_bytes(self.poa_hash.as_slice()),
            deadline: self.deadline,
            status: self.status,
        }
    }
}

/// What the escrow ledger announces.
#[derive(Debug, PartialEq, Eq)]
pub enum EscrowEvent {
    Deposited { job_id: Vec<u8>, employer: Address, amount: u128 },
    Released { job_id: Vec<u8>, receiver: Address, amount: u128 },
    Refunded { job_id: Vec<u8>, employer: Address, amount: u128 },
}

/// What a settlement asks of the chain: to move the funds, then to announce it.
#[derive(Debug, PartialEq, Eq)]
pub struct Settlement {
    pub transfer: Transfer,
    pub event: EscrowEvent,
}

/// What the escrow ledger holds.
pub struct EscrowView {
    /// The account that may change the configuration.
    pub owner: Address,
    /// Where the validation ledger lives.
    pub validation_contract_address: Address,
    /// Where the identity directory lives.
    pub identity_contract_address: Address,
    /// The escrow record of each job.
    pub escrows: Map<Seq<u8>, EscrowDataView>,
}

/// Whether a release by `caller` is allowed on a record, given whether the
/// job is verified.
pub open spec fn release_check(record: Option<EscrowDataView>, caller: Address, job_verified: bool) -> Result<
    (),
    EscrowError,
> {
    match record {
        None => Err(EscrowError::NotFound),
        Some(e) => if e.status != EscrowStatus::Active {
            Err(EscrowError::AlreadySettled)
        } else if caller != e.employer {
            Err(EscrowError::NotEmployer)
        } else if !job_verified {
            Err(EscrowError::JobNotVerified)
        } else {
            Ok(())
        },
    }
}

/// Whether a refund is allowed on a record at time `now`.
pub open spec fn refund_check(record: Option<EscrowDataView>, now: u64) -> Result<(), EscrowError> {
    match record {
        None => Err(EscrowError::NotFound),
        Some(e) => if e.status != EscrowStatus::Active {
            Err(EscrowError::AlreadySettled)
        } else if now <= e.deadline {
            Err(EscrowError::DeadlineNotPassed)
        } else {
            Ok(())
        },
    }
}

/// Whether a deposit is allowed at time `now`, given whether the job has a
/// record already.
pub open spec fn deposit_check(exists: bool, now: u64, deadline: u64) -> Result<(), EscrowError> {
    if deadline <= now {
        Err(EscrowError::DeadlineInPast)
    } else if exists {
        Err(EscrowError::AlreadyExists)
    } else {
        Ok(())
    }
}

/// Decides whether a deposit is allowed, see [`deposit_check`].
pub fn check_deposit(exists: bool, now: u64, deadline: u64) -> (r: Result<(), EscrowError>)
    ensures
        r == deposit_check(exists, now, deadline),
{
    if deadline <= now {
        Err(EscrowError::DeadlineInPast)
    } else if exists {
        Err(EscrowError::AlreadyExists)
    } else {
        Ok(())
    }
}

/// The record under `job_id`, if any.
pub open spec fn record_of(s: EscrowView, job_id: Seq<u8>) -> Option<EscrowDataView> {
    if s.escrows.contains_key(job_id) {
        Some(s.escrows[job_id])
    } else {
        None
    }
}

/// The ledger with the status of one record changed.
pub open spec fn with_status(s: EscrowView, job_id: Seq<u8>, status: EscrowStatus) -> EscrowView {
    EscrowView {
        escrows: s.escrows.insert(job_id, EscrowDataView { status, ..s.escrows[job_id] }),
        ..s
    }
}

/// The outcome of a deposit by `caller` at time `now`.
pub open spec fn deposit_spec(
    s: EscrowView,
    caller: Address,
    now: u64,
    job_id: Seq<u8>,
    receiver: Address,
    poa_hash: Seq<u8>,
    deadline: u64,
    payment: PaymentView,
) -> Result<EscrowView, EscrowError> {
    match deposit_check(s.escrows.contains_key(job_id), now, deadline) {
        Err(e) => Err(e),
        Ok(()) => Ok(
            EscrowView {
                escrows: s.escrows.insert(
                    job_id,
                    EscrowDataView {
                        employer: caller,
                        receiver,
                        payment,
                        poa_hash,
                        deadline,
                        status: EscrowStatus::Active,
                    },
                ),
                ..s
            },
        ),
    }
}

/// The outcome of a release by `caller`, with the validation ledger as it is
/// at the time of the call.
pub open spec fn release_spec(
    s: EscrowView,
    jobs: Map<Seq<u8>, JobDataView>,
    caller: Address,
    job_id: Seq<u8>,
) -> Result<EscrowView, EscrowError> {
    match release_check(record_of(s, job_id), caller, verified(jobs, job_id)) {
        Err(e) => Err(e),
        Ok(()) => Ok(with_status(s, job_id, EscrowStatus::Released)),
    }
}

/// The outcome of a refund at time `now`.
pub open spec fn refund_spec(s: EscrowView, now: u64, job_id: Seq<u8>) -> Result<EscrowView, EscrowError> {
    match refund_check(record_of(s, job_id), now) {
        Err(e) => Err(e),
        Ok(()) => Ok(with_status(s, job_id, EscrowStatus::Refunded)),
    }
}

impl EscrowData {
    /// Decides a release of this record and, when it is allowed, marks the
    /// record `Released`.
    pub fn release(&mut self, caller: &Address, job_verified: bool) -> (r: Result<(), EscrowError>)
        ensures
            r == release_check(Some(old(self)@), *caller, job_verified),
            r.is_ok() ==> final(self)@ == (EscrowDataView {
                status: EscrowStatus::Released,
                ..old(self)@
            }),
            r.is_err() ==> final(self)@ == old(self)@,
    {
        if self.status != EscrowStatus::Active {
            return Err(EscrowError::AlreadySettled);
        }
        if !caller.is(&self.employer) {
            return Err(EscrowError::NotEmployer);
        }
        if !job_verified {
            return Err(EscrowError::JobNotVerified);
        }
        self.status = EscrowStatus::Released;
        Ok(())
    }

    /// Decides a refund of this record at time `now` and, when it is
    /// allowed, marks the record `Refunded`.
    pub fn refund(&mut self, now: u64) -> (r: Result<(), EscrowError>)
        ensures
            r == refund_check(Some(old(self)@), now),
            r.is_ok() ==> final(self)@ == (EscrowDataView {
                status: EscrowStatus::Refunded,
                ..old(self)@
            }),
            r.is_err() ==> final(self)@ == old(self)@,
    {
        if self.status != EscrowStatus::Active {
            return Err(EscrowError::AlreadySettled);
        }
        if now <= self.deadline {
            return Err(EscrowError::DeadlineNotPassed);
        }
        self.status = EscrowStatus::Refunded;
        Ok(())
    }
}

/// The escrow ledger.
pub struct EscrowContract {
    owner: Address,
    validation_contract_address: Address,
    identity_contract_address: Address,
    escrows: Store<Vec<u8>, EscrowData>,
}

impl View for EscrowContract {
    type V = EscrowView;

    closed spec fn view(&self) -> EscrowView {
        EscrowView {
            owner: self.owner,
            validation_contract_address: self.validation_contract_address,
            identity_contract_address: self.identity_contract_address,
            escrows: value_views(self.escrows@),
        }
    }
}

impl EscrowContract {
    /// A new ledger without records, owned by `owner`.
    pub fn init(
        owner: Address,
        validation_contract_address: Address,
        identity_contract_address: Address,
    ) -> (r: EscrowContract)
        ensures
            r@ == (EscrowView {
                owner,
                validation_contract_address,
                identity_contract_address,
                escrows: Map::empty(),
            }),
    {
        let r = EscrowContract {
            owner,
            validation_contract_address,
            identity_contract_address,
            escrows: Store::new(),
        };
        assert(r@.escrows =~= Map::empty());
        r
    }

    /// Changes where the validation ledger and the identity directory live.
    /// Only the owner may.
    pub fn set_contract_addresses(
        &mut self,
        caller: &Address,
        validation_contract_address: Address,
        identity_contract_address: Address,
    ) -> (r: Result<(), EscrowError>)
        ensures
            *caller == old(self)@.owner ==> r.is_ok() && final(self)@ == (EscrowView {
                validation_contract_address,
                identity_contract_address,
                ..old(self)@
            }),
            *caller != old(self)@.owner ==> final(self)@ == old(self)@ && r == Err::<(), EscrowError>(
                EscrowError::NotOwner,
            ),
    {
        if !caller.is(&self.owner) {
            return Err(EscrowError::NotOwner);
        }
        self.validation_contract_address = validation_contract_address;
        self.identity_contract_address = identity_contract_address;
        Ok(())
    }

    /// Where the validation ledger lives.
    pub fn validation_contract_address(&self) -> (a: Address)
        ensures
            a == self@.validation_contract_address,
    {
        self.validation_contract_address
    }

    /// Where the identity directory lives.
    pub fn identity_contract_address(&self) -> (a: Address)
        ensures
            a == self@.identity_contract_address,
    {
        self.identity_contract_address
    }

    /// Takes the caller's payment into custody for a job.
    ///
    /// `deadline` is the time in seconds after which a refund is allowed; it
    /// must lie after `now`. A job can have one record only.
    pub fn deposit(
        &mut self,
        caller: Address,
        now: u64,
        job_id: Vec<u8>,
        receiver: Address,
        poa_hash: Vec<u8>,
        deadline: u64,
        payment: Payment,
    ) -> (r: Result<EscrowEvent, EscrowError>)
        ensures
            match deposit_spec(
                old(self)@,
                caller,
                now,
                job_id@,
                receiver,
                poa_hash@,
                deadline,
                payment@,
            ) {
                Ok(after) => final(self)@ == after && (r matches Ok(
                    EscrowEvent::Deposited { job_id: j, employer, amount },
                ) && j@ == job_id@ && employer == caller && amount == payment@.amount),
                Err(e) => final(self)@ == old(self)@ && r == Err::<EscrowEvent, EscrowError>(e),
            },
    {
        match check_deposit(self.escrows.contains(&job_id), now, deadline) {
            Err(e) => {
                return Err(e);
            },
            Ok(()) => {},
        }
        let ghost before = self@;
        let amount = payment.amount();
        let event = EscrowEvent::Deposited {
            job_id: copy_bytes(job_id.as_slice()),
            employer: caller,
            amount,
        };
        let record = EscrowData {
            employer: caller,
            receiver,
            payment,
            poa_hash,
            deadline,
            status: EscrowStatus::Active,
        };
        self.escrows.insert(job_id, record);
        assert(self@.escrows =~= before.escrows.insert(job_id@, record@));
        Ok(event)
    }

    /// Releases the funds of a job to the receiver.
    ///
    /// Only the employer may release, and only while the validation ledger
    /// holds the job as verified. The record is marked `Released`; the order
    /// to pay the receiver is what the call returns.
    pub fn release<V: ViewsModule>(&mut self, caller: &Address, job_id: &Vec<u8>, validation: &V) -> (r:
        Result<Settlement, EscrowError>)
        ensures
            r.is_ok() ==> verified(validation.job_records(), job_id@),
            match release_spec(old(self)@, validation.job_records(), *caller, job_id@) {
                Ok(after) => final(self)@ == after && (r matches Ok(s) && s.transfer.to
                    == after.escrows[job_id@].receiver && s.transfer.payment@
                    == after.escrows[job_id@].payment
                    && (s.event matches EscrowEvent::Released { job_id: j, receiver, amount } && j@
                    == job_id@ && receiver == s.transfer.to && amount
                    == s.transfer.payment@.amount)),
                Err(e) => final(self)@ == old(self)@ && r == Err::<Settlement, EscrowError>(e),
            },
    {
        let mut record = match self.escrows.get(job_id) {
            Some(e) => e.clone(),
            None => {
                return Err(EscrowError::NotFound);
            },
        };
        let job_verified = validation.is_job_verified(job_id);
        match record.release(caller, job_verified) {
            Err(e) => {
                return Err(e);
            },
            Ok(()) => {},
        }
        let ghost before = self@;
        let to = record.receiver;
        let payment = record.payment.clone();
        self.escrows.insert(copy_bytes(job_id.as_slice()), record);
        assert(self@.escrows =~= with_status(before, job_id@, EscrowStatus::Released).escrows);
        let event = EscrowEvent::Released {
            job_id: copy_bytes(job_id.as_slice()),
            receiver: to,
            amount: payment.amount(),
        };
        Ok(Settlement { transfer: Transfer { to, payment }, event })
    }

    /// Refunds the funds of a job to the employer once the deadline has
    /// passed. Anyone may call.
    ///
    /// The record is marked `Refunded`; the order to pay the employer is what
    /// the call returns.
    pub fn refund(&mut self, now: u64, job_id: &Vec<u8>) -> (r: Result<Settlement, EscrowError>)
        ensures
            r.is_ok() ==> old(self)@.escrows.contains_key(job_id@) && old(self)@.escrows[job_id@].status
                == EscrowStatus::Active && now > old(self)@.escrows[job_id@].deadline,
            match refund_spec(old(self)@, now, job_id@) {
                Ok(after) => final(self)@ == after && (r matches Ok(s) && s.transfer.to
                    == after.escrows[job_id@].employer && s.transfer.payment@
                    == after.escrows[job_id@].payment
                    && (s.event matches EscrowEvent::Refunded { job_id: j, employer, amount } && j@
                    == job_id@ && employer == s.transfer.to && amount
                    == s.transfer.payment@.amount)),
                Err(e) => final(self)@ == old(self)@ && r == Err::<Settlement, EscrowError>(e),
            },
    {
        let mut record = match self.escrows.get(job_id) {
            Some(e) => e.clone(),
            None => {
                return Err(EscrowError::NotFound);
            },
        };
        match record.refund(now) {
            Err(e) => {
                return Err(e);
            },
            Ok(()) => {},
        }
        let ghost before = self@;
        let to = record.employer;
        let payment = record.payment.clone();
        self.escrows.insert(copy_bytes(job_id.as_slice()), record);
        assert(self@.escrows =~= with_status(before, job_id@, EscrowStatus::Refunded).escrows);
        let event = EscrowEvent::Refunded {
            job_id: copy_bytes(job_id.as_slice()),
            employer: to,
            amount: payment.amount(),
        };
        Ok(Settlement { transfer: Transfer { to, payment }, event })
    }

    /// The escrow record of a job, if there is one.
    ///
    /// The funds of a record are never empty.
    pub fn get_escrow(&self, job_id: &Vec<u8>) -> (r: Option<EscrowData>)
        ensures
            r.is_some() == self@.escrows.contains_key(job_id@),
            r.is_some() ==> r.unwrap()@ == self@.escrows[job_id@],
            r.is_some() ==> self@.escrows[job_id@].payment.amount > 0,
    {
        match self.escrows.get(job_id) {
            Some(e) => {
                let copy = e.clone();
                let _amount = copy.payment.amount();
                Some(copy)
            },
            None => None,
        }
    }
}

/// One call of the escrow ledger, with everything that its outcome depends on.
pub enum EscrowCall {
    Deposit {
        caller: Address,
        now: u64,
        job_id: Seq<u8>,
        receiver: Address,
        poa_hash: Seq<u8>,
        deadline: u64,
        payment: PaymentView,
    },
    Release { caller: Address, job_id: Seq<u8>, jobs: Map<Seq<u8>, JobDataView> },
    Refund { now: u64, job_id: Seq<u8> },
}

/// The outcome of a call.
pub open spec fn call_spec(s: EscrowView, call: EscrowCall) -> Result<EscrowView, EscrowError> {
    match call {
        EscrowCall::Deposit { caller, now, job_id, receiver, poa_hash, deadline, payment } => deposit_spec(
            s,
            caller,
            now,
            job_id,
            receiver,
            poa_hash,
            deadline,
            payment,
        ),
        EscrowCall::Release { caller, job_id, jobs } => release_spec(s, jobs, caller, job_id),
        EscrowCall::Refund { now, job_id } => refund_spec(s, now, job_id),
    }
}

/// The ledger after a call: a failed call leaves it as it was.
pub open spec fn after_call(s: EscrowView, call: EscrowCall) -> EscrowView {
    match call_spec(s, call) {
        Ok(after) => after,
        Err(_) => s,
    }
}

/// The ledger after a list of calls, first to last.
pub open spec fn after_calls(s: EscrowView, calls: Seq<EscrowCall>) -> EscrowView
    decreases calls.len(),
{
    if calls.len() == 0 {
        s
    } else {
        after_call(after_calls(s, calls.drop_last()), calls.last())
    }
}

/// A job has one record: no call replaces or removes the record of a job,
/// and all that a call changes in it is the status.
pub proof fn lemma_one_record_per_job(s: EscrowView, call: EscrowCall, job_id: Seq<u8>)
    requires
        s.escrows.contains_key(job_id),
    ensures
        after_call(s, call).escrows.contains_key(job_id),
        after_call(s, call).escrows[job_id] == (EscrowDataView {
            status: after_call(s, call).escrows[job_id].status,
            ..s.escrows[job_id]
        }),
{
}

/// Settlement is final: the record of a job that was released or refunded
/// is the same after any call.
pub proof fn lemma_settled_is_final(s: EscrowView, call: EscrowCall, job_id: Seq<u8>)
    requires
        s.escrows.contains_key(job_id),
        s.escrows[job_id].status != EscrowStatus::Active,
    ensures
        after_call(s, call).escrows.contains_key(job_id),
        after_call(s, call).escrows[job_id] == s.escrows[job_id],
{
}

/// Settlement is final over any number of calls: a record that has left
/// `Active` never returns to it.
pub proof fn lemma_settled_stays_settled(s: EscrowView, calls: Seq<EscrowCall>, job_id: Seq<u8>)
    requires
        s.escrows.contains_key(job_id),
        s.escrows[job_id].status != EscrowStatus::Active,
    ensures
        after_calls(s, calls).escrows.contains_key(job_id),
        after_calls(s, calls).escrows[job_id] == s.escrows[job_id],
    decreases calls.len(),
{
    if calls.len() > 0 {
        lemma_settled_stays_settled(s, calls.drop_last(), job_id);
        lemma_settled_is_final(after_calls(s, calls.drop_last()), calls.last(), job_id);
    }
}

/// A release succeeds only while the job is on record as verified.
pub proof fn lemma_release_needs_verified_job(
    s: EscrowView,
    jobs: Map<Seq<u8>, JobDataView>,
    caller: Address,
    job_id: Seq<u8>,
)
    requires
        release_spec(s, jobs, caller, job_id).is_ok(),
    ensures
        verified(jobs, job_id),
        s.escrows.contains_key(job_id),
        s.escrows[job_id].status == EscrowStatus::Active,
        s.escrows[job_id].employer == caller,
{
}

/// A refund succeeds only after the deadline, and only on an active record.
pub proof fn lemma_refund_needs_passed_deadline(s: EscrowView, now: u64, job_id: Seq<u8>)
    requires
        refund_spec(s, now, job_id).is_ok(),
    ensures
        s.escrows.contains_key(job_id),
        s.escrows[job_id].status == EscrowStatus::Active,
        now > s.escrows[job_id].deadline,
{
}

/// Whether a call is a release or a refund of the job `job_id`.
pub open spec fn settles(call: EscrowCall, job_id: Seq<u8>) -> bool {
    match call {
        EscrowCall::Release { job_id: j, .. } => j == job_id,
        EscrowCall::Refund { job_id: j, .. } => j == job_id,
        EscrowCall::Deposit { .. } => false,
    }
}

/// The funds of a job leave the ledger at most once: after a release or a
/// refund of a job, neither succeeds for that job again.
pub proof fn lemma_settles_once(s: EscrowView, first: EscrowCall, later: EscrowCall, job_id: Seq<u8>)
    requires
        settles(first, job_id),
        settles(later, job_id),
        call_spec(s, first).is_ok(),
    ensures
        call_spec(after_call(s, first), later) == Err::<EscrowView, EscrowError>(
            EscrowError::AlreadySettled,
        ),
{
}

} // verus!
