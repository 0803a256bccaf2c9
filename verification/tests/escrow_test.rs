use agent_ledgers::errors::{ErrorKind, EscrowError};
use agent_ledgers::escrow::{EscrowContract, EscrowData, EscrowEvent, EscrowStatus, Settlement};
use agent_ledgers::types::{native_token_id, Address, Payment, Transfer};
use agent_ledgers::validation::ValidationRegistry;

fn account(n: u8) -> Address {
    Address::new([n; 32])
}

fn egld(amount: u128) -> Payment {
    Payment::new(native_token_id(), 0, amount).unwrap()
}

const EMPLOYER: u8 = 1;
const RECEIVER: u8 = 2;
const ORACLE: u8 = 3;
const ADMIN: u8 = 4;

fn ledgers() -> (EscrowContract, ValidationRegistry) {
    (EscrowContract::init(account(ADMIN), account(60), account(50)), ValidationRegistry::init(account(ORACLE), account(50)))
}

fn verified_job(validation: &mut ValidationRegistry, job: &Vec<u8>) {
    validation.init_job(account(EMPLOYER), 0, job.clone(), 1).unwrap();
    validation.submit_proof(job, b"hash".to_vec()).unwrap();
    validation.verify_job(&account(ORACLE), job).unwrap();
}

#[test]
fn a_new_ledger_remembers_its_neighbours() {
    let (escrow, _) = ledgers();
    assert_eq!(escrow.validation_contract_address(), account(60));
    assert_eq!(escrow.identity_contract_address(), account(50));
    assert_eq!(escrow.get_escrow(&b"job_1".to_vec()), None);
}

#[test]
fn only_the_owner_moves_the_neighbours_of_the_escrow() {
    let (mut escrow, _) = ledgers();
    assert_eq!(
        escrow.set_contract_addresses(&account(EMPLOYER), account(61), account(62)),
        Err(EscrowError::NotOwner)
    );
    assert_eq!(EscrowError::NotOwner.kind(), ErrorKind::Authorization);
    assert_eq!(escrow.validation_contract_address(), account(60));
    assert_eq!(escrow.set_contract_addresses(&account(ADMIN), account(61), account(62)), Ok(()));
    assert_eq!(escrow.validation_contract_address(), account(61));
    assert_eq!(escrow.identity_contract_address(), account(62));
}

#[test]
fn deposit_creates_an_active_record() {
    let (mut escrow, _) = ledgers();
    let job = b"job_1".to_vec();
    let event = escrow
        .deposit(account(EMPLOYER), 1_000, job.clone(), account(RECEIVER), b"poa".to_vec(), 1_100, egld(777))
        .unwrap();
    assert_eq!(
        event,
        EscrowEvent::Deposited { job_id: job.clone(), employer: account(EMPLOYER), amount: 777 }
    );
    assert_eq!(
        escrow.get_escrow(&job),
        Some(EscrowData {
            employer: account(EMPLOYER),
            receiver: account(RECEIVER),
            payment: egld(777),
            poa_hash: b"poa".to_vec(),
            deadline: 1_100,
            status: EscrowStatus::Active,
        })
    );
}

#[test]
fn deposit_needs_a_deadline_in_the_future() {
    let (mut escrow, _) = ledgers();
    let job = b"job_1".to_vec();
    let at_now = escrow.deposit(account(1), 1_000, job.clone(), account(2), Vec::new(), 1_000, egld(1));
    assert_eq!(at_now, Err(EscrowError::DeadlineInPast));
    assert_eq!(EscrowError::DeadlineInPast.kind(), ErrorKind::Validation);
    let before = escrow.deposit(account(1), 1_000, job.clone(), account(2), Vec::new(), 999, egld(1));
    assert_eq!(before, Err(EscrowError::DeadlineInPast));
    assert_eq!(escrow.get_escrow(&job), None);
    assert!(escrow.deposit(account(1), 1_000, job.clone(), account(2), Vec::new(), 1_001, egld(1)).is_ok());
}

#[test]
fn a_job_has_one_record() {
    let (mut escrow, _) = ledgers();
    let job = b"job_1".to_vec();
    escrow.deposit(account(1), 0, job.clone(), account(2), b"a".to_vec(), 10, egld(5)).unwrap();
    let first = escrow.get_escrow(&job);
    let again = escrow.deposit(account(7), 0, job.clone(), account(8), b"b".to_vec(), 20, egld(6));
    assert_eq!(again, Err(EscrowError::AlreadyExists));
    assert_eq!(EscrowError::AlreadyExists.kind(), ErrorKind::State);
    assert_eq!(escrow.get_escrow(&job), first);
    let late = escrow.deposit(account(7), 30, job.clone(), account(8), b"b".to_vec(), 20, egld(6));
    assert_eq!(late, Err(EscrowError::DeadlineInPast));
    assert!(escrow.deposit(account(7), 0, b"job_2".to_vec(), account(8), b"b".to_vec(), 20, egld(6)).is_ok());
    assert_eq!(escrow.get_escrow(&job), first);
}

#[test]
fn release_pays_the_receiver_once() {
    let (mut escrow, mut validation) = ledgers();
    let job = b"job_1".to_vec();
    escrow
        .deposit(account(EMPLOYER), 1_000, job.clone(), account(RECEIVER), b"poa".to_vec(), 1_100, egld(500))
        .unwrap();
    verified_job(&mut validation, &job);

    let settled = escrow.release(&account(EMPLOYER), &job, &validation).unwrap();
    assert_eq!(
        settled,
        Settlement {
            transfer: Transfer { to: account(RECEIVER), payment: egld(500) },
            event: EscrowEvent::Released { job_id: job.clone(), receiver: account(RECEIVER), amount: 500 },
        }
    );
    let record = escrow.get_escrow(&job).unwrap();
    assert_eq!(record.status, EscrowStatus::Released);
    assert_eq!(record.payment, egld(500));
    assert_eq!(record.employer, account(EMPLOYER));

    assert_eq!(escrow.release(&account(EMPLOYER), &job, &validation), Err(EscrowError::AlreadySettled));
    assert_eq!(escrow.refund(2_000, &job), Err(EscrowError::AlreadySettled));
    assert_eq!(escrow.get_escrow(&job).unwrap().status, EscrowStatus::Released);
}

#[test]
fn release_is_refused_in_order() {
    let (mut escrow, mut validation) = ledgers();
    let job = b"job_1".to_vec();
    assert_eq!(escrow.release(&account(EMPLOYER), &job, &validation), Err(EscrowError::NotFound));
    assert_eq!(EscrowError::NotFound.kind(), ErrorKind::State);
    escrow
        .deposit(account(EMPLOYER), 1_000, job.clone(), account(RECEIVER), b"poa".to_vec(), 1_100, egld(500))
        .unwrap();

    assert_eq!(escrow.release(&account(RECEIVER), &job, &validation), Err(EscrowError::NotEmployer));
    assert_eq!(EscrowError::NotEmployer.kind(), ErrorKind::Authorization);
    assert_eq!(escrow.release(&account(EMPLOYER), &job, &validation), Err(EscrowError::JobNotVerified));
    assert_eq!(EscrowError::JobNotVerified.kind(), ErrorKind::State);

    validation.init_job(account(EMPLOYER), 0, job.clone(), 1).unwrap();
    assert_eq!(escrow.release(&account(EMPLOYER), &job, &validation), Err(EscrowError::JobNotVerified));
    validation.submit_proof(&job, b"hash".to_vec()).unwrap();
    assert_eq!(escrow.release(&account(EMPLOYER), &job, &validation), Err(EscrowError::JobNotVerified));
    validation.verify_job(&account(ORACLE), &job).unwrap();
    assert_eq!(escrow.release(&account(RECEIVER), &job, &validation), Err(EscrowError::NotEmployer));
    assert_eq!(escrow.get_escrow(&job).unwrap().status, EscrowStatus::Active);
    assert!(escrow.release(&account(EMPLOYER), &job, &validation).is_ok());
    assert_eq!(escrow.release(&account(RECEIVER), &job, &validation), Err(EscrowError::AlreadySettled));
}

#[test]
fn refund_waits_for_the_deadline() {
    let (mut escrow, _) = ledgers();
    let job = b"job_1".to_vec();
    assert_eq!(escrow.refund(5_000, &job), Err(EscrowError::NotFound));
    escrow
        .deposit(account(EMPLOYER), 1_000, job.clone(), account(RECEIVER), b"poa".to_vec(), 1_010, egld(42))
        .unwrap();
    assert_eq!(escrow.refund(1_009, &job), Err(EscrowError::DeadlineNotPassed));
    assert_eq!(escrow.refund(1_010, &job), Err(EscrowError::DeadlineNotPassed));
    assert_eq!(EscrowError::DeadlineNotPassed.kind(), ErrorKind::State);
    assert_eq!(escrow.get_escrow(&job).unwrap().status, EscrowStatus::Active);

    let settled = escrow.refund(1_011, &job).unwrap();
    assert_eq!(
        settled,
        Settlement {
            transfer: Transfer { to: account(EMPLOYER), payment: egld(42) },
            event: EscrowEvent::Refunded { job_id: job.clone(), employer: account(EMPLOYER), amount: 42 },
        }
    );
    assert_eq!(escrow.get_escrow(&job).unwrap().status, EscrowStatus::Refunded);
    assert_eq!(escrow.refund(1_012, &job), Err(EscrowError::AlreadySettled));
    assert_eq!(EscrowError::AlreadySettled.kind(), ErrorKind::State);
}

#[test]
fn record_rules_apply_without_a_ledger() {
    let mut record = EscrowData {
        employer: account(EMPLOYER),
        receiver: account(RECEIVER),
        payment: egld(9),
        poa_hash: Vec::new(),
        deadline: 100,
        status: EscrowStatus::Active,
    };
    assert_eq!(record.release(&account(RECEIVER), true), Err(EscrowError::NotEmployer));
    assert_eq!(record.release(&account(EMPLOYER), false), Err(EscrowError::JobNotVerified));
    assert_eq!(record.refund(100), Err(EscrowError::DeadlineNotPassed));
    assert_eq!(record.status, EscrowStatus::Active);
    assert_eq!(record.refund(101), Ok(()));
    assert_eq!(record.status, EscrowStatus::Refunded);
    assert_eq!(record.release(&account(EMPLOYER), true), Err(EscrowError::AlreadySettled));
    assert_eq!(record.refund(200), Err(EscrowError::AlreadySettled));
    assert_eq!(record.status, EscrowStatus::Refunded);
}

#[test]
fn a_payment_is_never_empty() {
    assert_eq!(Payment::new(native_token_id(), 0, 0), None);
    let p = Payment::new(b"USDC-123456".to_vec(), 4, 1).unwrap();
    assert_eq!(p.token(), &b"USDC-123456".to_vec());
    assert_eq!(p.nonce(), 4);
    assert_eq!(p.amount(), 1);
    assert_eq!(p.clone(), p);
    assert_eq!(Payment::new(Vec::new(), 0, u128::MAX).unwrap().amount(), u128::MAX);
}

#[test]
fn escrow_messages() {
    assert_eq!(EscrowError::DeadlineInPast.message(), "Deadline must be in the future");
    assert_eq!(EscrowError::AlreadyExists.message(), "Escrow already exists for this job");
    assert_eq!(EscrowError::NotFound.message(), "Escrow not found");
    assert_eq!(EscrowError::AlreadySettled.message(), "Escrow already settled");
    assert_eq!(EscrowError::NotEmployer.message(), "Only the employer can release the escrow");
    assert_eq!(EscrowError::JobNotVerified.message(), "Job not verified");
    assert_eq!(EscrowError::DeadlineNotPassed.message(), "Deadline has not passed");
    assert_eq!(EscrowError::NotOwner.message(), "Endpoint can only be called by owner");
}
