use agent_ledgers::errors::{EscrowError, FeedbackError};
use agent_ledgers::escrow::{EscrowContract, EscrowEvent, EscrowStatus};
use agent_ledgers::identity::IdentityRegistry;
use agent_ledgers::reputation::ReputationRegistry;
use agent_ledgers::types::{native_token_id, Address, Payment};
use agent_ledgers::validation::{JobStatus, ValidationRegistry, ViewsModule};

fn account(n: u8) -> Address {
    Address::new([n; 32])
}

const T: u64 = 1_700_000_000;

#[test]
fn scenario_release_before_verification() {
    let employer = account(1);
    let receiver = account(2);
    let validation = ValidationRegistry::init(account(9), account(50));
    let mut escrow = EscrowContract::init(account(10), account(51), account(50));
    let job = b"job_1".to_vec();
    let payment = Payment::new(native_token_id(), 0, 1_000).unwrap();
    escrow.deposit(employer, T, job.clone(), receiver, b"poa".to_vec(), T + 100, payment).unwrap();
    assert_eq!(escrow.release(&employer, &job, &validation), Err(EscrowError::JobNotVerified));
    assert_eq!(escrow.get_escrow(&job).unwrap().status, EscrowStatus::Active);
}

#[test]
fn scenario_verified_job_is_released_once() {
    let employer = account(1);
    let receiver = account(2);
    let oracle = account(9);
    let mut validation = ValidationRegistry::init(oracle, account(50));
    let mut escrow = EscrowContract::init(account(10), account(51), account(50));
    let job = b"job_1".to_vec();
    let payment = Payment::new(native_token_id(), 0, 1_000).unwrap();
    escrow.deposit(employer, T, job.clone(), receiver, b"poa".to_vec(), T + 100, payment).unwrap();

    validation.init_job(employer, T * 1000, job.clone(), 1).unwrap();
    validation.submit_proof(&job, b"hash".to_vec()).unwrap();
    assert_eq!(validation.get_job_data(&job).unwrap().status, JobStatus::Pending);
    validation.verify_job(&oracle, &job).unwrap();

    let settled = escrow.release(&employer, &job, &validation).unwrap();
    assert_eq!(
        settled.event,
        EscrowEvent::Released { job_id: job.clone(), receiver, amount: 1_000 }
    );
    assert_eq!(settled.transfer.to, receiver);
    assert_eq!(settled.transfer.payment.amount(), 1_000);
    assert_eq!(escrow.get_escrow(&job).unwrap().status, EscrowStatus::Released);
    assert_eq!(escrow.release(&employer, &job, &validation), Err(EscrowError::AlreadySettled));
}

#[test]
fn scenario_refund_after_the_deadline() {
    let employer = account(1);
    let receiver = account(2);
    let oracle = account(9);
    let mut validation = ValidationRegistry::init(oracle, account(50));
    let mut escrow = EscrowContract::init(account(10), account(51), account(50));
    let job = b"job_1".to_vec();
    let payment = Payment::new(native_token_id(), 0, 1_000).unwrap();
    escrow.deposit(employer, T, job.clone(), receiver, b"poa".to_vec(), T + 10, payment).unwrap();

    let settled = escrow.refund(T + 11, &job).unwrap();
    assert_eq!(settled.transfer.to, employer);
    assert_eq!(settled.transfer.payment.amount(), 1_000);
    assert_eq!(
        settled.event,
        EscrowEvent::Refunded { job_id: job.clone(), employer, amount: 1_000 }
    );
    assert_eq!(escrow.get_escrow(&job).unwrap().status, EscrowStatus::Refunded);

    assert_eq!(escrow.release(&employer, &job, &validation), Err(EscrowError::AlreadySettled));
    validation.init_job(employer, 0, job.clone(), 1).unwrap();
    validation.verify_job(&oracle, &job).unwrap();
    assert_eq!(escrow.release(&employer, &job, &validation), Err(EscrowError::AlreadySettled));
    assert_eq!(escrow.get_escrow(&job).unwrap().status, EscrowStatus::Refunded);
}

#[test]
fn scenario_authorized_feedback_is_accepted_once() {
    let admin = account(1);
    let agent_owner = account(2);
    let employer = account(3);
    let mut identity = IdentityRegistry::init(admin);
    identity.set_token_id(b"AGENT-123456".to_vec()).unwrap();
    identity
        .register_agent(agent_owner, b"agent".to_vec(), b"uri".to_vec(), b"pk".to_vec(), None)
        .unwrap();
    let mut validation = ValidationRegistry::init(admin, account(50));
    let mut reputation = ReputationRegistry::init(admin, account(51), account(50));
    let job = b"job_1".to_vec();
    validation.init_job(employer, 0, job.clone(), 1).unwrap();
    validation.submit_proof(&job, b"hash".to_vec()).unwrap();
    validation.verify_job(&admin, &job).unwrap();

    assert_eq!(
        reputation.authorize_feedback(&employer, job.clone(), employer, &validation, &identity),
        Err(FeedbackError::NotAgentOwner)
    );
    assert_eq!(
        reputation.authorize_feedback(&agent_owner, job.clone(), employer, &validation, &identity),
        Ok(())
    );
    let event = reputation.submit_feedback(&employer, &job, 1, 5000, &validation).unwrap();
    assert_eq!(event.agent_nonce, 1);
    assert_eq!(event.new_score, 5000);
    assert_eq!(
        reputation.submit_feedback(&employer, &job, 1, 5000, &validation),
        Err(FeedbackError::FeedbackAlreadyProvided)
    );
    assert_eq!(reputation.get_reputation_score(1), 5000);
    assert_eq!(reputation.get_total_jobs(1), 1);
}

#[test]
fn settled_records_survive_every_later_call() {
    let employer = account(1);
    let oracle = account(9);
    let mut validation = ValidationRegistry::init(oracle, account(50));
    let mut escrow = EscrowContract::init(account(10), account(51), account(50));
    let released = b"released".to_vec();
    let refunded = b"refunded".to_vec();
    for job in [&released, &refunded] {
        let payment = Payment::new(native_token_id(), 0, 10).unwrap();
        escrow.deposit(employer, T, job.clone(), account(2), Vec::new(), T + 10, payment).unwrap();
        validation.init_job(employer, 0, job.clone(), 1).unwrap();
        validation.verify_job(&oracle, job).unwrap();
    }
    escrow.release(&employer, &released, &validation).unwrap();
    escrow.refund(T + 11, &refunded).unwrap();
    let kept = (escrow.get_escrow(&released), escrow.get_escrow(&refunded));

    for job in [&released, &refunded] {
        let payment = Payment::new(native_token_id(), 0, 99).unwrap();
        assert!(escrow.deposit(account(7), T, job.clone(), account(8), Vec::new(), T + 50, payment).is_err());
        assert!(escrow.release(&employer, job, &validation).is_err());
        assert!(escrow.refund(T + 1_000, job).is_err());
        assert!(escrow.refund(0, job).is_err());
    }
    let payment = Payment::new(native_token_id(), 0, 99).unwrap();
    escrow.deposit(account(7), T, b"third".to_vec(), account(8), Vec::new(), T + 50, payment).unwrap();
    assert_eq!((escrow.get_escrow(&released), escrow.get_escrow(&refunded)), kept);
}
