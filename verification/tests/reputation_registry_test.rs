use agent_ledgers::errors::{ErrorKind, FeedbackError};
use agent_ledgers::identity::IdentityRegistry;
use agent_ledgers::reputation::{
    calculate_new_score, check_feedback, require_agent_owner, Reputation, ReputationRegistry,
    ReputationUpdatedEvent,
};
use agent_ledgers::types::Address;
use agent_ledgers::validation::{JobData, JobStatus, ValidationRegistry};

fn account(n: u8) -> Address {
    Address::new([n; 32])
}

fn directory(owner: Address) -> IdentityRegistry {
    let mut id = IdentityRegistry::init(owner);
    id.set_token_id(b"AGENT-123456".to_vec()).unwrap();
    id
}

#[test]
fn test_unauthorized_feedback_authorization() {
    let owner_addr = account(1);
    let user_addr = account(2);
    let agent_addr = account(3);
    let attacker_addr = account(4);

    let mut val = ValidationRegistry::init(owner_addr, account(52));
    let mut id = directory(owner_addr);
    let mut rep = ReputationRegistry::init(owner_addr, account(51), account(52));

    id.register_agent(
        agent_addr,
        b"Moltbot-01".to_vec(),
        b"ipfs://manifest".to_vec(),
        b"pubkey".to_vec(),
        None,
    )
    .unwrap();

    val.init_job(user_addr, 0, b"job_1".to_vec(), 1u64).unwrap();

    let r = rep.authorize_feedback(&attacker_addr, b"job_1".to_vec(), user_addr, &val, &id);
    assert_eq!(r, Err(FeedbackError::NotAgentOwner));
    assert_eq!(r.unwrap_err().message(), "Only the agent owner can authorize feedback");
    assert!(!rep.is_feedback_authorized(&b"job_1".to_vec(), &user_addr));
}

#[test]
fn test_authenticity_loop() {
    let owner = account(1);
    let agent = account(2);
    let user = account(3);
    let oracle = account(4);

    let mut id_sc = directory(owner);
    let mut val_sc = ValidationRegistry::init(oracle, account(52));
    let mut rep_sc = ReputationRegistry::init(owner, account(51), account(52));
    let job = b"job_123".to_vec();

    id_sc
        .register_agent(
            agent,
            b"Moltbot-01".to_vec(),
            b"ipfs://manifest".to_vec(),
            b"pubkey".to_vec(),
            None,
        )
        .unwrap();

    val_sc.init_job(user, 0, job.clone(), 1u64).unwrap();
    val_sc.submit_proof(&job, b"proof_hash".to_vec()).unwrap();
    val_sc.verify_job(&oracle, &job).unwrap();

    rep_sc.authorize_feedback(&agent, job.clone(), user, &val_sc, &id_sc).unwrap();

    rep_sc.submit_feedback(&user, &job, 1u64, 5000, &val_sc).unwrap();

    assert_eq!(rep_sc.get_reputation_score(1u64), 5000u128);
    assert_eq!(rep_sc.get_total_jobs(1u64), 1u64);
}

#[test]
fn test_reputation_flow() {
    let owner_addr = account(1);
    let user_addr = account(2);

    let mut val = ValidationRegistry::init(owner_addr, account(52));
    let mut id = directory(owner_addr);
    id.register_agent(owner_addr, b"agent".to_vec(), b"uri".to_vec(), b"pk".to_vec(), None).unwrap();
    let mut rep = ReputationRegistry::init(owner_addr, account(51), account(52));
    let job = b"job_1".to_vec();

    let r = rep.submit_feedback(&user_addr, &job, 1u64, 5u128, &val);
    assert_eq!(r, Err(FeedbackError::NotFound));
    assert_eq!(r.unwrap_err().message(), "Job not found or not initialized");

    val.init_job(user_addr, 0, job.clone(), 1u64).unwrap();

    rep.authorize_feedback(&owner_addr, job.clone(), user_addr, &val, &id).unwrap();

    val.verify_job(&owner_addr, &job).unwrap();

    rep.submit_feedback(&user_addr, &job, 1u64, 5u128, &val).unwrap();

    let score = rep.get_reputation_score(1u64);
    assert_eq!(score, 5u128);
}

struct World {
    id: IdentityRegistry,
    val: ValidationRegistry,
    rep: ReputationRegistry,
}

const ADMIN: u8 = 1;
const AGENT_OWNER: u8 = 2;
const EMPLOYER: u8 = 3;

/// One registered agent (nonce 1) and `jobs` verified jobs `[0]`, `[1]`, ...
/// for it, each with the employer authorized to rate it.
fn world(jobs: u8) -> World {
    let mut id = directory(account(ADMIN));
    id.register_agent(account(AGENT_OWNER), b"a".to_vec(), b"u".to_vec(), b"k".to_vec(), None).unwrap();
    let mut val = ValidationRegistry::init(account(ADMIN), account(52));
    let mut rep = ReputationRegistry::init(account(ADMIN), account(51), account(52));
    for j in 0..jobs {
        val.init_job(account(EMPLOYER), 0, vec![j], 1).unwrap();
        val.verify_job(&account(ADMIN), &vec![j]).unwrap();
        rep.authorize_feedback(&account(AGENT_OWNER), vec![j], account(EMPLOYER), &val, &id).unwrap();
    }
    World { id, val, rep }
}

#[test]
fn feedback_is_checked_in_order() {
    let mut w = world(0);
    let job = b"job_1".to_vec();
    let employer = account(EMPLOYER);
    assert_eq!(w.rep.submit_feedback(&employer, &job, 1, 10, &w.val), Err(FeedbackError::NotFound));
    w.val.init_job(employer, 0, job.clone(), 1).unwrap();
    assert_eq!(w.rep.submit_feedback(&employer, &job, 1, 10, &w.val), Err(FeedbackError::JobNotVerified));
    assert_eq!(w.rep.submit_feedback(&account(9), &job, 1, 10, &w.val), Err(FeedbackError::JobNotVerified));
    w.val.submit_proof(&job, b"p".to_vec()).unwrap();
    assert_eq!(w.rep.submit_feedback(&employer, &job, 1, 10, &w.val), Err(FeedbackError::JobNotVerified));
    w.val.verify_job(&account(ADMIN), &job).unwrap();
    assert_eq!(w.rep.submit_feedback(&account(9), &job, 1, 10, &w.val), Err(FeedbackError::NotEmployer));
    assert_eq!(
        w.rep.submit_feedback(&employer, &job, 1, 10, &w.val),
        Err(FeedbackError::FeedbackNotAuthorized)
    );
    w.rep.authorize_feedback(&account(AGENT_OWNER), job.clone(), account(9), &w.val, &w.id).unwrap();
    assert_eq!(
        w.rep.submit_feedback(&employer, &job, 1, 10, &w.val),
        Err(FeedbackError::FeedbackNotAuthorized)
    );
    assert_eq!(w.rep.submit_feedback(&account(9), &job, 1, 10, &w.val), Err(FeedbackError::NotEmployer));
    w.rep.authorize_feedback(&account(AGENT_OWNER), job.clone(), employer, &w.val, &w.id).unwrap();
    assert_eq!(w.rep.get_total_jobs(1), 0);
    assert!(!w.rep.has_given_feedback(&job));
    assert_eq!(
        w.rep.submit_feedback(&employer, &job, 1, 10, &w.val),
        Ok(ReputationUpdatedEvent { agent_nonce: 1, new_score: 10 })
    );
    assert!(w.rep.has_given_feedback(&job));
    assert_eq!(
        w.rep.submit_feedback(&employer, &job, 1, 10, &w.val),
        Err(FeedbackError::FeedbackAlreadyProvided)
    );
}

#[test]
fn feedback_is_accepted_once_per_job_whatever_the_rating() {
    let mut w = world(2);
    let employer = account(EMPLOYER);
    assert!(w.rep.submit_feedback(&employer, &vec![0], 1, 5000, &w.val).is_ok());
    for rating in [0u128, 1, 5000, u128::MAX] {
        assert_eq!(
            w.rep.submit_feedback(&employer, &vec![0], 1, rating, &w.val),
            Err(FeedbackError::FeedbackAlreadyProvided)
        );
        assert_eq!(
            w.rep.submit_feedback(&employer, &vec![0], 2, rating, &w.val),
            Err(FeedbackError::FeedbackAlreadyProvided)
        );
    }
    assert_eq!(w.rep.get_reputation_score(1), 5000);
    assert_eq!(w.rep.get_total_jobs(1), 1);
    assert_eq!(w.rep.get_total_jobs(2), 0);
    w.rep.authorize_feedback(&account(AGENT_OWNER), vec![0], employer, &w.val, &w.id).unwrap();
    w.rep.append_response(&account(AGENT_OWNER), vec![0], b"r".to_vec(), &w.val, &w.id).unwrap();
    assert_eq!(
        w.rep.submit_feedback(&employer, &vec![0], 1, 1, &w.val),
        Err(FeedbackError::FeedbackAlreadyProvided)
    );
    assert!(w.rep.submit_feedback(&employer, &vec![1], 1, 1, &w.val).is_ok());
    assert_eq!(w.rep.get_total_jobs(1), 2);
}

#[test]
fn score_follows_the_running_average() {
    let mut w = world(5);
    let employer = account(EMPLOYER);
    let ratings = [5000u128, 3000, 1, 10_000, 0];
    let expected = [5000u128, 4000, 2667, 4500, 3600];
    let mut score = 0u128;
    for k in 0..5usize {
        let event = w.rep.submit_feedback(&employer, &vec![k as u8], 1, ratings[k], &w.val).unwrap();
        let n = k as u128 + 1;
        assert_eq!(event.new_score, (score * (n - 1) + ratings[k]) / n);
        assert_eq!(event.new_score, expected[k]);
        assert_eq!(event.agent_nonce, 1);
        score = event.new_score;
        assert_eq!(w.rep.get_reputation_score(1), expected[k]);
        assert_eq!(w.rep.get_total_jobs(1), k as u64 + 1);
    }
}

#[test]
fn each_agent_has_its_own_score() {
    let mut w = world(3);
    let employer = account(EMPLOYER);
    w.rep.submit_feedback(&employer, &vec![0], 1, 100, &w.val).unwrap();
    w.rep.submit_feedback(&employer, &vec![1], 7, 40, &w.val).unwrap();
    w.rep.submit_feedback(&employer, &vec![2], 1, 201, &w.val).unwrap();
    assert_eq!(w.rep.get_reputation_score(1), 150);
    assert_eq!(w.rep.get_total_jobs(1), 2);
    assert_eq!(w.rep.get_reputation_score(7), 40);
    assert_eq!(w.rep.get_total_jobs(7), 1);
    assert_eq!(w.rep.get_reputation_score(2), 0);
    assert_eq!(w.rep.get_total_jobs(2), 0);
}

#[test]
fn new_score_is_exact_at_the_ends_of_the_range() {
    assert_eq!(calculate_new_score(0, 1, 5000), 5000);
    assert_eq!(calculate_new_score(123, 1, 0), 0);
    assert_eq!(calculate_new_score(5000, 2, 3000), 4000);
    assert_eq!(calculate_new_score(4000, 3, 1), 2667);
    assert_eq!(calculate_new_score(10, 3, 11), 10);
    assert_eq!(calculate_new_score(10, 3, 12), 10);
    assert_eq!(calculate_new_score(10, 3, 13), 11);
    assert_eq!(calculate_new_score(10, 3, 9), 9);
    assert_eq!(calculate_new_score(10, 3, 7), 9);
    assert_eq!(calculate_new_score(10, 3, 6), 8);
    assert_eq!(calculate_new_score(u128::MAX, u64::MAX, u128::MAX), u128::MAX);
    assert_eq!(calculate_new_score(u128::MAX, 2, 0), u128::MAX / 2);
    assert_eq!(calculate_new_score(0, 2, u128::MAX), u128::MAX / 2);
    assert_eq!(calculate_new_score(u128::MAX, u64::MAX, 0), u128::MAX - (1u128 << 64) - 1);
    assert_eq!(calculate_new_score(u128::MAX, u64::MAX - 1, 0), u128::MAX - (1u128 << 64) - 3);
    assert_eq!(calculate_new_score(u128::MAX - 1, 4, u128::MAX), u128::MAX - 1);
    assert_eq!(calculate_new_score(7, u64::MAX, 7), 7);
}

#[test]
fn authorization_is_for_the_owner_of_the_jobs_agent() {
    let mut w = world(0);
    let job = b"job_1".to_vec();
    let owner = account(AGENT_OWNER);
    let client = account(EMPLOYER);
    assert_eq!(
        w.rep.authorize_feedback(&owner, job.clone(), client, &w.val, &w.id),
        Err(FeedbackError::NotFound)
    );
    w.val.init_job(client, 0, job.clone(), 1).unwrap();
    w.val.init_job(client, 0, b"orphan".to_vec(), 99).unwrap();
    assert_eq!(
        w.rep.authorize_feedback(&account(ADMIN), job.clone(), client, &w.val, &w.id),
        Err(FeedbackError::NotAgentOwner)
    );
    assert_eq!(
        w.rep.authorize_feedback(&client, job.clone(), client, &w.val, &w.id),
        Err(FeedbackError::NotAgentOwner)
    );
    assert_eq!(
        w.rep.authorize_feedback(&owner, b"orphan".to_vec(), client, &w.val, &w.id),
        Err(FeedbackError::NotAgentOwner)
    );
    assert!(!w.rep.is_feedback_authorized(&job, &client));
    assert_eq!(w.rep.authorize_feedback(&owner, job.clone(), client, &w.val, &w.id), Ok(()));
    assert!(w.rep.is_feedback_authorized(&job, &client));
    assert!(!w.rep.is_feedback_authorized(&job, &owner));
    assert!(!w.rep.is_feedback_authorized(&b"orphan".to_vec(), &client));
    assert_eq!(w.rep.authorize_feedback(&owner, job.clone(), client, &w.val, &w.id), Ok(()));
    assert!(w.rep.is_feedback_authorized(&job, &client));
}

#[test]
fn response_is_for_the_owner_and_replaces_the_old_one() {
    let mut w = world(1);
    let job = vec![0u8];
    let owner = account(AGENT_OWNER);
    assert_eq!(w.rep.get_agent_response(&job), Vec::<u8>::new());
    assert_eq!(
        w.rep.append_response(&owner, b"none".to_vec(), b"ipfs://r".to_vec(), &w.val, &w.id),
        Err(FeedbackError::NotFound)
    );
    let intruder = w.rep.append_response(&account(EMPLOYER), job.clone(), b"ipfs://x".to_vec(), &w.val, &w.id);
    assert_eq!(intruder, Err(FeedbackError::NotResponder));
    assert_eq!(FeedbackError::NotResponder.message(), "Only the agent owner can respond");
    assert_eq!(FeedbackError::NotResponder.kind(), ErrorKind::Authorization);
    assert_eq!(w.rep.get_agent_response(&job), Vec::<u8>::new());
    assert_eq!(w.rep.append_response(&owner, job.clone(), b"ipfs://r1".to_vec(), &w.val, &w.id), Ok(()));
    assert_eq!(w.rep.get_agent_response(&job), b"ipfs://r1".to_vec());
    assert_eq!(w.rep.append_response(&owner, job.clone(), b"ipfs://r2".to_vec(), &w.val, &w.id), Ok(()));
    assert_eq!(w.rep.get_agent_response(&job), b"ipfs://r2".to_vec());
    assert_eq!(w.rep.get_agent_response(&b"other".to_vec()), Vec::<u8>::new());
}

#[test]
fn owner_of_the_jobs_agent_is_resolved() {
    let w = world(1);
    assert_eq!(require_agent_owner(&vec![0u8], &w.val, &w.id), Ok(Some(account(AGENT_OWNER))));
    assert_eq!(require_agent_owner(&vec![1u8], &w.val, &w.id), Err(FeedbackError::NotFound));
    let mut val = ValidationRegistry::init(account(ADMIN), account(52));
    val.init_job(account(EMPLOYER), 0, vec![5u8], 42).unwrap();
    assert_eq!(require_agent_owner(&vec![5u8], &val, &w.id), Ok(None));
}

#[test]
fn feedback_rules_apply_without_a_ledger() {
    let employer = account(EMPLOYER);
    let mut job = JobData::new(employer, 0, 1);
    assert_eq!(check_feedback(&None, &employer, true, false), Err(FeedbackError::NotFound));
    assert_eq!(check_feedback(&Some(job.clone()), &employer, true, false), Err(FeedbackError::JobNotVerified));
    job.status = JobStatus::Pending;
    assert_eq!(check_feedback(&Some(job.clone()), &employer, true, false), Err(FeedbackError::JobNotVerified));
    job.status = JobStatus::Verified;
    assert_eq!(check_feedback(&Some(job.clone()), &account(9), true, false), Err(FeedbackError::NotEmployer));
    assert_eq!(
        check_feedback(&Some(job.clone()), &employer, false, true),
        Err(FeedbackError::FeedbackNotAuthorized)
    );
    assert_eq!(
        check_feedback(&Some(job.clone()), &employer, true, true),
        Err(FeedbackError::FeedbackAlreadyProvided)
    );
    assert_eq!(check_feedback(&Some(job), &employer, true, false), Ok(()));
}

#[test]
fn only_the_owner_moves_the_neighbours() {
    let mut rep = ReputationRegistry::init(account(ADMIN), account(51), account(52));
    assert_eq!(rep.validation_contract_address(), account(51));
    assert_eq!(rep.identity_contract_address(), account(52));
    assert_eq!(
        rep.set_contract_addresses(&account(9), account(61), account(62)),
        Err(FeedbackError::NotOwner)
    );
    assert_eq!(rep.validation_contract_address(), account(51));
    assert_eq!(rep.set_contract_addresses(&account(ADMIN), account(61), account(62)), Ok(()));
    assert_eq!(rep.validation_contract_address(), account(61));
    assert_eq!(rep.identity_contract_address(), account(62));
}

#[test]
fn feedback_kinds_and_messages() {
    assert_eq!(FeedbackError::NotFound.kind(), ErrorKind::State);
    assert_eq!(FeedbackError::JobNotVerified.kind(), ErrorKind::State);
    assert_eq!(FeedbackError::FeedbackAlreadyProvided.kind(), ErrorKind::State);
    assert_eq!(FeedbackError::NotEmployer.kind(), ErrorKind::Authorization);
    assert_eq!(FeedbackError::FeedbackNotAuthorized.kind(), ErrorKind::Authorization);
    assert_eq!(FeedbackError::NotAgentOwner.kind(), ErrorKind::Authorization);
    assert_eq!(FeedbackError::NotOwner.kind(), ErrorKind::Authorization);
    assert_eq!(FeedbackError::JobNotVerified.message(), "Job not verified");
    assert_eq!(FeedbackError::NotEmployer.message(), "Only the employer can provide feedback");
    assert_eq!(FeedbackError::FeedbackNotAuthorized.message(), "Feedback not authorized by agent");
    assert_eq!(
        FeedbackError::FeedbackAlreadyProvided.message(),
        "Feedback already provided for this job"
    );
    assert_eq!(FeedbackError::NotOwner.message(), "Endpoint can only be called by owner");
}

#[test]
fn a_rating_counts_once_and_moves_the_average() {
    let fresh = Reputation { score: 0, total_jobs: 0 };
    let once = fresh.rate(5000);
    assert_eq!(once, Reputation { score: 5000, total_jobs: 1 });
    let twice = once.rate(3000);
    assert_eq!(twice, Reputation { score: 4000, total_jobs: 2 });
    let last = Reputation { score: 9, total_jobs: u64::MAX - 1 }.rate(9);
    assert_eq!(last, Reputation { score: 9, total_jobs: u64::MAX });
}
