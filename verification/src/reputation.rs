//! The reputation ledger: a running average of the ratings that each agent
//! received, one rating per verified job.
use vstd::arithmetic::div_mod::{lemma_fundamental_div_mod, lemma_fundamental_div_mod_converse};
use vstd::prelude::*;
use crate::bytes::{copy_bytes, same_bytes};
use crate::errors::FeedbackError;
use crate::store::{value_views, Store, StoreKey};
use crate::types::Address;
use crate::validation::{ExternalStorageModule, JobData, JobDataView, JobStatus, ViewsModule};

verus! {

/// What the reputation of an agent is: the average of the ratings received
/// so far, and how many there were.
pub struct ReputationRecord {
    pub score: nat,
    pub total_jobs: nat,
}

/// The reputation of one agent.
#[derive(Clone, Copy, Debug, PartialEq, Eq)]
pub struct Reputation {
    pub score: u128,
    pub total_jobs: u64,
}

impl View for Reputation {
    type V = ReputationRecord;

    open spec fn view(&self) -> ReputationRecord {
        ReputationRecord { score: self.score as nat, total_jobs: self.total_jobs as nat }
    }
}

/// Names the permission of one client to rate one job.
#[derive(Debug, PartialEq, Eq)]
pub struct AuthorizationKey {
    pub job_id: Vec<u8>,
    pub client: Address,
}

impl StoreKey for AuthorizationKey {
    type Id = (Seq<u8>, Address);

    open spec fn id(&self) -> (Seq<u8>, Address) {
        (self.job_id@, self.client)
    }

    fn same_key(&self, other: &Self) -> (r: bool) {
        self.client.is(&other.client) && same_bytes(self.job_id.as_slice(), other.job_id.as_slice())
    }
}

/// Announces the new score of an agent.
#[derive(Clone, Copy, Debug, PartialEq, Eq)]
pub struct ReputationUpdatedEvent {
    pub agent_nonce: u64,
    pub new_score: u128,
}

/// The average after the `n`-th rating, given the average of the `n - 1`
/// ratings before it. The division rounds down.
pub open spec fn new_score(current: nat, n: nat, rating: nat) -> nat {
    ((current * (n - 1) + rating) / (n as int)) as nat
}

/// The reputation after one more rating.
pub open spec fn rated(r: ReputationRecord, rating: nat) -> ReputationRecord {
    ReputationRecord {
        score: new_score(r.score, r.total_jobs + 1, rating),
        total_jobs: r.total_jobs + 1,
    }
}

/// The reputation of an agent that was never rated.
pub open spec fn unrated() -> ReputationRecord {
    ReputationRecord { score: 0, total_jobs: 0 }
}

/// The reputation after a list of ratings, first to last.
pub open spec fn rated_all(r: ReputationRecord, ratings: Seq<nat>) -> ReputationRecord
    decreases ratings.len(),
{
    if ratings.len() == 0 {
        r
    } else {
        rated(rated_all(r, ratings.drop_last()), ratings.last())
    }
}

/// The average of `n` ratings lies between the average before and the new rating.
pub proof fn lemma_new_score_between(current: nat, n: nat, rating: nat)
    requires
        n > 0,
    ensures
        current <= rating ==> current <= new_score(current, n, rating) <= rating,
        rating <= current ==> rating <= new_score(current, n, rating) <= current,
{
    let total = current * (n - 1) + rating;
    assert(total >= 0) by (nonlinear_arith)
        requires
            total == current * (n - 1) + rating,
            n > 0,
    ;
    if current <= rating {
        assert(current * n <= total <= rating * n) by (nonlinear_arith)
            requires
                total == current * (n - 1) + rating,
                current <= rating,
                n > 0,
        ;
        assert(current <= total / (n as int) <= rating) by (nonlinear_arith)
            requires
                current * n <= total <= rating * n,
                n > 0,
        ;
    }
    if rating <= current {
        assert(rating * n <= total <= current * n) by (nonlinear_arith)
            requires
                total == current * (n - 1) + rating,
                rating <= current,
                n > 0,
        ;
        assert(rating <= total / (n as int) <= current) by (nonlinear_arith)
            requires
                rating * n <= total <= current * n,
                n > 0,
        ;
    }
}

/// The first rating is the score.
pub proof fn lemma_first_rating_is_the_score(current: nat, rating: nat)
    ensures
        new_score(current, 1, rating) == rating,
{
    assert(current * (1 - 1) == 0) by (nonlinear_arith);
}

/// The average after the `total_jobs`-th rating.
///
/// The result is exact for every input: the weighted sum is never formed,
/// the average moves from the old one toward the rating by the rounded share
/// of their difference.
pub fn calculate_new_score(current_score: u128, total_jobs: u64, rating: u128) -> (score: u128)
    requires
        total_jobs > 0,
    ensures
        score == new_score(current_score as nat, total_jobs as nat, rating as nat),
{
    let n: u128 = total_jobs as u128;
    let ghost total: int = current_score * (n - 1) + rating;
    if rating >= current_score {
        let d: u128 = rating - current_score;
        let step: u128 = d / n;
        proof {
            let rem: int = (d % n) as int;
            lemma_fundamental_div_mod(d as int, n as int);
            assert(total == (current_score + step) * n + rem) by (nonlinear_arith)
                requires
                    total == current_score * (n - 1) + rating,
                    d == rating - current_score,
                    d == n * step + rem,
            ;
            lemma_fundamental_div_mod_converse(total, n as int, (current_score + step) as int, rem);
        }
        current_score + step
    } else {
        let d: u128 = current_score - rating;
        let whole: u128 = d / n;
        let rem: u128 = d % n;
        proof {
            lemma_fundamental_div_mod(d as int, n as int);
        }
        if rem == 0 {
            proof {
                assert(total == (current_score - whole) * n + 0) by (nonlinear_arith)
                    requires
                        total == current_score * (n - 1) + rating,
                        d == current_score - rating,
                        d == n * whole,
                ;
                lemma_fundamental_div_mod_converse(total, n as int, (current_score - whole) as int, 0);
            }
            current_score - whole
        } else {
            proof {
                assert(whole < d) by (nonlinear_arith)
                    requires
                        d == n * whole + rem,
                        rem > 0,
                        n > 0,
                        whole >= 0,
                ;
                assert(total == (current_score - whole - 1) * n + (n - rem)) by (nonlinear_arith)
                    requires
                        total == current_score * (n - 1) + rating,
                        d == current_score - rating,
                        d == n * whole + rem,
                ;
                lemma_fundamental_div_mod_converse(
                    total,
                    n as int,
                    (current_score - whole - 1) as int,
                    (n - rem) as int,
                );
            }
            current_score - whole - 1
        }
    }
}

impl Reputation {
    /// The reputation after one more rating, see [`rated`].
    pub fn rate(&self, rating: u128) -> (r: Reputation)
        requires
            self.total_jobs < u64::MAX,
        ensures
            r@ == rated(self@, rating as nat),
    {
        let total_jobs: u64 = self.total_jobs + 1;
        Reputation { score: calculate_new_score(self.score, total_jobs, rating), total_jobs }
    }
}

/// What the reputation ledger holds.
pub struct ReputationView {
    /// The account that may change the configuration.
    pub owner: Address,
    /// Where the validation ledger lives.
    pub validation_contract_address: Address,
    /// Where the identity directory lives.
    pub identity_contract_address: Address,
    /// The reputation of each agent that was rated.
    pub reputations: Map<u64, ReputationRecord>,
    /// The jobs that were rated.
    pub given: Set<Seq<u8>>,
    /// The clients that may rate a job.
    pub authorized: Set<(Seq<u8>, Address)>,
    /// The agent's answer to the rating of a job.
    pub responses: Map<Seq<u8>, Seq<u8>>,
}

/// The reputation of an agent, rated or not.
pub open spec fn reputation_of(s: ReputationView, agent_nonce: u64) -> ReputationRecord {
    if s.reputations.contains_key(agent_nonce) {
        s.reputations[agent_nonce]
    } else {
        unrated()
    }
}

/// Whether `caller` may rate a job now. The checks come in this order: the
/// job is on record and verified, the caller is its employer, the agent
/// authorized the caller, and the job was not rated before.
pub open spec fn feedback_check(
    job: Option<JobDataView>,
    caller: Address,
    authorized: bool,
    given: bool,
) -> Result<(), FeedbackError> {
    match job {
        None => Err(FeedbackError::NotFound),
        Some(j) => if j.status != JobStatus::Verified {
            Err(FeedbackError::JobNotVerified)
        } else if caller != j.employer {
            Err(FeedbackError::NotEmployer)
        } else if !authorized {
            Err(FeedbackError::FeedbackNotAuthorized)
        } else if given {
            Err(FeedbackError::FeedbackAlreadyProvided)
        } else {
            Ok(())
        },
    }
}

/// The job on record under `job_id`, if any.
pub open spec fn job_of(jobs: Map<Seq<u8>, JobDataView>, job_id: Seq<u8>) -> Option<JobDataView> {
    if jobs.contains_key(job_id) {
        Some(jobs[job_id])
    } else {
        None
    }
}

/// The owner of the agent that a job is for, if the job and the agent are on record.
pub open spec fn agent_owner_of(
    jobs: Map<Seq<u8>, JobDataView>,
    owners: Map<u64, Address>,
    job_id: Seq<u8>,
) -> Option<Address> {
    if jobs.contains_key(job_id) && owners.contains_key(jobs[job_id].agent_nonce) {
        Some(owners[jobs[job_id].agent_nonce])
    } else {
        None
    }
}

/// The outcome of a rating.
pub open spec fn submit_feedback_spec(
    s: ReputationView,
    jobs: Map<Seq<u8>, JobDataView>,
    caller: Address,
    job_id: Seq<u8>,
    agent_nonce: u64,
    rating: nat,
) -> Result<ReputationView, FeedbackError> {
    match feedback_check(
        job_of(jobs, job_id),
        caller,
        s.authorized.contains((job_id, caller)),
        s.given.contains(job_id),
    ) {
        Err(e) => Err(e),
        Ok(()) => Ok(
            ReputationView {
                reputations: s.reputations.insert(
                    agent_nonce,
                    rated(reputation_of(s, agent_nonce), rating),
                ),
                given: s.given.insert(job_id),
                ..s
            },
        ),
    }
}

/// The outcome of authorizing `client` to rate a job.
pub open spec fn authorize_feedback_spec(
    s: ReputationView,
    jobs: Map<Seq<u8>, JobDataView>,
    owners: Map<u64, Address>,
    caller: Address,
    job_id: Seq<u8>,
    client: Address,
) -> Result<ReputationView, FeedbackError> {
    if !jobs.contains_key(job_id) {
        Err(FeedbackError::NotFound)
    } else if agent_owner_of(jobs, owners, job_id) != Some(caller) {
        Err(FeedbackError::NotAgentOwner)
    } else {
        Ok(ReputationView { authorized: s.authorized.insert((job_id, client)), ..s })
    }
}

/// The outcome of storing the agent's answer to the rating of a job.
pub open spec fn append_response_spec(
    s: ReputationView,
    jobs: Map<Seq<u8>, JobDataView>,
    owners: Map<u64, Address>,
    caller: Address,
    job_id: Seq<u8>,
    response_uri: Seq<u8>,
) -> Result<ReputationView, FeedbackError> {
    if !jobs.contains_key(job_id) {
        Err(FeedbackError::NotFound)
    } else if agent_owner_of(jobs, owners, job_id) != Some(caller) {
        Err(FeedbackError::NotResponder)
    } else {
        Ok(ReputationView { responses: s.responses.insert(job_id, response_uri), ..s })
    }
}

/// The view of an optional job record.
pub open spec fn job_view(job: Option<JobData>) -> Option<JobDataView> {
    match job {
        Some(j) => Some(j@),
        None => None,
    }
}

/// Decides whether `caller` may rate a job now, see [`feedback_check`].
pub fn check_feedback(job: &Option<JobData>, caller: &Address, authorized: bool, given: bool) -> (r:
    Result<(), FeedbackError>)
    ensures
        r == feedback_check(job_view(*job), *caller, authorized, given),
{
    match job {
        None => Err(FeedbackError::NotFound),
        Some(j) => {
            if j.status != JobStatus::Verified {
                Err(FeedbackError::JobNotVerified)
            } else if !caller.is(&j.employer) {
                Err(FeedbackError::NotEmployer)
            } else if !authorized {
                Err(FeedbackError::FeedbackNotAuthorized)
            } else if given {
                Err(FeedbackError::FeedbackAlreadyProvided)
            } else {
                Ok(())
            }
        },
    }
}

/// Resolves the owner of the agent that a job is for.
pub fn require_agent_owner<V: ViewsModule, I: ExternalStorageModule>(
    job_id: &Vec<u8>,
    validation: &V,
    identity: &I,
) -> (r: Result<Option<Address>, FeedbackError>)
    ensures
        !validation.job_records().contains_key(job_id@) ==> r == Err::<Option<Address>, FeedbackError>(
            FeedbackError::NotFound,
        ),
        validation.job_records().contains_key(job_id@) ==> r == Ok::<Option<Address>, FeedbackError>(
            agent_owner_of(validation.job_records(), identity.agent_owners(), job_id@),
        ),
{
    match validation.get_job_data(job_id) {
        None => Err(FeedbackError::NotFound),
        Some(job) => Ok(identity.identity_agent_owner(job.agent_nonce)),
    }
}

/// The reputation ledger.
pub struct ReputationRegistry {
    owner: Address,
    validation_contract_address: Address,
    identity_contract_address: Address,
    reputations: Store<u64, Reputation>,
    given: Store<Vec<u8>, bool>,
    authorized: Store<AuthorizationKey, bool>,
    responses: Store<Vec<u8>, Vec<u8>>,
}

impl View for ReputationRegistry {
    type V = ReputationView;

    closed spec fn view(&self) -> ReputationView {
        ReputationView {
            owner: self.owner,
            validation_contract_address: self.validation_contract_address,
            identity_contract_address: self.identity_contract_address,
            reputations: value_views(self.reputations@),
            given: self.given@.dom(),
            authorized: self.authorized@.dom(),
            responses: value_views(self.responses@),
        }
    }
}

impl ReputationRegistry {
    /// No agent was rated more often than jobs were rated.
    #[verifier::type_invariant]
    spec fn counted(&self) -> bool {
        forall|a: u64| #[trigger]
            self.reputations@.contains_key(a) ==> self.reputations@[a].total_jobs <= self.given.count()
    }

    /// A new ledger without ratings.
    pub fn init(
        owner: Address,
        validation_contract_address: Address,
        identity_contract_address: Address,
    ) -> (r: ReputationRegistry)
        ensures
            r@ == (ReputationView {
                owner,
                validation_contract_address,
                identity_contract_address,
                reputations: Map::empty(),
                given: Set::empty(),
                authorized: Set::empty(),
                responses: Map::empty(),
            }),
    {
        let r = ReputationRegistry {
            owner,
            validation_contract_address,
            identity_contract_address,
            reputations: Store::new(),
            given: Store::new(),
            authorized: Store::new(),
            responses: Store::new(),
        };
        assert(r@.reputations =~= Map::empty());
        assert(r@.responses =~= Map::empty());
        assert(r@.given =~= Set::empty());
        assert(r@.authorized =~= Set::empty());
        r
    }

    /// Changes where the validation ledger and the identity directory live.
    /// Only the owner may.
    pub fn set_contract_addresses(
        &mut self,
        caller: &Address,
        validation_contract_address: Address,
        identity_contract_address: Address,
    ) -> (r: Result<(), FeedbackError>)
        ensures
            *caller == old(self)@.owner ==> r.is_ok() && final(self)@ == (ReputationView {
                validation_contract_address,
                identity_contract_address,
                ..old(self)@
            }),
            *caller != old(self)@.owner ==> final(self)@ == old(self)@ && r == Err::<(), FeedbackError>(
                FeedbackError::NotOwner,
            ),
    {
        if !caller.is(&self.owner) {
            return Err(FeedbackError::NotOwner);
        }
        proof {
            use_type_invariant(&*self);
        }
        self.validation_contract_address = validation_contract_address;
        self.identity_contract_address = identity_contract_address;
        Ok(())
    }

    /// Records the employer's rating of a verified job and updates the
    /// agent's average.
    ///
    /// A job can be rated once, by its employer, after the agent's owner
    /// authorized it.
    pub fn submit_feedback<V: ViewsModule>(
        &mut self,
        caller: &Address,
        job_id: &Vec<u8>,
        agent_nonce: u64,
        rating: u128,
        validation: &V,
    ) -> (r: Result<ReputationUpdatedEvent, FeedbackError>)
        ensures
            match submit_feedback_spec(
                old(self)@,
                validation.job_records(),
                *caller,
                job_id@,
                agent_nonce,
                rating as nat,
            ) {
                Ok(after) => final(self)@ == after && (r matches Ok(ev) && ev.agent_nonce
                    == agent_nonce && ev.new_score == after.reputations[agent_nonce].score),
                Err(e) => final(self)@ == old(self)@ && r == Err::<ReputationUpdatedEvent, FeedbackError>(
                    e,
                ),
            },
    {
        let job = validation.get_job_data(job_id);
        let authorized = self.authorized.contains(
            &AuthorizationKey { job_id: copy_bytes(job_id.as_slice()), client: *caller },
        );
        let given = self.given.contains(job_id);
        match check_feedback(&job, caller, authorized, given) {
            Err(e) => {
                return Err(e);
            },
            Ok(()) => {},
        }
        let ghost before = self@;
        proof {
            use_type_invariant(&*self);
        }
        let mut reputations: Store<u64, Reputation> = Store::new();
        let mut given: Store<Vec<u8>, bool> = Store::new();
        core::mem::swap(&mut self.reputations, &mut reputations);
        core::mem::swap(&mut self.given, &mut given);
        // Marking the job first shows that the count below cannot run over:
        // no agent has more ratings than there were rated jobs.
        given.insert(copy_bytes(job_id.as_slice()), true);
        let current = match reputations.get(&agent_nonce) {
            Some(r) => *r,
            None => Reputation { score: 0, total_jobs: 0 },
        };
        let rated = current.rate(rating);
        let new_score = rated.score;
        reputations.insert(agent_nonce, rated);
        core::mem::swap(&mut self.given, &mut given);
        core::mem::swap(&mut self.reputations, &mut reputations);
        proof {
            let after = submit_feedback_spec(
                before,
                validation.job_records(),
                *caller,
                job_id@,
                agent_nonce,
                rating as nat,
            )->Ok_0;
            assert(self@.reputations =~= after.reputations);
            assert(self@.given =~= after.given);
        }
        Ok(ReputationUpdatedEvent { agent_nonce, new_score })
    }

    /// Lets `client` rate a job. Only the owner of the job's agent may.
    pub fn authorize_feedback<V: ViewsModule, I: ExternalStorageModule>(
        &mut self,
        caller: &Address,
        job_id: Vec<u8>,
        client: Address,
        validation: &V,
        identity: &I,
    ) -> (r: Result<(), FeedbackError>)
        ensures
            match authorize_feedback_spec(
                old(self)@,
                validation.job_records(),
                identity.agent_owners(),
                *caller,
                job_id@,
                client,
            ) {
                Ok(after) => final(self)@ == after && r.is_ok(),
                Err(e) => final(self)@ == old(self)@ && r == Err::<(), FeedbackError>(e),
            },
    {
        let owner = match require_agent_owner(&job_id, validation, identity) {
            Err(e) => {
                return Err(e);
            },
            Ok(o) => o,
        };
        let allowed = match owner {
            Some(o) => o.is(caller),
            None => false,
        };
        if !allowed {
            return Err(FeedbackError::NotAgentOwner);
        }
        let ghost before = self@;
        proof {
            use_type_invariant(&*self);
        }
        let mut authorized: Store<AuthorizationKey, bool> = Store::new();
        core::mem::swap(&mut self.authorized, &mut authorized);
        authorized.insert(AuthorizationKey { job_id, client }, true);
        core::mem::swap(&mut self.authorized, &mut authorized);
        assert(self@.authorized =~= before.authorized.insert((job_id@, client)));
        Ok(())
    }

    /// Stores the agent's answer to the rating of a job, in place of an
    /// earlier answer. Only the owner of the job's agent may.
    pub fn append_response<V: ViewsModule, I: ExternalStorageModule>(
        &mut self,
        caller: &Address,
        job_id: Vec<u8>,
        response_uri: Vec<u8>,
        validation: &V,
        identity: &I,
    ) -> (r: Result<(), FeedbackError>)
        ensures
            match append_response_spec(
                old(self)@,
                validation.job_records(),
                identity.agent_owners(),
                *caller,
                job_id@,
                response_uri@,
            ) {
                Ok(after) => final(self)@ == after && r.is_ok(),
                Err(e) => final(self)@ == old(self)@ && r == Err::<(), FeedbackError>(e),
            },
    {
        let owner = match require_agent_owner(&job_id, validation, identity) {
            Err(e) => {
                return Err(e);
            },
            Ok(o) => o,
        };
        let allowed = match owner {
            Some(o) => o.is(caller),
            None => false,
        };
        if !allowed {
            return Err(FeedbackError::NotResponder);
        }
        let ghost before = self@;
        proof {
            use_type_invariant(&*self);
        }
        let mut responses: Store<Vec<u8>, Vec<u8>> = Store::new();
        core::mem::swap(&mut self.responses, &mut responses);
        responses.insert(job_id, response_uri);
        core::mem::swap(&mut self.responses, &mut responses);
        assert(self@.responses =~= before.responses.insert(job_id@, response_uri@));
        Ok(())
    }

    /// The average rating of an agent; zero when it was never rated.
    pub fn get_reputation_score(&self, agent_nonce: u64) -> (score: u128)
        ensures
            score == reputation_of(self@, agent_nonce).score,
    {
        match self.reputations.get(&agent_nonce) {
            Some(r) => r.score,
            None => 0,
        }
    }

    /// How many ratings an agent received.
    pub fn get_total_jobs(&self, agent_nonce: u64) -> (n: u64)
        ensures
            n == reputation_of(self@, agent_nonce).total_jobs,
    {
        match self.reputations.get(&agent_nonce) {
            Some(r) => r.total_jobs,
            None => 0,
        }
    }

    /// Whether a job was rated.
    pub fn has_given_feedback(&self, job_id: &Vec<u8>) -> (r: bool)
        ensures
            r == self@.given.contains(job_id@),
    {
        self.given.contains(job_id)
    }

    /// Whether `client` may rate a job.
    pub fn is_feedback_authorized(&self, job_id: &Vec<u8>, client: &Address) -> (r: bool)
        ensures
            r == self@.authorized.contains((job_id@, *client)),
    {
        self.authorized.contains(
            &AuthorizationKey { job_id: copy_bytes(job_id.as_slice()), client: *client },
        )
    }

    /// The agent's answer to the rating of a job; empty when there is none.
    pub fn get_agent_response(&self, job_id: &Vec<u8>) -> (r: Vec<u8>)
        ensures
            r@ == if self@.responses.contains_key(job_id@) {
                self@.responses[job_id@]
            } else {
                Seq::<u8>::empty()
            },
    {
        match self.responses.get(job_id) {
            Some(uri) => copy_bytes(uri.as_slice()),
            None => Vec::new(),
        }
    }

    /// Where the validation ledger lives.
    pub fn validation_contract_address(&self) -> (a: Address)
        ensures
            a == self@.validation_contract_address,
    {
        self.validation_contract_address
    }

    /// Where the identity directory lives.
    pub fn identity_contract_address(&self) -> (a: Address)
        ensures
            a == self@.identity_contract_address,
    {
        self.identity_contract_address
    }
}

/// One call of the reputation ledger, with everything that its outcome depends on.
pub enum ReputationCall {
    SubmitFeedback {
        caller: Address,
        job_id: Seq<u8>,
        agent_nonce: u64,
        rating: nat,
        jobs: Map<Seq<u8>, JobDataView>,
    },
    AuthorizeFeedback {
        caller: Address,
        job_id: Seq<u8>,
        client: Address,
        jobs: Map<Seq<u8>, JobDataView>,
        owners: Map<u64, Address>,
    },
    AppendResponse {
        caller: Address,
        job_id: Seq<u8>,
        response_uri: Seq<u8>,
        jobs: Map<Seq<u8>, JobDataView>,
        owners: Map<u64, Address>,
    },
}

/// The outcome of a call.
pub open spec fn call_spec(s: ReputationView, call: ReputationCall) -> Result<ReputationView, FeedbackError> {
    match call {
        ReputationCall::SubmitFeedback { caller, job_id, agent_nonce, rating, jobs } => submit_feedback_spec(
            s,
            jobs,
            caller,
            job_id,
            agent_nonce,
            rating,
        ),
        ReputationCall::AuthorizeFeedback { caller, job_id, client, jobs, owners } => authorize_feedback_spec(
            s,
            jobs,
            owners,
            caller,
            job_id,
            client,
        ),
        ReputationCall::AppendResponse { caller, job_id, response_uri, jobs, owners } => append_response_spec(
            s,
            jobs,
            owners,
            caller,
            job_id,
            response_uri,
        ),
    }
}

/// The ledger after a call: a failed call leaves it as it was.
pub open spec fn after_call(s: ReputationView, call: ReputationCall) -> ReputationView {
    match call_spec(s, call) {
        Ok(after) => after,
        Err(_) => s,
    }
}

/// The ledger after a list of calls, first to last.
pub open spec fn after_calls(s: ReputationView, calls: Seq<ReputationCall>) -> ReputationView
    decreases calls.len(),
{
    if calls.len() == 0 {
        s
    } else {
        after_call(after_calls(s, calls.drop_last()), calls.last())
    }
}

/// A rating that is accepted marks its job as rated.
pub proof fn lemma_accepted_feedback_marks_job(
    s: ReputationView,
    jobs: Map<Seq<u8>, JobDataView>,
    caller: Address,
    job_id: Seq<u8>,
    agent_nonce: u64,
    rating: nat,
)
    requires
        submit_feedback_spec(s, jobs, caller, job_id, agent_nonce, rating).is_ok(),
    ensures
        !s.given.contains(job_id),
        submit_feedback_spec(s, jobs, caller, job_id, agent_nonce, rating).unwrap().given.contains(
            job_id,
        ),
{
}

/// A job that was rated stays rated, whatever is called.
pub proof fn lemma_rated_stays_rated(s: ReputationView, calls: Seq<ReputationCall>, job_id: Seq<u8>)
    requires
        s.given.contains(job_id),
    ensures
        after_calls(s, calls).given.contains(job_id),
    decreases calls.len(),
{
    if calls.len() > 0 {
        lemma_rated_stays_rated(s, calls.drop_last(), job_id);
    }
}

/// No rating is accepted for a job that was rated.
pub proof fn lemma_rated_job_takes_no_feedback(
    s: ReputationView,
    jobs: Map<Seq<u8>, JobDataView>,
    caller: Address,
    job_id: Seq<u8>,
    agent_nonce: u64,
    rating: nat,
)
    requires
        s.given.contains(job_id),
    ensures
        submit_feedback_spec(s, jobs, caller, job_id, agent_nonce, rating).is_err(),
{
}

/// A job is rated at most once: after a rating was accepted, and whatever
/// was called since, no rating of the same job is accepted, by whomever
/// and whatever the rating.
pub proof fn lemma_feedback_at_most_once(
    s: ReputationView,
    jobs: Map<Seq<u8>, JobDataView>,
    caller: Address,
    job_id: Seq<u8>,
    agent_nonce: u64,
    rating: nat,
    between: Seq<ReputationCall>,
    later_jobs: Map<Seq<u8>, JobDataView>,
    later_caller: Address,
    later_agent_nonce: u64,
    later_rating: nat,
)
    requires
        submit_feedback_spec(s, jobs, caller, job_id, agent_nonce, rating).is_ok(),
    ensures
        submit_feedback_spec(
            after_calls(submit_feedback_spec(s, jobs, caller, job_id, agent_nonce, rating).unwrap(), between),
            later_jobs,
            later_caller,
            job_id,
            later_agent_nonce,
            later_rating,
        ).is_err(),
{
    let first = submit_feedback_spec(s, jobs, caller, job_id, agent_nonce, rating).unwrap();
    lemma_rated_stays_rated(first, between, job_id);
}

/// Replaying an accepted rating fails because the job was rated: the same
/// caller, with the validation ledger as it was, is told that feedback was
/// already provided, whatever agent and rating the replay names.
pub proof fn lemma_replay_is_already_provided(
    s: ReputationView,
    jobs: Map<Seq<u8>, JobDataView>,
    caller: Address,
    job_id: Seq<u8>,
    agent_nonce: u64,
    rating: nat,
    later_agent_nonce: u64,
    later_rating: nat,
)
    requires
        submit_feedback_spec(s, jobs, caller, job_id, agent_nonce, rating).is_ok(),
    ensures
        submit_feedback_spec(
            submit_feedback_spec(s, jobs, caller, job_id, agent_nonce, rating).unwrap(),
            jobs,
            caller,
            job_id,
            later_agent_nonce,
            later_rating,
        ) == Err::<ReputationView, FeedbackError>(FeedbackError::FeedbackAlreadyProvided),
{
}

/// An accepted rating counts once for the agent it names and follows the
/// running-average rule; the reputation of every other agent stays as it was.
pub proof fn lemma_feedback_rates_one_agent(
    s: ReputationView,
    jobs: Map<Seq<u8>, JobDataView>,
    caller: Address,
    job_id: Seq<u8>,
    agent_nonce: u64,
    rating: nat,
    other: u64,
)
    requires
        submit_feedback_spec(s, jobs, caller, job_id, agent_nonce, rating).is_ok(),
    ensures
        ({
            let after = submit_feedback_spec(s, jobs, caller, job_id, agent_nonce, rating).unwrap();
            let before = reputation_of(s, agent_nonce);
            &&& reputation_of(after, agent_nonce).total_jobs == before.total_jobs + 1
            &&& reputation_of(after, agent_nonce).score == (before.score * before.total_jobs + rating)
                / (before.total_jobs + 1)
            &&& other != agent_nonce ==> reputation_of(after, other) == reputation_of(s, other)
        }),
{
}

/// The running-average rule: after the `k`-th of a list of ratings the count
/// is `k`, and the score is the score after `k - 1` ratings times `k - 1`,
/// plus the `k`-th rating, divided by `k` and rounded down.
pub proof fn lemma_score_recurrence(ratings: Seq<nat>, k: int)
    requires
        1 <= k <= ratings.len(),
    ensures
        ({
            let before = rated_all(unrated(), ratings.take(k - 1));
            let after = rated_all(unrated(), ratings.take(k));
            &&& before.total_jobs == k - 1
            &&& after.total_jobs == k
            &&& after.score == (before.score * (k - 1) + ratings[k - 1]) / k
        }),
{
    lemma_total_jobs_counts_ratings(ratings.take(k - 1));
    assert(ratings.take(k).drop_last() =~= ratings.take(k - 1));
    assert(ratings.take(k).last() == ratings[k - 1]);
}

/// The count of an agent that was never rated before is the number of ratings accepted.
pub proof fn lemma_total_jobs_counts_ratings(ratings: Seq<nat>)
    ensures
        rated_all(unrated(), ratings).total_jobs == ratings.len(),
    decreases ratings.len(),
{
    if ratings.len() > 0 {
        lemma_total_jobs_counts_ratings(ratings.drop_last());
    }
}

} // verus!
