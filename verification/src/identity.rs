//! The identity directory: who owns which agent, what the agent says about
//! itself, and what each of its services costs.
use vstd::prelude::*;
use crate::bytes::{copy_bytes, same_bytes};
use crate::errors::IdentityError;
use crate::metadata::{
    copy_entries, entry_views, find_value, first_value, merge_entries, upsert_all, MetadataEntry,
    MetadataEntryView,
};
use crate::pricing::{
    config_of, configure_all, input_views, price_prefix, read_config, sync_entries,
    sync_pricing_metadata, sync_service_configs, AgentServiceConfig, ServiceConfigInput,
    ServiceConfigInputView, ServiceKey, Services,
};
use crate::store::{value_views, Store};
use crate::types::Address;
use crate::validation::ExternalStorageModule;

verus! {

/// What an agent's record is.
pub struct AgentDetailsView {
    pub name: Seq<u8>,
    pub uri: Seq<u8>,
    pub public_key: Seq<u8>,
    pub owner: Address,
    pub metadata: Seq<MetadataEntryView>,
}

/// The record of one agent, as carried by its token.
#[derive(Debug, PartialEq, Eq)]
pub struct AgentDetails {
    pub name: Vec<u8>,
    pub uri: Vec<u8>,
    pub public_key: Vec<u8>,
    pub owner: Address,
    pub metadata: Vec<MetadataEntry>,
}

impl View for AgentDetails {
    type V = AgentDetailsView;

    open spec fn view(&self) -> AgentDetailsView {
        AgentDetailsView {
            name: self.name@,
            uri: self.uri@,
            public_key: self.public_key@,
            owner: self.owner,
            metadata: entry_views(self.metadata@),
        }
    }
}

impl Clone for AgentDetails {
    fn clone(&self) -> (d: AgentDetails)
        ensures
            d@ == self@,
    {
        AgentDetails {
            name: copy_bytes(self.name.as_slice()),
            uri: copy_bytes(self.uri.as_slice()),
            public_key: copy_bytes(self.public_key.as_slice()),
            owner: self.owner,
            metadata: copy_entries(&self.metadata),
        }
    }
}

/// What is announced when an agent is registered.
#[derive(Debug, PartialEq, Eq)]
pub struct AgentRegisteredEventData {
    pub name: Vec<u8>,
    pub uri: Vec<u8>,
}

/// What the directory announces.
#[derive(Debug, PartialEq, Eq)]
pub enum IdentityEvent {
    AgentRegistered { owner: Address, nonce: u64, data: AgentRegisteredEventData },
    AgentUpdated { nonce: u64, uri: Vec<u8> },
    MetadataUpdated { nonce: u64 },
}

/// A request to issue the agent token, to be carried out by the chain.
#[derive(Debug, PartialEq, Eq)]
pub struct TokenIssue {
    pub display_name: Vec<u8>,
    pub ticker: Vec<u8>,
    pub issue_cost: u128,
}

/// What the directory holds.
pub struct IdentityView {
    /// The administrator.
    pub owner: Address,
    /// The identifier of the agent token, once issued.
    pub token_id: Option<Seq<u8>>,
    /// The nonce given to the agent registered last.
    pub last_nonce: u64,
    /// The agent of each registered address.
    pub ids: Map<Address, u64>,
    /// The address that registered each agent.
    pub owners: Map<u64, Address>,
    /// The record of each agent.
    pub agents: Map<u64, AgentDetailsView>,
    /// The payment terms of each service.
    pub services: Services,
}

/// The entries of an optional metadata list.
pub open spec fn given_views(metadata: Option<Vec<MetadataEntry>>) -> Option<Seq<MetadataEntryView>> {
    match metadata {
        Some(m) => Some(entry_views(m@)),
        None => None,
    }
}

/// The metadata that a registration without metadata gets: one entry `price:0`
/// with an empty value.
pub open spec fn default_metadata() -> Seq<MetadataEntryView> {
    seq![MetadataEntryView { key: price_prefix().push(48u8), value: Seq::<u8>::empty() }]
}

/// The metadata that a registration records.
pub open spec fn registered_metadata(given: Option<Seq<MetadataEntryView>>) -> Seq<MetadataEntryView> {
    match given {
        Some(m) => if m.len() == 0 {
            default_metadata()
        } else {
            m
        },
        None => default_metadata(),
    }
}

/// The outcome of a registration by `caller`: the failure, or the directory
/// after it.
pub open spec fn register_spec(
    s: IdentityView,
    caller: Address,
    name: Seq<u8>,
    uri: Seq<u8>,
    public_key: Seq<u8>,
    metadata: Option<Seq<MetadataEntryView>>,
) -> Result<IdentityView, IdentityError> {
    if s.token_id.is_none() {
        Err(IdentityError::TokenNotIssued)
    } else if s.ids.contains_key(caller) {
        Err(IdentityError::AlreadyRegistered)
    } else {
        let nonce = (s.last_nonce + 1) as u64;
        let recorded = registered_metadata(metadata);
        Ok(
            IdentityView {
                last_nonce: nonce,
                ids: s.ids.insert(caller, nonce),
                owners: s.owners.insert(nonce, caller),
                agents: s.agents.insert(
                    nonce,
                    AgentDetailsView { name, uri, public_key, owner: caller, metadata: recorded },
                ),
                services: sync_entries(s.services, nonce, recorded),
                ..s
            },
        )
    }
}

/// The record after an update: an empty address or key leaves the old one.
pub open spec fn updated_details(
    d: AgentDetailsView,
    new_uri: Seq<u8>,
    new_public_key: Seq<u8>,
    metadata: Option<Seq<MetadataEntryView>>,
) -> AgentDetailsView {
    AgentDetailsView {
        uri: if new_uri.len() > 0 {
            new_uri
        } else {
            d.uri
        },
        public_key: if new_public_key.len() > 0 {
            new_public_key
        } else {
            d.public_key
        },
        metadata: match metadata {
            Some(m) => m,
            None => d.metadata,
        },
        ..d
    }
}

/// The metadata that a registration records, see [`registered_metadata`].
pub fn registration_metadata(metadata: Option<Vec<MetadataEntry>>) -> (recorded: Vec<MetadataEntry>)
    ensures
        entry_views(recorded@) == registered_metadata(given_views(metadata)),
{
    let mut recorded: Vec<MetadataEntry> = match metadata {
        Some(m) => m,
        None => Vec::new(),
    };
    if recorded.len() == 0 {
        let key: [u8; 7] = [112u8, 114u8, 105u8, 99u8, 101u8, 58u8, 48u8];
        assert(key@ =~= price_prefix().push(48u8));
        recorded.push(MetadataEntry { key: copy_bytes(key.as_slice()), value: Vec::new() });
        assert(entry_views(recorded@) =~= default_metadata());
    }
    recorded
}

impl AgentDetails {
    /// Takes an update, see [`updated_details`].
    pub fn update(&mut self, new_uri: Vec<u8>, new_public_key: Vec<u8>, metadata: Option<Vec<MetadataEntry>>)
        ensures
            final(self)@ == updated_details(
                old(self)@,
                new_uri@,
                new_public_key@,
                given_views(metadata),
            ),
    {
        if new_uri.len() > 0 {
            self.uri = new_uri;
        }
        if new_public_key.len() > 0 {
            self.public_key = new_public_key;
        }
        match metadata {
            Some(m) => {
                self.metadata = m;
            },
            None => {},
        }
    }
}

/// The outcome of an update carried by the agent token `token` with nonce `nonce`.
pub open spec fn update_spec(
    s: IdentityView,
    token: Seq<u8>,
    nonce: u64,
    new_uri: Seq<u8>,
    new_public_key: Seq<u8>,
    metadata: Option<Seq<MetadataEntryView>>,
) -> Result<IdentityView, IdentityError> {
    if s.token_id.is_none() {
        Err(IdentityError::TokenNotIssued)
    } else if s.token_id != Some(token) {
        Err(IdentityError::InvalidNft)
    } else if !s.agents.contains_key(nonce) {
        Err(IdentityError::AgentNotFound)
    } else {
        Ok(
            IdentityView {
                agents: s.agents.insert(
                    nonce,
                    updated_details(s.agents[nonce], new_uri, new_public_key, metadata),
                ),
                services: match metadata {
                    Some(m) => sync_entries(s.services, nonce, m),
                    None => s.services,
                },
                ..s
            },
        )
    }
}

/// The outcome of writing `entries` into the metadata of agent `nonce`.
pub open spec fn set_metadata_spec(
    s: IdentityView,
    caller: Address,
    nonce: u64,
    entries: Seq<MetadataEntryView>,
) -> Result<IdentityView, IdentityError> {
    if s.token_id.is_none() {
        Err(IdentityError::TokenNotIssued)
    } else if !s.agents.contains_key(nonce) {
        Err(IdentityError::AgentNotFound)
    } else if s.agents[nonce].owner != caller {
        Err(IdentityError::NotAgentOwner)
    } else {
        let merged = upsert_all(s.agents[nonce].metadata, entries);
        Ok(
            IdentityView {
                agents: s.agents.insert(nonce, AgentDetailsView { metadata: merged, ..s.agents[nonce] }),
                services: sync_entries(s.services, nonce, merged),
                ..s
            },
        )
    }
}

/// The outcome of giving the terms of services of agent `nonce` directly.
pub open spec fn sync_service_configs_spec(
    s: IdentityView,
    caller: Address,
    nonce: u64,
    inputs: Seq<ServiceConfigInputView>,
) -> Result<IdentityView, IdentityError> {
    if !s.owners.contains_key(nonce) {
        Err(IdentityError::AgentNotFound)
    } else if s.owners[nonce] != caller {
        Err(IdentityError::NotAgentOwner)
    } else {
        Ok(IdentityView { services: configure_all(s.services, nonce, inputs), ..s })
    }
}

/// The identity directory.
pub struct IdentityRegistry {
    owner: Address,
    token_id: Option<Vec<u8>>,
    ids: Store<Address, u64>,
    owners: Store<u64, Address>,
    agents: Store<u64, AgentDetails>,
    services: Store<ServiceKey, AgentServiceConfig>,
}

impl View for IdentityRegistry {
    type V = IdentityView;

    closed spec fn view(&self) -> IdentityView {
        IdentityView {
            owner: self.owner,
            token_id: match self.token_id {
                Some(t) => Some(t@),
                None => None,
            },
            last_nonce: self.ids.count() as u64,
            ids: self.ids@,
            owners: self.owners@,
            agents: value_views(self.agents@),
            services: value_views(self.services@),
        }
    }
}

impl IdentityRegistry {
    /// A new directory, administered by `owner`.
    pub fn init(owner: Address) -> (r: IdentityRegistry)
        ensures
            r@ == (IdentityView {
                owner,
                token_id: None,
                last_nonce: 0,
                ids: Map::empty(),
                owners: Map::empty(),
                agents: Map::empty(),
                services: Map::empty(),
            }),
    {
        let r = IdentityRegistry {
            owner,
            token_id: None,
            ids: Store::new(),
            owners: Store::new(),
            agents: Store::new(),
            services: Store::new(),
        };
        assert(r@.agents =~= Map::empty());
        assert(r@.services =~= Map::empty());
        r
    }

    /// Asks for the agent token to be issued. Only the administrator may ask,
    /// and only while no token is known. The directory itself does not change:
    /// the chain answers with [`IdentityRegistry::set_token_id`].
    pub fn issue_token(
        &self,
        caller: &Address,
        token_display_name: Vec<u8>,
        token_ticker: Vec<u8>,
        issue_cost: u128,
    ) -> (r: Result<TokenIssue, IdentityError>)
        ensures
            r == if caller != self@.owner {
                Err::<TokenIssue, IdentityError>(IdentityError::NotOwner)
            } else if self@.token_id.is_some() {
                Err(IdentityError::TokenAlreadyIssued)
            } else {
                Ok(TokenIssue { display_name: token_display_name, ticker: token_ticker, issue_cost })
            },
    {
        if !caller.is(&self.owner) {
            return Err(IdentityError::NotOwner);
        }
        if self.token_id.is_some() {
            return Err(IdentityError::TokenAlreadyIssued);
        }
        Ok(TokenIssue { display_name: token_display_name, ticker: token_ticker, issue_cost })
    }

    /// Records the identifier of the agent token, once.
    pub fn set_token_id(&mut self, token_id: Vec<u8>) -> (r: Result<(), IdentityError>)
        ensures
            old(self)@.token_id.is_some() ==> r == Err::<(), IdentityError>(
                IdentityError::TokenAlreadyIssued,
            ) && final(self)@ == old(self)@,
            old(self)@.token_id.is_none() ==> r.is_ok() && final(self)@ == (IdentityView {
                token_id: Some(token_id@),
                ..old(self)@
            }),
    {
        if self.token_id.is_some() {
            return Err(IdentityError::TokenAlreadyIssued);
        }
        self.token_id = Some(token_id);
        Ok(())
    }

    /// Registers the caller as the owner of a new agent.
    ///
    /// The agent gets the next nonce. Its record holds the given metadata, or
    /// one entry `price:0` when none is given, and that metadata sets the
    /// payment terms of the agent's services.
    pub fn register_agent(
        &mut self,
        caller: Address,
        name: Vec<u8>,
        uri: Vec<u8>,
        public_key: Vec<u8>,
        metadata: Option<Vec<MetadataEntry>>,
    ) -> (r: Result<IdentityEvent, IdentityError>)
        ensures
            match register_spec(
                old(self)@,
                caller,
                name@,
                uri@,
                public_key@,
                given_views(metadata),
            ) {
                Ok(after) => final(self)@ == after && (r matches Ok(
                    IdentityEvent::AgentRegistered { owner, nonce, data },
                ) && owner == caller && nonce == old(self)@.last_nonce + 1 && data.name@ == name@
                    && data.uri@ == uri@),
                Err(e) => final(self)@ == old(self)@ && r == Err::<IdentityEvent, IdentityError>(e),
            },
    {
        if self.token_id.is_none() {
            return Err(IdentityError::TokenNotIssued);
        }
        if self.ids.contains(&caller) {
            return Err(IdentityError::AlreadyRegistered);
        }
        let ghost before = self@;
        let ghost given = given_views(metadata);
        let recorded = registration_metadata(metadata);
        // Nonces count the addresses that registered an agent: the caller's
        // slot is taken first, and the number of slots is the caller's nonce.
        self.ids.insert(caller, 0);
        let nonce: u64 = self.ids.len() as u64;
        self.ids.insert(caller, nonce);
        self.owners.insert(nonce, caller);
        sync_pricing_metadata(&mut self.services, nonce, &recorded);
        let data = AgentRegisteredEventData {
            name: copy_bytes(name.as_slice()),
            uri: copy_bytes(uri.as_slice()),
        };
        let details = AgentDetails { name, uri, public_key, owner: caller, metadata: recorded };
        self.agents.insert(nonce, details);
        proof {
            let after = register_spec(before, caller, name@, uri@, public_key@, given)->Ok_0;
            assert(self@.ids =~= after.ids);
            assert(self@.agents =~= after.agents);
        }
        Ok(IdentityEvent::AgentRegistered { owner: caller, nonce, data })
    }

    /// Updates the record of the agent whose token the caller sent along.
    ///
    /// `token` and `nonce` name the token that came with the call. An empty
    /// address or public key leaves the old one in place. Metadata, when given,
    /// replaces the old metadata and sets the payment terms of the services.
    pub fn update_agent(
        &mut self,
        token: &[u8],
        nonce: u64,
        new_uri: Vec<u8>,
        new_public_key: Vec<u8>,
        metadata: Option<Vec<MetadataEntry>>,
    ) -> (r: Result<IdentityEvent, IdentityError>)
        ensures
            match update_spec(
                old(self)@,
                token@,
                nonce,
                new_uri@,
                new_public_key@,
                given_views(metadata),
            ) {
                Ok(after) => final(self)@ == after && (r matches Ok(
                    IdentityEvent::AgentUpdated { nonce: n, uri },
                ) && n == nonce && uri@ == after.agents[nonce].uri),
                Err(e) => final(self)@ == old(self)@ && r == Err::<IdentityEvent, IdentityError>(e),
            },
    {
        let ghost before = self@;
        let ghost given = given_views(metadata);
        match &self.token_id {
            None => {
                return Err(IdentityError::TokenNotIssued);
            },
            Some(t) => {
                if !same_bytes(t.as_slice(), token) {
                    return Err(IdentityError::InvalidNft);
                }
            },
        }
        let mut details = match self.agents.get(&nonce) {
            Some(d) => d.clone(),
            None => {
                return Err(IdentityError::AgentNotFound);
            },
        };
        match &metadata {
            Some(m) => {
                sync_pricing_metadata(&mut self.services, nonce, m);
            },
            None => {},
        }
        details.update(new_uri, new_public_key, metadata);
        let uri = copy_bytes(details.uri.as_slice());
        self.agents.insert(nonce, details);
        proof {
            let after = update_spec(before, token@, nonce, new_uri@, new_public_key@, given)->Ok_0;
            assert(self@.agents =~= after.agents);
        }
        Ok(IdentityEvent::AgentUpdated { nonce, uri })
    }

    /// Writes entries into the metadata of an agent, on behalf of its owner.
    ///
    /// Each entry replaces the entries stored under its key, or is added at
    /// the end. The merged metadata then sets the payment terms of the
    /// agent's services.
    pub fn set_metadata(&mut self, caller: &Address, nonce: u64, entries: &Vec<MetadataEntry>) -> (r:
        Result<IdentityEvent, IdentityError>)
        ensures
            match set_metadata_spec(old(self)@, *caller, nonce, entry_views(entries@)) {
                Ok(after) => final(self)@ == after && r == Ok::<IdentityEvent, IdentityError>(
                    IdentityEvent::MetadataUpdated { nonce },
                ),
                Err(e) => final(self)@ == old(self)@ && r == Err::<IdentityEvent, IdentityError>(e),
            },
    {
        let ghost before = self@;
        if self.token_id.is_none() {
            return Err(IdentityError::TokenNotIssued);
        }
        let mut details = match self.agents.get(&nonce) {
            Some(d) => d.clone(),
            None => {
                return Err(IdentityError::AgentNotFound);
            },
        };
        if !caller.is(&details.owner) {
            return Err(IdentityError::NotAgentOwner);
        }
        details.metadata = merge_entries(&details.metadata, entries);
        sync_pricing_metadata(&mut self.services, nonce, &details.metadata);
        self.agents.insert(nonce, details);
        proof {
            let after = set_metadata_spec(before, *caller, nonce, entry_views(entries@))->Ok_0;
            assert(self@.agents =~= after.agents);
        }
        Ok(IdentityEvent::MetadataUpdated { nonce })
    }

    /// Checks that the caller owns an agent, and hands the caller back.
    pub fn require_agent_owner(&self, caller: &Address, nonce: u64) -> (r: Result<Address, IdentityError>)
        ensures
            r == if !self@.owners.contains_key(nonce) {
                Err::<Address, IdentityError>(IdentityError::AgentNotFound)
            } else if self@.owners[nonce] != *caller {
                Err(IdentityError::NotAgentOwner)
            } else {
                Ok(*caller)
            },
    {
        match self.owners.get(&nonce) {
            None => Err(IdentityError::AgentNotFound),
            Some(owner) => {
                if owner.is(caller) {
                    Ok(*caller)
                } else {
                    Err(IdentityError::NotAgentOwner)
                }
            },
        }
    }

    /// Records the terms of services of an agent as its owner gives them:
    /// a positive price records the terms of a service, a price of zero
    /// takes the service off the record.
    pub fn sync_service_configs(
        &mut self,
        caller: &Address,
        nonce: u64,
        configs: &Vec<ServiceConfigInput>,
    ) -> (r: Result<(), IdentityError>)
        ensures
            match sync_service_configs_spec(old(self)@, *caller, nonce, input_views(configs@)) {
                Ok(after) => final(self)@ == after && r.is_ok(),
                Err(e) => final(self)@ == old(self)@ && r == Err::<(), IdentityError>(e),
            },
    {
        match self.require_agent_owner(caller, nonce) {
            Err(e) => {
                return Err(e);
            },
            Ok(_) => {},
        }
        sync_service_configs(&mut self.services, nonce, configs);
        Ok(())
    }

    /// The value of the first metadata entry of agent `nonce` stored under `key`.
    pub fn get_metadata(&self, nonce: u64, key: &[u8]) -> (r: Option<Vec<u8>>)
        ensures
            match r {
                Some(v) => self@.agents.contains_key(nonce) && first_value(
                    self@.agents[nonce].metadata,
                    key@,
                ) == Some(v@),
                None => !self@.agents.contains_key(nonce) || first_value(
                    self@.agents[nonce].metadata,
                    key@,
                ).is_none(),
            },
    {
        match self.agents.get(&nonce) {
            Some(d) => find_value(&d.metadata, key),
            None => None,
        }
    }

    /// The payment terms of a service of an agent: what was recorded, or
    /// free in the native token.
    pub fn get_agent_service_config(&self, nonce: u64, service_id: &[u8]) -> (c: AgentServiceConfig)
        ensures
            c@ == config_of(self@.services, nonce, service_id@),
    {
        read_config(&self.services, nonce, service_id)
    }

    /// The record of an agent.
    pub fn get_agent(&self, nonce: u64) -> (r: Option<AgentDetails>)
        ensures
            r.is_some() == self@.agents.contains_key(nonce),
            r.is_some() ==> r.unwrap()@ == self@.agents[nonce],
    {
        match self.agents.get(&nonce) {
            Some(d) => Some(d.clone()),
            None => None,
        }
    }

    /// The agent that an address registered, or zero when it registered none.
    pub fn get_agent_id(&self, address: &Address) -> (id: u64)
        ensures
            id == if self@.ids.contains_key(*address) {
                self@.ids[*address]
            } else {
                0
            },
    {
        match self.ids.get(address) {
            Some(id) => *id,
            None => 0,
        }
    }

    /// The identifier of the agent token, once issued.
    pub fn agent_token_id(&self) -> (r: Option<Vec<u8>>)
        ensures
            r.is_some() == self@.token_id.is_some(),
            r.is_some() ==> r.unwrap()@ == self@.token_id.unwrap(),
    {
        match &self.token_id {
            Some(t) => Some(copy_bytes(t.as_slice())),
            None => None,
        }
    }

    /// The nonce given to the agent registered last.
    pub fn agent_token_nonce(&self) -> (n: u64)
        ensures
            n == self@.last_nonce,
    {
        self.ids.len() as u64
    }
}

impl ExternalStorageModule for IdentityRegistry {
    open spec fn agent_owners(&self) -> Map<u64, Address> {
        self@.owners
    }

    open spec fn service_terms(&self) -> Services {
        self@.services
    }

    fn identity_agent_owner(&self, nonce: u64) -> (r: Option<Address>) {
        match self.owners.get(&nonce) {
            Some(a) => Some(*a),
            None => None,
        }
    }

    fn identity_agent_service_price(&self, nonce: u64, service_id: &[u8]) -> (price: u128) {
        read_config(&self.services, nonce, service_id).price
    }

    fn identity_agent_service_payment_token(&self, nonce: u64, service_id: &[u8]) -> (token: Vec<u8>) {
        read_config(&self.services, nonce, service_id).token
    }

    fn identity_agent_service_payment_nonce(&self, nonce: u64, service_id: &[u8]) -> (pnonce: u64) {
        read_config(&self.services, nonce, service_id).pnonce
    }
}

/// The list of addresses under which a new agent token is minted: the one address given.
pub fn create_uris_vec(uri: Vec<u8>) -> (uris: Vec<Vec<u8>>)
    ensures
        uris@ == seq![uri],
{
    let mut uris: Vec<Vec<u8>> = Vec::new();
    uris.push(uri);
    assert(uris@ =~= seq![uri]);
    uris
}

} // verus!
