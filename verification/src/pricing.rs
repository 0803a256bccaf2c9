//! Per-service payment terms of an agent, and how metadata entries set them.
//!
//! A metadata entry whose key is `price:`, `token:` or `pnonce:` followed by
//! a service identifier sets the price, the payment token or the payment
//! token's nonce of that service.
use vstd::prelude::*;
use crate::bytes::{copy_bytes, copy_range, extends, has_proper_prefix, same_bytes};
use crate::codec::{be_value, decode_amount, top_decode_u64};
use crate::metadata::{entry_views, MetadataEntry, MetadataEntryView};
use crate::store::{value_views, StorageModule, StoreKey};
use crate::types::{native_token, native_token_id, parse_token, token_named};

verus! {

/// What the payment terms of a service are.
pub struct AgentServiceConfigView {
    pub token: Seq<u8>,
    pub pnonce: u64,
    pub price: u128,
}

/// The payment terms of one service of an agent.
#[derive(Debug, PartialEq, Eq)]
pub struct AgentServiceConfig {
    pub token: Vec<u8>,
    pub pnonce: u64,
    pub price: u128,
}

impl View for AgentServiceConfig {
    type V = AgentServiceConfigView;

    open spec fn view(&self) -> AgentServiceConfigView {
        AgentServiceConfigView { token: self.token@, pnonce: self.pnonce, price: self.price }
    }
}

impl Clone for AgentServiceConfig {
    fn clone(&self) -> (c: AgentServiceConfig)
        ensures
            c@ == self@,
    {
        AgentServiceConfig {
            token: copy_bytes(self.token.as_slice()),
            pnonce: self.pnonce,
            price: self.price,
        }
    }
}

/// Names one service of one agent.
#[derive(Debug, PartialEq, Eq)]
pub struct ServiceKey {
    pub agent: u64,
    pub service: Vec<u8>,
}

impl StoreKey for ServiceKey {
    type Id = (u64, Seq<u8>);

    open spec fn id(&self) -> (u64, Seq<u8>) {
        (self.agent, self.service@)
    }

    fn same_key(&self, other: &Self) -> (r: bool) {
        self.agent == other.agent && same_bytes(self.service.as_slice(), other.service.as_slice())
    }
}

/// The payment terms on record, by agent and service.
pub type Services = Map<(u64, Seq<u8>), AgentServiceConfigView>;

/// The terms of a service that nothing was recorded for: free, in the native token.
pub open spec fn default_config() -> AgentServiceConfigView {
    AgentServiceConfigView { token: native_token(), pnonce: 0, price: 0 }
}

/// The terms of a service, recorded or default.
pub open spec fn config_of(services: Services, agent: u64, service: Seq<u8>) -> AgentServiceConfigView {
    if services.contains_key((agent, service)) {
        services[(agent, service)]
    } else {
        default_config()
    }
}

/// The bytes of `price:`.
pub open spec fn price_prefix() -> Seq<u8> {
    seq![112u8, 114u8, 105u8, 99u8, 101u8, 58u8]
}

/// The bytes of `token:`.
pub open spec fn token_prefix() -> Seq<u8> {
    seq![116u8, 111u8, 107u8, 101u8, 110u8, 58u8]
}

/// The bytes of `pnonce:`.
pub open spec fn pnonce_prefix() -> Seq<u8> {
    seq![112u8, 110u8, 111u8, 110u8, 99u8, 101u8, 58u8]
}

/// The amount that a metadata value denotes: its big-endian value, capped at
/// the largest amount.
pub open spec fn amount_of(value: Seq<u8>) -> u128 {
    if be_value(value) <= u128::MAX {
        be_value(value) as u128
    } else {
        u128::MAX
    }
}

/// The nonce that a metadata value denotes: its big-endian value when it has
/// at most eight bytes, zero otherwise.
pub open spec fn nonce_of(value: Seq<u8>) -> u64 {
    if value.len() <= 8 {
        be_value(value) as u64
    } else {
        0
    }
}

/// What a metadata entry changes in the terms of a service.
pub enum PricingUpdateView {
    Price { service: Seq<u8>, price: u128 },
    Token { service: Seq<u8>, token: Seq<u8> },
    Nonce { service: Seq<u8>, pnonce: u64 },
}

/// A change of the terms of one service.
#[derive(Debug, PartialEq, Eq)]
pub enum PricingUpdate {
    /// Sets the price.
    Price { service: Vec<u8>, price: u128 },
    /// Sets the token in which the service is paid.
    Token { service: Vec<u8>, token: Vec<u8> },
    /// Sets the nonce of that token.
    Nonce { service: Vec<u8>, pnonce: u64 },
}

impl View for PricingUpdate {
    type V = PricingUpdateView;

    open spec fn view(&self) -> PricingUpdateView {
        match self {
            PricingUpdate::Price { service, price } => PricingUpdateView::Price {
                service: service@,
                price: *price,
            },
            PricingUpdate::Token { service, token } => PricingUpdateView::Token {
                service: service@,
                token: token@,
            },
            PricingUpdate::Nonce { service, pnonce } => PricingUpdateView::Nonce {
                service: service@,
                pnonce: *pnonce,
            },
        }
    }
}

/// What a metadata entry changes in the terms of a service, if anything: the
/// key names the field and the service, the value holds what is set.
pub open spec fn update_of(entry: MetadataEntryView) -> Option<PricingUpdateView> {
    if extends(entry.key, price_prefix()) {
        Some(PricingUpdateView::Price { service: entry.key.skip(6), price: amount_of(entry.value) })
    } else if extends(entry.key, token_prefix()) {
        Some(PricingUpdateView::Token { service: entry.key.skip(6), token: token_named(entry.value) })
    } else if extends(entry.key, pnonce_prefix()) {
        Some(PricingUpdateView::Nonce { service: entry.key.skip(7), pnonce: nonce_of(entry.value) })
    } else {
        None
    }
}

/// The terms on record after one change to a service of `agent`: the other
/// fields of the service stay as they are, recorded or default.
pub open spec fn apply_update(services: Services, agent: u64, update: PricingUpdateView) -> Services {
    match update {
        PricingUpdateView::Price { service, price } => services.insert(
            (agent, service),
            AgentServiceConfigView { price, ..config_of(services, agent, service) },
        ),
        PricingUpdateView::Token { service, token } => services.insert(
            (agent, service),
            AgentServiceConfigView { token, ..config_of(services, agent, service) },
        ),
        PricingUpdateView::Nonce { service, pnonce } => services.insert(
            (agent, service),
            AgentServiceConfigView { pnonce, ..config_of(services, agent, service) },
        ),
    }
}

/// The terms on record after one metadata entry of `agent` was read.
pub open spec fn sync_entry(services: Services, agent: u64, entry: MetadataEntryView) -> Services {
    match update_of(entry) {
        Some(update) => apply_update(services, agent, update),
        None => services,
    }
}

/// The terms on record after the metadata entries of `agent` were read, first to last.
pub open spec fn sync_entries(services: Services, agent: u64, entries: Seq<MetadataEntryView>) -> Services
    decreases entries.len(),
{
    if entries.len() == 0 {
        services
    } else {
        sync_entry(sync_entries(services, agent, entries.drop_last()), agent, entries.last())
    }
}

/// The terms of a service, recorded or default.
pub fn read_config<S: StorageModule<ServiceKey, AgentServiceConfig>>(
    services: &S,
    agent: u64,
    service: &[u8],
) -> (c: AgentServiceConfig)
    ensures
        c@ == config_of(value_views(services.contents()), agent, service@),
{
    let key = ServiceKey { agent, service: copy_bytes(service) };
    match services.read(&key) {
        Some(c) => c.clone(),
        None => AgentServiceConfig { token: native_token_id(), pnonce: 0, price: 0 },
    }
}

/// The view of an optional change.
pub open spec fn update_view(update: Option<PricingUpdate>) -> Option<PricingUpdateView> {
    match update {
        Some(u) => Some(u@),
        None => None,
    }
}

/// Reads what a metadata entry changes in the terms of a service, see [`update_of`].
pub fn read_pricing_entry(entry: &MetadataEntry) -> (r: Option<PricingUpdate>)
    ensures
        update_view(r) == update_of(entry@),
{
    let price: [u8; 6] = [112u8, 114u8, 105u8, 99u8, 101u8, 58u8];
    let token: [u8; 6] = [116u8, 111u8, 107u8, 101u8, 110u8, 58u8];
    let pnonce: [u8; 7] = [112u8, 110u8, 111u8, 110u8, 99u8, 101u8, 58u8];
    assert(price@ =~= price_prefix());
    assert(token@ =~= token_prefix());
    assert(pnonce@ =~= pnonce_prefix());
    let key = entry.key.as_slice();
    if has_proper_prefix(key, price.as_slice()) {
        let service = copy_range(key, 6, key.len());
        assert(service@ =~= entry@.key.skip(6));
        Some(PricingUpdate::Price { service, price: decode_amount(entry.value.as_slice()) })
    } else if has_proper_prefix(key, token.as_slice()) {
        let service = copy_range(key, 6, key.len());
        assert(service@ =~= entry@.key.skip(6));
        Some(PricingUpdate::Token { service, token: parse_token(entry.value.as_slice()) })
    } else if has_proper_prefix(key, pnonce.as_slice()) {
        let service = copy_range(key, 7, key.len());
        assert(service@ =~= entry@.key.skip(7));
        let pnonce = match top_decode_u64(copy_bytes(entry.value.as_slice())) {
            Some(n) => n,
            None => 0,
        };
        Some(PricingUpdate::Nonce { service, pnonce })
    } else {
        None
    }
}

/// Reads one metadata entry of `agent` into the terms on record.
pub fn sync_pricing_entry<S: StorageModule<ServiceKey, AgentServiceConfig>>(
    services: &mut S,
    agent: u64,
    entry: &MetadataEntry,
)
    ensures
        value_views(final(services).contents()) == sync_entry(
            value_views(old(services).contents()),
            agent,
            entry@,
        ),
{
    let ghost before = value_views(services.contents());
    match read_pricing_entry(entry) {
        Some(PricingUpdate::Price { service, price }) => {
            let mut config = read_config(services, agent, service.as_slice());
            config.price = price;
            services.write(ServiceKey { agent, service }, config);
        },
        Some(PricingUpdate::Token { service, token }) => {
            let mut config = read_config(services, agent, service.as_slice());
            config.token = token;
            services.write(ServiceKey { agent, service }, config);
        },
        Some(PricingUpdate::Nonce { service, pnonce }) => {
            let mut config = read_config(services, agent, service.as_slice());
            config.pnonce = pnonce;
            services.write(ServiceKey { agent, service }, config);
        },
        None => {},
    }
    assert(value_views(services.contents()) =~= sync_entry(before, agent, entry@));
}

/// Reads the metadata entries of `agent` into the terms on record, first to last.
pub fn sync_pricing_metadata<S: StorageModule<ServiceKey, AgentServiceConfig>>(
    services: &mut S,
    agent: u64,
    metadata: &Vec<MetadataEntry>,
)
    ensures
        value_views(final(services).contents()) == sync_entries(
            value_views(old(services).contents()),
            agent,
            entry_views(metadata@),
        ),
{
    let ghost all = entry_views(metadata@);
    let mut i: usize = 0;
    while i < metadata.len()
        invariant
            i <= metadata@.len(),
            all == entry_views(metadata@),
            value_views(services.contents()) == sync_entries(
                value_views(old(services).contents()),
                agent,
                all.subrange(0, i as int),
            ),
        decreases metadata@.len() - i,
    {
        sync_pricing_entry(services, agent, &metadata[i]);
        proof {
            assert(all.subrange(0, i + 1).drop_last() =~= all.subrange(0, i as int));
            assert(all.subrange(0, i + 1).last() == metadata@[i as int]@);
        }
        i += 1;
    }
    assert(all.subrange(0, all.len() as int) =~= all);
}

/// What a directly given set of terms is.
pub struct ServiceConfigInputView {
    pub service_id: Seq<u8>,
    pub price: u128,
    pub token: Seq<u8>,
    pub nonce: u64,
}

/// The payment terms of one service, given directly rather than through metadata.
#[derive(Debug, PartialEq, Eq)]
pub struct ServiceConfigInput {
    pub service_id: Vec<u8>,
    pub price: u128,
    pub token: Vec<u8>,
    pub nonce: u64,
}

impl View for ServiceConfigInput {
    type V = ServiceConfigInputView;

    open spec fn view(&self) -> ServiceConfigInputView {
        ServiceConfigInputView {
            service_id: self.service_id@,
            price: self.price,
            token: self.token@,
            nonce: self.nonce,
        }
    }
}

/// The given terms of a list of services, in order.
pub open spec fn input_views(configs: Seq<ServiceConfigInput>) -> Seq<ServiceConfigInputView> {
    Seq::new(configs.len(), |i: int| configs[i]@)
}

/// The terms on record after the terms of one service were given: a positive
/// price records them, a price of zero takes the service off the record.
pub open spec fn configure(services: Services, agent: u64, input: ServiceConfigInputView) -> Services {
    if input.price > 0 {
        services.insert(
            (agent, input.service_id),
            AgentServiceConfigView {
                token: token_named(input.token),
                pnonce: input.nonce,
                price: input.price,
            },
        )
    } else {
        services.remove((agent, input.service_id))
    }
}

/// The terms on record after the terms of a list of services were given, first to last.
pub open spec fn configure_all(services: Services, agent: u64, inputs: Seq<ServiceConfigInputView>) -> Services
    decreases inputs.len(),
{
    if inputs.len() == 0 {
        services
    } else {
        configure(configure_all(services, agent, inputs.drop_last()), agent, inputs.last())
    }
}

/// Records the given terms of a list of services of `agent`, first to last.
pub fn sync_service_configs<S: StorageModule<ServiceKey, AgentServiceConfig>>(
    services: &mut S,
    agent: u64,
    configs: &Vec<ServiceConfigInput>,
)
    ensures
        value_views(final(services).contents()) == configure_all(
            value_views(old(services).contents()),
            agent,
            input_views(configs@),
        ),
{
    let ghost all = input_views(configs@);
    let mut i: usize = 0;
    while i < configs.len()
        invariant
            i <= configs@.len(),
            all == input_views(configs@),
            value_views(services.contents()) == configure_all(
                value_views(old(services).contents()),
                agent,
                all.subrange(0, i as int),
            ),
        decreases configs@.len() - i,
    {
        let config = &configs[i];
        let ghost current = value_views(services.contents());
        let key = ServiceKey { agent, service: copy_bytes(config.service_id.as_slice()) };
        if config.price > 0 {
            let terms = AgentServiceConfig {
                token: parse_token(config.token.as_slice()),
                pnonce: config.nonce,
                price: config.price,
            };
            services.write(key, terms);
        } else {
            services.clear(&key);
        }
        proof {
            assert(all.subrange(0, i + 1).drop_last() =~= all.subrange(0, i as int));
            assert(all.subrange(0, i + 1).last() == config@);
            assert(value_views(services.contents()) =~= configure(current, agent, config@));
        }
        i += 1;
    }
    assert(all.subrange(0, all.len() as int) =~= all);
}

} // verus!
