//! A pool of outbound clients, one per upstream proxy, replaced as a whole
//! when the directory's lifetimes run out.

use crate::clock::{outlives, outlives_spec, Clock};
use crate::coalescer::{joined, joined_all, queue_of, role_of, single_flight, RequestCoalescer, Role};
use crate::endpoint::{
    endpoints_of, generation_ttl, min_lifetime, parse_endpoints, shortest_lifetime, texts_of, ttl_for, views_of,
    Endpoint,
};
use rand::prelude::IndexedRandom;
use rsmycqu::session::Client;
use std::sync::Arc;
use vstd::prelude::*;

verus! {

/// `rsmycqu::session::Client`, an outbound client. Nothing inside it is
/// looked at.
#[verifier::external_type_specification]
#[verifier::external_body]
pub struct ExClient(Client);

/// `reqwest::Proxy`, the description of a proxy. Nothing inside it is
/// looked at.
#[verifier::external_type_specification]
#[verifier::external_body]
pub struct ExProxy(reqwest::Proxy);

/// Whether `reqwest::Proxy::all` takes `url` for the address of a proxy.
pub uninterp spec fn proxy_accepts(url: Seq<char>) -> bool;

/// The scheme with which every proxy address is completed.
pub open spec fn scheme() -> Seq<char> {
    seq!['h', 't', 't', 'p', ':', '/', '/']
}

/// The URL of the proxy at `address`.
pub open spec fn proxy_url(address: Seq<char>) -> Seq<char> {
    scheme() + address
}

/// `reqwest::Proxy::all`, then `Proxy::basic_auth` on what it gave: a proxy
/// for all traffic at `url`, with the credentials. It fails exactly where
/// `Proxy::all` does not take the URL, with that error's text. The URL is an
/// `http` one, for which setting credentials cannot fail.
#[verifier::external_body]
fn proxy_through(url: &str, username: &str, password: &str) -> (proxy: Result<reqwest::Proxy, String>)
    requires
        url@.len() >= 7,
        url@.subrange(0, 7) == scheme(),
    ensures
        proxy is Ok <==> proxy_accepts(url@),
{
    match reqwest::Proxy::all(url) {
        Ok(proxy) => Ok(proxy.basic_auth(username, password)),
        Err(error) => Err(error.to_string()),
    }
}

/// `rsmycqu::session::Client::custom`: a client that sends through `proxy`,
/// keeps at most `idle_per_host` idle connections per host for `idle_secs`
/// seconds, and probes open connections every `keepalive_secs` seconds.
/// Whether the client can be built depends on the machine, so nothing is
/// claimed of the outcome; a failure carries the error's text.
#[verifier::external_body]
fn client_through(proxy: reqwest::Proxy, idle_per_host: usize, idle_secs: u64, keepalive_secs: u64) -> (client:
    Result<Client, String>) {
    Client::custom(
        |builder|
            builder.pool_max_idle_per_host(idle_per_host).pool_idle_timeout(
                std::time::Duration::from_secs(idle_secs),
            ).tcp_keepalive(std::time::Duration::from_secs(keepalive_secs)).proxy(proxy),
    ).map_err(|error| error.to_string())
}

/// `Arc::clone`: one more handle to the same client.
#[verifier::external_body]
fn share(client: &Arc<Client>) -> (shared: Arc<Client>)
    ensures
        shared == *client,
{
    client.clone()
}

/// A client that is bound to one upstream proxy.
pub struct ClientHandle {
    address: String,
    client: Arc<Client>,
}

impl ClientHandle {
    /// The address of the proxy, as the directory wrote it.
    pub closed spec fn address_spec(&self) -> Seq<char> {
        self.address@
    }

    /// The address of the proxy, as the directory wrote it.
    pub fn address(&self) -> (address: &str)
        ensures
            address@ == self.address_spec(),
    {
        self.address.as_str()
    }

    /// The client itself.
    pub closed spec fn client_spec(&self) -> Arc<Client> {
        self.client
    }

    /// The client itself, shared with the pool.
    pub fn client(&self) -> (client: Arc<Client>)
        ensures
            client == self.client_spec(),
    {
        share(&self.client)
    }

    /// One more handle to the same client.
    pub fn duplicate(&self) -> (copy: Self)
        ensures
            copy == *self,
    {
        ClientHandle { address: self.address.clone(), client: share(&self.client) }
    }
}

/// `IndexedRandom::choose` with the thread's generator: a handle of `clients`
/// picked at random, none where there is none to pick.
#[verifier::external_body]
fn choose_handle(clients: &Vec<ClientHandle>) -> (chosen: Option<&ClientHandle>)
    ensures
        clients@.len() == 0 ==> chosen is None,
        clients@.len() > 0 ==> chosen is Some && clients@.contains(*chosen->0),
{
    clients.choose(&mut rand::rng())
}

/// Why a refresh did not yield a generation.
#[derive(Debug)]
pub enum RefreshError {
    /// A setting that the refresh needs is not there.
    MissingSetting { name: String },
    /// The directory could not be asked, or its answer could not be read.
    Directory { reason: String },
    /// The directory listed nothing.
    NoEndpoints,
    /// An entry's address does not make a proxy URL.
    InvalidProxy { url: String, reason: String },
    /// No client could be built for a proxy.
    ClientBuild { reason: String },
    /// No entry of the listing names an endpoint.
    NoValidEndpoint,
}

impl RefreshError {
    /// The failure in words.
    pub open spec fn message_spec(&self) -> Seq<char> {
        match self {
            RefreshError::MissingSetting { name } => name@ + " not set"@,
            RefreshError::Directory { reason } => reason@,
            RefreshError::NoEndpoints => "No proxies fetched from API"@,
            RefreshError::InvalidProxy { url, reason } => "Invalid proxy URL '"@ + url@ + "': "@ + reason@,
            RefreshError::ClientBuild { reason } => "Failed to create proxied client: "@ + reason@,
            RefreshError::NoValidEndpoint => "Failed to parse any valid proxies from API response"@,
        }
    }

    /// The failure in words.
    pub fn message(&self) -> (text: String)
        ensures
            text@ == self.message_spec(),
    {
        match self {
            RefreshError::MissingSetting { name } => {
                let mut text = name.clone();
                text.append(" not set");
                text
            },
            RefreshError::Directory { reason } => reason.clone(),
            RefreshError::NoEndpoints => "No proxies fetched from API".to_string(),
            RefreshError::InvalidProxy { url, reason } => {
                let mut text = "Invalid proxy URL '".to_string();
                text.append(url.as_str());
                text.append("': ");
                text.append(reason.as_str());
                text
            },
            RefreshError::ClientBuild { reason } => {
                let mut text = "Failed to create proxied client: ".to_string();
                text.append(reason.as_str());
                text
            },
            RefreshError::NoValidEndpoint => "Failed to parse any valid proxies from API response".to_string(),
        }
    }
}

/// The addresses of `endpoints`, one for one.
pub open spec fn addresses_of(endpoints: Seq<(Seq<char>, u64)>) -> Seq<Seq<char>> {
    endpoints.map_values(|endpoint: (Seq<char>, u64)| endpoint.0)
}

/// The addresses to which `handles` are bound, one for one.
pub open spec fn bound_to(handles: Seq<ClientHandle>) -> Seq<Seq<char>> {
    handles.map_values(|handle: ClientHandle| handle.address_spec())
}

/// Whether a proxy can be made for each of the first `count` of `addresses`.
pub open spec fn accepted_up_to(addresses: Seq<Seq<char>>, count: int) -> bool {
    forall|i: int| 0 <= i < count && i < addresses.len() ==> proxy_accepts(proxy_url(#[trigger] addresses[i]))
}

/// Whether `error` is a failure that a refresh from the listing `items` can
/// end in, given which credentials are there. The first four kinds come on
/// fixed inputs: an empty listing; a listing without the user name, or with
/// it and without the password; a listing none of whose entries names an
/// endpoint; an address, the first such, that makes no proxy URL. A client
/// that cannot be built is up to the machine.
pub open spec fn refresh_fails_with(
    error: RefreshError,
    items: Seq<Seq<char>>,
    has_username: bool,
    has_password: bool,
) -> bool {
    let addresses = addresses_of(endpoints_of(items));
    match error {
        RefreshError::NoEndpoints => items.len() == 0,
        RefreshError::MissingSetting { name } => items.len() > 0 && if has_username {
            !has_password && name@ == "PROXY_PASSWORD"@
        } else {
            name@ == "PROXY_USERNAME"@
        },
        RefreshError::NoValidEndpoint => items.len() > 0 && has_username && has_password && addresses.len() == 0,
        RefreshError::InvalidProxy { url, reason } => items.len() > 0 && has_username && has_password && exists|
            i: int,
        |
            0 <= i < addresses.len() && accepted_up_to(addresses, i) && !proxy_accepts(
                proxy_url(#[trigger] addresses[i]),
            ) && url@ == proxy_url(addresses[i]),
        RefreshError::ClientBuild { reason } => items.len() > 0 && has_username && has_password && exists|i: int|
            0 <= i < addresses.len() && #[trigger] accepted_up_to(addresses, i + 1),
        RefreshError::Directory { reason } => false,
    }
}

/// Reads a directory listing into the endpoints of the next generation.
/// An empty listing is refused before the credentials are looked at, and
/// these before the entries are read.
pub fn plan_generation(listing: &Vec<String>, has_username: bool, has_password: bool) -> (plan: Result<
    Vec<Endpoint>,
    RefreshError,
>)
    ensures
        match plan {
            Ok(endpoints) => {
                &&& listing@.len() > 0
                &&& has_username
                &&& has_password
                &&& endpoints@.len() > 0
                &&& views_of(endpoints@) == endpoints_of(texts_of(listing@))
            },
            Err(error) => !(error is InvalidProxy) && !(error is ClientBuild) && refresh_fails_with(
                error,
                texts_of(listing@),
                has_username,
                has_password,
            ),
        },
{
    if listing.len() == 0 {
        return Err(RefreshError::NoEndpoints);
    }
    if !has_username {
        return Err(RefreshError::MissingSetting { name: "PROXY_USERNAME".to_string() });
    }
    if !has_password {
        return Err(RefreshError::MissingSetting { name: "PROXY_PASSWORD".to_string() });
    }
    let endpoints = parse_endpoints(listing);
    if endpoints.len() == 0 {
        return Err(RefreshError::NoValidEndpoint);
    }
    Ok(endpoints)
}

/// The idle connections that a client keeps open per host, at most.
pub const IDLE_CONNECTIONS_PER_HOST: usize = 10;

/// The seconds after which a client closes an idle connection.
pub const IDLE_TIMEOUT_SECONDS: u64 = 30;

/// The seconds between two probes of an open connection.
pub const KEEPALIVE_SECONDS: u64 = 30;

/// Builds the client for one endpoint: a proxy for all traffic at
/// `http://` and the address, with the credentials, and a client through it.
pub fn connect(endpoint: &Endpoint, username: &str, password: &str) -> (made: Result<ClientHandle, RefreshError>)
    ensures
        match made {
            Ok(handle) => proxy_accepts(proxy_url(endpoint.address@)) && handle.address_spec() == endpoint.address@,
            Err(RefreshError::InvalidProxy { url, reason }) => !proxy_accepts(proxy_url(endpoint.address@)) && url@
                == proxy_url(endpoint.address@),
            Err(RefreshError::ClientBuild { reason }) => proxy_accepts(proxy_url(endpoint.address@)),
            Err(_) => false,
        },
{
    let mut url = "http://".to_string();
    proof {
        reveal_strlit("http://");
        assert(url@ == scheme());
    }
    url.append(endpoint.address.as_str());
    assert(url@.subrange(0, 7) == scheme());
    match proxy_through(url.as_str(), username, password) {
        Err(reason) => Err(RefreshError::InvalidProxy { url, reason }),
        Ok(proxy) => match client_through(proxy, IDLE_CONNECTIONS_PER_HOST, IDLE_TIMEOUT_SECONDS, KEEPALIVE_SECONDS) {
            Err(reason) => Err(RefreshError::ClientBuild { reason }),
            Ok(client) => Ok(ClientHandle { address: endpoint.address.clone(), client: Arc::new(client) }),
        },
    }
}

/// Builds the clients of a generation, one per endpoint and in their order.
/// The first endpoint for which none can be built ends the attempt.
pub fn connect_all(endpoints: &Vec<Endpoint>, username: &str, password: &str) -> (made: Result<
    Vec<ClientHandle>,
    RefreshError,
>)
    ensures
        match made {
            Ok(handles) => {
                &&& bound_to(handles@) == addresses_of(views_of(endpoints@))
                &&& accepted_up_to(addresses_of(views_of(endpoints@)), endpoints@.len() as int)
            },
            Err(RefreshError::InvalidProxy { url, reason }) => exists|i: int|
                0 <= i < endpoints@.len() && accepted_up_to(addresses_of(views_of(endpoints@)), i) && !proxy_accepts(
                    proxy_url(#[trigger] addresses_of(views_of(endpoints@))[i]),
                ) && url@ == proxy_url(addresses_of(views_of(endpoints@))[i]),
            Err(RefreshError::ClientBuild { reason }) => exists|i: int|
                0 <= i < endpoints@.len() && #[trigger] accepted_up_to(addresses_of(views_of(endpoints@)), i + 1),
            Err(_) => false,
        },
{
    let ghost addresses = addresses_of(views_of(endpoints@));
    let mut handles: Vec<ClientHandle> = Vec::new();
    let mut i: usize = 0;
    while i < endpoints.len()
        invariant
            i <= endpoints.len(),
            addresses == addresses_of(views_of(endpoints@)),
            bound_to(handles@) == addresses.take(i as int),
            accepted_up_to(addresses, i as int),
        decreases endpoints.len() - i,
    {
        assert(addresses[i as int] == endpoints@[i as int].address@);
        match connect(&endpoints[i], username, password) {
            Ok(handle) => {
                let ghost before = handles@;
                handles.push(handle);
                assert(bound_to(handles@) == bound_to(before).push(handle.address_spec()));
                assert(addresses.take(i + 1) == addresses.take(i as int).push(addresses[i as int]));
            },
            Err(error) => {
                proof {
                    if error is ClientBuild {
                        assert(accepted_up_to(addresses, i + 1));
                    }
                }
                return Err(error);
            },
        }
        i += 1;
    }
    assert(addresses.take(i as int) == addresses);
    Ok(handles)
}

/// The key under which every refresh of a pool is coalesced.
pub open spec fn refresh_key() -> Seq<char> {
    "refresh_clients"@
}

/// The instant at which a generation installed at `now` for `ttl_secs`
/// seconds runs out.
pub open spec fn generation_deadline(now: u64, ttl_secs: u64) -> u128 {
    (now + ttl_secs * 1_000_000_000) as u128
}

/// Whether a generation of `count` clients that runs out at `expires_at` can
/// serve at `now`: it is not empty and its deadline still lies ahead.
pub open spec fn fresh(count: nat, expires_at: u128, now: u64) -> bool {
    count > 0 && outlives_spec(expires_at, now)
}

/// The refreshes in flight after a caller with `ticket` has asked for a
/// client: a fresh generation leaves them as they were, a stale one has the
/// caller join the refresh.
pub open spec fn pending_refreshes(is_fresh: bool, pending: Map<Seq<char>, Seq<u64>>, ticket: u64) -> Map<
    Seq<char>,
    Seq<u64>,
> {
    if is_fresh {
        pending
    } else {
        joined(pending, refresh_key(), ticket)
    }
}

/// One generation of clients and the deadline that they share.
pub struct ClientCache {
    clients: Vec<ClientHandle>,
    expires_at: u128,
}

impl ClientCache {
    /// The clients of the generation, in the order of the listing they came
    /// from.
    pub closed spec fn handles(&self) -> Seq<ClientHandle> {
        self.clients@
    }

    /// The instant at which the generation runs out.
    pub closed spec fn deadline(&self) -> u128 {
        self.expires_at
    }
}

impl Default for ClientCache {
    /// No clients, and a deadline that has passed at every instant.
    fn default() -> (cache: Self)
        ensures
            cache.handles().len() == 0,
            cache.deadline() == 0,
    {
        ClientCache { clients: Vec::new(), expires_at: 0 }
    }
}

/// What a caller that asks for a client is to do.
pub enum PoolStep {
    /// The generation is fresh: here is one of its clients.
    Ready(ClientHandle),
    /// The generation is stale and no refresh is in flight: the caller
    /// leads one. It asks [`ProxiedClientProvider::needs_refresh`] once
    /// more, fetches the directory's listing if so and hands it to
    /// [`ProxiedClientProvider::refresh_clients`], and ends with
    /// [`ProxiedClientProvider::finish_refresh`].
    Refresh,
    /// The generation is stale and a refresh is in flight: the caller waits
    /// until its leader has finished.
    Wait,
}

/// A pool of clients that is refreshed, by one caller at a time, when its
/// generation has run out.
pub struct ProxiedClientProvider {
    cache: ClientCache,
    coalescer: RequestCoalescer,
    clock: Clock,
}

impl ProxiedClientProvider {
    /// The clients of the current generation.
    pub closed spec fn handles(&self) -> Seq<ClientHandle> {
        self.cache.handles()
    }

    /// The instant at which the current generation runs out.
    pub closed spec fn expires_at(&self) -> u128 {
        self.cache.deadline()
    }

    /// The refreshes in flight, as the pool's coalescer holds them.
    pub closed spec fn pending(&self) -> Map<Seq<char>, Seq<u64>> {
        self.coalescer@
    }

    /// The tickets of the callers of the refresh in flight, its leader's
    /// first; empty where none is in flight.
    pub open spec fn refreshing(&self) -> Seq<u64> {
        queue_of(self.pending(), refresh_key())
    }

    /// Whether the current generation can serve at `now`.
    pub open spec fn is_fresh(&self, now: u64) -> bool {
        fresh(self.handles().len(), self.expires_at(), now)
    }

    /// A pool without clients and with no refresh in flight.
    pub fn new() -> (pool: Self)
        ensures
            pool.handles().len() == 0,
            pool.expires_at() == 0,
            pool.pending() == (Map::<Seq<char>, Seq<u64>>::empty()),
    {
        ProxiedClientProvider { cache: ClientCache::default(), coalescer: RequestCoalescer::new(), clock: Clock::new() }
    }

    /// The present instant on the pool's own clock.
    pub fn now(&self) -> (now: u64) {
        self.clock.now()
    }

    /// The number of clients in the current generation.
    pub fn client_count(&self) -> (count: usize)
        ensures
            count == self.handles().len(),
    {
        self.cache.clients.len()
    }

    /// The instant at which the current generation runs out.
    pub fn deadline(&self) -> (deadline: u128)
        ensures
            deadline == self.expires_at(),
    {
        self.cache.expires_at
    }

    /// The client at place `index` of the current generation.
    pub fn client_at(&self, index: usize) -> (handle: Option<ClientHandle>)
        ensures
            handle == (if index < self.handles().len() {
                Some(self.handles()[index as int])
            } else {
                None
            }),
    {
        if index < self.cache.clients.len() {
            Some(self.cache.clients[index].duplicate())
        } else {
            None
        }
    }

    /// Whether the generation has to be replaced at instant `now`: it has
    /// run out or holds no client.
    pub fn needs_refresh_at(&self, now: u64) -> (stale: bool)
        ensures
            stale == !self.is_fresh(now),
    {
        !outlives(self.cache.expires_at, now) || self.cache.clients.len() == 0
    }

    /// Whether the generation has to be replaced at the present instant.
    pub fn needs_refresh(&self) -> (stale: bool)
        ensures
            exists|now: u64| stale == !#[trigger] self.is_fresh(now),
    {
        let now = self.clock.now();
        self.needs_refresh_at(now)
    }

    /// One client of the generation, picked at random, if the generation can
    /// serve at instant `now`. A generation that has run out serves nobody.
    pub fn select_at(&self, now: u64) -> (chosen: Option<ClientHandle>)
        ensures
            match chosen {
                Some(handle) => self.is_fresh(now) && self.handles().contains(handle),
                None => !self.is_fresh(now),
            },
    {
        if self.needs_refresh_at(now) {
            return None;
        }
        match choose_handle(&self.cache.clients) {
            Some(handle) => Some(handle.duplicate()),
            None => None,
        }
    }

    /// One client of the generation, picked at random, if the generation can
    /// serve at the present instant.
    pub fn select(&self) -> (chosen: Option<ClientHandle>)
        ensures
            exists|now: u64|
                match chosen {
                    Some(handle) => #[trigger] self.is_fresh(now) && self.handles().contains(handle),
                    None => !self.is_fresh(now),
                },
    {
        let now = self.clock.now();
        self.select_at(now)
    }

    /// Admits a caller at instant `now`. A fresh generation serves at once
    /// and no refresh is touched. Against a stale one the caller joins the
    /// refresh: as its leader where none is in flight, else as a waiter.
    pub fn get_random_client_at(&mut self, ticket: u64, now: u64) -> (step: PoolStep)
        ensures
            final(self).handles() == old(self).handles(),
            final(self).expires_at() == old(self).expires_at(),
            final(self).pending() == pending_refreshes(old(self).is_fresh(now), old(self).pending(), ticket),
            match step {
                PoolStep::Ready(handle) => old(self).is_fresh(now) && old(self).handles().contains(handle),
                PoolStep::Refresh => !old(self).is_fresh(now) && role_of(old(self).pending(), refresh_key())
                    == Role::Leader,
                PoolStep::Wait => !old(self).is_fresh(now) && role_of(old(self).pending(), refresh_key())
                    == Role::Waiter,
            },
    {
        match self.select_at(now) {
            Some(handle) => PoolStep::Ready(handle),
            None => {
                proof {
                    reveal_strlit("refresh_clients");
                }
                match self.coalescer.execute("refresh_clients".to_string(), ticket) {
                    Role::Leader => PoolStep::Refresh,
                    Role::Waiter => PoolStep::Wait,
                }
            },
        }
    }

    /// Admits a caller at the present instant.
    pub fn get_random_client(&mut self, ticket: u64) -> (step: PoolStep)
        ensures
            final(self).handles() == old(self).handles(),
            final(self).expires_at() == old(self).expires_at(),
            exists|now: u64|
                {
                    &&& final(self).pending() == pending_refreshes(
                        #[trigger] old(self).is_fresh(now),
                        old(self).pending(),
                        ticket,
                    )
                    &&& match step {
                        PoolStep::Ready(handle) => old(self).is_fresh(now) && old(self).handles().contains(handle),
                        PoolStep::Refresh => !old(self).is_fresh(now) && role_of(old(self).pending(), refresh_key())
                            == Role::Leader,
                        PoolStep::Wait => !old(self).is_fresh(now) && role_of(old(self).pending(), refresh_key())
                            == Role::Waiter,
                    }
                },
    {
        let now = self.clock.now();
        self.get_random_client_at(ticket, now)
    }

    /// Replaces the generation, at instant `now`, by `handles`, to run out
    /// when the shortest of their lifetimes, `shortest` seconds, has ten
    /// seconds left, and no sooner than ten seconds from `now`.
    pub fn install_at(&mut self, handles: Vec<ClientHandle>, shortest: u64, now: u64)
        ensures
            final(self).handles() == handles@,
            final(self).expires_at() == generation_deadline(now, generation_ttl(shortest)),
            final(self).pending() == old(self).pending(),
    {
        let ttl: u128 = ttl_for(shortest) as u128;
        let start: u128 = now as u128;
        self.cache = ClientCache { clients: handles, expires_at: start + ttl * 1_000_000_000 };
    }

    /// Refreshes the pool at instant `now` from a directory listing: one
    /// client per entry that names an endpoint, in the listing's order. Any
    /// failure leaves the generation as it was.
    pub fn refresh_clients_at(
        &mut self,
        listing: &Vec<String>,
        username: &Option<String>,
        password: &Option<String>,
        now: u64,
    ) -> (outcome: Result<(), RefreshError>)
        ensures
            final(self).pending() == old(self).pending(),
            match outcome {
                Ok(_) => {
                    let endpoints = endpoints_of(texts_of(listing@));
                    &&& listing@.len() > 0
                    &&& username is Some
                    &&& password is Some
                    &&& endpoints.len() > 0
                    &&& accepted_up_to(addresses_of(endpoints), endpoints.len() as int)
                    &&& bound_to(final(self).handles()) == addresses_of(endpoints)
                    &&& final(self).expires_at() == generation_deadline(
                        now,
                        generation_ttl(shortest_lifetime(endpoints)),
                    )
                },
                Err(error) => {
                    &&& final(self).handles() == old(self).handles()
                    &&& final(self).expires_at() == old(self).expires_at()
                    &&& refresh_fails_with(error, texts_of(listing@), username is Some, password is Some)
                },
            },
    {
        let endpoints = match plan_generation(listing, username.is_some(), password.is_some()) {
            Ok(endpoints) => endpoints,
            Err(error) => {
                return Err(error);
            },
        };
        let name = username.as_ref().unwrap();
        let secret = password.as_ref().unwrap();
        let shortest = min_lifetime(&endpoints);
        match connect_all(&endpoints, name.as_str(), secret.as_str()) {
            Ok(handles) => {
                self.install_at(handles, shortest, now);
                Ok(())
            },
            Err(error) => Err(error),
        }
    }

    /// Refreshes the pool at the present instant from a directory listing.
    pub fn refresh_clients(&mut self, listing: &Vec<String>, username: &Option<String>, password: &Option<String>) -> (outcome:
        Result<(), RefreshError>)
        ensures
            final(self).pending() == old(self).pending(),
            match outcome {
                Ok(_) => {
                    let endpoints = endpoints_of(texts_of(listing@));
                    &&& listing@.len() > 0
                    &&& username is Some
                    &&& password is Some
                    &&& endpoints.len() > 0
                    &&& accepted_up_to(addresses_of(endpoints), endpoints.len() as int)
                    &&& bound_to(final(self).handles()) == addresses_of(endpoints)
                    &&& exists|now: u64|
                        final(self).expires_at() == #[trigger] generation_deadline(
                            now,
                            generation_ttl(shortest_lifetime(endpoints)),
                        )
                },
                Err(error) => {
                    &&& final(self).handles() == old(self).handles()
                    &&& final(self).expires_at() == old(self).expires_at()
                    &&& refresh_fails_with(error, texts_of(listing@), username is Some, password is Some)
                },
            },
    {
        let now = self.clock.now();
        self.refresh_clients_at(listing, username, password, now)
    }

    /// Ends the refresh in flight: detaches its callers and returns their
    /// tickets in order of arrival, so that the next caller that finds the
    /// generation stale leads anew.
    pub fn finish_refresh(&mut self) -> (waiters: Vec<u64>)
        ensures
            waiters@ == old(self).refreshing(),
            final(self).pending() == old(self).pending().remove(refresh_key()),
            final(self).handles() == old(self).handles(),
            final(self).expires_at() == old(self).expires_at(),
    {
        self.coalescer.complete("refresh_clients")
    }
}

/// Refreshing a stale pool. Of any number of callers that find the pool
/// stale with no refresh in flight, exactly the first leads the refresh: the
/// directory is asked once. Ending the refresh hands back the tickets of them
/// all. And a generation installed at `now` from at least one endpoint is
/// fresh at every instant before its deadline, which is ten seconds after
/// `now` or later: a caller that selects a client then gets one.
pub proof fn one_refresh_serves_all(
    pending: Map<Seq<char>, Seq<u64>>,
    tickets: Seq<u64>,
    endpoints: Seq<(Seq<char>, u64)>,
    now: u64,
    at: u64,
)
    requires
        queue_of(pending, refresh_key()).len() == 0,
        endpoints.len() > 0,
    ensures
        forall|n: int|
            0 <= n < tickets.len() ==> role_of(#[trigger] joined_all(pending, refresh_key(), tickets.take(n)), refresh_key())
                == (if n == 0 {
                Role::Leader
            } else {
                Role::Waiter
            }),
        queue_of(joined_all(pending, refresh_key(), tickets), refresh_key()) == tickets,
        generation_deadline(now, generation_ttl(shortest_lifetime(endpoints))) >= now + 10 * 1_000_000_000,
        at < generation_deadline(now, generation_ttl(shortest_lifetime(endpoints))) ==> fresh(
            endpoints.len(),
            generation_deadline(now, generation_ttl(shortest_lifetime(endpoints))),
            at,
        ),
{
    single_flight(pending, refresh_key(), tickets);
    let ttl = generation_ttl(shortest_lifetime(endpoints));
    assert(ttl >= 10);
    assert(ttl * 1_000_000_000 >= 10 * 1_000_000_000) by (nonlinear_arith)
        requires
            ttl >= 10,
    ;
}

/// The deadline of a generation. It lies ten seconds before the end of the
/// shortest lifetime among the endpoints, and never less than ten seconds
/// ahead.
pub proof fn generation_ttl_is_margin_with_floor(shortest: u64)
    ensures
        generation_ttl(shortest) >= 10,
        shortest >= 20 ==> generation_ttl(shortest) == shortest - 10,
        shortest < 20 ==> generation_ttl(shortest) == 10,
{
}

} // verus!
