//! A client library for a 3D-printer's local HTTP status API.
//!
//! The library owns the two parts of the client with real decision logic,
//! and both are verified:
//!
//! - the snapshot decoder ([`decode::decode`]), which turns one response
//!   body into a typed [`raw_printer::RawPrinter`] record or rejects it as
//!   a whole; and
//! - the staleness-gated refresh cache ([`Printer`]), which decides on each
//!   read whether the cached snapshot may be reused or a new fetch is due,
//!   and which replaces its snapshot and its fetch time only together.
//!
//! The HTTP transport and the clock are outside collaborators: a caller (or
//! a thin unverified shell) performs the fetch and hands the body and the
//! current time in, as plain values.

use vstd::prelude::*;
use vstd::string::StringSliceAdditionalSpecFns;

pub mod decode;
pub mod json;
pub mod raw_printer;

use decode::blank;
use decode::doc_of;
use decode::json_parses;
use decode::spec_snapshot;
use raw_printer::RawPrinter;

verus! {

/// How long a cached snapshot stays fresh by default, in milliseconds.
pub const DEFAULT_TTL_MS: u64 = 2000;

/// The default port of the printer's HTTP API.
pub const DEFAULT_PORT: u32 = 80;

/// When a cached snapshot may be reused, fixed at construction.
#[derive(Clone, Copy, PartialEq, Eq, Structural, Debug)]
pub enum RefreshPolicy {
    /// Never re-fetch once a snapshot is cached; only the very first read
    /// (or a forced refresh) performs a fetch.
    Disabled,
    /// Re-fetch when more than this many milliseconds have passed since the
    /// last successful fetch. A snapshot exactly this old is still fresh.
    TimeToLive(u64),
}

/// Why a response body yielded no snapshot.
#[derive(Clone, Debug)]
pub enum DecodeError {
    /// The body was empty, or whitespace only: the server is likely not
    /// ready, or the API key was rejected.
    EmptyResponse,
    /// The body was not a well-formed document of the expected shape; the
    /// detail names the parse failure or the offending field.
    Malformed(String),
}

/// What a library caller sees when a read fails: either the transport
/// could not produce a body, or the body yielded no snapshot.
#[derive(Clone, Debug)]
pub enum ClientError {
    /// The fetch itself failed; the detail describes the transport failure.
    Transport(String),
    /// The fetch produced a body, but decoding it failed.
    Decode(DecodeError),
}

/// Assembles the address, API key, port and refresh policy of a [`Printer`].
#[derive(Clone, Debug)]
pub struct PrinterBuilder {
    pub address: String,
    pub api_key: String,
    pub port: u32,
    pub policy: RefreshPolicy,
}

impl PrinterBuilder {
    /// A builder for the given address and API key, with the default port
    /// and the default time-to-live policy.
    pub fn new(address: String, api_key: String) -> (r: Self)
        ensures
            r.address == address,
            r.api_key == api_key,
            r.port == DEFAULT_PORT,
            r.policy == RefreshPolicy::TimeToLive(DEFAULT_TTL_MS),
    {
        Self { address, api_key, port: DEFAULT_PORT, policy: RefreshPolicy::TimeToLive(DEFAULT_TTL_MS) }
    }

    /// Use a port other than the default.
    pub fn port(self, port: u32) -> (r: Self)
        ensures
            r.port == port,
            r.address == self.address,
            r.api_key == self.api_key,
            r.policy == self.policy,
    {
        Self { port, ..self }
    }

    /// Refresh a cached snapshot once it is strictly older than the given
    /// number of milliseconds.
    pub fn auto_refresh(self, auto_refresh_ms: u64) -> (r: Self)
        ensures
            r.policy == RefreshPolicy::TimeToLive(auto_refresh_ms),
            r.address == self.address,
            r.api_key == self.api_key,
            r.port == self.port,
    {
        Self { policy: RefreshPolicy::TimeToLive(auto_refresh_ms), ..self }
    }

    /// Never refresh a cached snapshot; only the first read, or a forced
    /// refresh, fetches.
    pub fn disable_auto_refresh(self) -> (r: Self)
        ensures
            r.policy == RefreshPolicy::Disabled,
            r.address == self.address,
            r.api_key == self.api_key,
            r.port == self.port,
    {
        Self { policy: RefreshPolicy::Disabled, ..self }
    }

    /// The finished client, with an empty cache.
    pub fn build(self) -> (r: Printer)
        ensures
            r.address == self.address,
            r.api_key == self.api_key,
            r.port == self.port,
            r.policy == self.policy,
            r.printer is None,
            r.last_refresh is None,
            r.wf(),
    {
        let address = self.address;
        let port = self.port;
        let api_key = self.api_key;
        let policy = self.policy;
        let printer = None;
        let last_refresh = None;

        Printer { address, port, api_key, policy, printer, last_refresh }
    }
}

/// The refresh cache: the configuration, the last decoded snapshot, and
/// the time of its capture.
///
/// The snapshot and its capture time are replaced only together, by a
/// successful refresh; a failed refresh leaves both untouched. All times
/// are milliseconds on one caller-supplied clock.
#[derive(Clone, Debug)]
pub struct Printer {
    pub address: String,
    pub api_key: String,
    pub port: u32,
    pub policy: RefreshPolicy,
    pub printer: Option<RawPrinter>,
    pub last_refresh: Option<u64>,
}

impl Printer {
    /// A snapshot is cached exactly when a capture time is recorded.
    pub open spec fn wf(self) -> bool {
        self.printer is Some <==> self.last_refresh is Some
    }

    /// Milliseconds passed since `last_ms`, by a clock that now reads
    /// `now_ms`; a clock that moved backwards counts as no time passed.
    pub open spec fn spec_elapsed(last_ms: u64, now_ms: u64) -> u64 {
        if now_ms >= last_ms {
            (now_ms - last_ms) as u64
        } else {
            0u64
        }
    }

    /// The refresh decision: fetch when forced, when nothing is cached
    /// yet, or when a time-to-live policy finds the cache strictly older
    /// than its bound.
    pub open spec fn spec_should_refresh(self, force: bool, now_ms: u64) -> bool {
        ||| force
        ||| self.last_refresh is None
        ||| {
            &&& self.last_refresh matches Some(last)
            &&& self.policy matches RefreshPolicy::TimeToLive(ttl)
            &&& Self::spec_elapsed(last, now_ms) > ttl
        }
    }

    /// Decides, at time `now_ms`, whether a read must fetch before it can
    /// answer. Performs no I/O and changes nothing.
    pub fn should_refresh(&self, force: bool, now_ms: u64) -> (r: bool)
        ensures
            r == self.spec_should_refresh(force, now_ms),
    {
        if force {
            return true;
        }
        match (self.last_refresh, self.policy) {
            (Some(last), RefreshPolicy::TimeToLive(ttl)) => {
                let elapsed: u64 = if now_ms >= last { now_ms - last } else { 0 };
                elapsed > ttl
            },
            (None, _) => true,
            _ => false,
        }
    }

    /// Installs a freshly decoded snapshot and its capture time, as one
    /// atomic pair-update; the configuration is untouched.
    pub fn commit_snapshot(&mut self, snapshot: RawPrinter, now_ms: u64)
        ensures
            final(self).printer == Some(snapshot),
            final(self).last_refresh == Some(now_ms),
            final(self).address == old(self).address,
            final(self).api_key == old(self).api_key,
            final(self).port == old(self).port,
            final(self).policy == old(self).policy,
            final(self).wf(),
    {
        self.printer = Some(snapshot);
        self.last_refresh = Some(now_ms);
    }

    /// Decodes a fetched response body and, on success, installs the
    /// decoded snapshot and `now_ms` as its capture time, together. On
    /// any decode failure the whole cache state — snapshot and capture
    /// time — is left exactly as it was, and the error is returned
    /// instead of the stale snapshot.
    pub fn refresh_from_body(&mut self, body: &str, now_ms: u64) -> (r: Result<(), DecodeError>)
        ensures
            r is Ok ==> {
                &&& final(self).printer is Some
                &&& final(self).last_refresh == Some(now_ms)
                &&& final(self).address == old(self).address
                &&& final(self).api_key == old(self).api_key
                &&& final(self).port == old(self).port
                &&& final(self).policy == old(self).policy
            },
            r is Err ==> *final(self) == *old(self),
            (r matches Err(e) && e matches DecodeError::EmptyResponse) <==> blank(body@),
            !blank(body@) && !json_parses(body.spec_bytes()) ==> (r matches Err(e)
                && e matches DecodeError::Malformed(_)),
            !blank(body@) && json_parses(body.spec_bytes()) ==> (match spec_snapshot(
                doc_of(body.spec_bytes()),
            ) {
                Some(m) => r is Ok && (final(self).printer matches Some(snapshot)
                    && snapshot.model() == m),
                None => r matches Err(e) && e matches DecodeError::Malformed(_),
            }),
            r is Ok ==> json_parses(body.spec_bytes()),
            old(self).wf() ==> final(self).wf(),
    {
        match decode::decode(body) {
            Ok(snapshot) => {
                self.commit_snapshot(snapshot, now_ms);
                Ok(())
            },
            Err(e) => Err(e),
        }
    }

    /// The cached snapshot, if any; never fetches.
    pub fn cached_snapshot(&self) -> (r: Option<&RawPrinter>)
        ensures
            match r {
                Some(snapshot) => self.printer == Some(*snapshot),
                None => self.printer is None,
            },
    {
        self.printer.as_ref()
    }

    pub fn address(&self) -> (r: &str)
        ensures
            r@ == self.address@,
    {
        self.address.as_str()
    }

    pub fn api_key(&self) -> (r: &str)
        ensures
            r@ == self.api_key@,
    {
        self.api_key.as_str()
    }

    /// Changes the address; the cache is deliberately not invalidated.
    pub fn change_address(&mut self, address: String)
        ensures
            final(self).address == address,
            final(self).api_key == old(self).api_key,
            final(self).port == old(self).port,
            final(self).policy == old(self).policy,
            final(self).printer == old(self).printer,
            final(self).last_refresh == old(self).last_refresh,
    {
        self.address = address;
    }

    /// Changes the API key; the cache is deliberately not invalidated.
    pub fn change_api_key(&mut self, api_key: String)
        ensures
            final(self).api_key == api_key,
            final(self).address == old(self).address,
            final(self).port == old(self).port,
            final(self).policy == old(self).policy,
            final(self).printer == old(self).printer,
            final(self).last_refresh == old(self).last_refresh,
    {
        self.api_key = api_key;
    }

    /// The measured nozzle temperature of the cached snapshot, as
    /// double-precision bits; `None` while nothing is cached.
    pub fn get_nozzle_temp(&self) -> (r: Option<u64>)
        ensures
            match self.printer {
                Some(snapshot) => r == Some(snapshot.telemetry.nozzle_temp),
                None => r is None,
            },
    {
        match &self.printer {
            Some(snapshot) => Some(snapshot.get_nozzle_temp()),
            None => None,
        }
    }

    /// The measured bed temperature of the cached snapshot, as
    /// double-precision bits; `None` while nothing is cached.
    pub fn get_bed_temp(&self) -> (r: Option<u64>)
        ensures
            match self.printer {
                Some(snapshot) => r == Some(snapshot.telemetry.bed_temp),
                None => r is None,
            },
    {
        match &self.printer {
            Some(snapshot) => Some(snapshot.get_bed_temp()),
            None => None,
        }
    }
}

/// With refresh disabled, a client that already holds a snapshot never
/// decides to fetch on a non-forced read, at whatever times it is asked:
/// after the first successful fetch, consecutive non-forced reads cost no
/// further network call.
pub proof fn lemma_disabled_policy_reuses_cache(p: Printer, now_a: u64, now_b: u64)
    requires
        p.wf(),
        p.policy is Disabled,
        p.printer is Some,
    ensures
        !p.spec_should_refresh(false, now_a),
        !p.spec_should_refresh(false, now_b),
{
}

/// A client that holds no snapshot yet decides to fetch on its very first
/// read, whatever its policy and whatever the time.
pub proof fn lemma_first_read_fetches(p: Printer, now_ms: u64)
    requires
        p.wf(),
        p.printer is None,
    ensures
        p.spec_should_refresh(false, now_ms),
{
}

/// Under a time-to-live policy, a non-forced read with a cached snapshot
/// re-fetches exactly when the elapsed time strictly exceeds the bound: a
/// snapshot exactly as old as the bound is still fresh.
pub proof fn lemma_ttl_is_strict(p: Printer, last_ms: u64, ttl_ms: u64, now_ms: u64)
    requires
        p.wf(),
        p.policy == RefreshPolicy::TimeToLive(ttl_ms),
        p.last_refresh == Some(last_ms),
    ensures
        p.spec_should_refresh(false, now_ms) <==> Printer::spec_elapsed(last_ms, now_ms)
            > ttl_ms,
{
}

} // verus!
