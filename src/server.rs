use vstd::prelude::*;
use metrics_exporter_prometheus::{BuildError, PrometheusHandle};
use crate::addr::ListenAddr;
use crate::registry::{install_recorder, render};

verus! {

/// Status of a successful response.
pub const STATUS_OK: u16 = 200;

/// Status of a failed health check.
pub const STATUS_INTERNAL_SERVER_ERROR: u16 = 500;

/// Route of the metrics snapshot.
pub const METRICS_ROUTE: &'static str = "/metrics";

/// Route of the health check.
pub const HEALTH_ROUTE: &'static str = "/healthz";

/// Errors of building and running a server.
#[derive(Clone, Copy, Debug, PartialEq, Eq, Structural)]
pub enum HolterError {
    /// A registry is installed in this process already.
    RegistryInstall,
    /// The listen address could not be bound.
    Bind,
}

/// How the probe of the downstream resource went.
#[derive(Clone, Copy, Debug, PartialEq, Eq, Structural)]
pub enum ProbeOutcome {
    Succeeded,
    /// The probe query failed or timed out.
    Failed,
}

/// The state that every request handler shares: the registry and, where one
/// is configured, a handle of the downstream resource that health checks probe.
#[derive(Clone)]
pub struct HolterState<D> {
    db: Option<D>,
    metric_handle: PrometheusHandle,
}

impl<D> HolterState<D> {
    pub closed spec fn spec_db(&self) -> Option<D> {
        self.db
    }

    /// The downstream resource, if one is configured.
    pub fn db(&self) -> (r: &Option<D>)
        ensures
            *r == self.spec_db(),
    {
        &self.db
    }

    /// Whether a health check has to probe the downstream resource.
    pub fn needs_probe(&self) -> (r: bool)
        ensures
            r == self.spec_db() is Some,
    {
        self.db.is_some()
    }
}

/// The health status owed for a state with or without a downstream resource
/// and the outcome of its probe, if one was made.
pub open spec fn health_of(has_db: bool, probe: Option<ProbeOutcome>) -> u16 {
    if !has_db || probe == Some(ProbeOutcome::Succeeded) {
        STATUS_OK
    } else {
        STATUS_INTERNAL_SERVER_ERROR
    }
}

/// The status of `/healthz`. Without a downstream resource it is 200 whatever
/// `probe` holds. With one, it is 200 where the probe succeeded and 500 where
/// it failed, timed out, or was not made (`None`).
pub fn health_handler<D>(state: &HolterState<D>, probe: Option<ProbeOutcome>) -> (r: u16)
    ensures
        r == health_of(state.spec_db() is Some, probe),
        state.spec_db() is None ==> r == STATUS_OK,
        state.spec_db() is Some ==> (r == STATUS_OK <==> probe == Some(ProbeOutcome::Succeeded)),
{
    match state.db() {
        None => STATUS_OK,
        Some(_) => match probe {
            Some(ProbeOutcome::Succeeded) => STATUS_OK,
            _ => STATUS_INTERNAL_SERVER_ERROR,
        },
    }
}

/// The body of `/metrics`: the registry's current snapshot in the text
/// exposition format.
pub fn metrics_handler<D>(state: &HolterState<D>) -> (r: String) {
    render(&state.metric_handle)
}

/// Configuration of a server, set by fluent calls; the last call for an
/// option wins.
pub struct HolterServerBuilder<D> {
    listen_addr: ListenAddr,
    db: Option<D>,
}

impl<D> Default for HolterServerBuilder<D> {
    /// Listens on `127.0.0.1:9090`, with no downstream resource.
    fn default() -> (r: Self)
        ensures
            r.spec_listen_addr().is_default(),
            r.spec_db() is None,
    {
        HolterServerBuilder { listen_addr: ListenAddr::default_addr(), db: None }
    }
}

impl<D> HolterServerBuilder<D> {
    pub closed spec fn spec_listen_addr(&self) -> ListenAddr {
        self.listen_addr
    }

    pub closed spec fn spec_db(&self) -> Option<D> {
        self.db
    }

    /// A builder with the default configuration.
    pub fn new() -> (r: Self)
        ensures
            r.spec_listen_addr().is_default(),
            r.spec_db() is None,
    {
        Self::default()
    }

    /// The configured listen address.
    pub fn listen_addr(&self) -> (r: ListenAddr)
        ensures
            r == self.spec_listen_addr(),
    {
        self.listen_addr
    }

    /// The configured downstream resource, if any.
    pub fn db(&self) -> (r: &Option<D>)
        ensures
            *r == self.spec_db(),
    {
        &self.db
    }

    /// Sets the address that the server binds.
    pub fn add_listen_addr(self, listen_addr: ListenAddr) -> (r: Self)
        ensures
            r.spec_listen_addr() == listen_addr,
            r.spec_db() == self.spec_db(),
    {
        HolterServerBuilder { listen_addr, db: self.db }
    }

    /// Sets the downstream resource that health checks probe.
    pub fn add_db_connection(self, pool: D) -> (r: Self)
        ensures
            r.spec_listen_addr() == self.spec_listen_addr(),
            r.spec_db() == Some(pool),
    {
        HolterServerBuilder { listen_addr: self.listen_addr, db: Some(pool) }
    }

    /// Finishes the build with the outcome of installing the registry: the
    /// configured server where it was installed, `RegistryInstall` where not.
    pub fn build_with(self, installed: Result<PrometheusHandle, BuildError>) -> (r: Result<
        HolterServer<D>,
        HolterError,
    >)
        ensures
            installed is Ok <==> r is Ok,
            r matches Ok(s) ==> s.spec_listen_addr() == self.spec_listen_addr() && s.spec_state().spec_db()
                == self.spec_db(),
            r matches Err(e) ==> e == HolterError::RegistryInstall,
    {
        match installed {
            Ok(metric_handle) => {
                let state = HolterState { db: self.db, metric_handle };
                Ok(HolterServer { listen_addr: self.listen_addr, state })
            },
            Err(_) => Err(HolterError::RegistryInstall),
        }
    }

    /// Installs the process-wide registry and returns a server that is ready
    /// to run. No network I/O happens here: the address is bound by `serve`.
    /// Fails with `RegistryInstall` where a registry is installed already.
    pub fn build(self) -> (r: Result<HolterServer<D>, HolterError>)
        ensures
            r matches Ok(s) ==> s.spec_listen_addr() == self.spec_listen_addr() && s.spec_state().spec_db()
                == self.spec_db(),
            r matches Err(e) ==> e == HolterError::RegistryInstall,
    {
        let installed = install_recorder();
        self.build_with(installed)
    }
}

/// A configured server: the address it binds and the state its routes share.
pub struct HolterServer<D> {
    listen_addr: ListenAddr,
    state: HolterState<D>,
}

impl<D> HolterServer<D> {
    pub closed spec fn spec_listen_addr(&self) -> ListenAddr {
        self.listen_addr
    }

    pub closed spec fn spec_state(&self) -> HolterState<D> {
        self.state
    }

    /// The address that the server binds.
    pub fn listen_addr(&self) -> (r: ListenAddr)
        ensures
            r == self.spec_listen_addr(),
    {
        self.listen_addr
    }

    /// The state that the routes share.
    pub fn state(&self) -> (r: &HolterState<D>)
        ensures
            *r == self.spec_state(),
    {
        &self.state
    }

    /// Takes the server apart into its address and its state.
    pub fn into_parts(self) -> (r: (ListenAddr, HolterState<D>))
        ensures
            r.0 == self.spec_listen_addr(),
            r.1 == self.spec_state(),
    {
        (self.listen_addr, self.state)
    }
}

} // verus!
