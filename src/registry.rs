use vstd::prelude::*;
use metrics_exporter_prometheus::{BuildError, PrometheusBuilder, PrometheusHandle};

verus! {

/// The handle of an installed Prometheus registry; it renders what was recorded.
#[verifier::external_type_specification]
#[verifier::external_body]
pub struct ExPrometheusHandle(PrometheusHandle);

/// Why the exporter could not install its registry.
#[verifier::external_type_specification]
#[verifier::external_body]
pub struct ExBuildError(BuildError);

/// Relies on the derived `Clone` of `PrometheusHandle`: the copy shares the
/// registry of the original. Used where the shared state is cloned.
pub assume_specification[ <PrometheusHandle as Clone>::clone ](h: &PrometheusHandle) -> PrometheusHandle;

/// Relies on `PrometheusBuilder::install_recorder` with the default
/// configuration: it builds a registry and installs it as the process-wide
/// recorder, and fails when a recorder is installed already. The outcome
/// depends on the process, so nothing is promised of it.
#[verifier::external_body]
pub(crate) fn install_recorder() -> (r: Result<PrometheusHandle, BuildError>) {
    PrometheusBuilder::new().install_recorder()
}

/// Relies on `PrometheusHandle::render`: the registry's current snapshot in the
/// Prometheus text exposition format. It depends on what was recorded so far.
#[verifier::external_body]
pub(crate) fn render(handle: &PrometheusHandle) -> (r: String) {
    handle.render()
}

} // verus!
