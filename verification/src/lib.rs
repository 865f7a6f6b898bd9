//! Verified core of a build-and-publish coordinator for native extension
//! modules: a compatibility knowledge base for target runtimes, the
//! artifact-resolution logic of the native build driver, the tag computation
//! of the build-frontend dispatcher, and the credential and upload policies
//! of the publish orchestrator.

use vstd::prelude::*;

mod build_rust;
mod decimal;
mod pep517;
mod secret_store;
mod sysconfig;
mod upload;

pub use build_rust::ArtifactMessage;
pub use build_rust::DriverError;
pub use build_rust::LinkageReport;
pub use build_rust::ScanOutcome;
pub use build_rust::StreamedBuildMessage;
pub use build_rust::driver_result;
pub use build_rust::linkage_soft_signal;
pub use build_rust::plan_tasks;
pub use build_rust::resolve_artifact;
pub use build_rust::scan_build_stream;
pub use build_rust::shared_build_args;
pub use build_rust::str_equal;
pub use build_rust::str_starts_with;
pub use build_rust::version_feature;
pub use decimal::decimal_string;
pub use pep517::BindingStrategy;
pub use pep517::BuildContext;
pub use pep517::Pep517Command;
pub use pep517::RuntimeDescriptor;
pub use pep517::abi3_tag;
pub use pep517::command_requires_single_runtime;
pub use pep517::single_runtime_selected;
pub use pep517::wheel_tags;
pub use secret_store::SecretStoreDelete;
pub use secret_store::SecretStoreWrite;
pub use secret_store::cache_secret;
pub use secret_store::delete_needs_warning;
pub use secret_store::invalidate_cached_secret;
pub use secret_store::lookup_cached_secret;
pub use secret_store::secret_service_name;
pub use secret_store::write_needs_warning;
pub use sysconfig::Arch;
pub use sysconfig::InterpreterKind;
pub use sysconfig::Os;
pub use sysconfig::Sysconfig;
pub use sysconfig::SysconfigEntry;
pub use sysconfig::wellknown_sysconfig;
pub use upload::CredentialPlan;
pub use upload::PasswordSource;
pub use upload::PublishOpt;
pub use upload::Pypirc;
pub use upload::PypircSection;
pub use upload::Registry;
pub use upload::RegistryError;
pub use upload::RegistryLocation;
pub use upload::RegistryPlan;
pub use upload::UploadDecision;
pub use upload::UploadOutcome;
pub use upload::UploadReport;
pub use upload::UploadResult;
pub use upload::complete_registry;
pub use upload::default_registry_url;
pub use upload::load_pypi_cred_from_config;
pub use upload::password_source;
pub use upload::process_upload_results;
pub use upload::resolve_pypi_cred;
pub use upload::resolve_registry_location;
pub use upload::str_ci_equal;
pub use upload::token_username;
pub use upload::upload_step;

verus! {

} // verus!
