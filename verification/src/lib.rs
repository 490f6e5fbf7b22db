//! Verified evidence model for filesystem provider contract suites.

pub mod append_probe;
mod capability;
mod cancellation_stage;
mod check_catalog;
mod cleanup_report;
mod contract_failure;
mod contract_check;
mod contract_check_id;
mod contract_check_outcome;
mod contract_context;
mod contract_report;
mod contract_run;
mod contract_source;
mod contract_temp_failure;
mod retained;
pub mod s3;
pub mod stat_probe;
pub mod strong_copy_probe;
mod file_system_contract;
pub mod fs_facts;
pub mod basic_copy_probe;
pub mod copy_cancel_probe;
pub mod create_directory_probe;
pub mod delete_probe;
pub mod delete_tree_probe;
pub mod list_probe;
pub mod listing;
pub mod owning_write_probe;
pub mod read_basic_probe;
pub mod read_options_probe;
pub mod rename_probe;
pub mod replace_probe;
pub mod representation_probe;
mod report_laws;
pub mod temp_directory_probe;
pub mod temp_items;
pub mod write_basic_probe;
pub mod write_cancel_probe;
pub mod write_if_absent_probe;
pub mod write_if_match_probe;
pub mod write_limit_probe;
mod text;

pub use capability::FileSystemCapability;
pub use check_catalog::CheckSpecification;
pub use check_catalog::for_contract;
pub use check_catalog::specification;
pub use contract_check::CheckView;
pub use contract_check::ContractCheck;
pub use contract_check_id::ContractCheckId;
pub use contract_check_outcome::ContractCheckOutcome;
pub use file_system_contract::FileSystemContract;
pub use contract_report::ContractReport;
pub use contract_report::ReportView;
pub use contract_check_outcome::OutcomeView;
pub use contract_source::ContractSource;
pub use contract_temp_failure::ContractTempFailure;
pub use retained::ErasedError;
pub use retained::PanicPayload;
pub use retained::SharedError;
pub use cleanup_report::CleanupReport;
pub use cleanup_report::CleanupView;
pub use contract_failure::ContractFailure;
pub use contract_failure::FailureView;
pub use contract_failure::panic_text;
pub use contract_run::ContractRun;
pub use contract_run::RunView;
pub use cancellation_stage::AsyncCopyCancellationStage;
pub use cancellation_stage::AsyncWriteCancellationStage;
pub use cancellation_stage::cancellation_check_id;
pub use cancellation_stage::check_id;
pub use s3::config::S3ContractConfig;
pub use s3::path_mapper::validate_key;
pub use s3::test_control::TestStage;
pub use contract_context::CleanupAction;
pub use contract_context::CleanupCause;
pub use contract_context::CleanupEvent;
pub use contract_context::CleanupOperation;
pub use contract_context::ContractContext;
pub use contract_context::ContextView;
pub use contract_context::ResourceView;
pub use contract_context::TrackedResource;
pub use contract_context::cleanup_message;
pub use contract_context::cleanup_summary;
pub use contract_context::TeardownResult;
