//! The replies of the integration API requests, from what the requested work
//! gave.
use vstd::prelude::*;
use vstd::string::*;
use crate::integration::{integration_infos, recommendation_info_matches, IntegrationRecommendation};
use crate::schema::{
    IntegrationInfo, IntegrationInstallParams, IntegrationInstallResult, IntegrationTarget,
    IntegrationUninstallParams, IntegrationUninstallResult, PluginIntegrationInfo,
    PluginIntegrationOperationParams,
};

verus! {

/// The result that a successful integration request answers with.
#[derive(Debug, Clone, PartialEq, Eq)]
pub enum ResponseResult {
    IntegrationList { integrations: Vec<IntegrationInfo> },
    IntegrationProviderList { integrations: Vec<PluginIntegrationInfo> },
    IntegrationProviderInstall { provider_id: String, details: IntegrationInstallResult },
    IntegrationProviderUninstall { provider_id: String, details: IntegrationUninstallResult },
    IntegrationInstall { target: IntegrationTarget, details: IntegrationInstallResult },
    IntegrationUninstall { target: IntegrationTarget, details: IntegrationUninstallResult },
}

/// The answer to a request: a result, or an error code with its message,
/// both for the request's id.
#[derive(Debug, Clone, PartialEq, Eq)]
pub enum IntegrationReply {
    Success { id: String, result: ResponseResult },
    Error { id: String, code: String, message: String },
}

/// `r` is the error reply to request `id` with the given code and message.
pub open spec fn is_error_reply(r: IntegrationReply, id: String, code: Seq<char>, message: String) -> bool {
    &&& r matches IntegrationReply::Error { id: rid, code: rcode, message: rmessage }
    &&& rid == id
    &&& rcode@ == code
    &&& rmessage == message
}

fn error_reply(id: String, code: &str, message: String) -> (r: IntegrationReply)
    ensures
        is_error_reply(r, id, code@, message),
{
    IntegrationReply::Error { id, code: String::from_str(code), message }
}

/// Lists the built-in integrations, one entry for each recommendation, in
/// their order.
pub fn handle_integration_list(id: String, recommendations: &[IntegrationRecommendation]) -> (r:
    IntegrationReply)
    ensures
        r matches IntegrationReply::Success {
            id: rid,
            result: ResponseResult::IntegrationList { integrations },
        } && rid == id && integrations.len() == recommendations.len() && forall|k: int|
            0 <= k < integrations.len() ==> recommendation_info_matches(
                #[trigger] integrations[k],
                recommendations[k],
            ),
{
    let integrations = integration_infos(recommendations);
    IntegrationReply::Success { id, result: ResponseResult::IntegrationList { integrations } }
}

/// Lists the plugin integration providers.
pub fn handle_integration_provider_list(id: String, integrations: Vec<PluginIntegrationInfo>) -> (r:
    IntegrationReply)
    ensures
        r == (IntegrationReply::Success {
            id,
            result: ResponseResult::IntegrationProviderList { integrations },
        }),
{
    IntegrationReply::Success { id, result: ResponseResult::IntegrationProviderList { integrations } }
}

/// Answers a provider install with its messages, or with the error
/// `integration_provider_install_failed` and the failure's text.
pub fn handle_integration_provider_install(
    id: String,
    params: PluginIntegrationOperationParams,
    outcome: Result<Vec<String>, String>,
) -> (r: IntegrationReply)
    ensures
        match outcome {
            Ok(messages) => r == (IntegrationReply::Success {
                id,
                result: ResponseResult::IntegrationProviderInstall {
                    provider_id: params.provider_id,
                    details: IntegrationInstallResult { messages },
                },
            }),
            Err(e) => is_error_reply(r, id, "integration_provider_install_failed"@, e),
        },
{
    let provider_id = params.provider_id;
    match outcome {
        Ok(messages) => IntegrationReply::Success {
            id,
            result: ResponseResult::IntegrationProviderInstall {
                provider_id,
                details: IntegrationInstallResult { messages },
            },
        },
        Err(e) => error_reply(id, "integration_provider_install_failed", e),
    }
}

/// Answers a provider uninstall with its messages, or with the error
/// `integration_provider_uninstall_failed` and the failure's text.
pub fn handle_integration_provider_uninstall(
    id: String,
    params: PluginIntegrationOperationParams,
    outcome: Result<Vec<String>, String>,
) -> (r: IntegrationReply)
    ensures
        match outcome {
            Ok(messages) => r == (IntegrationReply::Success {
                id,
                result: ResponseResult::IntegrationProviderUninstall {
                    provider_id: params.provider_id,
                    details: IntegrationUninstallResult { messages },
                },
            }),
            Err(e) => is_error_reply(r, id, "integration_provider_uninstall_failed"@, e),
        },
{
    let provider_id = params.provider_id;
    match outcome {
        Ok(messages) => IntegrationReply::Success {
            id,
            result: ResponseResult::IntegrationProviderUninstall {
                provider_id,
                details: IntegrationUninstallResult { messages },
            },
        },
        Err(e) => error_reply(id, "integration_provider_uninstall_failed", e),
    }
}

/// Answers a built-in install with its messages, or with the error
/// `integration_install_failed` and the failure's text.
pub fn handle_integration_install(
    id: String,
    params: IntegrationInstallParams,
    outcome: Result<Vec<String>, String>,
) -> (r: IntegrationReply)
    ensures
        match outcome {
            Ok(messages) => r == (IntegrationReply::Success {
                id,
                result: ResponseResult::IntegrationInstall {
                    target: params.target,
                    details: IntegrationInstallResult { messages },
                },
            }),
            Err(e) => is_error_reply(r, id, "integration_install_failed"@, e),
        },
{
    let target = params.target;
    match outcome {
        Ok(messages) => IntegrationReply::Success {
            id,
            result: ResponseResult::IntegrationInstall {
                target,
                details: IntegrationInstallResult { messages },
            },
        },
        Err(e) => error_reply(id, "integration_install_failed", e),
    }
}

/// Answers a built-in uninstall with its messages, or with the error
/// `integration_uninstall_failed` and the failure's text.
pub fn handle_integration_uninstall(
    id: String,
    params: IntegrationUninstallParams,
    outcome: Result<Vec<String>, String>,
) -> (r: IntegrationReply)
    ensures
        match outcome {
            Ok(messages) => r == (IntegrationReply::Success {
                id,
                result: ResponseResult::IntegrationUninstall {
                    target: params.target,
                    details: IntegrationUninstallResult { messages },
                },
            }),
            Err(e) => is_error_reply(r, id, "integration_uninstall_failed"@, e),
        },
{
    let target = params.target;
    match outcome {
        Ok(messages) => IntegrationReply::Success {
            id,
            result: ResponseResult::IntegrationUninstall {
                target,
                details: IntegrationUninstallResult { messages },
            },
        },
        Err(e) => error_reply(id, "integration_uninstall_failed", e),
    }
}

/// The recommendations stored after a built-in install or uninstall whose
/// outcome is `outcome`: a fresh scan, taken by calling `rescan` once after
/// the operation, where it succeeded; the stored ones, with no scan, where it
/// failed.
pub fn recommendations_after_operation<F: FnOnce() -> Vec<IntegrationRecommendation>>(
    stored: Vec<IntegrationRecommendation>,
    outcome: &Result<Vec<String>, String>,
    rescan: F,
) -> (r: Vec<IntegrationRecommendation>)
    requires
        call_requires(rescan, ()),
    ensures
        outcome is Ok ==> call_ensures(rescan, (), r),
        outcome is Err ==> r == stored,
{
    match outcome {
        Ok(_) => rescan(),
        Err(_) => stored,
    }
}

} // verus!
