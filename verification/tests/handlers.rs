use herdr::handlers::{
    handle_integration_install, handle_integration_list, handle_integration_provider_install,
    handle_integration_provider_list, handle_integration_provider_uninstall,
    handle_integration_uninstall, recommendations_after_operation, IntegrationReply,
    ResponseResult,
};
use herdr::integration::{state_to_schema, IntegrationRecommendation, IntegrationStatusKind};
use herdr::schema::{
    IntegrationInstallParams, IntegrationInstallResult, IntegrationState, IntegrationTarget,
    IntegrationUninstallParams, IntegrationUninstallResult, PluginIntegrationOperationParams,
};

#[test]
fn status_kinds_map_to_schema_states() {
    assert_eq!(state_to_schema(IntegrationStatusKind::NotInstalled), IntegrationState::NotInstalled);
    assert_eq!(state_to_schema(IntegrationStatusKind::Current), IntegrationState::Current);
    assert_eq!(state_to_schema(IntegrationStatusKind::Outdated), IntegrationState::Outdated);
}

#[test]
fn integration_list_keeps_recommendations_in_order() {
    let recommendations = vec![
        IntegrationRecommendation {
            target: IntegrationTarget::Kimi,
            label: "Kimi Code".to_string(),
            command: "kimi".to_string(),
            available: true,
            state: IntegrationStatusKind::Outdated,
        },
        IntegrationRecommendation {
            target: IntegrationTarget::Codex,
            label: "Codex".to_string(),
            command: "codex".to_string(),
            available: false,
            state: IntegrationStatusKind::NotInstalled,
        },
    ];
    match handle_integration_list("7".to_string(), &recommendations) {
        IntegrationReply::Success { id, result: ResponseResult::IntegrationList { integrations } } => {
            assert_eq!(id, "7");
            assert_eq!(integrations.len(), 2);
            assert_eq!(integrations[0].target, IntegrationTarget::Kimi);
            assert_eq!(integrations[0].label, "Kimi Code");
            assert_eq!(integrations[0].command, "kimi");
            assert!(integrations[0].available);
            assert_eq!(integrations[0].state, IntegrationState::Outdated);
            assert_eq!(integrations[1].target, IntegrationTarget::Codex);
            assert!(!integrations[1].available);
            assert_eq!(integrations[1].state, IntegrationState::NotInstalled);
        }
        other => panic!("unexpected reply {other:?}"),
    }
}

#[test]
fn provider_list_is_passed_through() {
    let reply = handle_integration_provider_list("1".to_string(), Vec::new());
    assert_eq!(
        reply,
        IntegrationReply::Success {
            id: "1".to_string(),
            result: ResponseResult::IntegrationProviderList { integrations: Vec::new() },
        }
    );
}

#[test]
fn provider_install_success_carries_messages() {
    let reply = handle_integration_provider_install(
        "2".to_string(),
        PluginIntegrationOperationParams { provider_id: "a.b".to_string() },
        Ok(vec!["B install completed".to_string()]),
    );
    assert_eq!(
        reply,
        IntegrationReply::Success {
            id: "2".to_string(),
            result: ResponseResult::IntegrationProviderInstall {
                provider_id: "a.b".to_string(),
                details: IntegrationInstallResult { messages: vec!["B install completed".to_string()] },
            },
        }
    );
}

#[test]
fn provider_failures_become_error_replies() {
    let reply = handle_integration_provider_install(
        "3".to_string(),
        PluginIntegrationOperationParams { provider_id: "a.b".to_string() },
        Err("unknown plugin integration provider: a.b".to_string()),
    );
    assert_eq!(
        reply,
        IntegrationReply::Error {
            id: "3".to_string(),
            code: "integration_provider_install_failed".to_string(),
            message: "unknown plugin integration provider: a.b".to_string(),
        }
    );
    let reply = handle_integration_provider_uninstall(
        "4".to_string(),
        PluginIntegrationOperationParams { provider_id: "a.b".to_string() },
        Err("boom".to_string()),
    );
    assert_eq!(
        reply,
        IntegrationReply::Error {
            id: "4".to_string(),
            code: "integration_provider_uninstall_failed".to_string(),
            message: "boom".to_string(),
        }
    );
    let reply = handle_integration_provider_uninstall(
        "4".to_string(),
        PluginIntegrationOperationParams { provider_id: "a.b".to_string() },
        Ok(Vec::new()),
    );
    assert_eq!(
        reply,
        IntegrationReply::Success {
            id: "4".to_string(),
            result: ResponseResult::IntegrationProviderUninstall {
                provider_id: "a.b".to_string(),
                details: IntegrationUninstallResult { messages: Vec::new() },
            },
        }
    );
}

#[test]
fn builtin_install_and_uninstall_replies() {
    let reply = handle_integration_install(
        "5".to_string(),
        IntegrationInstallParams { target: IntegrationTarget::Pi },
        Ok(vec!["installed".to_string()]),
    );
    assert_eq!(
        reply,
        IntegrationReply::Success {
            id: "5".to_string(),
            result: ResponseResult::IntegrationInstall {
                target: IntegrationTarget::Pi,
                details: IntegrationInstallResult { messages: vec!["installed".to_string()] },
            },
        }
    );
    let reply = handle_integration_install(
        "5".to_string(),
        IntegrationInstallParams { target: IntegrationTarget::Pi },
        Err("denied".to_string()),
    );
    assert_eq!(
        reply,
        IntegrationReply::Error {
            id: "5".to_string(),
            code: "integration_install_failed".to_string(),
            message: "denied".to_string(),
        }
    );
    let reply = handle_integration_uninstall(
        "6".to_string(),
        IntegrationUninstallParams { target: IntegrationTarget::Grok },
        Err("missing".to_string()),
    );
    assert_eq!(
        reply,
        IntegrationReply::Error {
            id: "6".to_string(),
            code: "integration_uninstall_failed".to_string(),
            message: "missing".to_string(),
        }
    );
    let reply = handle_integration_uninstall(
        "6".to_string(),
        IntegrationUninstallParams { target: IntegrationTarget::Grok },
        Ok(vec!["removed".to_string()]),
    );
    assert_eq!(
        reply,
        IntegrationReply::Success {
            id: "6".to_string(),
            result: ResponseResult::IntegrationUninstall {
                target: IntegrationTarget::Grok,
                details: IntegrationUninstallResult { messages: vec!["removed".to_string()] },
            },
        }
    );
}

fn recommendation(target: IntegrationTarget, state: IntegrationStatusKind) -> IntegrationRecommendation {
    IntegrationRecommendation {
        target,
        label: "Label".to_string(),
        command: "cmd".to_string(),
        available: true,
        state,
    }
}

#[test]
fn successful_operation_stores_the_rescan() {
    let stored = vec![recommendation(IntegrationTarget::Pi, IntegrationStatusKind::NotInstalled)];
    let rescan = vec![recommendation(IntegrationTarget::Pi, IntegrationStatusKind::Current)];
    let expected = rescan.clone();
    let updated = recommendations_after_operation(stored, &Ok(vec!["done".to_string()]), move || rescan);
    assert_eq!(updated, expected);
}

#[test]
fn failed_operation_keeps_the_stored_recommendations_without_a_scan() {
    let stored = vec![recommendation(IntegrationTarget::Grok, IntegrationStatusKind::Outdated)];
    let expected = stored.clone();
    let updated = recommendations_after_operation(stored, &Err("denied".to_string()), || {
        panic!("no scan after a failure")
    });
    assert_eq!(updated, expected);
}
