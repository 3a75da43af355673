use herdr::integration::{state_from_file, IntegrationStatusKind, StateFile, StateFileState};
use herdr::providers::{
    finish_plugin_integration_operation, plan_plugin_integration_operation,
    plugin_integration_infos_from_plugins, provider_command_environment, provider_info,
    providers_from_plugins, CommandHost, OperationErrorKind, PluginIntegrationOperation,
    StatusFileRead, StatusObservation,
};
use herdr::schema::{
    InstalledPluginInfo, IntegrationState, PluginManifestIntegration, PluginPlatform,
};

const UNAVAILABLE: &str = "manifest unavailable";

fn plugin(integrations: Vec<PluginManifestIntegration>) -> InstalledPluginInfo {
    InstalledPluginInfo {
        plugin_id: "example.manager".to_string(),
        name: "Example Manager".to_string(),
        version: "0.1.0".to_string(),
        min_herdr_version: "0.1.0".to_string(),
        description: None,
        manifest_path: "/tmp/manifest.toml".to_string(),
        plugin_root: "/tmp".to_string(),
        enabled: true,
        platforms: None,
        integrations,
        warnings: Vec::new(),
    }
}

fn integration(id: &str) -> PluginManifestIntegration {
    PluginManifestIntegration {
        id: id.to_string(),
        label: "Managed Codex".to_string(),
        status_file: format!("integrations/{id}.json"),
        available: true,
        platforms: None,
        install: vec!["manager".to_string(), "install".to_string()],
        uninstall: vec!["manager".to_string(), "uninstall".to_string()],
    }
}

fn no_status_file(id: &str) -> StatusObservation {
    StatusObservation {
        status_file: format!("/state/example.manager/integrations/{id}.json"),
        read: StatusFileRead::Missing,
    }
}

#[test]
fn providers_use_qualified_ids_and_static_availability_without_a_status_file() {
    let infos = plugin_integration_infos_from_plugins(
        &[plugin(vec![integration("codex")])],
        PluginPlatform::Linux,
        UNAVAILABLE,
        &[no_status_file("codex")],
    );
    assert_eq!(infos.len(), 1);
    assert_eq!(infos[0].provider_id, "example.manager.codex");
    assert_eq!(infos[0].state, IntegrationState::NotInstalled);
    assert!(infos[0].available);
    assert!(infos[0].supports_install);
    assert!(infos[0].supports_uninstall);
}

#[test]
fn disabled_plugins_do_not_register_providers() {
    let mut plugin = plugin(vec![integration("codex")]);
    plugin.enabled = false;
    assert!(plugin_integration_infos_from_plugins(&[plugin], PluginPlatform::Linux, UNAVAILABLE, &[])
        .is_empty());
}

#[test]
fn status_file_can_override_static_availability_and_explain_an_outdated_provider() {
    let parsed = StateFile {
        state: StateFileState::Outdated,
        available: Some(false),
        message: Some("restart the manager".to_string()),
    };
    let (state, available, message) = state_from_file(parsed, true);
    assert_eq!(state, IntegrationStatusKind::Outdated);
    assert!(!available);
    assert_eq!(message.as_deref(), Some("restart the manager"));
}

#[test]
fn state_file_without_availability_keeps_the_static_one() {
    let parsed = StateFile { state: StateFileState::Current, available: None, message: None };
    let (state, available, message) = state_from_file(parsed, true);
    assert_eq!(state, IntegrationStatusKind::Current);
    assert!(available);
    assert_eq!(message, None);
}

#[test]
fn plugins_with_unavailable_manifests_do_not_register_providers() {
    let mut plugin = plugin(vec![integration("codex")]);
    plugin.warnings = vec!["manifest unavailable: file missing".to_string()];
    assert!(providers_from_plugins(&[plugin], PluginPlatform::Linux, UNAVAILABLE).is_empty());
}

#[test]
fn other_warnings_keep_providers() {
    let mut plugin = plugin(vec![integration("codex")]);
    plugin.warnings = vec!["deprecated field".to_string()];
    assert_eq!(providers_from_plugins(&[plugin], PluginPlatform::Linux, UNAVAILABLE).len(), 1);
}

#[test]
fn integration_platforms_override_plugin_platforms() {
    let mut only_macos = integration("kimi");
    only_macos.platforms = Some(vec![PluginPlatform::Macos]);
    let mut plugin = plugin(vec![integration("codex"), only_macos]);
    plugin.platforms = Some(vec![PluginPlatform::Linux]);
    let on_linux = providers_from_plugins(&[plugin.clone()], PluginPlatform::Linux, UNAVAILABLE);
    assert_eq!(on_linux.len(), 1);
    assert_eq!(on_linux[0].integration.id, "codex");
    let on_macos = providers_from_plugins(&[plugin.clone()], PluginPlatform::Macos, UNAVAILABLE);
    assert_eq!(on_macos.len(), 1);
    assert_eq!(on_macos[0].integration.id, "kimi");
    assert!(providers_from_plugins(&[plugin], PluginPlatform::Windows, UNAVAILABLE).is_empty());
}

#[test]
fn providers_are_listed_in_provider_id_order() {
    let mut second = plugin(vec![integration("b"), integration("a")]);
    second.plugin_id = "zeta".to_string();
    let first = plugin(vec![integration("kimi"), integration("codex")]);
    let plugins = [second, first];
    let observations = [
        no_status_file("b"),
        no_status_file("a"),
        no_status_file("kimi"),
        no_status_file("codex"),
    ];
    let infos =
        plugin_integration_infos_from_plugins(&plugins, PluginPlatform::Linux, UNAVAILABLE, &observations);
    let ids: Vec<&str> = infos.iter().map(|i| i.provider_id.as_str()).collect();
    assert_eq!(ids, vec!["example.manager.codex", "example.manager.kimi", "zeta.a", "zeta.b"]);
    assert_eq!(infos[2].status_file, "/state/example.manager/integrations/a.json");
}

#[test]
fn unreadable_and_invalid_status_files_make_a_provider_outdated() {
    let providers = providers_from_plugins(
        &[plugin(vec![integration("codex")])],
        PluginPlatform::Linux,
        UNAVAILABLE,
    );
    let unreadable = StatusObservation {
        status_file: "/s/codex.json".to_string(),
        read: StatusFileRead::Unreadable("permission denied".to_string()),
    };
    let info = provider_info(&providers[0], &unreadable);
    assert_eq!(info.state, IntegrationState::Outdated);
    assert!(info.available);
    assert_eq!(info.message.as_deref(), Some("could not read /s/codex.json: permission denied"));
    let invalid = StatusObservation {
        status_file: "/s/codex.json".to_string(),
        read: StatusFileRead::Invalid("expected value at line 1 column 1".to_string()),
    };
    let info = provider_info(&providers[0], &invalid);
    assert_eq!(info.state, IntegrationState::Outdated);
    assert_eq!(
        info.message.as_deref(),
        Some("invalid status file /s/codex.json: expected value at line 1 column 1")
    );
    let parsed = StatusObservation {
        status_file: "/s/codex.json".to_string(),
        read: StatusFileRead::Parsed(StateFile {
            state: StateFileState::Current,
            available: Some(false),
            message: None,
        }),
    };
    let info = provider_info(&providers[0], &parsed);
    assert_eq!(info.state, IntegrationState::Current);
    assert!(!info.available);
    assert_eq!(info.message, None);
    assert_eq!(info.status_file, "/s/codex.json");
    assert_eq!(info.label, "Managed Codex");
    assert_eq!(info.plugin_id, "example.manager");
    assert_eq!(info.integration_id, "codex");
}

#[test]
fn planning_finds_the_provider_and_its_command() {
    let plugins = [plugin(vec![integration("codex")])];
    let plan = plan_plugin_integration_operation(
        &plugins,
        PluginPlatform::Linux,
        UNAVAILABLE,
        "example.manager.codex",
        PluginIntegrationOperation::Uninstall,
    )
    .unwrap();
    assert_eq!(plan.program, "manager");
    assert_eq!(plan.args, vec!["uninstall".to_string()]);
    assert_eq!(plan.provider.plugin_root, "/tmp");
}

#[test]
fn planning_an_unknown_provider_fails_with_not_found() {
    let plugins = [plugin(vec![integration("codex")])];
    let err = plan_plugin_integration_operation(
        &plugins,
        PluginPlatform::Linux,
        UNAVAILABLE,
        "example.manager.kimi",
        PluginIntegrationOperation::Install,
    )
    .unwrap_err();
    assert_eq!(err.kind, OperationErrorKind::NotFound);
    assert_eq!(err.message, "unknown plugin integration provider: example.manager.kimi");
}

#[test]
fn planning_an_operation_without_a_command_is_unsupported() {
    let mut no_uninstall = integration("codex");
    no_uninstall.uninstall = Vec::new();
    let plugins = [plugin(vec![no_uninstall])];
    let infos = plugin_integration_infos_from_plugins(
        &plugins,
        PluginPlatform::Linux,
        UNAVAILABLE,
        &[no_status_file("codex")],
    );
    assert!(infos[0].supports_install);
    assert!(!infos[0].supports_uninstall);
    let err = plan_plugin_integration_operation(
        &plugins,
        PluginPlatform::Linux,
        UNAVAILABLE,
        "example.manager.codex",
        PluginIntegrationOperation::Uninstall,
    )
    .unwrap_err();
    assert_eq!(err.kind, OperationErrorKind::Unsupported);
    assert_eq!(
        err.message,
        "plugin integration provider 'example.manager.codex' does not support uninstall"
    );
}

#[test]
fn finishing_reports_completion_or_the_exit_status() {
    let plugins = [plugin(vec![integration("codex")])];
    let plan = plan_plugin_integration_operation(
        &plugins,
        PluginPlatform::Linux,
        UNAVAILABLE,
        "example.manager.codex",
        PluginIntegrationOperation::Install,
    )
    .unwrap();
    let ok = finish_plugin_integration_operation(
        "example.manager.codex",
        &plan,
        PluginIntegrationOperation::Install,
        true,
        "exit status: 0",
    )
    .unwrap();
    assert_eq!(ok, vec!["Managed Codex install completed".to_string()]);
    let err = finish_plugin_integration_operation(
        "example.manager.codex",
        &plan,
        PluginIntegrationOperation::Install,
        false,
        "exit status: 3",
    )
    .unwrap_err();
    assert_eq!(err.kind, OperationErrorKind::Other);
    assert_eq!(
        err.message,
        "plugin integration provider 'example.manager.codex' install command exited with exit status: 3"
    );
}

#[test]
fn command_environment_names_the_provider_and_operation() {
    let providers = providers_from_plugins(
        &[plugin(vec![integration("codex")])],
        PluginPlatform::Linux,
        UNAVAILABLE,
    );
    let host = CommandHost {
        plugin_config_dir: "/config/example.manager".to_string(),
        plugin_state_dir: "/state/example.manager".to_string(),
        socket_path_env_var: "HERDR_SOCKET_PATH".to_string(),
        socket_path: "/run/herdr.sock".to_string(),
        executable: Some("/usr/bin/herdr".to_string()),
    };
    let env = provider_command_environment(&providers[0], PluginIntegrationOperation::Install, &host);
    let pairs: Vec<(&str, &str)> = env.iter().map(|(k, v)| (k.as_str(), v.as_str())).collect();
    assert_eq!(
        pairs,
        vec![
            ("HERDR_PLUGIN_ROOT", "/tmp"),
            ("HERDR_PLUGIN_CONFIG_DIR", "/config/example.manager"),
            ("HERDR_PLUGIN_STATE_DIR", "/state/example.manager"),
            ("HERDR_ENV", "1"),
            ("HERDR_PLUGIN_ID", "example.manager"),
            ("HERDR_PLUGIN_INTEGRATION_ID", "codex"),
            ("HERDR_PLUGIN_INTEGRATION_PROVIDER_ID", "example.manager.codex"),
            ("HERDR_PLUGIN_INTEGRATION_OPERATION", "install"),
            ("HERDR_SOCKET_PATH", "/run/herdr.sock"),
            ("HERDR_BIN_PATH", "/usr/bin/herdr"),
        ]
    );
    let without_exe = CommandHost { executable: None, ..host };
    let env = provider_command_environment(&providers[0], PluginIntegrationOperation::Uninstall, &without_exe);
    assert_eq!(env.len(), 9);
    assert_eq!(env[7].1, "uninstall");
}
