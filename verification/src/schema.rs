//! The values that the integration API exchanges, with their views.
use vstd::prelude::*;

verus! {

/// Installation state of an integration, as the API reports it.
#[derive(Debug, Clone, Copy, PartialEq, Eq, Structural)]
pub enum IntegrationState {
    NotInstalled,
    Current,
    Outdated,
}

/// A built-in integration target.
#[derive(Debug, Clone, Copy, PartialEq, Eq, Structural)]
pub enum IntegrationTarget {
    Pi,
    Omp,
    Claude,
    Codex,
    Copilot,
    Devin,
    Droid,
    Kimi,
    Opencode,
    Kilo,
    Hermes,
    Qodercli,
    Qwen,
    Cursor,
    Mastracode,
    AntigravityCli,
    Grok,
}

/// A platform that a plugin or one of its integrations may be limited to.
#[derive(Debug, Clone, Copy, PartialEq, Eq, Structural)]
pub enum PluginPlatform {
    Linux,
    Macos,
    Windows,
}

/// A built-in integration as the API lists it.
#[derive(Debug, Clone, PartialEq, Eq)]
pub struct IntegrationInfo {
    pub target: IntegrationTarget,
    pub label: String,
    pub command: String,
    pub available: bool,
    pub state: IntegrationState,
}

/// A plugin-owned integration provider. Its `provider_id` is globally stable
/// and is accepted by `herdr integration install` and `uninstall`.
#[derive(Debug, Clone, PartialEq, Eq)]
pub struct PluginIntegrationInfo {
    pub provider_id: String,
    pub plugin_id: String,
    pub integration_id: String,
    pub label: String,
    pub available: bool,
    pub state: IntegrationState,
    pub status_file: String,
    pub message: Option<String>,
    pub supports_install: bool,
    pub supports_uninstall: bool,
}

#[derive(Debug, Clone, PartialEq, Eq)]
pub struct PluginIntegrationOperationParams {
    pub provider_id: String,
}

#[derive(Debug, Clone, PartialEq, Eq)]
pub struct IntegrationInstallParams {
    pub target: IntegrationTarget,
}

#[derive(Debug, Clone, PartialEq, Eq)]
pub struct IntegrationUninstallParams {
    pub target: IntegrationTarget,
}

#[derive(Debug, Clone, PartialEq, Eq)]
pub struct IntegrationInstallResult {
    pub messages: Vec<String>,
}

#[derive(Debug, Clone, PartialEq, Eq)]
pub struct IntegrationUninstallResult {
    pub messages: Vec<String>,
}

/// An integration that a plugin manifest declares.
#[derive(Debug, Clone, PartialEq, Eq)]
pub struct PluginManifestIntegration {
    pub id: String,
    pub label: String,
    pub status_file: String,
    pub available: bool,
    pub platforms: Option<Vec<PluginPlatform>>,
    pub install: Vec<String>,
    pub uninstall: Vec<String>,
}

/// A registered plugin, with the parts of its manifest that integrations use.
#[derive(Debug, Clone, PartialEq, Eq)]
pub struct InstalledPluginInfo {
    pub plugin_id: String,
    pub name: String,
    pub version: String,
    pub min_herdr_version: String,
    pub description: Option<String>,
    pub manifest_path: String,
    pub plugin_root: String,
    pub enabled: bool,
    pub platforms: Option<Vec<PluginPlatform>>,
    pub integrations: Vec<PluginManifestIntegration>,
    pub warnings: Vec<String>,
}

/// The characters of each string, in order.
pub open spec fn strings_view(v: Seq<String>) -> Seq<Seq<char>> {
    v.map_values(|s: String| s@)
}

/// The characters of an optional string.
pub open spec fn opt_string_view(o: Option<String>) -> Option<Seq<char>> {
    match o {
        Some(s) => Some(s@),
        None => None,
    }
}

/// The platforms of an optional list.
pub open spec fn opt_platforms_view(o: Option<Vec<PluginPlatform>>) -> Option<Seq<PluginPlatform>> {
    match o {
        Some(v) => Some(v@),
        None => None,
    }
}

pub struct PluginManifestIntegrationView {
    pub id: Seq<char>,
    pub label: Seq<char>,
    pub status_file: Seq<char>,
    pub available: bool,
    pub platforms: Option<Seq<PluginPlatform>>,
    pub install: Seq<Seq<char>>,
    pub uninstall: Seq<Seq<char>>,
}

impl View for PluginManifestIntegration {
    type V = PluginManifestIntegrationView;

    open spec fn view(&self) -> PluginManifestIntegrationView {
        PluginManifestIntegrationView {
            id: self.id@,
            label: self.label@,
            status_file: self.status_file@,
            available: self.available,
            platforms: opt_platforms_view(self.platforms),
            install: strings_view(self.install@),
            uninstall: strings_view(self.uninstall@),
        }
    }
}

pub struct InstalledPluginInfoView {
    pub plugin_id: Seq<char>,
    pub plugin_root: Seq<char>,
    pub enabled: bool,
    pub platforms: Option<Seq<PluginPlatform>>,
    pub integrations: Seq<PluginManifestIntegrationView>,
    pub warnings: Seq<Seq<char>>,
}

impl View for InstalledPluginInfo {
    type V = InstalledPluginInfoView;

    /// What the integration logic reads of a plugin.
    open spec fn view(&self) -> InstalledPluginInfoView {
        InstalledPluginInfoView {
            plugin_id: self.plugin_id@,
            plugin_root: self.plugin_root@,
            enabled: self.enabled,
            platforms: opt_platforms_view(self.platforms),
            integrations: self.integrations@.map_values(|i: PluginManifestIntegration| i@),
            warnings: strings_view(self.warnings@),
        }
    }
}

pub struct PluginIntegrationInfoView {
    pub provider_id: Seq<char>,
    pub plugin_id: Seq<char>,
    pub integration_id: Seq<char>,
    pub label: Seq<char>,
    pub available: bool,
    pub state: IntegrationState,
    pub status_file: Seq<char>,
    pub message: Option<Seq<char>>,
    pub supports_install: bool,
    pub supports_uninstall: bool,
}

impl View for PluginIntegrationInfo {
    type V = PluginIntegrationInfoView;

    open spec fn view(&self) -> PluginIntegrationInfoView {
        PluginIntegrationInfoView {
            provider_id: self.provider_id@,
            plugin_id: self.plugin_id@,
            integration_id: self.integration_id@,
            label: self.label@,
            available: self.available,
            state: self.state,
            status_file: self.status_file@,
            message: opt_string_view(self.message),
            supports_install: self.supports_install,
            supports_uninstall: self.supports_uninstall,
        }
    }
}

/// A copy of the strings, with the same characters.
pub fn clone_strings(v: &Vec<String>) -> (r: Vec<String>)
    ensures
        r@ == v@,
{
    let mut r: Vec<String> = Vec::new();
    let mut i: usize = 0;
    while i < v.len()
        invariant
            i <= v.len(),
            r@ == v@.subrange(0, i as int),
        decreases v.len() - i,
    {
        r.push(v[i].clone());
        assert(r@ =~= v@.subrange(0, i + 1));
        i = i + 1;
    }
    assert(v@.subrange(0, v.len() as int) =~= v@);
    r
}

/// A copy of an optional list of platforms.
pub fn clone_platforms(o: &Option<Vec<PluginPlatform>>) -> (r: Option<Vec<PluginPlatform>>)
    ensures
        opt_platforms_view(r) == opt_platforms_view(*o),
{
    match o {
        None => None,
        Some(v) => {
            let mut r: Vec<PluginPlatform> = Vec::new();
            let mut i: usize = 0;
            while i < v.len()
                invariant
                    i <= v.len(),
                    r@ == v@.subrange(0, i as int),
                decreases v.len() - i,
            {
                r.push(v[i]);
                assert(r@ =~= v@.subrange(0, i + 1));
                i = i + 1;
            }
            assert(v@.subrange(0, v.len() as int) =~= v@);
            Some(r)
        },
    }
}

impl PluginManifestIntegration {
    /// A copy of this integration, equal in every field.
    pub fn duplicate(&self) -> (r: PluginManifestIntegration)
        ensures
            r@ == self@,
            r.id == self.id,
            r.label == self.label,
            r.install@ == self.install@,
            r.uninstall@ == self.uninstall@,
    {
        PluginManifestIntegration {
            id: self.id.clone(),
            label: self.label.clone(),
            status_file: self.status_file.clone(),
            available: self.available,
            platforms: clone_platforms(&self.platforms),
            install: clone_strings(&self.install),
            uninstall: clone_strings(&self.uninstall),
        }
    }
}

} // verus!
