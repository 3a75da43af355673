//! Plugin-owned integration providers: which plugins register them, their
//! qualified ids, what their status files say, and how an install or
//! uninstall is planned and concluded.
use vstd::prelude::*;
use vstd::string::*;
use crate::integration::{
    schema_state, spec_state_from_file, state_from_file, state_to_schema, IntegrationStatusKind,
    StateFile,
};
use crate::schema::{
    clone_strings, opt_string_view, strings_view, InstalledPluginInfo, InstalledPluginInfoView,
    PluginIntegrationInfo, PluginIntegrationInfoView, PluginManifestIntegration,
    PluginManifestIntegrationView, PluginPlatform,
};
use crate::text::{
    concat3, has_prefix, lemma_lex_lt_asymmetric, lemma_not_lex_lt_transitive, lex_lt, starts_with,
    str_eq, str_lt,
};

verus! {

/// The two operations a provider may support.
#[derive(Debug, Clone, Copy, PartialEq, Eq, Structural)]
pub enum PluginIntegrationOperation {
    Install,
    Uninstall,
}

impl PluginIntegrationOperation {
    /// The operation's name.
    pub open spec fn name(self) -> Seq<char> {
        match self {
            PluginIntegrationOperation::Install => "install"@,
            PluginIntegrationOperation::Uninstall => "uninstall"@,
        }
    }

    pub fn as_str(self) -> (r: &'static str)
        ensures
            r@ == self.name(),
    {
        match self {
            PluginIntegrationOperation::Install => "install",
            PluginIntegrationOperation::Uninstall => "uninstall",
        }
    }
}

/// One integration of one plugin, offered as a provider.
#[derive(Debug, Clone, PartialEq, Eq)]
pub struct PluginIntegrationProvider {
    pub plugin_id: String,
    pub plugin_root: String,
    pub integration: PluginManifestIntegration,
}

pub struct PluginIntegrationProviderView {
    pub plugin_id: Seq<char>,
    pub plugin_root: Seq<char>,
    pub integration: PluginManifestIntegrationView,
}

impl View for PluginIntegrationProvider {
    type V = PluginIntegrationProviderView;

    open spec fn view(&self) -> PluginIntegrationProviderView {
        PluginIntegrationProviderView {
            plugin_id: self.plugin_id@,
            plugin_root: self.plugin_root@,
            integration: self.integration@,
        }
    }
}

pub open spec fn plugins_view(s: Seq<InstalledPluginInfo>) -> Seq<InstalledPluginInfoView> {
    s.map_values(|p: InstalledPluginInfo| p@)
}

pub open spec fn providers_view(s: Seq<PluginIntegrationProvider>) -> Seq<
    PluginIntegrationProviderView,
> {
    s.map_values(|p: PluginIntegrationProvider| p@)
}

pub open spec fn infos_view(s: Seq<PluginIntegrationInfo>) -> Seq<PluginIntegrationInfoView> {
    s.map_values(|i: PluginIntegrationInfo| i@)
}

/// The qualified id of a provider: the plugin's id, a dot, the integration's id.
pub open spec fn qualified_id(p: PluginIntegrationProviderView) -> Seq<char> {
    p.plugin_id + "."@ + p.integration.id
}

/// An integration runs on `platform`: its own platform list decides where it
/// has one, else the plugin's; with neither it runs everywhere.
pub open spec fn platform_supported(
    plugin_platforms: Option<Seq<PluginPlatform>>,
    integration_platforms: Option<Seq<PluginPlatform>>,
    platform: PluginPlatform,
) -> bool {
    let platforms = match integration_platforms {
        Some(p) => Some(p),
        None => plugin_platforms,
    };
    match platforms {
        Some(ps) => ps.contains(platform),
        None => true,
    }
}

/// A plugin offers providers when it is enabled and none of its warnings says
/// that its manifest is unavailable.
pub open spec fn registers_providers(p: InstalledPluginInfoView, unavailable_prefix: Seq<char>) -> bool {
    p.enabled && !(exists|k: int|
        0 <= k < p.warnings.len() && has_prefix(#[trigger] p.warnings[k], unavailable_prefix))
}

pub open spec fn provider_of(
    p: InstalledPluginInfoView,
    i: PluginManifestIntegrationView,
) -> PluginIntegrationProviderView {
    PluginIntegrationProviderView { plugin_id: p.plugin_id, plugin_root: p.plugin_root, integration: i }
}

/// The providers of plugin `p` from the integrations `integrations`, in order,
/// keeping those that run on `platform`.
pub open spec fn plugin_providers(
    p: InstalledPluginInfoView,
    integrations: Seq<PluginManifestIntegrationView>,
    platform: PluginPlatform,
) -> Seq<PluginIntegrationProviderView>
    decreases integrations.len(),
{
    if integrations.len() == 0 {
        Seq::empty()
    } else {
        let rest = plugin_providers(p, integrations.drop_last(), platform);
        if platform_supported(p.platforms, integrations.last().platforms, platform) {
            rest.push(provider_of(p, integrations.last()))
        } else {
            rest
        }
    }
}

/// All providers of the plugins, plugin by plugin and integration by
/// integration.
pub open spec fn spec_providers(
    plugins: Seq<InstalledPluginInfoView>,
    platform: PluginPlatform,
    unavailable_prefix: Seq<char>,
) -> Seq<PluginIntegrationProviderView>
    decreases plugins.len(),
{
    if plugins.len() == 0 {
        Seq::empty()
    } else {
        let rest = spec_providers(plugins.drop_last(), platform, unavailable_prefix);
        let p = plugins.last();
        if registers_providers(p, unavailable_prefix) {
            rest + plugin_providers(p, p.integrations, platform)
        } else {
            rest
        }
    }
}

/// Whether a plugin's integration runs on `platform`.
pub fn provider_platform_supported(
    plugin: &InstalledPluginInfo,
    integration: &PluginManifestIntegration,
    platform: PluginPlatform,
) -> (r: bool)
    ensures
        r == platform_supported(plugin@.platforms, integration@.platforms, platform),
{
    match &integration.platforms {
        Some(ps) => platforms_contain(ps, platform),
        None => match &plugin.platforms {
            Some(ps) => platforms_contain(ps, platform),
            None => true,
        },
    }
}

/// Whether `platform` is among `ps`.
pub fn platforms_contain(ps: &Vec<PluginPlatform>, platform: PluginPlatform) -> (r: bool)
    ensures
        r == ps@.contains(platform),
{
    let mut i: usize = 0;
    while i < ps.len()
        invariant
            i <= ps.len(),
            forall|k: int| 0 <= k < i ==> ps@[k] != platform,
        decreases ps.len() - i,
    {
        if ps[i] == platform {
            assert(ps@[i as int] == platform);
            return true;
        }
        i = i + 1;
    }
    false
}

/// Whether a plugin offers providers at all.
pub fn plugin_registers_providers(plugin: &InstalledPluginInfo, unavailable_prefix: &str) -> (r:
    bool)
    ensures
        r == registers_providers(plugin@, unavailable_prefix@),
{
    if !plugin.enabled {
        return false;
    }
    let mut i: usize = 0;
    while i < plugin.warnings.len()
        invariant
            i <= plugin.warnings.len(),
            plugin.enabled,
            forall|k: int|
                0 <= k < i ==> !has_prefix(#[trigger] plugin@.warnings[k], unavailable_prefix@),
        decreases plugin.warnings.len() - i,
    {
        if starts_with(plugin.warnings[i].as_str(), unavailable_prefix) {
            assert(has_prefix(plugin@.warnings[i as int], unavailable_prefix@));
            return false;
        }
        i = i + 1;
    }
    true
}

/// The providers that the plugins register on `platform`: those of each enabled
/// plugin whose manifest is available, and of its integrations those that run
/// on `platform`, in plugin order and then integration order.
pub fn providers_from_plugins(
    plugins: &[InstalledPluginInfo],
    platform: PluginPlatform,
    unavailable_prefix: &str,
) -> (r: Vec<PluginIntegrationProvider>)
    ensures
        providers_view(r@) == spec_providers(plugins_view(plugins@), platform, unavailable_prefix@),
{
    let mut out: Vec<PluginIntegrationProvider> = Vec::new();
    let mut i: usize = 0;
    while i < plugins.len()
        invariant
            i <= plugins.len(),
            providers_view(out@) == spec_providers(
                plugins_view(plugins@.subrange(0, i as int)),
                platform,
                unavailable_prefix@,
            ),
        decreases plugins.len() - i,
    {
        let plugin = &plugins[i];
        let ghost before = out@;
        let ghost pv = plugin@;
        assert(plugins_view(plugins@.subrange(0, i + 1)).drop_last() =~= plugins_view(
            plugins@.subrange(0, i as int),
        ));
        assert(plugins_view(plugins@.subrange(0, i + 1)).last() == pv);
        if plugin_registers_providers(plugin, unavailable_prefix) {
            let mut j: usize = 0;
            assert(pv.integrations.subrange(0, 0) =~= Seq::<PluginManifestIntegrationView>::empty());
            assert(providers_view(before) + plugin_providers(pv, pv.integrations.subrange(0, 0), platform) =~= providers_view(before));
            while j < plugin.integrations.len()
                invariant
                    j <= plugin.integrations.len(),
                    pv == plugin@,
                    providers_view(out@) == providers_view(before) + plugin_providers(
                        pv,
                        pv.integrations.subrange(0, j as int),
                        platform,
                    ),
                decreases plugin.integrations.len() - j,
            {
                let integration = &plugin.integrations[j];
                assert(pv.integrations.subrange(0, j + 1).drop_last() =~= pv.integrations.subrange(
                    0,
                    j as int,
                ));
                assert(pv.integrations.subrange(0, j + 1).last() == integration@);
                if provider_platform_supported(plugin, integration, platform) {
                    let provider = PluginIntegrationProvider {
                        plugin_id: plugin.plugin_id.clone(),
                        plugin_root: plugin.plugin_root.clone(),
                        integration: integration.duplicate(),
                    };
                    let ghost mid = out@;
                    out.push(provider);
                    assert(providers_view(out@) =~= providers_view(mid).push(provider@));
                }
                j = j + 1;
            }
            assert(pv.integrations.subrange(0, plugin.integrations.len() as int)
                =~= pv.integrations);
        }
        i = i + 1;
    }
    assert(plugins@.subrange(0, plugins.len() as int) =~= plugins@);
    out
}

/// The qualified id of a provider.
pub fn provider_id_for(provider: &PluginIntegrationProvider) -> (r: String)
    ensures
        r@ == qualified_id(provider@),
{
    concat3(provider.plugin_id.as_str(), ".", provider.integration.id.as_str())
}

/// The message for a provider id that no provider has.
pub fn unknown_provider_error(provider_id: &str) -> (r: String)
    ensures
        r@ == "unknown plugin integration provider: "@ + provider_id@,
{
    let mut s = String::from_str("unknown plugin integration provider: ");
    s.append(provider_id);
    s
}

/// What reading a provider's status file gave.
#[derive(Debug, Clone, PartialEq, Eq)]
pub enum StatusFileRead {
    /// The file does not exist.
    Missing,
    /// The file could not be read; the error's text.
    Unreadable(String),
    /// The file is not a valid status file; the parse error's text.
    Invalid(String),
    /// The file's contents.
    Parsed(StateFile),
}

/// The status file of one provider: its path as displayed, and what reading it gave.
#[derive(Debug, Clone, PartialEq, Eq)]
pub struct StatusObservation {
    pub status_file: String,
    pub read: StatusFileRead,
}

/// The status a provider reports: with no status file it is not installed;
/// a file that cannot be read or parsed makes it outdated, with a message
/// naming the file; otherwise the file decides. The availability is
/// `available` unless the file gives one.
pub open spec fn spec_provider_status(
    available: bool,
    status_file: Seq<char>,
    read: StatusFileRead,
) -> (IntegrationStatusKind, bool, Option<Seq<char>>) {
    match read {
        StatusFileRead::Missing => (IntegrationStatusKind::NotInstalled, available, None),
        StatusFileRead::Unreadable(e) => (
            IntegrationStatusKind::Outdated,
            available,
            Some("could not read "@ + status_file + ": "@ + e@),
        ),
        StatusFileRead::Invalid(e) => (
            IntegrationStatusKind::Outdated,
            available,
            Some("invalid status file "@ + status_file + ": "@ + e@),
        ),
        StatusFileRead::Parsed(parsed) => spec_state_from_file(parsed, available),
    }
}

/// The status of provider `p` given what its status file held.
pub open spec fn observed_status(p: PluginIntegrationProviderView, o: StatusObservation) -> (
    IntegrationStatusKind,
    bool,
    Option<Seq<char>>,
) {
    spec_provider_status(p.integration.available, o.status_file@, o.read)
}

/// The API entry of provider `p` given what its status file held.
pub open spec fn spec_provider_info(
    p: PluginIntegrationProviderView,
    o: StatusObservation,
) -> PluginIntegrationInfoView {
    let status = observed_status(p, o);
    PluginIntegrationInfoView {
        provider_id: qualified_id(p),
        plugin_id: p.plugin_id,
        integration_id: p.integration.id,
        label: p.integration.label,
        available: status.1,
        state: schema_state(status.0),
        status_file: o.status_file@,
        message: status.2,
        supports_install: p.integration.install.len() > 0,
        supports_uninstall: p.integration.uninstall.len() > 0,
    }
}

/// The status of a provider from what its status file held.
pub fn provider_status(provider: &PluginIntegrationProvider, observation: &StatusObservation) -> (r: (
    IntegrationStatusKind,
    bool,
    Option<String>,
))
    ensures
        (r.0, r.1, opt_string_view(r.2)) == observed_status(provider@, *observation),
{
    let available = provider.integration.available;
    let path = &observation.status_file;
    match &observation.read {
        StatusFileRead::Missing => (IntegrationStatusKind::NotInstalled, available, None),
        StatusFileRead::Unreadable(err) => {
            let mut message = String::from_str("could not read ");
            message.append(path.as_str());
            message.append(": ");
            message.append(err.as_str());
            (IntegrationStatusKind::Outdated, available, Some(message))
        },
        StatusFileRead::Invalid(err) => {
            let mut message = String::from_str("invalid status file ");
            message.append(path.as_str());
            message.append(": ");
            message.append(err.as_str());
            (IntegrationStatusKind::Outdated, available, Some(message))
        },
        StatusFileRead::Parsed(parsed) => {
            let message = match &parsed.message {
                Some(m) => Some(m.clone()),
                None => None,
            };
            let copy = StateFile { state: parsed.state, available: parsed.available, message };
            state_from_file(copy, available)
        },
    }
}

/// The API entry of a provider, given what its status file held.
pub fn provider_info(provider: &PluginIntegrationProvider, observation: &StatusObservation) -> (r:
    PluginIntegrationInfo)
    ensures
        r@ == spec_provider_info(provider@, *observation),
{
    let status_file = observation.status_file.clone();
    let (state, available, message) = provider_status(provider, observation);
    PluginIntegrationInfo {
        provider_id: provider_id_for(provider),
        plugin_id: provider.plugin_id.clone(),
        integration_id: provider.integration.id.clone(),
        label: provider.integration.label.clone(),
        available,
        state: state_to_schema(state),
        status_file,
        message,
        supports_install: provider.integration.install.len() > 0,
        supports_uninstall: provider.integration.uninstall.len() > 0,
    }
}

/// `x` placed into `s` after every entry whose provider id is not above its own.
pub open spec fn insert_by_id(s: Seq<PluginIntegrationInfoView>, x: PluginIntegrationInfoView) -> Seq<
    PluginIntegrationInfoView,
>
    decreases s.len(),
{
    if s.len() > 0 && lex_lt(x.provider_id, s.last().provider_id) {
        insert_by_id(s.drop_last(), x).push(s.last())
    } else {
        s.push(x)
    }
}

/// The entries of `s` in ascending order of provider id, entries with equal
/// ids keeping their order in `s` (a stable sort).
pub open spec fn sort_by_id(s: Seq<PluginIntegrationInfoView>) -> Seq<PluginIntegrationInfoView>
    decreases s.len(),
{
    if s.len() == 0 {
        s
    } else {
        insert_by_id(sort_by_id(s.drop_last()), s.last())
    }
}

/// No entry has a provider id below that of an entry before it.
pub open spec fn sorted_by_id(s: Seq<PluginIntegrationInfoView>) -> bool {
    forall|i: int, j: int|
        0 <= i < j < s.len() ==> !lex_lt(#[trigger] s[j].provider_id, #[trigger] s[i].provider_id)
}

/// Where `x` goes in `s`: every entry from `p` on has an id above that of `x`,
/// and the entry before `p` does not.
pub open spec fn is_insertion_point(
    s: Seq<PluginIntegrationInfoView>,
    x: PluginIntegrationInfoView,
    p: int,
) -> bool {
    &&& 0 <= p <= s.len()
    &&& forall|k: int| p <= k < s.len() ==> lex_lt(x.provider_id, #[trigger] s[k].provider_id)
    &&& (p == 0 || !lex_lt(x.provider_id, s[p - 1].provider_id))
}

proof fn lemma_insert_by_id_at(
    s: Seq<PluginIntegrationInfoView>,
    x: PluginIntegrationInfoView,
    p: int,
)
    requires
        is_insertion_point(s, x, p),
    ensures
        insert_by_id(s, x) == s.take(p).push(x) + s.skip(p),
    decreases s.len(),
{
    if s.len() > 0 && lex_lt(x.provider_id, s.last().provider_id) {
        assert(p < s.len());
        let t = s.drop_last();
        assert(is_insertion_point(t, x, p)) by {
            assert forall|k: int| p <= k < t.len() implies lex_lt(
                x.provider_id,
                #[trigger] t[k].provider_id,
            ) by {
                assert(t[k] == s[k]);
            }
            if p > 0 {
                assert(t[p - 1] == s[p - 1]);
            }
        }
        lemma_insert_by_id_at(t, x, p);
        assert(insert_by_id(s, x) =~= s.take(p).push(x) + s.skip(p));
    } else {
        if p < s.len() {
            assert(lex_lt(x.provider_id, s[s.len() - 1].provider_id));
        }
        assert(p == s.len());
        assert(insert_by_id(s, x) =~= s.take(p).push(x) + s.skip(p));
    }
}

proof fn lemma_insertion_point_exists(s: Seq<PluginIntegrationInfoView>, x: PluginIntegrationInfoView) -> (p: int)
    ensures
        is_insertion_point(s, x, p),
    decreases s.len(),
{
    if s.len() > 0 && lex_lt(x.provider_id, s.last().provider_id) {
        let t = s.drop_last();
        let p = lemma_insertion_point_exists(t, x);
        assert forall|k: int| p <= k < s.len() implies lex_lt(
            x.provider_id,
            #[trigger] s[k].provider_id,
        ) by {
            if k < t.len() {
                assert(t[k] == s[k]);
            }
        }
        if p > 0 {
            assert(t[p - 1] == s[p - 1]);
        }
        p
    } else {
        s.len() as int
    }
}

proof fn lemma_insert_keeps_sorted(
    s: Seq<PluginIntegrationInfoView>,
    x: PluginIntegrationInfoView,
    p: int,
)
    requires
        sorted_by_id(s),
        is_insertion_point(s, x, p),
    ensures
        sorted_by_id(s.take(p).push(x) + s.skip(p)),
        (s.take(p).push(x) + s.skip(p)).to_multiset() =~= s.to_multiset().insert(x),
{
    let t = s.take(p).push(x) + s.skip(p);
    assert(t.len() == s.len() + 1);
    assert forall|i: int, j: int| 0 <= i < j < t.len() implies !lex_lt(
        #[trigger] t[j].provider_id,
        #[trigger] t[i].provider_id,
    ) by {
        if j < p {
            assert(t[i] == s[i] && t[j] == s[j]);
        } else if j == p {
            assert(t[i] == s[i]);
            assert(t[j] == x);
            assert(!lex_lt(x.provider_id, s[p - 1].provider_id));
            if i < p - 1 {
                assert(!lex_lt(s[p - 1].provider_id, s[i].provider_id));
                lemma_not_lex_lt_transitive(x.provider_id, s[p - 1].provider_id, s[i].provider_id);
            }
        } else if i == p {
            assert(t[i] == x);
            assert(t[j] == s[j - 1]);
            assert(lex_lt(x.provider_id, s[j - 1].provider_id));
            lemma_lex_lt_asymmetric(x.provider_id, s[j - 1].provider_id);
        } else if i < p {
            assert(t[i] == s[i]);
            assert(t[j] == s[j - 1]);
        } else {
            assert(t[i] == s[i - 1]);
            assert(t[j] == s[j - 1]);
        }
    }
    broadcast use vstd::seq_lib::group_to_multiset_ensures;

    assert(t.remove(p) =~= s);
    assert(t[p] == x);
    assert(t.to_multiset().count(x) > 0);
    assert(t.to_multiset().remove(x) =~= s.to_multiset());
}

/// The stable sort by provider id orders its entries by provider id and keeps
/// exactly the entries it was given.
pub proof fn lemma_sort_by_id(s: Seq<PluginIntegrationInfoView>)
    ensures
        sorted_by_id(sort_by_id(s)),
        sort_by_id(s).to_multiset() =~= s.to_multiset(),
        sort_by_id(s).len() == s.len(),
    decreases s.len(),
{
    broadcast use vstd::seq_lib::group_to_multiset_ensures;

    if s.len() > 0 {
        let t = s.drop_last();
        lemma_sort_by_id(t);
        let p = lemma_insertion_point_exists(sort_by_id(t), s.last());
        lemma_insert_by_id_at(sort_by_id(t), s.last(), p);
        lemma_insert_keeps_sorted(sort_by_id(t), s.last(), p);
        assert(s =~= t.push(s.last()));
    }
}

/// Places `x` among the entries of `out`, which are in the order of `sort_by_id`.
fn insert_info(out: &mut Vec<PluginIntegrationInfo>, x: PluginIntegrationInfo)
    ensures
        infos_view(final(out)@) == insert_by_id(infos_view(old(out)@), x@),
{
    let ghost s = infos_view(out@);
    let mut p: usize = out.len();
    while p > 0 && str_lt(x.provider_id.as_str(), out[p - 1].provider_id.as_str())
        invariant
            p <= out.len(),
            s == infos_view(out@),
            forall|k: int| p <= k < s.len() ==> lex_lt(x@.provider_id, #[trigger] s[k].provider_id),
        decreases p,
    {
        p = p - 1;
    }
    proof {
        lemma_insert_by_id_at(s, x@, p as int);
    }
    let ghost xv = x@;
    out.insert(p, x);
    assert(infos_view(out@) =~= s.take(p as int).push(xv) + s.skip(p as int));
}

/// The API entries of all providers in `sort_by_id` order of what the entry
/// of each provider is, given what its status file held.
pub open spec fn expected_infos(
    providers: Seq<PluginIntegrationProviderView>,
    observations: Seq<StatusObservation>,
) -> Seq<PluginIntegrationInfoView> {
    Seq::new(providers.len(), |k: int| spec_provider_info(providers[k], observations[k]))
}

/// The API entries of the providers, `observations[k]` being what the status
/// file of `providers[k]` held, sorted by provider id (stable).
pub fn plugin_integration_infos_from_providers(
    providers: &[PluginIntegrationProvider],
    observations: &[StatusObservation],
) -> (r: Vec<PluginIntegrationInfo>)
    requires
        observations.len() == providers.len(),
    ensures
        infos_view(r@) == sort_by_id(expected_infos(providers_view(providers@), observations@)),
{
    let ghost e = expected_infos(providers_view(providers@), observations@);
    let mut out: Vec<PluginIntegrationInfo> = Vec::new();
    let mut i: usize = 0;
    assert(e.take(0) =~= Seq::<PluginIntegrationInfoView>::empty());
    assert(infos_view(out@) =~= Seq::<PluginIntegrationInfoView>::empty());
    while i < providers.len()
        invariant
            i <= providers.len(),
            observations.len() == providers.len(),
            e == expected_infos(providers_view(providers@), observations@),
            infos_view(out@) == sort_by_id(e.take(i as int)),
        decreases providers.len() - i,
    {
        let info = provider_info(&providers[i], &observations[i]);
        assert(info@ == e[i as int]);
        assert(e.take(i + 1).drop_last() =~= e.take(i as int));
        insert_info(&mut out, info);
        i = i + 1;
    }
    assert(e.take(providers.len() as int) =~= e);
    out
}

/// The API entries of the providers that the plugins register on `platform`,
/// sorted by provider id; `observations[k]` is what the status file of the
/// `k`-th provider of `providers_from_plugins` held.
pub fn plugin_integration_infos_from_plugins(
    plugins: &[InstalledPluginInfo],
    platform: PluginPlatform,
    unavailable_prefix: &str,
    observations: &[StatusObservation],
) -> (r: Vec<PluginIntegrationInfo>)
    requires
        observations.len() == spec_providers(
            plugins_view(plugins@),
            platform,
            unavailable_prefix@,
        ).len(),
    ensures
        infos_view(r@) == sort_by_id(
            expected_infos(
                spec_providers(plugins_view(plugins@), platform, unavailable_prefix@),
                observations@,
            ),
        ),
{
    let providers = providers_from_plugins(plugins, platform, unavailable_prefix);
    proof {
        assert(providers@.len() == providers_view(providers@).len());
    }
    plugin_integration_infos_from_providers(providers.as_slice(), observations)
}

/// How a plugin integration operation failed.
#[derive(Debug, Clone, Copy, PartialEq, Eq, Structural)]
pub enum OperationErrorKind {
    /// No provider has the requested id.
    NotFound,
    /// The provider declares no command for the operation.
    Unsupported,
    /// The operation ran and failed.
    Other,
}

/// A failed plugin integration operation: its kind and message.
#[derive(Debug, Clone, PartialEq, Eq)]
pub struct OperationError {
    pub kind: OperationErrorKind,
    pub message: String,
}

/// The command that an operation runs for a provider: the provider, the
/// program and its arguments.
#[derive(Debug, Clone, PartialEq, Eq)]
pub struct OperationPlan {
    pub provider: PluginIntegrationProvider,
    pub program: String,
    pub args: Vec<String>,
}

/// The first provider in `providers` with the qualified id `id`.
pub open spec fn find_provider(providers: Seq<PluginIntegrationProviderView>, id: Seq<char>) -> Option<
    PluginIntegrationProviderView,
>
    decreases providers.len(),
{
    if providers.len() == 0 {
        None
    } else if qualified_id(providers[0]) == id {
        Some(providers[0])
    } else {
        find_provider(providers.drop_first(), id)
    }
}

/// The command line that a provider declares for an operation.
pub open spec fn operation_command(
    integration: PluginManifestIntegrationView,
    operation: PluginIntegrationOperation,
) -> Seq<Seq<char>> {
    match operation {
        PluginIntegrationOperation::Install => integration.install,
        PluginIntegrationOperation::Uninstall => integration.uninstall,
    }
}

/// What planning an operation gives: the provider with the requested id (the
/// first one), the program and the arguments of its command; or the error.
pub open spec fn spec_plan(
    providers: Seq<PluginIntegrationProviderView>,
    provider_id: Seq<char>,
    operation: PluginIntegrationOperation,
) -> Result<
    (PluginIntegrationProviderView, Seq<char>, Seq<Seq<char>>),
    (OperationErrorKind, Seq<char>),
> {
    match find_provider(providers, provider_id) {
        None => Err(
            (OperationErrorKind::NotFound, "unknown plugin integration provider: "@ + provider_id),
        ),
        Some(p) => {
            let command = operation_command(p.integration, operation);
            if command.len() == 0 {
                Err(
                    (
                        OperationErrorKind::Unsupported,
                        "plugin integration provider '"@ + provider_id + "' does not support "@
                            + operation.name(),
                    ),
                )
            } else {
                Ok((p, command[0], command.drop_first()))
            }
        },
    }
}

pub open spec fn plan_view(r: Result<OperationPlan, OperationError>) -> Result<
    (PluginIntegrationProviderView, Seq<char>, Seq<Seq<char>>),
    (OperationErrorKind, Seq<char>),
> {
    match r {
        Ok(plan) => Ok((plan.provider@, plan.program@, strings_view(plan.args@))),
        Err(e) => Err((e.kind, e.message@)),
    }
}

/// Finds the provider with the requested id among those the plugins register
/// on `platform`, and the command the operation runs for it: `NotFound` where
/// no provider has the id, `Unsupported` where the provider declares no
/// command for the operation.
pub fn plan_plugin_integration_operation(
    plugins: &[InstalledPluginInfo],
    platform: PluginPlatform,
    unavailable_prefix: &str,
    provider_id: &str,
    operation: PluginIntegrationOperation,
) -> (r: Result<OperationPlan, OperationError>)
    ensures
        plan_view(r) == spec_plan(
            spec_providers(plugins_view(plugins@), platform, unavailable_prefix@),
            provider_id@,
            operation,
        ),
{
    let providers = providers_from_plugins(plugins, platform, unavailable_prefix);
    let ghost pv = providers_view(providers@);
    let mut i: usize = 0;
    assert(pv.skip(0) =~= pv);
    while i < providers.len()
        invariant
            i <= providers.len(),
            pv == providers_view(providers@),
            pv == spec_providers(plugins_view(plugins@), platform, unavailable_prefix@),
            find_provider(pv, provider_id@) == find_provider(pv.skip(i as int), provider_id@),
        decreases providers.len() - i,
    {
        let id = provider_id_for(&providers[i]);
        assert(pv.skip(i as int)[0] == providers@[i as int]@);
        if str_eq(id.as_str(), provider_id) {
            let provider = &providers[i];
            assert(pv.skip(i as int).len() > 0);
            assert(find_provider(pv, provider_id@) == Some(provider@));
            let command = match operation {
                PluginIntegrationOperation::Install => &provider.integration.install,
                PluginIntegrationOperation::Uninstall => &provider.integration.uninstall,
            };
            assert(strings_view(command@) == operation_command(provider@.integration, operation));
            if command.len() == 0 {
                let mut message = String::from_str("plugin integration provider '");
                message.append(provider_id);
                message.append("' does not support ");
                message.append(operation.as_str());
                return Err(OperationError { kind: OperationErrorKind::Unsupported, message });
            }
            let program = command[0].clone();
            let mut args: Vec<String> = Vec::new();
            let mut k: usize = 1;
            while k < command.len()
                invariant
                    1 <= k <= command.len(),
                    args@ == command@.subrange(1, k as int),
                decreases command.len() - k,
            {
                args.push(command[k].clone());
                assert(args@ =~= command@.subrange(1, k + 1));
                k = k + 1;
            }
            assert(strings_view(args@) =~= strings_view(command@).drop_first());
            let plan = OperationPlan {
                provider: PluginIntegrationProvider {
                    plugin_id: provider.plugin_id.clone(),
                    plugin_root: provider.plugin_root.clone(),
                    integration: provider.integration.duplicate(),
                },
                program,
                args,
            };
            return Ok(plan);
        }
        assert(pv.skip(i as int).drop_first() =~= pv.skip(i + 1));
        i = i + 1;
    }
    Err(
        OperationError {
            kind: OperationErrorKind::NotFound,
            message: unknown_provider_error(provider_id),
        },
    )
}

/// What an operation whose command exited reports: on success one message
/// that the provider's label and the operation completed; otherwise an error
/// naming the provider, the operation and the exit status.
pub open spec fn spec_finish(
    provider_id: Seq<char>,
    label: Seq<char>,
    operation: PluginIntegrationOperation,
    succeeded: bool,
    exit_status: Seq<char>,
) -> Result<Seq<Seq<char>>, (OperationErrorKind, Seq<char>)> {
    if succeeded {
        Ok(seq![label + " "@ + operation.name() + " completed"@])
    } else {
        Err(
            (
                OperationErrorKind::Other,
                "plugin integration provider '"@ + provider_id + "' "@ + operation.name()
                    + " command exited with "@ + exit_status,
            ),
        )
    }
}

/// Concludes an operation from how its command exited; `exit_status` is the
/// displayed exit status.
pub fn finish_plugin_integration_operation(
    provider_id: &str,
    plan: &OperationPlan,
    operation: PluginIntegrationOperation,
    succeeded: bool,
    exit_status: &str,
) -> (r: Result<Vec<String>, OperationError>)
    ensures
        match r {
            Ok(messages) => spec_finish(
                provider_id@,
                plan.provider.integration.label@,
                operation,
                succeeded,
                exit_status@,
            ) == Ok::<Seq<Seq<char>>, (OperationErrorKind, Seq<char>)>(strings_view(messages@)),
            Err(e) => spec_finish(
                provider_id@,
                plan.provider.integration.label@,
                operation,
                succeeded,
                exit_status@,
            ) == Err::<Seq<Seq<char>>, (OperationErrorKind, Seq<char>)>((e.kind, e.message@)),
        },
{
    if !succeeded {
        let mut message = String::from_str("plugin integration provider '");
        message.append(provider_id);
        message.append("' ");
        message.append(operation.as_str());
        message.append(" command exited with ");
        message.append(exit_status);
        return Err(OperationError { kind: OperationErrorKind::Other, message });
    }
    let mut message = String::from_str(plan.provider.integration.label.as_str());
    message.append(" ");
    message.append(operation.as_str());
    message.append(" completed");
    let mut messages: Vec<String> = Vec::new();
    messages.push(message);
    assert(strings_view(messages@) =~= seq![message@]);
    Ok(messages)
}

/// Where the host keeps a provider's files and how the provider reaches the
/// host: the values that the operation's environment passes on.
#[derive(Debug, Clone, PartialEq, Eq)]
pub struct CommandHost {
    pub plugin_config_dir: String,
    pub plugin_state_dir: String,
    pub socket_path_env_var: String,
    pub socket_path: String,
    /// The running executable, where it could be found.
    pub executable: Option<String>,
}

pub open spec fn pairs_view(s: Seq<(String, String)>) -> Seq<(Seq<char>, Seq<char>)> {
    s.map_values(|p: (String, String)| (p.0@, p.1@))
}

/// The environment of a provider's command: the plugin's root, config and
/// state directories, a marker, the plugin, integration and provider ids, the
/// operation, the socket, and the executable where there is one.
pub open spec fn spec_command_environment(
    p: PluginIntegrationProviderView,
    operation: PluginIntegrationOperation,
    host: CommandHost,
) -> Seq<(Seq<char>, Seq<char>)> {
    let base = seq![
        ("HERDR_PLUGIN_ROOT"@, p.plugin_root),
        ("HERDR_PLUGIN_CONFIG_DIR"@, host.plugin_config_dir@),
        ("HERDR_PLUGIN_STATE_DIR"@, host.plugin_state_dir@),
        ("HERDR_ENV"@, "1"@),
        ("HERDR_PLUGIN_ID"@, p.plugin_id),
        ("HERDR_PLUGIN_INTEGRATION_ID"@, p.integration.id),
        ("HERDR_PLUGIN_INTEGRATION_PROVIDER_ID"@, qualified_id(p)),
        ("HERDR_PLUGIN_INTEGRATION_OPERATION"@, operation.name()),
        (host.socket_path_env_var@, host.socket_path@),
    ];
    match host.executable {
        Some(exe) => base.push(("HERDR_BIN_PATH"@, exe@)),
        None => base,
    }
}

fn env_pair(key: &str, value: &str) -> (r: (String, String))
    ensures
        r.0@ == key@,
        r.1@ == value@,
{
    (String::from_str(key), String::from_str(value))
}

/// The environment variables that a provider's command runs with.
pub fn provider_command_environment(
    provider: &PluginIntegrationProvider,
    operation: PluginIntegrationOperation,
    host: &CommandHost,
) -> (r: Vec<(String, String)>)
    ensures
        pairs_view(r@) == spec_command_environment(provider@, operation, *host),
{
    let provider_id = provider_id_for(provider);
    let mut environment: Vec<(String, String)> = Vec::new();
    environment.push(env_pair("HERDR_PLUGIN_ROOT", provider.plugin_root.as_str()));
    environment.push(env_pair("HERDR_PLUGIN_CONFIG_DIR", host.plugin_config_dir.as_str()));
    environment.push(env_pair("HERDR_PLUGIN_STATE_DIR", host.plugin_state_dir.as_str()));
    environment.push(env_pair("HERDR_ENV", "1"));
    environment.push(env_pair("HERDR_PLUGIN_ID", provider.plugin_id.as_str()));
    environment.push(env_pair("HERDR_PLUGIN_INTEGRATION_ID", provider.integration.id.as_str()));
    environment.push(env_pair("HERDR_PLUGIN_INTEGRATION_PROVIDER_ID", provider_id.as_str()));
    environment.push(env_pair("HERDR_PLUGIN_INTEGRATION_OPERATION", operation.as_str()));
    environment.push(env_pair(host.socket_path_env_var.as_str(), host.socket_path.as_str()));
    match &host.executable {
        Some(executable) => {
            environment.push(env_pair("HERDR_BIN_PATH", executable.as_str()));
        },
        None => {},
    }
    assert(pairs_view(environment@) =~= spec_command_environment(provider@, operation, *host));
    environment
}

} // verus!
