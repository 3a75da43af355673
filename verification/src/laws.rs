//! Properties that hold across the functions of the library.
use vstd::prelude::*;
use crate::build_info::{spec_non_empty, spec_version};
use crate::integration::{spec_state_from_file, IntegrationStatusKind, StateFile, StateFileState};
use crate::providers::{
    expected_infos, lemma_sort_by_id, sort_by_id, spec_finish, StatusFileRead,
    find_provider, operation_command, plugin_providers, platform_supported, provider_of, qualified_id,
    registers_providers, spec_plan, spec_provider_info, spec_providers, OperationErrorKind,
    PluginIntegrationOperation, PluginIntegrationProviderView, StatusObservation,
};
use crate::schema::{
    opt_string_view, InstalledPluginInfoView, IntegrationState, PluginManifestIntegrationView,
    PluginPlatform,
};
use crate::text::{has_prefix, is_white_space, trim, trim_end, trim_start};

verus! {

proof fn lemma_find_provider(providers: Seq<PluginIntegrationProviderView>, id: Seq<char>, k: int)
    requires
        0 <= k < providers.len(),
        qualified_id(providers[k]) == id,
    ensures
        find_provider(providers, id) matches Some(p) && qualified_id(p) == id,
        (forall|j: int| 0 <= j < providers.len() && j != k ==> qualified_id(#[trigger] providers[j]) != id)
            ==> find_provider(providers, id) == Some(providers[k]),
    decreases providers.len(),
{
    if qualified_id(providers[0]) != id {
        let rest = providers.drop_first();
        assert(rest[k - 1] == providers[k]);
        lemma_find_provider(rest, id, k - 1);
        if forall|j: int| 0 <= j < providers.len() && j != k ==> qualified_id(#[trigger] providers[j]) != id {
            assert forall|j: int| 0 <= j < rest.len() && j != k - 1 implies qualified_id(
                #[trigger] rest[j],
            ) != id by {
                assert(rest[j] == providers[j + 1]);
            }
        }
    } else if k != 0 {
        assert(qualified_id(providers[0]) == id);
    }
}

/// Every provider that the plugins register can be installed or uninstalled by
/// its provider id: planning the operation never answers that the id is
/// unknown, and the provider it finds has that id. Where no other provider
/// shares the id, it finds that very provider, and the operation is refused
/// as unsupported exactly when the provider's API entry says that it does
/// not support it.
pub proof fn lemma_listed_providers_are_operable(
    plugins: Seq<InstalledPluginInfoView>,
    platform: PluginPlatform,
    unavailable_prefix: Seq<char>,
    k: int,
    operation: PluginIntegrationOperation,
    observation: StatusObservation,
)
    requires
        0 <= k < spec_providers(plugins, platform, unavailable_prefix).len(),
    ensures
        ({
            let providers = spec_providers(plugins, platform, unavailable_prefix);
            let id = qualified_id(providers[k]);
            let info = spec_provider_info(providers[k], observation);
            &&& info.provider_id == id
            &&& !(spec_plan(providers, id, operation) matches Err((kind, _)) && kind
                == OperationErrorKind::NotFound)
            &&& spec_plan(providers, id, operation) matches Ok((p, _, _)) ==> qualified_id(p) == id
            &&& (forall|j: int|
                0 <= j < providers.len() && j != k ==> qualified_id(#[trigger] providers[j]) != id)
                ==> {
                &&& spec_plan(providers, id, operation) matches Ok((p, _, _)) ==> p == providers[k]
                &&& (spec_plan(providers, id, operation) matches Err((kind, _)) && kind
                    == OperationErrorKind::Unsupported) <==> !(match operation {
                    PluginIntegrationOperation::Install => info.supports_install,
                    PluginIntegrationOperation::Uninstall => info.supports_uninstall,
                })
            }
        }),
{
    let providers = spec_providers(plugins, platform, unavailable_prefix);
    let id = qualified_id(providers[k]);
    lemma_find_provider(providers, id, k);
    let command = operation_command(providers[k].integration, operation);
    assert(command.len() > 0 <==> (match operation {
        PluginIntegrationOperation::Install => providers[k].integration.install.len() > 0,
        PluginIntegrationOperation::Uninstall => providers[k].integration.uninstall.len() > 0,
    }));
}

proof fn lemma_plugin_providers_sound(
    p: InstalledPluginInfoView,
    integrations: Seq<PluginManifestIntegrationView>,
    platform: PluginPlatform,
    k: int,
)
    requires
        0 <= k < plugin_providers(p, integrations, platform).len(),
    ensures
        ({
            let provider = plugin_providers(p, integrations, platform)[k];
            &&& provider.plugin_id == p.plugin_id
            &&& provider.plugin_root == p.plugin_root
            &&& integrations.contains(provider.integration)
            &&& platform_supported(p.platforms, provider.integration.platforms, platform)
        }),
    decreases integrations.len(),
{
    let rest = plugin_providers(p, integrations.drop_last(), platform);
    if k < rest.len() {
        lemma_plugin_providers_sound(p, integrations.drop_last(), platform, k);
        let i = choose|i: int|
            0 <= i < integrations.drop_last().len() && integrations.drop_last()[i]
                == rest[k].integration;
        assert(integrations[i] == rest[k].integration);
    } else {
        assert(integrations[integrations.len() - 1] == integrations.last());
    }
}

/// Every registered provider comes from an enabled plugin whose manifest is
/// available, is one of that plugin's integrations, and runs on the platform.
/// In particular a disabled plugin registers no provider.
pub proof fn lemma_providers_come_from_registering_plugins(
    plugins: Seq<InstalledPluginInfoView>,
    platform: PluginPlatform,
    unavailable_prefix: Seq<char>,
    k: int,
)
    requires
        0 <= k < spec_providers(plugins, platform, unavailable_prefix).len(),
    ensures
        exists|i: int|
            {
                let provider = spec_providers(plugins, platform, unavailable_prefix)[k];
                &&& 0 <= i < plugins.len()
                &&& #[trigger] registers_providers(plugins[i], unavailable_prefix)
                &&& plugins[i].enabled
                &&& provider.plugin_id == plugins[i].plugin_id
                &&& plugins[i].integrations.contains(provider.integration)
                &&& platform_supported(
                    plugins[i].platforms,
                    provider.integration.platforms,
                    platform,
                )
            },
    decreases plugins.len(),
{
    let rest = spec_providers(plugins.drop_last(), platform, unavailable_prefix);
    let last = plugins.last();
    let n = plugins.len() - 1;
    if k < rest.len() {
        lemma_providers_come_from_registering_plugins(
            plugins.drop_last(),
            platform,
            unavailable_prefix,
            k,
        );
        let i = choose|i: int|
            {
                let provider = rest[k];
                &&& 0 <= i < plugins.drop_last().len()
                &&& #[trigger] registers_providers(plugins.drop_last()[i], unavailable_prefix)
                &&& plugins.drop_last()[i].enabled
                &&& provider.plugin_id == plugins.drop_last()[i].plugin_id
                &&& plugins.drop_last()[i].integrations.contains(provider.integration)
                &&& platform_supported(
                    plugins.drop_last()[i].platforms,
                    provider.integration.platforms,
                    platform,
                )
            };
        assert(plugins[i] == plugins.drop_last()[i]);
        assert(spec_providers(plugins, platform, unavailable_prefix)[k] == rest[k]);
    } else {
        lemma_plugin_providers_sound(last, last.integrations, platform, k - rest.len());
        assert(plugins[n] == last);
        assert(registers_providers(plugins[n], unavailable_prefix));
    }
}

/// Plugins that are all disabled register no providers.
pub proof fn lemma_disabled_plugins_register_nothing(
    plugins: Seq<InstalledPluginInfoView>,
    platform: PluginPlatform,
    unavailable_prefix: Seq<char>,
)
    requires
        forall|i: int| 0 <= i < plugins.len() ==> !(#[trigger] plugins[i]).enabled,
    ensures
        spec_providers(plugins, platform, unavailable_prefix).len() == 0,
{
    if spec_providers(plugins, platform, unavailable_prefix).len() > 0 {
        lemma_providers_come_from_registering_plugins(plugins, platform, unavailable_prefix, 0);
    }
}

/// The version string always begins with the base version, and on the stable
/// channel it is the base version.
pub proof fn lemma_version_extends_base(
    base: Seq<char>,
    raw_channel: Option<Seq<char>>,
    raw_build_id: Option<Seq<char>>,
)
    ensures
        has_prefix(spec_version(base, raw_channel, raw_build_id), base),
        spec_non_empty(raw_channel) is None ==> spec_version(base, raw_channel, raw_build_id)
            == base,
{
    let v = spec_version(base, raw_channel, raw_build_id);
    assert(v.subrange(0, base.len() as int) =~= base);
}

proof fn lemma_trim_start_first(s: Seq<char>)
    ensures
        trim_start(s).len() > 0 ==> !is_white_space(trim_start(s)[0]),
        trim_start(s).len() <= s.len(),
    decreases s.len(),
{
    if s.len() > 0 && is_white_space(s[0]) {
        lemma_trim_start_first(s.drop_first());
    }
}

proof fn lemma_trim_end_prefix(s: Seq<char>)
    ensures
        trim_end(s) == s.take(trim_end(s).len() as int),
        trim_end(s).len() <= s.len(),
        trim_end(s).len() > 0 ==> !is_white_space(trim_end(s).last()),
    decreases s.len(),
{
    if s.len() > 0 && is_white_space(s.last()) {
        lemma_trim_end_prefix(s.drop_last());
        assert(s.drop_last().take(trim_end(s).len() as int) =~= s.take(trim_end(s).len() as int));
    } else {
        assert(s.take(s.len() as int) =~= s);
    }
}

/// A build value that counts as set is never empty and neither begins nor ends
/// with whitespace.
pub proof fn lemma_non_empty_is_trimmed(value: Option<Seq<char>>)
    ensures
        spec_non_empty(value) matches Some(t) ==> {
            &&& t.len() > 0
            &&& !is_white_space(t[0])
            &&& !is_white_space(t.last())
            &&& t == trim(t)
        },
{
    if let Some(v) = value {
        let s = trim_start(v);
        lemma_trim_start_first(v);
        lemma_trim_end_prefix(s);
        let t = trim(v);
        if t.len() > 0 {
            assert(t[0] == s[0]);
            assert(trim_start(t) == t);
            assert(trim_end(t) == t);
        }
    }
}

proof fn lemma_plugin_providers_complete(
    p: InstalledPluginInfoView,
    integrations: Seq<PluginManifestIntegrationView>,
    platform: PluginPlatform,
    j: int,
)
    requires
        0 <= j < integrations.len(),
        platform_supported(p.platforms, integrations[j].platforms, platform),
    ensures
        plugin_providers(p, integrations, platform).contains(provider_of(p, integrations[j])),
    decreases integrations.len(),
{
    let rest = plugin_providers(p, integrations.drop_last(), platform);
    let all = plugin_providers(p, integrations, platform);
    if j < integrations.len() - 1 {
        assert(integrations.drop_last()[j] == integrations[j]);
        lemma_plugin_providers_complete(p, integrations.drop_last(), platform, j);
        let k = choose|k: int| 0 <= k < rest.len() && rest[k] == provider_of(p, integrations[j]);
        assert(all[k] == rest[k]);
    } else {
        assert(integrations.last() == integrations[j]);
        assert(all[all.len() - 1] == provider_of(p, integrations[j]));
    }
}

/// Every integration of an enabled plugin whose manifest is available, that
/// runs on the platform, is registered as a provider.
pub proof fn lemma_registering_plugins_list_their_providers(
    plugins: Seq<InstalledPluginInfoView>,
    platform: PluginPlatform,
    unavailable_prefix: Seq<char>,
    i: int,
    j: int,
)
    requires
        0 <= i < plugins.len(),
        registers_providers(plugins[i], unavailable_prefix),
        0 <= j < plugins[i].integrations.len(),
        platform_supported(plugins[i].platforms, plugins[i].integrations[j].platforms, platform),
    ensures
        spec_providers(plugins, platform, unavailable_prefix).contains(
            provider_of(plugins[i], plugins[i].integrations[j]),
        ),
    decreases plugins.len(),
{
    let rest = spec_providers(plugins.drop_last(), platform, unavailable_prefix);
    let all = spec_providers(plugins, platform, unavailable_prefix);
    let target = provider_of(plugins[i], plugins[i].integrations[j]);
    if i < plugins.len() - 1 {
        assert(plugins.drop_last()[i] == plugins[i]);
        lemma_registering_plugins_list_their_providers(
            plugins.drop_last(),
            platform,
            unavailable_prefix,
            i,
            j,
        );
        let k = choose|k: int| 0 <= k < rest.len() && rest[k] == target;
        assert(all[k] == rest[k]);
    } else {
        let last = plugins.last();
        assert(last == plugins[i]);
        lemma_plugin_providers_complete(last, last.integrations, platform, j);
        let pp = plugin_providers(last, last.integrations, platform);
        let k = choose|k: int| 0 <= k < pp.len() && pp[k] == target;
        assert(all[rest.len() + k] == pp[k]);
    }
}

/// The provider listing has exactly one entry per provider, whatever its
/// availability or status: as many entries as providers, and each provider's
/// id (plugin id, a dot, integration id) in the listing, with that
/// provider's plugin and integration ids and label.
pub proof fn lemma_listing_has_one_entry_per_provider(
    providers: Seq<PluginIntegrationProviderView>,
    observations: Seq<StatusObservation>,
)
    requires
        observations.len() == providers.len(),
    ensures
        sort_by_id(expected_infos(providers, observations)).len() == providers.len(),
        forall|k: int|
            #![trigger providers[k]]
            0 <= k < providers.len() ==> exists|i: int|
                0 <= i < providers.len() && {
                    let e = #[trigger] sort_by_id(expected_infos(providers, observations))[i];
                    &&& e.provider_id == providers[k].plugin_id + "."@
                        + providers[k].integration.id
                    &&& e.plugin_id == providers[k].plugin_id
                    &&& e.integration_id == providers[k].integration.id
                    &&& e.label == providers[k].integration.label
                    &&& e.status_file == observations[k].status_file@
                    &&& e.supports_install == (providers[k].integration.install.len() > 0)
                    &&& e.supports_uninstall == (providers[k].integration.uninstall.len() > 0)
                },
{
    broadcast use vstd::seq_lib::group_to_multiset_ensures;

    let e = expected_infos(providers, observations);
    let r = sort_by_id(e);
    lemma_sort_by_id(e);
    assert forall|k: int| #![trigger providers[k]] 0 <= k < providers.len() implies exists|i: int|
        0 <= i < providers.len() && {
            let x = #[trigger] sort_by_id(expected_infos(providers, observations))[i];
            &&& x.provider_id == providers[k].plugin_id + "."@ + providers[k].integration.id
            &&& x.plugin_id == providers[k].plugin_id
            &&& x.integration_id == providers[k].integration.id
            &&& x.label == providers[k].integration.label
            &&& x.status_file == observations[k].status_file@
            &&& x.supports_install == (providers[k].integration.install.len() > 0)
            &&& x.supports_uninstall == (providers[k].integration.uninstall.len() > 0)
        } by {
        assert(e.contains(e[k]));
        assert(e.to_multiset().count(e[k]) > 0);
        assert(r.to_multiset().count(e[k]) > 0);
        assert(r.contains(e[k]));
        let i = choose|i: int| 0 <= i < r.len() && r[i] == e[k];
        assert(r[i] == e[k]);
    }
}

/// A successful plan runs exactly the command that the provider declares for
/// the requested operation: its program followed by its arguments is the
/// install command for an install and the uninstall command for an
/// uninstall, and the provider it found has the requested id.
pub proof fn lemma_plan_runs_the_declared_command(
    providers: Seq<PluginIntegrationProviderView>,
    provider_id: Seq<char>,
    operation: PluginIntegrationOperation,
)
    ensures
        spec_plan(providers, provider_id, operation) matches Ok((p, program, args)) ==> {
            &&& seq![program] + args == match operation {
                PluginIntegrationOperation::Install => p.integration.install,
                PluginIntegrationOperation::Uninstall => p.integration.uninstall,
            }
            &&& p.plugin_id + "."@ + p.integration.id == provider_id
            &&& providers.contains(p)
        },
        spec_plan(providers, provider_id, operation) matches Err((kind, _)) && kind
            == OperationErrorKind::NotFound ==> forall|k: int|
            0 <= k < providers.len() ==> #[trigger] qualified_id(providers[k]) != provider_id,
{
    if let Ok((p, program, args)) = spec_plan(providers, provider_id, operation) {
        let command = operation_command(p.integration, operation);
        assert(seq![program] + args =~= command);
        lemma_find_provider_found(providers, provider_id);
    }
    if spec_plan(providers, provider_id, operation) matches Err((kind, _)) && kind
        == OperationErrorKind::NotFound {
        assert forall|k: int| 0 <= k < providers.len() implies #[trigger] qualified_id(
            providers[k],
        ) != provider_id by {
            if qualified_id(providers[k]) == provider_id {
                lemma_find_provider(providers, provider_id, k);
            }
        }
    }
}

proof fn lemma_find_provider_found(providers: Seq<PluginIntegrationProviderView>, id: Seq<char>)
    ensures
        find_provider(providers, id) matches Some(p) ==> qualified_id(p) == id && providers.contains(
            p,
        ),
    decreases providers.len(),
{
    if providers.len() > 0 && qualified_id(providers[0]) != id {
        let rest = providers.drop_first();
        lemma_find_provider_found(rest, id);
        if let Some(p) = find_provider(rest, id) {
            let i = choose|i: int| 0 <= i < rest.len() && rest[i] == p;
            assert(providers[i + 1] == p);
        }
    } else if providers.len() > 0 {
        assert(providers[0] == providers[0]);
    }
}

/// Where an integration runs: an integration and plugin that declare no
/// platforms run on every platform; an integration's own list decides where
/// it has one; otherwise the plugin's list decides.
pub proof fn lemma_platform_lists_decide(
    plugin_platforms: Option<Seq<PluginPlatform>>,
    integration_platforms: Option<Seq<PluginPlatform>>,
    platform: PluginPlatform,
)
    ensures
        platform_supported(None, None, platform),
        integration_platforms matches Some(ps) ==> (platform_supported(
            plugin_platforms,
            integration_platforms,
            platform,
        ) <==> exists|i: int| 0 <= i < ps.len() && ps[i] == platform),
        plugin_platforms matches Some(ps) ==> (integration_platforms is None ==> (
        platform_supported(plugin_platforms, integration_platforms, platform) <==> exists|i: int|
            0 <= i < ps.len() && ps[i] == platform)),
{
}

/// An integration of a registering plugin, where neither declares platforms,
/// is registered as a provider on every platform.
pub proof fn lemma_unrestricted_integrations_run_everywhere(
    plugins: Seq<InstalledPluginInfoView>,
    platform: PluginPlatform,
    unavailable_prefix: Seq<char>,
    i: int,
    j: int,
)
    requires
        0 <= i < plugins.len(),
        registers_providers(plugins[i], unavailable_prefix),
        0 <= j < plugins[i].integrations.len(),
        plugins[i].platforms is None,
        plugins[i].integrations[j].platforms is None,
    ensures
        spec_providers(plugins, platform, unavailable_prefix).contains(
            provider_of(plugins[i], plugins[i].integrations[j]),
        ),
{
    lemma_registering_plugins_list_their_providers(plugins, platform, unavailable_prefix, i, j);
}

/// The state read from a status file is the state the file declares, variant
/// for variant, and the API reports that same state; the file's availability
/// wins over the static one where it gives one, and its message is passed on.
pub proof fn lemma_status_file_state_is_kept(parsed: StateFile, default_available: bool)
    ensures
        ({
            let (kind, available, message) = spec_state_from_file(parsed, default_available);
            &&& (parsed.state == StateFileState::NotInstalled <==> kind
                == IntegrationStatusKind::NotInstalled)
            &&& (parsed.state == StateFileState::Current <==> kind
                == IntegrationStatusKind::Current)
            &&& (parsed.state == StateFileState::Outdated <==> kind
                == IntegrationStatusKind::Outdated)
            &&& (parsed.state == StateFileState::NotInstalled <==> crate::integration::schema_state(
                kind,
            ) == IntegrationState::NotInstalled)
            &&& (parsed.state == StateFileState::Current <==> crate::integration::schema_state(kind)
                == IntegrationState::Current)
            &&& (parsed.state == StateFileState::Outdated <==> crate::integration::schema_state(
                kind,
            ) == IntegrationState::Outdated)
            &&& (parsed.available matches Some(a) ==> available == a)
            &&& (parsed.available is None ==> available == default_available)
            &&& message == opt_string_view(parsed.message)
        }),
{
}

/// A provider's API entry reports the state its parsed status file declares.
pub proof fn lemma_entry_reports_file_state(
    p: PluginIntegrationProviderView,
    status_file: String,
    parsed: StateFile,
)
    ensures
        ({
            let e = spec_provider_info(
                p,
                StatusObservation { status_file, read: StatusFileRead::Parsed(parsed) },
            );
            &&& (parsed.state == StateFileState::NotInstalled <==> e.state
                == IntegrationState::NotInstalled)
            &&& (parsed.state == StateFileState::Current <==> e.state == IntegrationState::Current)
            &&& (parsed.state == StateFileState::Outdated <==> e.state
                == IntegrationState::Outdated)
        }),
{
}

/// On success the one message names the label and the operation that ran:
/// the label, a space, `install` or `uninstall` as requested, and
/// ` completed`; an install and an uninstall of the same provider report
/// different messages.
pub proof fn lemma_finish_names_the_operation(
    provider_id: Seq<char>,
    label: Seq<char>,
    exit_status: Seq<char>,
    operation: PluginIntegrationOperation,
)
    ensures
        spec_finish(provider_id, label, operation, true, exit_status) == Ok::<
            Seq<Seq<char>>,
            (OperationErrorKind, Seq<char>),
        >(
            seq![label + " "@ + (match operation {
                PluginIntegrationOperation::Install => "install"@,
                PluginIntegrationOperation::Uninstall => "uninstall"@,
            }) + " completed"@],
        ),
        spec_finish(provider_id, label, PluginIntegrationOperation::Install, true, exit_status)
            != spec_finish(
            provider_id,
            label,
            PluginIntegrationOperation::Uninstall,
            true,
            exit_status,
        ),
        spec_finish(provider_id, label, operation, false, exit_status) is Err,
{
    reveal_strlit("install");
    reveal_strlit("uninstall");
    reveal_strlit(" ");
    reveal_strlit(" completed");
    let a = label + " "@ + "install"@ + " completed"@;
    let b = label + " "@ + "uninstall"@ + " completed"@;
    assert(a.len() != b.len());
    assert(seq![a] != seq![b]) by {
        assert(seq![a][0] != seq![b][0]);
    }
}

/// A provider without a status file is reported not installed, with its
/// static availability and no message; one whose status file cannot be read
/// or parsed is reported outdated, with its static availability and a
/// message.
pub proof fn lemma_entry_without_usable_status_file(
    p: PluginIntegrationProviderView,
    o: StatusObservation,
)
    ensures
        o.read is Missing ==> ({
            let e = spec_provider_info(p, o);
            &&& e.state == IntegrationState::NotInstalled
            &&& e.available == p.integration.available
            &&& e.message is None
        }),
        (o.read is Unreadable || o.read is Invalid) ==> ({
            let e = spec_provider_info(p, o);
            &&& e.state == IntegrationState::Outdated
            &&& e.available == p.integration.available
            &&& e.message is Some
        }),
{
}

} // verus!
