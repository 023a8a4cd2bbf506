//! The capability plugins the bootstrap attaches to the application shell,
//! and the fixed plan the entry point follows: the "opener" plugin with its
//! default configuration, then the "prevent-default" plugin with the complete
//! suppression set.

use vstd::prelude::*;
use crate::suppression::Suppression;
use crate::suppression::SuppressionFlags;

verus! {

/// One capability plugin, with the configuration it is attached with.
#[derive(Clone, Copy, Debug, PartialEq, Eq, Structural)]
pub enum PluginConfig {
    /// The plugin that opens external resources; attached with its default
    /// configuration, no options supplied.
    Opener,
    /// The plugin that suppresses default browser behaviors in the embedded
    /// view; attached with the given suppression set.
    PreventDefault(SuppressionFlags),
}

/// The suppression set the standard plan hands to the "prevent-default"
/// plugin: the complete one.
pub open spec fn standard_suppressions() -> SuppressionFlags {
    SuppressionFlags::spec_all()
}

/// The plugins of the standard bootstrap plan, in attachment order.
pub open spec fn standard_plugin_seq() -> Seq<PluginConfig> {
    seq![
        PluginConfig::Opener,
        PluginConfig::PreventDefault(standard_suppressions()),
    ]
}

/// The standard plan as a value a driver can walk: both plugins, in the
/// attachment order of `standard_plugin_seq`.
pub fn standard_plugins() -> (v: Vec<PluginConfig>)
    ensures
        v@ == standard_plugin_seq(),
{
    let mut v: Vec<PluginConfig> = Vec::new();
    v.push(PluginConfig::Opener);
    v.push(PluginConfig::PreventDefault(SuppressionFlags::all()));
    proof {
        assert(v@ =~= standard_plugin_seq());
    }
    v
}

/// The standard plan names each plugin exactly once: the opener first, the
/// prevent-default plugin second, and nothing else.
pub proof fn lemma_standard_plan_has_both_plugins()
    ensures
        standard_plugin_seq().len() == 2,
        standard_plugin_seq()[0] == PluginConfig::Opener,
        standard_plugin_seq()[1] == PluginConfig::PreventDefault(standard_suppressions()),
{
}

/// The standard plan configures the prevent-default plugin with the maximal
/// suppression set: every individual behavior is suppressed, not a subset.
pub proof fn lemma_standard_plan_suppressions_maximal(s: Suppression)
    ensures
        standard_suppressions().spec_contains(s),
        standard_suppressions().spec_is_all(),
{
    crate::suppression::lemma_all_contains_every_suppression(s);
    assert forall|t: Suppression| standard_suppressions().spec_contains(t) by {
        crate::suppression::lemma_all_contains_every_suppression(t);
    }
}

} // verus!
