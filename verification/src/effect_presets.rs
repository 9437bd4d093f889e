//! The report of the effect catalog: every effect plugin with the number of presets
//! found for it, every preset, and the preset files that were skipped.
use vstd::prelude::*;

use crate::text::{decimal_digits, decimal_string, owned};

verus! {

broadcast use vstd::string::group_string_axioms;

/// An effect plugin of the catalog. `key` is what its presets name it by.
#[derive(Clone, Debug)]
pub struct EffectPlugin {
    pub key: u64,
    pub name: String,
    pub plugin_id: String,
    pub plugin_path: String,
    pub json_key: String,
    pub preset_root: String,
}

/// A preset of the catalog, for the plugin whose key is `plugin`.
#[derive(Clone, Debug)]
pub struct EffectPreset {
    pub plugin: u64,
    pub display: String,
    pub json_key: String,
    pub value: String,
    pub path: String,
}

/// What a scan of the preset directories found.
#[derive(Clone, Debug)]
pub struct EffectCatalog {
    pub plugins: Vec<EffectPlugin>,
    pub presets: Vec<EffectPreset>,
    /// One line for each preset file that could not be read.
    pub skipped: Vec<String>,
}

#[derive(Clone, Debug, PartialEq, Eq)]
pub struct PluginReport {
    pub name: String,
    pub plugin_id: String,
    pub plugin_path: String,
    pub json_key: String,
    pub preset_root: String,
    pub preset_count: usize,
}

#[derive(Clone, Debug, PartialEq, Eq)]
pub struct PresetReport {
    pub display: String,
    pub json_key: String,
    pub value: String,
    pub path: String,
}

#[derive(Clone, Debug, PartialEq, Eq)]
pub struct CatalogReport {
    pub plugins: Vec<PluginReport>,
    pub presets: Vec<PresetReport>,
    pub skipped: Vec<String>,
}

/// The presets of the plugin with key `key`.
pub open spec fn presets_of(presets: Seq<EffectPreset>, key: u64) -> Seq<EffectPreset> {
    presets.filter(|p: EffectPreset| p.plugin == key)
}

/// The report row of `plugin`.
pub open spec fn reports_plugin(row: PluginReport, plugin: EffectPlugin, presets: Seq<EffectPreset>) -> bool {
    &&& row.name@ == plugin.name@
    &&& row.plugin_id@ == plugin.plugin_id@
    &&& row.plugin_path@ == plugin.plugin_path@
    &&& row.json_key@ == plugin.json_key@
    &&& row.preset_root@ == plugin.preset_root@
    &&& row.preset_count == presets_of(presets, plugin.key).len()
}

/// The report row of `preset`.
pub open spec fn reports_preset(row: PresetReport, preset: EffectPreset) -> bool {
    &&& row.display@ == preset.display@
    &&& row.json_key@ == preset.json_key@
    &&& row.value@ == preset.value@
    &&& row.path@ == preset.path@
}

/// How many presets belong to the plugin with key `key`.
pub fn preset_count(presets: &Vec<EffectPreset>, key: u64) -> (count: usize)
    ensures
        count == presets_of(presets@, key).len(),
{
    let mut count: usize = 0;
    let mut i: usize = 0;
    while i < presets.len()
        invariant
            0 <= i <= presets@.len(),
            count == presets_of(presets@.take(i as int), key).len(),
            count <= i,
        decreases presets@.len() - i,
    {
        proof {
            let next = presets@.take(i + 1);
            assert(next.drop_last() =~= presets@.take(i as int));
            assert(next.last() == presets@[i as int]);
            reveal(Seq::filter);
        }
        if presets[i].plugin == key {
            count = count + 1;
        }
        i = i + 1;
    }
    assert(presets@.take(i as int) =~= presets@);
    count
}

/// The report of the catalog: one row per plugin, in order, with its preset count;
/// one row per preset, in order; and the skipped files.
pub fn report(catalog: &EffectCatalog) -> (report: CatalogReport)
    ensures
        report.plugins@.len() == catalog.plugins@.len(),
        forall|i: int|
            0 <= i < catalog.plugins@.len() ==> reports_plugin(
                #[trigger] report.plugins@[i],
                catalog.plugins@[i],
                catalog.presets@,
            ),
        report.presets@.len() == catalog.presets@.len(),
        forall|i: int|
            0 <= i < catalog.presets@.len() ==> reports_preset(
                #[trigger] report.presets@[i],
                catalog.presets@[i],
            ),
        report.skipped@.len() == catalog.skipped@.len(),
        forall|i: int|
            0 <= i < catalog.skipped@.len() ==> #[trigger] report.skipped@[i]@ == catalog.skipped@[i]@,
{
    let mut plugins: Vec<PluginReport> = Vec::new();
    let mut i: usize = 0;
    while i < catalog.plugins.len()
        invariant
            0 <= i <= catalog.plugins@.len(),
            plugins@.len() == i,
            forall|j: int|
                0 <= j < i ==> reports_plugin(
                    #[trigger] plugins@[j],
                    catalog.plugins@[j],
                    catalog.presets@,
                ),
        decreases catalog.plugins@.len() - i,
    {
        let plugin = &catalog.plugins[i];
        plugins.push(
            PluginReport {
                name: owned(plugin.name.as_str()),
                plugin_id: owned(plugin.plugin_id.as_str()),
                plugin_path: owned(plugin.plugin_path.as_str()),
                json_key: owned(plugin.json_key.as_str()),
                preset_root: owned(plugin.preset_root.as_str()),
                preset_count: preset_count(&catalog.presets, plugin.key),
            },
        );
        i = i + 1;
    }
    let mut presets: Vec<PresetReport> = Vec::new();
    let mut k: usize = 0;
    while k < catalog.presets.len()
        invariant
            0 <= k <= catalog.presets@.len(),
            presets@.len() == k,
            forall|j: int| 0 <= j < k ==> reports_preset(#[trigger] presets@[j], catalog.presets@[j]),
        decreases catalog.presets@.len() - k,
    {
        let preset = &catalog.presets[k];
        presets.push(
            PresetReport {
                display: owned(preset.display.as_str()),
                json_key: owned(preset.json_key.as_str()),
                value: owned(preset.value.as_str()),
                path: owned(preset.path.as_str()),
            },
        );
        k = k + 1;
    }
    let mut skipped: Vec<String> = Vec::new();
    let mut m: usize = 0;
    while m < catalog.skipped.len()
        invariant
            0 <= m <= catalog.skipped@.len(),
            skipped@.len() == m,
            forall|j: int| 0 <= j < m ==> #[trigger] skipped@[j]@ == catalog.skipped@[j]@,
        decreases catalog.skipped@.len() - m,
    {
        skipped.push(owned(catalog.skipped[m].as_str()));
        m = m + 1;
    }
    CatalogReport { plugins, presets, skipped }
}

pub open spec fn totals_text(plugins: nat, presets: nat, skipped: nat) -> Seq<char> {
    "total: "@ + decimal_digits(plugins) + " plugins, "@ + decimal_digits(presets) + " presets, "@
        + decimal_digits(skipped) + " skipped"@
}

/// The last line of the plain listing.
pub fn totals_line(catalog: &EffectCatalog) -> (line: String)
    ensures
        line@ == totals_text(
            catalog.plugins@.len(),
            catalog.presets@.len(),
            catalog.skipped@.len(),
        ),
{
    let mut line = owned("total: ");
    line.append(decimal_string(catalog.plugins.len() as u64).as_str());
    line.append(" plugins, ");
    line.append(decimal_string(catalog.presets.len() as u64).as_str());
    line.append(" presets, ");
    line.append(decimal_string(catalog.skipped.len() as u64).as_str());
    line.append(" skipped");
    line
}

} // verus!
