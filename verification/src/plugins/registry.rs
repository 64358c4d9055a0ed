//! Plugin registry: which plugin serves an instrument.

use super::family::DeviceFamily;
use super::{DefaultPlugin, DeviceCapabilities, DevicePlugin, ParseResult, RangeInfo, SpmPlugin};
use crate::multimeter::MeterMode;
use crate::ranges::{
    first_true, lemma_first_true, lemma_first_true_at, lemma_first_true_none, RangeMatch,
};
use crate::text::{
    ascii_lower, eq_ignoring_case, same_ignoring_case, split, split_at_char, strip, texts, trimmed,
};
use vstd::prelude::*;

verus! {

/// The plugin of an instrument.
pub enum Plugin {
    Default(DefaultPlugin),
    Spm(SpmPlugin),
}

impl DevicePlugin for Plugin {
    open spec fn family(&self) -> DeviceFamily {
        match self {
            Plugin::Default(plugin) => plugin.family(),
            Plugin::Spm(plugin) => plugin.family(),
        }
    }

    fn configure_from_idn(&mut self, idn: &str) {
        match self {
            Plugin::Default(plugin) => plugin.configure_from_idn(idn),
            Plugin::Spm(plugin) => plugin.configure_from_idn(idn),
        }
    }

    fn name(&self) -> &str {
        match self {
            Plugin::Default(plugin) => plugin.name(),
            Plugin::Spm(plugin) => plugin.name(),
        }
    }

    fn capabilities(&self) -> &DeviceCapabilities {
        match self {
            Plugin::Default(plugin) => plugin.capabilities(),
            Plugin::Spm(plugin) => plugin.capabilities(),
        }
    }

    fn measurement_command(&self) -> &str {
        match self {
            Plugin::Default(plugin) => plugin.measurement_command(),
            Plugin::Spm(plugin) => plugin.measurement_command(),
        }
    }

    fn function_query_command(&self) -> &str {
        match self {
            Plugin::Default(plugin) => plugin.function_query_command(),
            Plugin::Spm(plugin) => plugin.function_query_command(),
        }
    }

    fn mode_command(&self, mode: MeterMode) -> String {
        match self {
            Plugin::Default(plugin) => plugin.mode_command(mode),
            Plugin::Spm(plugin) => plugin.mode_command(mode),
        }
    }

    fn rate_command(&self, index: usize) -> Option<String> {
        match self {
            Plugin::Default(plugin) => plugin.rate_command(index),
            Plugin::Spm(plugin) => plugin.rate_command(index),
        }
    }

    fn range_command(&self, mode: MeterMode, range_index: usize) -> Option<String> {
        match self {
            Plugin::Default(plugin) => plugin.range_command(mode, range_index),
            Plugin::Spm(plugin) => plugin.range_command(mode, range_index),
        }
    }

    fn hold_command(&self, on: bool) -> Option<String> {
        match self {
            Plugin::Default(plugin) => plugin.hold_command(on),
            Plugin::Spm(plugin) => plugin.hold_command(on),
        }
    }

    fn beeper_command(&self, on: bool) -> Option<String> {
        match self {
            Plugin::Default(plugin) => plugin.beeper_command(on),
            Plugin::Spm(plugin) => plugin.beeper_command(on),
        }
    }

    fn cont_threshold_command(&self, ohms: u32) -> Option<String> {
        match self {
            Plugin::Default(plugin) => plugin.cont_threshold_command(ohms),
            Plugin::Spm(plugin) => plugin.cont_threshold_command(ohms),
        }
    }

    fn diod_threshold_command(&self, volts: &str) -> Option<String> {
        match self {
            Plugin::Default(plugin) => plugin.diod_threshold_command(volts),
            Plugin::Spm(plugin) => plugin.diod_threshold_command(volts),
        }
    }

    fn ps_output_command(&self, on: bool) -> Option<String> {
        match self {
            Plugin::Default(plugin) => plugin.ps_output_command(on),
            Plugin::Spm(plugin) => plugin.ps_output_command(on),
        }
    }

    fn ps_query_output(&self) -> Option<&str> {
        match self {
            Plugin::Default(plugin) => plugin.ps_query_output(),
            Plugin::Spm(plugin) => plugin.ps_query_output(),
        }
    }

    fn ps_set_voltage(&self, v: &str) -> Option<String> {
        match self {
            Plugin::Default(plugin) => plugin.ps_set_voltage(v),
            Plugin::Spm(plugin) => plugin.ps_set_voltage(v),
        }
    }

    fn ps_set_current(&self, a: &str) -> Option<String> {
        match self {
            Plugin::Default(plugin) => plugin.ps_set_current(a),
            Plugin::Spm(plugin) => plugin.ps_set_current(a),
        }
    }

    fn ps_set_ovp(&self, v: &str) -> Option<String> {
        match self {
            Plugin::Default(plugin) => plugin.ps_set_ovp(v),
            Plugin::Spm(plugin) => plugin.ps_set_ovp(v),
        }
    }

    fn ps_set_ocp(&self, a: &str) -> Option<String> {
        match self {
            Plugin::Default(plugin) => plugin.ps_set_ocp(a),
            Plugin::Spm(plugin) => plugin.ps_set_ocp(a),
        }
    }

    fn ps_query_voltage(&self) -> Option<&str> {
        match self {
            Plugin::Default(plugin) => plugin.ps_query_voltage(),
            Plugin::Spm(plugin) => plugin.ps_query_voltage(),
        }
    }

    fn ps_query_current(&self) -> Option<&str> {
        match self {
            Plugin::Default(plugin) => plugin.ps_query_current(),
            Plugin::Spm(plugin) => plugin.ps_query_current(),
        }
    }

    fn ps_query_ovp(&self) -> Option<&str> {
        match self {
            Plugin::Default(plugin) => plugin.ps_query_ovp(),
            Plugin::Spm(plugin) => plugin.ps_query_ovp(),
        }
    }

    fn ps_query_ocp(&self) -> Option<&str> {
        match self {
            Plugin::Default(plugin) => plugin.ps_query_ocp(),
            Plugin::Spm(plugin) => plugin.ps_query_ocp(),
        }
    }

    fn ps_query_meas_all(&self) -> Option<&str> {
        match self {
            Plugin::Default(plugin) => plugin.ps_query_meas_all(),
            Plugin::Spm(plugin) => plugin.ps_query_meas_all(),
        }
    }

    fn parse_measurement(&self, response: &str) -> ParseResult {
        match self {
            Plugin::Default(plugin) => plugin.parse_measurement(response),
            Plugin::Spm(plugin) => plugin.parse_measurement(response),
        }
    }

    fn parse_range_response(&self, response: &str, mode: MeterMode) -> RangeMatch {
        match self {
            Plugin::Default(plugin) => plugin.parse_range_response(response, mode),
            Plugin::Spm(plugin) => plugin.parse_range_response(response, mode),
        }
    }

    fn range_info(&self, mode: MeterMode) -> Option<RangeInfo> {
        match self {
            Plugin::Default(plugin) => plugin.range_info(mode),
            Plugin::Spm(plugin) => plugin.range_info(mode),
        }
    }
}

/// The model name in an `*IDN?` response: `"OWON,SPM6103,25281747,FV:V2.1.0"` names `"SPM6103"`.
pub open spec fn model_name(idn: Seq<char>) -> Seq<char> {
    if split(idn, ',').len() >= 2 {
        trimmed(split(idn, ',')[1])
    } else {
        seq![]
    }
}

/// Extracts the model name from an `*IDN?` response.
pub fn extract_model(idn: &str) -> (r: String)
    ensures
        r@ == model_name(idn@),
{
    let parts: Vec<&str> = split_at_char(idn, ',');
    assert(texts(parts@).len() == parts@.len());
    if parts.len() >= 2 {
        assert(texts(parts@)[1] == parts@[1]@);
        strip(parts[1]).to_owned()
    } else {
        String::new()
    }
}

/// The device families that are recognised by model name.
#[derive(Clone, Copy, PartialEq, Eq, Debug, Structural)]
pub enum RegisteredFamily {
    Spm,
}

/// One registered family with the model-name prefix that selects it.
pub struct PluginRegistryEntry {
    pub prefix: &'static str,
    pub family: RegisteredFamily,
}

/// The prefixes of registry entries.
pub open spec fn prefixes(registry: Seq<PluginRegistryEntry>) -> Seq<Seq<char>> {
    Seq::new(registry.len(), |i: int| registry[i].prefix@)
}

/// The entry that is selected by the first `n` characters of a model name or, failing that, by
/// fewer of them. No entry is selected by none.
pub open spec fn selected(prefixes: Seq<Seq<char>>, model: Seq<char>, n: nat) -> Option<usize>
    decreases n,
{
    if n == 0 {
        None
    } else {
        let exact = first_true(
            Seq::new(
                prefixes.len(),
                |i: int| eq_ignoring_case(prefixes[i], model.take(n as int)),
            ),
        );
        if exact is Some {
            exact
        } else {
            selected(prefixes, model, (n - 1) as nat)
        }
    }
}

/// The entry that is selected by a model name.
pub open spec fn best_match(prefixes: Seq<Seq<char>>, model: Seq<char>) -> Option<usize> {
    selected(prefixes, model, model.len())
}

/// Whether a model name begins with a prefix, up to the case of ASCII letters.
pub open spec fn has_prefix(model: Seq<char>, prefix: Seq<char>) -> bool {
    0 < prefix.len() <= model.len() && eq_ignoring_case(prefix, model.take(prefix.len() as int))
}

/// All registered plugins. New device families are added here.
/// Plugins with longer prefixes are more specific and win over shorter ones.
pub fn plugin_registry() -> (r: Vec<PluginRegistryEntry>)
    ensures
        prefixes(r@) == seq!["SPM"@],
        r@[0].family == RegisteredFamily::Spm,
{
    let r: Vec<PluginRegistryEntry> = vec![
        PluginRegistryEntry { prefix: "SPM", family: RegisteredFamily::Spm },
    ];
    assert(prefixes(r@) =~= seq!["SPM"@]);
    r
}

/// Finds the entry that is selected by a model name, trying ever shorter beginnings of it.
pub fn find_entry(registry: &Vec<PluginRegistryEntry>, model: &str) -> (r: Option<usize>)
    ensures
        r == best_match(prefixes(registry@), model@),
        r is Some ==> r->0 < registry@.len(),
{
    let mut n: usize = model.unicode_len();
    while n > 0
        invariant
            n <= model@.len(),
            best_match(prefixes(registry@), model@) == selected(
                prefixes(registry@),
                model@,
                n as nat,
            ),
        decreases n,
    {
        let test_prefix: &str = model.substring_char(0, n);
        assert(test_prefix@ =~= model@.take(n as int));
        let ghost flags = Seq::new(
            prefixes(registry@).len(),
            |i: int| eq_ignoring_case(prefixes(registry@)[i], model@.take(n as int)),
        );
        let mut i: usize = 0;
        while i < registry.len()
            invariant
                i <= registry@.len(),
                0 < n <= model@.len(),
                test_prefix@ == model@.take(n as int),
                flags == Seq::new(
                    prefixes(registry@).len(),
                    |i: int| eq_ignoring_case(prefixes(registry@)[i], model@.take(n as int)),
                ),
                forall|j: int| 0 <= j < i ==> !flags[j],
                best_match(prefixes(registry@), model@) == selected(
                    prefixes(registry@),
                    model@,
                    n as nat,
                ),
            decreases registry@.len() - i,
        {
            if same_ignoring_case(registry[i].prefix, test_prefix) {
                proof {
                    lemma_first_true_at(flags, i as int);
                }
                return Some(i);
            }
            i += 1;
        }
        proof {
            lemma_first_true_none(flags);
        }
        n -= 1;
    }
    None
}

/// The family that an `*IDN?` response selects, before it is configured.
pub open spec fn recognised(idn: Seq<char>) -> DeviceFamily {
    match best_match(seq!["SPM"@], model_name(idn)) {
        Some(i) => DeviceFamily::Spm,
        None => DeviceFamily::Default { swap_diod_cont: false },
    }
}

/// Resolves the best matching plugin for a device based on its `*IDN?` response.
///
/// The model name is tried as a whole and then ever shorter beginnings of it (`SPM6103`, `SPM610`,
/// down to `S`); the first registry match wins, which is the most specific one. Without a match
/// the default plugin serves the device. Either is configured from the response.
pub fn resolve_plugin(idn: &str) -> (r: Plugin)
    ensures
        r.family() == recognised(idn@).configured(idn@),
{
    let model: String = extract_model(idn);
    let registry: Vec<PluginRegistryEntry> = plugin_registry();
    assert(registry@.len() == prefixes(registry@).len());
    match find_entry(&registry, model.as_str()) {
        Some(i) => {
            match registry[i].family {
                RegisteredFamily::Spm => {
                    let mut plugin: SpmPlugin = SpmPlugin::new();
                    plugin.configure_from_idn(idn);
                    Plugin::Spm(plugin)
                },
            }
        },
        None => {
            let mut plugin: DefaultPlugin = DefaultPlugin::new();
            plugin.configure_from_idn(idn);
            Plugin::Default(plugin)
        },
    }
}

/// Creates a default plugin (used before a device is identified).
pub fn default_plugin() -> (r: Plugin)
    ensures
        r.family() == (DeviceFamily::Default { swap_diod_cont: false }),
{
    Plugin::Default(DefaultPlugin::new())
}

// ---------------------------------------------------------------------------------------------
// Laws
// ---------------------------------------------------------------------------------------------

/// What is selected by at most `n` characters.
proof fn lemma_selected(prefixes: Seq<Seq<char>>, model: Seq<char>, n: nat)
    requires
        prefixes.len() <= usize::MAX,
        n <= model.len(),
    ensures
        selected(prefixes, model, n) matches Some(i) ==> {
            &&& i < prefixes.len()
            &&& has_prefix(model, prefixes[i as int])
            &&& prefixes[i as int].len() <= n
            &&& forall|j: int|
                0 <= j < prefixes.len() && has_prefix(model, #[trigger] prefixes[j])
                    && prefixes[j].len() <= n ==> prefixes[j].len() < prefixes[i as int].len() || (
                prefixes[j].len() == prefixes[i as int].len() && i <= j)
        },
        selected(prefixes, model, n) is None ==> forall|j: int|
            0 <= j < prefixes.len() && prefixes[j].len() <= n ==> !has_prefix(
                model,
                #[trigger] prefixes[j],
            ),
    decreases n,
{
    if n > 0 {
        let flags = Seq::new(
            prefixes.len(),
            |i: int| eq_ignoring_case(prefixes[i], model.take(n as int)),
        );
        lemma_first_true(flags);
        assert forall|i: int| 0 <= i < prefixes.len() && flags[i] implies prefixes[i].len() == n
            && has_prefix(model, #[trigger] prefixes[i]) by {
            assert(ascii_lower(prefixes[i]).len() == ascii_lower(model.take(n as int)).len());
        }
        assert forall|j: int|
            0 <= j < prefixes.len() && has_prefix(model, #[trigger] prefixes[j])
                && prefixes[j].len() == n implies flags[j] by {}
        if first_true(flags) is None {
            lemma_selected(prefixes, model, (n - 1) as nat);
            assert forall|j: int|
                0 <= j < prefixes.len() && prefixes[j].len() <= n && has_prefix(
                    model,
                    #[trigger] prefixes[j],
                ) implies prefixes[j].len() <= n - 1 by {
                if prefixes[j].len() == n {
                    assert(flags[j]);
                }
            }
        } else {
            let i = first_true(flags)->0;
            assert(flags[i as int]);
            assert forall|j: int|
                0 <= j < prefixes.len() && has_prefix(model, #[trigger] prefixes[j])
                    && prefixes[j].len() <= n implies prefixes[j].len() < prefixes[i as int].len()
                || (prefixes[j].len() == prefixes[i as int].len() && i <= j) by {
                if prefixes[j].len() == n {
                    assert(flags[j]);
                }
            }
        }
    }
}

/// The most specific plugin wins: whatever is registered, the selected entry's prefix begins the
/// model name, no longer registered prefix does, and among equally long ones it is the first. No
/// entry is selected only if no registered prefix begins the model name.
pub proof fn law_most_specific_wins(prefixes: Seq<Seq<char>>, model: Seq<char>)
    requires
        prefixes.len() <= usize::MAX,
    ensures
        match best_match(prefixes, model) {
            Some(i) => {
                &&& i < prefixes.len()
                &&& has_prefix(model, prefixes[i as int])
                &&& forall|j: int|
                    0 <= j < prefixes.len() && has_prefix(model, #[trigger] prefixes[j])
                        ==> prefixes[j].len() < prefixes[i as int].len() || (prefixes[j].len()
                        == prefixes[i as int].len() && i <= j)
            },
            None => forall|j: int|
                0 <= j < prefixes.len() ==> !has_prefix(model, #[trigger] prefixes[j]),
        },
{
    lemma_selected(prefixes, model, model.len());
}

/// The SPM plugin serves exactly the devices whose model name begins with "SPM", in any case; the
/// default plugin serves all others.
pub proof fn law_spm_serves_spm_models(idn: Seq<char>)
    ensures
        recognised(idn).configured(idn) is Spm == has_prefix(model_name(idn), "SPM"@),
        recognised(idn).configured(idn) is Default == !has_prefix(model_name(idn), "SPM"@),
{
    let registered = seq!["SPM"@];
    lemma_selected(registered, model_name(idn), model_name(idn).len());
    assert(registered[0] == "SPM"@);
}

} // verus!
