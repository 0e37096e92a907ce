use vstd::prelude::*;

use crate::settings::{lookup, stack_lookup, unique_keys, Layer, SettingValue, SettingsError};
use crate::settings::{FieldRule, ValueKind};

verus! {

/// Configuration assembled from ordered layers, lowest precedence first:
/// compiled-in defaults, the settings file, the environment.
#[derive(Debug)]
pub struct LayeredSettings {
    pub layers: Vec<Layer>,
}

/// The winner for `k` when the highest layers are `top` (only partly read)
/// above the complete layers `below`.
pub open spec fn partial_lookup(below: Seq<Layer>, top: Seq<crate::settings::Entry>, k: Seq<char>) -> Option<SettingValue> {
    match lookup(top, k) {
        Some(v) => Some(v),
        None => stack_lookup(below, k),
    }
}

/// `r` is a merged layer: its keys are unique and each key gives what the
/// layers `layers` give for it.
pub open spec fn merged_from(r: Layer, layers: Seq<Layer>) -> bool {
    &&& unique_keys(r.entries@)
    &&& forall|k: Seq<char>| #[trigger] lookup(r.entries@, k) == stack_lookup(layers, k)
}

/// The kind of a value.
pub open spec fn kind_of(v: SettingValue) -> ValueKind {
    match v {
        SettingValue::Text(_) => ValueKind::Text,
        SettingValue::Integer(_) => ValueKind::Integer,
        SettingValue::Flag(_) => ValueKind::Flag,
    }
}

/// Merged settings `m` meet `rule`: a required key is present, and a present
/// key has the rule's kind.
pub open spec fn rule_holds(m: Seq<crate::settings::Entry>, rule: FieldRule) -> bool {
    match lookup(m, rule.key@) {
        Some(v) => kind_of(v) == rule.kind,
        None => !rule.required,
    }
}

pub open spec fn schema_holds(m: Seq<crate::settings::Entry>, schema: Seq<FieldRule>) -> bool {
    forall|i: int| 0 <= i < schema.len() ==> #[trigger] rule_holds(m, schema[i])
}

fn value_kind(v: &SettingValue) -> (r: ValueKind)
    ensures
        r == kind_of(*v),
{
    match v {
        SettingValue::Text(_) => ValueKind::Text,
        SettingValue::Integer(_) => ValueKind::Integer,
        SettingValue::Flag(_) => ValueKind::Flag,
    }
}

/// Checks merged settings against a schema; fails with `ConfigError` naming
/// the key of the first rule that does not hold.
pub fn validate(merged: &Layer, schema: &Vec<FieldRule>) -> (r: Result<(), SettingsError>)
    ensures
        r is Ok <==> schema_holds(merged.entries@, schema@),
        r matches Err(e) ==> e is ConfigError,
{
    let mut i: usize = 0;
    while i < schema.len()
        invariant
            i <= schema@.len(),
            forall|m: int| 0 <= m < i ==> #[trigger] rule_holds(merged.entries@, schema@[m]),
        decreases schema@.len() - i,
    {
        let rule = &schema[i];
        let ok = match merged.get(&rule.key) {
            Some(v) => value_kind(&v) == rule.kind,
            None => !rule.required,
        };
        if !ok {
            assert(!rule_holds(merged.entries@, schema@[i as int]));
            return Err(SettingsError::ConfigError { reason: rule.key.clone() });
        }
        i += 1;
    }
    Ok(())
}

impl LayeredSettings {
    /// Merges all layers and checks the result against `schema`.
    pub fn resolve_checked(&self, schema: &Vec<FieldRule>) -> (r: Result<Layer, SettingsError>)
        ensures
            match r {
                Ok(m) => merged_from(m, self.layers@) && schema_holds(m.entries@, schema@),
                Err(e) => e is ConfigError && exists|m: Layer|
                    merged_from(m, self.layers@) && !schema_holds(m.entries@, schema@),
            },
    {
        let m = self.resolve();
        match validate(&m, schema) {
            Ok(()) => Ok(m),
            Err(e) => Err(e),
        }
    }

    /// Settings from the defaults, file and environment layers, in that order of precedence.
    pub fn new(defaults: Layer, file: Layer, environment: Layer) -> (r: LayeredSettings)
        ensures
            r.layers@ == seq![defaults, file, environment],
    {
        let mut layers: Vec<Layer> = Vec::new();
        layers.push(defaults);
        layers.push(file);
        layers.push(environment);
        assert(layers@ =~= seq![defaults, file, environment]);
        LayeredSettings { layers }
    }

    /// Adds a layer above all the others.
    pub fn push_layer(&mut self, layer: Layer)
        ensures
            final(self).layers@ == old(self).layers@.push(layer),
    {
        self.layers.push(layer);
    }

    /// Merges all layers into one, whose keys are unique and whose value for each
    /// key is the value of the highest layer that holds it.
    pub fn resolve(&self) -> (r: Layer)
        ensures
            merged_from(r, self.layers@),
    {
        let mut r = Layer::new();
        let mut i: usize = 0;
        while i < self.layers.len()
            invariant
                i <= self.layers@.len(),
                merged_from(r, self.layers@.take(i as int)),
            decreases self.layers@.len() - i,
        {
            let layer = &self.layers[i];
            let mut j: usize = 0;
            while j < layer.entries.len()
                invariant
                    i < self.layers@.len(),
                    *layer == self.layers@[i as int],
                    j <= layer.entries@.len(),
                    unique_keys(r.entries@),
                    forall|k: Seq<char>|
                        #[trigger] lookup(r.entries@, k) == partial_lookup(
                            self.layers@.take(i as int),
                            layer.entries@.take(j as int),
                            k,
                        ),
                decreases layer.entries@.len() - j,
            {
                let ghost e = layer.entries@[j as int];
                let key = layer.entries[j].key.clone();
                let value = layer.entries[j].value.duplicate();
                r.upsert(key, value);
                proof {
                    assert(layer.entries@.take(j as int).push(e) =~= layer.entries@.take(j + 1));
                    assert forall|k: Seq<char>|
                        #[trigger] lookup(r.entries@, k) == partial_lookup(
                            self.layers@.take(i as int),
                            layer.entries@.take(j + 1),
                            k,
                        ) by {
                        crate::settings::lemma_lookup_push(layer.entries@.take(j as int), e, k);
                    }
                }
                j += 1;
            }
            proof {
                assert(layer.entries@.take(j as int) =~= layer.entries@);
                assert(self.layers@.take(i + 1).drop_last() =~= self.layers@.take(i as int));
                assert forall|k: Seq<char>|
                    #[trigger] lookup(r.entries@, k) == stack_lookup(self.layers@.take(i + 1), k) by {
                    assert(self.layers@.take(i + 1).last() == self.layers@[i as int]);
                }
            }
            i += 1;
        }
        assert(self.layers@.take(i as int) =~= self.layers@);
        r
    }

    /// The value of `key` in the highest layer that holds it.
    pub fn find_value(&self, key: &String) -> (r: Result<SettingValue, SettingsError>)
        ensures
            match stack_lookup(self.layers@, key@) {
                Some(v) => r == Ok::<SettingValue, SettingsError>(v),
                None => r matches Err(SettingsError::KeyNotFound { key: k }) && k@ == key@,
            },
    {
        let mut i: usize = self.layers.len();
        assert(self.layers@.take(i as int) =~= self.layers@);
        while i > 0
            invariant
                i <= self.layers@.len(),
                stack_lookup(self.layers@, key@) == stack_lookup(self.layers@.take(i as int), key@),
            decreases i,
        {
            let ghost t = self.layers@.take(i as int);
            assert(t.drop_last() =~= self.layers@.take(i - 1));
            assert(t.last() == self.layers@[i - 1]);
            match self.layers[i - 1].get(key) {
                Some(v) => {
                    return Ok(v);
                },
                None => {},
            }
            i -= 1;
        }
        Err(SettingsError::KeyNotFound { key: key.clone() })
    }

    /// The merged result with one more layer on top that holds only `key = value`;
    /// the layers themselves are left as they are.
    pub fn with_override(&self, key: String, value: SettingValue) -> (r: Layer)
        ensures
            unique_keys(r.entries@),
            forall|k: Seq<char>|
                #[trigger] lookup(r.entries@, k) == (if k == key@ {
                    Some(value)
                } else {
                    stack_lookup(self.layers@, k)
                }),
    {
        let mut r = self.resolve();
        r.upsert(key, value);
        r
    }
}

proof fn lemma_highest_layer(layers: Seq<Layer>, k: Seq<char>, i: int)
    requires
        0 <= i < layers.len(),
        lookup(layers[i].entries@, k) is Some,
        forall|j: int| i < j < layers.len() ==> #[trigger] lookup(layers[j].entries@, k) is None,
    ensures
        stack_lookup(layers, k) == lookup(layers[i].entries@, k),
    decreases layers.len(),
{
    if i < layers.len() - 1 {
        assert(lookup(layers[layers.len() - 1].entries@, k) is None);
        let d = layers.drop_last();
        assert forall|j: int| i < j < d.len() implies #[trigger] lookup(d[j].entries@, k) is None by {
            assert(d[j] == layers[j]);
        }
        lemma_highest_layer(d, k, i);
    }
}

/// For a key that several layers hold, the merged result gives the value of the
/// highest of those layers.
pub proof fn law_highest_layer_wins(layers: Seq<Layer>, merged: Layer, k: Seq<char>, i: int)
    requires
        merged_from(merged, layers),
        0 <= i < layers.len(),
        lookup(layers[i].entries@, k) is Some,
        forall|j: int| i < j < layers.len() ==> #[trigger] lookup(layers[j].entries@, k) is None,
    ensures
        lookup(merged.entries@, k) == lookup(layers[i].entries@, k),
{
    lemma_highest_layer(layers, k, i);
}

/// A point lookup over the layers and a lookup in the merged result agree on
/// every key.
pub proof fn law_find_agrees_with_resolve(layers: Seq<Layer>, merged: Layer, k: Seq<char>)
    requires
        merged_from(merged, layers),
    ensures
        lookup(merged.entries@, k) == stack_lookup(layers, k),
{
}

} // verus!
