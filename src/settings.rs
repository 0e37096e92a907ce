use vstd::prelude::*;

verus! {

/// A single configuration value.
#[derive(Debug)]
pub enum SettingValue {
    Text(String),
    Integer(i64),
    Flag(bool),
}

impl SettingValue {
    /// An exact copy of this value.
    pub fn duplicate(&self) -> (r: SettingValue)
        ensures
            r == *self,
    {
        match self {
            SettingValue::Text(s) => SettingValue::Text(s.clone()),
            SettingValue::Integer(i) => SettingValue::Integer(*i),
            SettingValue::Flag(b) => SettingValue::Flag(*b),
        }
    }
}

pub open spec fn same_value(a: SettingValue, b: SettingValue) -> bool {
    match (a, b) {
        (SettingValue::Text(x), SettingValue::Text(y)) => x@ == y@,
        (SettingValue::Integer(x), SettingValue::Integer(y)) => x == y,
        (SettingValue::Flag(x), SettingValue::Flag(y)) => x == y,
        _ => false,
    }
}

impl PartialEq for SettingValue {
    fn eq(&self, o: &SettingValue) -> (r: bool) {
        match (self, o) {
            (SettingValue::Text(x), SettingValue::Text(y)) => *x == *y,
            (SettingValue::Integer(x), SettingValue::Integer(y)) => *x == *y,
            (SettingValue::Flag(x), SettingValue::Flag(y)) => *x == *y,
            _ => false,
        }
    }
}

impl vstd::std_specs::cmp::PartialEqSpecImpl for SettingValue {
    open spec fn obeys_eq_spec() -> bool {
        true
    }

    open spec fn eq_spec(&self, o: &SettingValue) -> bool {
        same_value(*self, *o)
    }
}

/// One key/value pair of a layer; the key is a dotted path such as `paths.data`.
#[derive(Debug)]
pub struct Entry {
    pub key: String,
    pub value: SettingValue,
}

/// The value that the last entry with key `k` gives, if any entry has that key.
pub open spec fn lookup(s: Seq<Entry>, k: Seq<char>) -> Option<SettingValue>
    decreases s.len(),
{
    if s.len() == 0 {
        None
    } else if s.last().key@ == k {
        Some(s.last().value)
    } else {
        lookup(s.drop_last(), k)
    }
}

/// No two entries share a key.
pub open spec fn unique_keys(s: Seq<Entry>) -> bool {
    forall|i: int, j: int|
        0 <= i < s.len() && 0 <= j < s.len() && i != j ==> #[trigger] s[i].key@ != #[trigger] s[j].key@
}

/// The winner for key `k` over layers ordered from lowest to highest precedence:
/// the highest layer that holds `k` decides.
pub open spec fn stack_lookup(layers: Seq<Layer>, k: Seq<char>) -> Option<SettingValue>
    decreases layers.len(),
{
    if layers.len() == 0 {
        None
    } else {
        match lookup(layers.last().entries@, k) {
            Some(v) => Some(v),
            None => stack_lookup(layers.drop_last(), k),
        }
    }
}

/// An ordered source of configuration values. Within a layer a later entry
/// overrides an earlier one with the same key.
#[derive(Debug)]
pub struct Layer {
    pub entries: Vec<Entry>,
}

/// The kinds of value.
#[derive(Debug, Clone, Copy, PartialEq, Eq, Structural)]
pub enum ValueKind {
    Text,
    Integer,
    Flag,
}

/// A rule of the settings schema: the kind of value that `key` must have, and
/// whether it must be present.
#[derive(Debug)]
pub struct FieldRule {
    pub key: String,
    pub kind: ValueKind,
    pub required: bool,
}

/// Errors of configuration resolution and lookup.
#[derive(Debug)]
pub enum SettingsError {
    /// A layer could not be read, or the merged result is not valid.
    ConfigError { reason: String },
    /// No layer holds the key.
    KeyNotFound { key: String },
    /// The output format is recognised but not implemented.
    UnsupportedFormat { format: SettingsFormat },
}

/// Output formats that can be selected for `get` and `show`.
#[derive(Debug, Clone, Copy, PartialEq, Eq, Structural)]
pub enum SettingsFormat {
    Json,
    Toml,
    Ini,
    Yaml,
}

/// The formats that are implemented.
pub open spec fn format_supported(f: SettingsFormat) -> bool {
    f == SettingsFormat::Json || f == SettingsFormat::Toml
}

/// Accepts `json` and `toml`; every other format fails.
pub fn require_supported_format(f: SettingsFormat) -> (r: Result<SettingsFormat, SettingsError>)
    ensures
        format_supported(f) <==> r is Ok,
        r matches Ok(g) ==> g == f,
        r matches Err(e) ==> (e matches SettingsError::UnsupportedFormat { format } && format == f),
{
    match f {
        SettingsFormat::Json => Ok(f),
        SettingsFormat::Toml => Ok(f),
        _ => Err(SettingsError::UnsupportedFormat { format: f }),
    }
}

pub proof fn lemma_lookup_push(s: Seq<Entry>, e: Entry, k: Seq<char>)
    ensures
        lookup(s.push(e), k) == (if e.key@ == k { Some(e.value) } else { lookup(s, k) }),
{
    assert(s.push(e).drop_last() =~= s);
}

proof fn lemma_lookup_update(s: Seq<Entry>, j: int, e: Entry, k: Seq<char>)
    requires
        unique_keys(s),
        0 <= j < s.len(),
        s[j].key@ == e.key@,
    ensures
        lookup(s.update(j, e), k) == (if e.key@ == k { Some(e.value) } else { lookup(s, k) }),
    decreases s.len(),
{
    let t = s.update(j, e);
    if j == s.len() - 1 {
        assert(t.drop_last() =~= s.drop_last());
        if e.key@ != k {
        }
    } else {
        assert(t.drop_last() =~= s.drop_last().update(j, e));
        assert(unique_keys(s.drop_last()));
        lemma_lookup_update(s.drop_last(), j, e, k);
        if s.last().key@ == k {
            assert(s[s.len() - 1].key@ != s[j].key@);
        }
    }
}

impl Layer {
    /// An empty layer.
    pub fn new() -> (r: Layer)
        ensures
            r.entries@.len() == 0,
    {
        Layer { entries: Vec::new() }
    }

    /// Adds `key = value` on top of what the layer already holds.
    pub fn set(&mut self, key: String, value: SettingValue)
        ensures
            final(self).entries@ == old(self).entries@.push(Entry { key, value }),
    {
        self.entries.push(Entry { key, value });
    }

    /// The value that this layer gives for `key`.
    pub fn get(&self, key: &String) -> (r: Option<SettingValue>)
        ensures
            r == lookup(self.entries@, key@),
    {
        let mut found: Option<SettingValue> = None;
        let mut i: usize = 0;
        while i < self.entries.len()
            invariant
                i <= self.entries@.len(),
                found == lookup(self.entries@.take(i as int), key@),
            decreases self.entries@.len() - i,
        {
            proof {
                lemma_lookup_push(self.entries@.take(i as int), self.entries@[i as int], key@);
                assert(self.entries@.take(i as int).push(self.entries@[i as int])
                    =~= self.entries@.take(i + 1));
            }
            if self.entries[i].key == *key {
                found = Some(self.entries[i].value.duplicate());
            }
            i += 1;
        }
        assert(self.entries@.take(i as int) =~= self.entries@);
        found
    }

    /// Index of the entry with `key`, in a layer whose keys are unique.
    fn position(&self, key: &String) -> (r: Option<usize>)
        ensures
            match r {
                Some(j) => j < self.entries@.len() && self.entries@[j as int].key@ == key@,
                None => forall|i: int|
                    0 <= i < self.entries@.len() ==> #[trigger] self.entries@[i].key@ != key@,
            },
    {
        let mut i: usize = 0;
        while i < self.entries.len()
            invariant
                i <= self.entries@.len(),
                forall|m: int| 0 <= m < i ==> #[trigger] self.entries@[m].key@ != key@,
            decreases self.entries@.len() - i,
        {
            if self.entries[i].key == *key {
                return Some(i);
            }
            i += 1;
        }
        None
    }

    /// Sets `key` to `value`, replacing the entry with that key if there is one,
    /// so that the keys stay unique.
    pub(crate) fn upsert(&mut self, key: String, value: SettingValue)
        requires
            unique_keys(old(self).entries@),
        ensures
            unique_keys(final(self).entries@),
            forall|k: Seq<char>|
                #[trigger] lookup(final(self).entries@, k) == (if k == key@ {
                    Some(value)
                } else {
                    lookup(old(self).entries@, k)
                }),
    {
        let ghost k0 = key@;
        let ghost e = Entry { key, value };
        match self.position(&key) {
            Some(j) => {
                proof {
                    assert forall|k: Seq<char>|
                        #[trigger] lookup(self.entries@.update(j as int, e), k) == (if k == k0 {
                            Some(value)
                        } else {
                            lookup(self.entries@, k)
                        }) by {
                        lemma_lookup_update(self.entries@, j as int, e, k);
                    }
                }
                self.entries[j] = Entry { key, value };
                assert(self.entries@ == old(self).entries@.update(j as int, e));
            },
            None => {
                proof {
                    assert forall|k: Seq<char>|
                        #[trigger] lookup(self.entries@.push(e), k) == (if k == k0 {
                            Some(value)
                        } else {
                            lookup(self.entries@, k)
                        }) by {
                        lemma_lookup_push(self.entries@, e, k);
                    }
                }
                self.entries.push(Entry { key, value });
                assert(self.entries@ == old(self).entries@.push(e));
            },
        }
    }
}

} // verus!
