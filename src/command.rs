use vstd::prelude::*;

use crate::resolver::{merged_from, LayeredSettings};
use crate::settings::{
    format_supported, lookup, require_supported_format, stack_lookup, unique_keys, Layer,
    SettingValue, SettingsError, SettingsFormat,
};

verus! {

/// What `settings get` prints: one value, or all of the merged settings.
#[derive(Debug)]
pub enum GetOutput {
    Value(SettingValue),
    All(Layer),
}

/// What `settings set` persists: the merged settings with the new value, and
/// the commit message.
#[derive(Debug)]
pub struct SetOutcome {
    pub merged: Layer,
    pub message: String,
}

/// The `settings` subcommands: `clone`, `get`, `set` and `show`.
pub struct SettingsCommand;

/// The message generated for a commit that sets `key` at time `timestamp`.
pub open spec fn generated_message(key: Seq<char>, timestamp: Seq<char>) -> Seq<char> {
    "PrintNannySettings."@ + key + " updated at "@ + timestamp
}

impl SettingsCommand {
    /// `settings get [key] --format f`: the value of `key`, or all of the merged
    /// settings without a key. An unimplemented format fails before any lookup.
    pub fn get(settings: &LayeredSettings, key: Option<String>, format: SettingsFormat) -> (r: Result<GetOutput, SettingsError>)
        ensures
            !format_supported(format) ==> (r matches Err(SettingsError::UnsupportedFormat { format: f }) && f == format),
            format_supported(format) ==> match key {
                Some(k) => match stack_lookup(settings.layers@, k@) {
                    Some(v) => r == Ok::<GetOutput, SettingsError>(GetOutput::Value(v)),
                    None => r matches Err(SettingsError::KeyNotFound { key: missing }) && missing@ == k@,
                },
                None => r matches Ok(GetOutput::All(m)) && merged_from(m, settings.layers@),
            },
    {
        require_supported_format(format)?;
        match key {
            Some(k) => {
                let v = settings.find_value(&k)?;
                Ok(GetOutput::Value(v))
            },
            None => Ok(GetOutput::All(settings.resolve())),
        }
    }

    /// `settings show --format f`: all of the merged settings.
    pub fn show(settings: &LayeredSettings, format: SettingsFormat) -> (r: Result<Layer, SettingsError>)
        ensures
            !format_supported(format) ==> (r matches Err(SettingsError::UnsupportedFormat { format: f }) && f == format),
            format_supported(format) ==> (r matches Ok(m) && merged_from(m, settings.layers@)),
    {
        require_supported_format(format)?;
        Ok(settings.resolve())
    }

    /// The commit message: the caller's own, or one generated from the key and
    /// the time.
    pub fn commit_message(key: &str, message: Option<String>, timestamp: &str) -> (r: String)
        ensures
            match message {
                Some(m) => r == m,
                None => r@ == generated_message(key@, timestamp@),
            },
    {
        match message {
            Some(m) => m,
            None => "PrintNannySettings.".to_owned().concat(key).concat(" updated at ").concat(timestamp),
        }
    }

    /// `settings set key value`: the merged settings with `key = value` on top of
    /// every layer, and the generated commit message.
    pub fn set(settings: &LayeredSettings, key: String, value: SettingValue, timestamp: &str) -> (r: SetOutcome)
        ensures
            unique_keys(r.merged.entries@),
            forall|k: Seq<char>|
                #[trigger] lookup(r.merged.entries@, k) == (if k == key@ {
                    Some(value)
                } else {
                    stack_lookup(settings.layers@, k)
                }),
            r.message@ == generated_message(key@, timestamp@),
    {
        let message = SettingsCommand::commit_message(key.as_str(), None, timestamp);
        let merged = settings.with_override(key, value);
        SetOutcome { merged, message }
    }
}

} // verus!
