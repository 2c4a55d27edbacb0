//! Reading one setting from a captured environment value: required or
//! optional-with-default, parsed into the declared type, with errors
//! keyed by the variable that failed.

use vstd::prelude::*;

use crate::config::error::{ConfigError, ConfigErrorView};
use crate::config::variables::EnvVariable;
use crate::text::{decimal_value, is_decimal_string, parse_decimal};

verus! {

/// Ghost image of one environment reading.
#[verifier::ext_equal]
pub ghost enum RawValueView {
    Absent,
    Text(Seq<char>),
    NotText(Seq<char>),
}

/// One reading of an environment variable, as process start-up saw it:
/// absent, present as text, or present but not valid text (carried as a
/// lossy rendering, used only in error reports).
#[derive(Debug, Clone)]
pub enum RawValue {
    Absent,
    Text(String),
    NotText(String),
}

impl View for RawValue {
    type V = RawValueView;

    open spec fn view(&self) -> RawValueView {
        match self {
            RawValue::Absent => RawValueView::Absent,
            RawValue::Text(s) => RawValueView::Text(s@),
            RawValue::NotText(s) => RawValueView::NotText(s@),
        }
    }
}

/// Ghost image of everything the loader reads from the environment.
#[verifier::ext_equal]
pub ghost struct EnvSnapshotView {
    pub service_name: RawValueView,
    pub service_port: RawValueView,
    pub database_url: RawValueView,
    pub database_max_connections: RawValueView,
}

/// Everything the configuration loader reads from the process
/// environment, captured as plain values.
#[derive(Debug, Clone)]
pub struct EnvSnapshot {
    pub service_name: RawValue,
    pub service_port: RawValue,
    pub database_url: RawValue,
    pub database_max_connections: RawValue,
}

impl View for EnvSnapshot {
    type V = EnvSnapshotView;

    open spec fn view(&self) -> EnvSnapshotView {
        EnvSnapshotView {
            service_name: self.service_name@,
            service_port: self.service_port@,
            database_url: self.database_url@,
            database_max_connections: self.database_max_connections@,
        }
    }
}

/// A value that can be parsed from an environment string.
pub trait EnvParse: Sized {
    /// Whether parsing the text succeeds.
    spec fn parse_ok(s: Seq<char>) -> bool;

    /// Whether `v` is the value the text parses to.
    spec fn parse_matches(s: Seq<char>, v: Self) -> bool;

    /// Parse the text, `None` exactly when parsing fails.
    fn parse_env(s: &str) -> (r: Option<Self>)
        ensures
            r is Some <==> Self::parse_ok(s@),
            r matches Some(v) ==> Self::parse_matches(s@, v),
    ;
}

impl EnvParse for String {
    open spec fn parse_ok(s: Seq<char>) -> bool {
        true
    }

    open spec fn parse_matches(s: Seq<char>, v: String) -> bool {
        v@ == s
    }

    fn parse_env(s: &str) -> (r: Option<String>) {
        Some(String::from_str(s))
    }
}

impl EnvParse for u16 {
    open spec fn parse_ok(s: Seq<char>) -> bool {
        is_decimal_string(s) && decimal_value(s) <= u16::MAX
    }

    open spec fn parse_matches(s: Seq<char>, v: u16) -> bool {
        v == decimal_value(s)
    }

    fn parse_env(s: &str) -> (r: Option<u16>) {
        match parse_decimal(s, 65535) {
            Some(v) => Some(v as u16),
            None => None,
        }
    }
}

impl EnvParse for u32 {
    open spec fn parse_ok(s: Seq<char>) -> bool {
        is_decimal_string(s) && decimal_value(s) <= u32::MAX
    }

    open spec fn parse_matches(s: Seq<char>, v: u32) -> bool {
        v == decimal_value(s)
    }

    fn parse_env(s: &str) -> (r: Option<u32>) {
        match parse_decimal(s, 4294967295) {
            Some(v) => Some(v as u32),
            None => None,
        }
    }
}

/// Read a setting that must be present: absent is `Missing`, unparsable
/// text is `Invalid` carrying the raw value.
pub fn read_required<V: EnvVariable, T: EnvParse>(var: V, raw: &RawValue) -> (r: Result<
    T,
    ConfigError,
>)
    ensures
        raw@ is Absent ==> (r matches Err(e) && e@ == ConfigErrorView::Missing(var.key())),
        raw@ matches RawValueView::NotText(v) ==> (r matches Err(e) && e@
            == (ConfigErrorView::Invalid { key: var.key(), value: v })),
        raw@ matches RawValueView::Text(s) ==> (if T::parse_ok(s) {
            r matches Ok(v) && T::parse_matches(s, v)
        } else {
            r matches Err(e) && e@ == (ConfigErrorView::Invalid { key: var.key(), value: s })
        }),
{
    match raw {
        RawValue::Absent => Err(ConfigError::Missing(var.as_str())),
        RawValue::NotText(v) => Err(
            ConfigError::Invalid { key: var.as_str(), value: v.clone() },
        ),
        RawValue::Text(s) => match T::parse_env(s.as_str()) {
            Some(v) => Ok(v),
            None => Err(ConfigError::Invalid { key: var.as_str(), value: s.clone() }),
        },
    }
}

/// Read a setting with a default: absent yields the fallback, unparsable
/// text is still `Invalid`.
pub fn read_optional<V: EnvVariable, T: EnvParse>(var: V, raw: &RawValue, fallback: T) -> (r:
    Result<T, ConfigError>)
    ensures
        raw@ is Absent ==> (r matches Ok(v) && v == fallback),
        raw@ matches RawValueView::NotText(v) ==> (r matches Err(e) && e@
            == (ConfigErrorView::Invalid { key: var.key(), value: v })),
        raw@ matches RawValueView::Text(s) ==> (if T::parse_ok(s) {
            r matches Ok(v) && T::parse_matches(s, v)
        } else {
            r matches Err(e) && e@ == (ConfigErrorView::Invalid { key: var.key(), value: s })
        }),
{
    match raw {
        RawValue::Absent => Ok(fallback),
        RawValue::NotText(v) => Err(
            ConfigError::Invalid { key: var.as_str(), value: v.clone() },
        ),
        RawValue::Text(s) => match T::parse_env(s.as_str()) {
            Some(v) => Ok(v),
            None => Err(ConfigError::Invalid { key: var.as_str(), value: s.clone() }),
        },
    }
}

/// Model of a required text setting.
pub open spec fn spec_read_required_string(key: Seq<char>, raw: RawValueView) -> Result<
    Seq<char>,
    ConfigErrorView,
> {
    match raw {
        RawValueView::Absent => Err(ConfigErrorView::Missing(key)),
        RawValueView::NotText(v) => Err(ConfigErrorView::Invalid { key, value: v }),
        RawValueView::Text(s) => Ok(s),
    }
}

/// Model of an optional text setting with a default.
pub open spec fn spec_read_optional_string(
    key: Seq<char>,
    raw: RawValueView,
    fallback: Seq<char>,
) -> Result<Seq<char>, ConfigErrorView> {
    match raw {
        RawValueView::Absent => Ok(fallback),
        RawValueView::NotText(v) => Err(ConfigErrorView::Invalid { key, value: v }),
        RawValueView::Text(s) => Ok(s),
    }
}

/// Model of a required unsigned 16-bit setting.
pub open spec fn spec_read_required_u16(key: Seq<char>, raw: RawValueView) -> Result<
    u16,
    ConfigErrorView,
> {
    match raw {
        RawValueView::Absent => Err(ConfigErrorView::Missing(key)),
        RawValueView::NotText(v) => Err(ConfigErrorView::Invalid { key, value: v }),
        RawValueView::Text(s) => if is_decimal_string(s) && decimal_value(s) <= u16::MAX {
            Ok(decimal_value(s) as u16)
        } else {
            Err(ConfigErrorView::Invalid { key, value: s })
        },
    }
}

/// Model of an optional unsigned 32-bit setting with a default.
pub open spec fn spec_read_optional_u32(
    key: Seq<char>,
    raw: RawValueView,
    fallback: u32,
) -> Result<u32, ConfigErrorView> {
    match raw {
        RawValueView::Absent => Ok(fallback),
        RawValueView::NotText(v) => Err(ConfigErrorView::Invalid { key, value: v }),
        RawValueView::Text(s) => if is_decimal_string(s) && decimal_value(s) <= u32::MAX {
            Ok(decimal_value(s) as u32)
        } else {
            Err(ConfigErrorView::Invalid { key, value: s })
        },
    }
}

} // verus!
