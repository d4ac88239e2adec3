//! Trusted surface over the YAML document model of the `serde_yaml` crate.
//!
//! A parsed document is carried as an opaque `serde_yaml::Value`; the
//! functions here each wrap one accessor of that type, and the configuration
//! module reads documents through them.  Nothing about the contents of a
//! value is presupposed: every reading function hands back an `Option` and the
//! caller decides what a missing or differently-typed node means.
use vstd::prelude::*;

verus! {

#[verifier::external_type_specification]
#[verifier::external_body]
pub struct ExYamlValue(serde_yaml::Value);

/// Relies on serde_yaml::from_str: parses one YAML document into its generic
/// value tree, or reports the parse error as text.
#[verifier::external_body]
pub(crate) fn parse_yaml(contents: &str) -> Result<serde_yaml::Value, String> {
    match serde_yaml::from_str::<serde_yaml::Value>(contents) {
        Ok(v) => Ok(v),
        Err(e) => Err(e.to_string()),
    }
}

/// Relies on serde_yaml::Value::get: looks a key up in a mapping node;
/// answers None on any other kind of node.
#[verifier::external_body]
pub(crate) fn get<'a>(v: &'a serde_yaml::Value, key: &str) -> Option<&'a serde_yaml::Value> {
    v.get(key)
}

/// Relies on serde_yaml::Value::is_null.
#[verifier::external_body]
pub(crate) fn is_null(v: &serde_yaml::Value) -> bool {
    v.is_null()
}

/// Relies on serde_yaml::Value::as_str: the node's string content, if it is
/// a string node.
#[verifier::external_body]
pub(crate) fn as_str(v: &serde_yaml::Value) -> Option<String> {
    v.as_str().map(|s| s.to_string())
}

/// Relies on serde_yaml::Value::as_i64.
#[verifier::external_body]
pub(crate) fn as_i64(v: &serde_yaml::Value) -> Option<i64> {
    v.as_i64()
}

/// Relies on serde_yaml::Value::as_bool.
#[verifier::external_body]
pub(crate) fn as_bool(v: &serde_yaml::Value) -> Option<bool> {
    v.as_bool()
}

/// Relies on serde_yaml::Value::as_sequence: the node's items, if it is a
/// sequence node.
#[verifier::external_body]
pub(crate) fn as_sequence<'a>(v: &'a serde_yaml::Value) -> Option<&'a Vec<serde_yaml::Value>> {
    v.as_sequence()
}

/// Relies on serde_yaml::Value::as_mapping and Value::as_str: the entries of
/// a mapping node whose keys and values are all strings, in document order;
/// None if the node is not such a mapping.
#[verifier::external_body]
pub(crate) fn as_string_pairs(v: &serde_yaml::Value) -> Option<Vec<(String, String)>> {
    let mapping = v.as_mapping()?;
    let mut pairs: Vec<(String, String)> = Vec::new();
    for (key, value) in mapping.iter() {
        pairs.push((key.as_str()?.to_string(), value.as_str()?.to_string()));
    }
    Some(pairs)
}

/// A required string field of a mapping node.
pub(crate) fn req_str(v: &serde_yaml::Value, key: &str, err: &str) -> Result<String, String> {
    match get(v, key) {
        Some(f) => match as_str(f) {
            Some(s) => Ok(s),
            None => Err(err.to_owned()),
        },
        None => Err(err.to_owned()),
    }
}

/// An optional string field of a mapping node: absent or null is none, any
/// other non-string node is an error.
pub(crate) fn opt_str(v: &serde_yaml::Value, key: &str, err: &str) -> Result<
    Option<String>,
    String,
> {
    match get(v, key) {
        None => Ok(None),
        Some(f) => {
            if is_null(f) {
                Ok(None)
            } else {
                match as_str(f) {
                    Some(s) => Ok(Some(s)),
                    None => Err(err.to_owned()),
                }
            }
        },
    }
}

/// A required integer field of a mapping node.
pub(crate) fn req_i64(v: &serde_yaml::Value, key: &str, err: &str) -> Result<i64, String> {
    match get(v, key) {
        Some(f) => match as_i64(f) {
            Some(n) => Ok(n),
            None => Err(err.to_owned()),
        },
        None => Err(err.to_owned()),
    }
}

/// An optional integer field of a mapping node.
pub(crate) fn opt_i64(v: &serde_yaml::Value, key: &str, err: &str) -> Result<Option<i64>, String> {
    match get(v, key) {
        None => Ok(None),
        Some(f) => {
            if is_null(f) {
                Ok(None)
            } else {
                match as_i64(f) {
                    Some(n) => Ok(Some(n)),
                    None => Err(err.to_owned()),
                }
            }
        },
    }
}

/// A required boolean field of a mapping node.
pub(crate) fn req_bool(v: &serde_yaml::Value, key: &str, err: &str) -> Result<bool, String> {
    match get(v, key) {
        Some(f) => match as_bool(f) {
            Some(b) => Ok(b),
            None => Err(err.to_owned()),
        },
        None => Err(err.to_owned()),
    }
}

/// An optional boolean field of a mapping node.
pub(crate) fn opt_bool(v: &serde_yaml::Value, key: &str, err: &str) -> Result<
    Option<bool>,
    String,
> {
    match get(v, key) {
        None => Ok(None),
        Some(f) => {
            if is_null(f) {
                Ok(None)
            } else {
                match as_bool(f) {
                    Some(b) => Ok(Some(b)),
                    None => Err(err.to_owned()),
                }
            }
        },
    }
}

/// Reads a sequence node of strings.
pub(crate) fn str_vec(v: &serde_yaml::Value, err: &str) -> Result<Vec<String>, String> {
    match as_sequence(v) {
        None => Err(err.to_owned()),
        Some(items) => {
            let mut out: Vec<String> = Vec::new();
            let mut i: usize = 0;
            while i < items.len()
                invariant
                    i <= items@.len(),
                decreases items@.len() - i,
            {
                match as_str(&items[i]) {
                    Some(s) => out.push(s),
                    None => {
                        return Err(err.to_owned());
                    },
                }
                i = i + 1;
            }
            Ok(out)
        },
    }
}

/// A required string-sequence field of a mapping node.
pub(crate) fn req_str_seq(v: &serde_yaml::Value, key: &str, err: &str) -> Result<
    Vec<String>,
    String,
> {
    match get(v, key) {
        Some(f) => str_vec(f, err),
        None => Err(err.to_owned()),
    }
}

/// An optional string-sequence field of a mapping node.
pub(crate) fn opt_str_seq(v: &serde_yaml::Value, key: &str, err: &str) -> Result<
    Option<Vec<String>>,
    String,
> {
    match get(v, key) {
        None => Ok(None),
        Some(f) => {
            if is_null(f) {
                Ok(None)
            } else {
                match str_vec(f, err) {
                    Ok(items) => Ok(Some(items)),
                    Err(e) => Err(e),
                }
            }
        },
    }
}

/// An optional string-to-string mapping field of a mapping node.
pub(crate) fn opt_str_map(v: &serde_yaml::Value, key: &str, err: &str) -> Result<
    Option<std::collections::HashMap<String, String>>,
    String,
> {
    match get(v, key) {
        None => Ok(None),
        Some(f) => {
            if is_null(f) {
                Ok(None)
            } else {
                match as_string_pairs(f) {
                    None => Err(err.to_owned()),
                    Some(pairs) => {
                        let mut map: std::collections::HashMap<String, String> =
                            std::collections::HashMap::new();
                        let mut pairs = pairs;
                        while pairs.len() > 0
                            decreases pairs@.len(),
                        {
                            let (k, val) = pairs.remove(0);
                            map.insert(k, val);
                        }
                        Ok(Some(map))
                    },
                }
            }
        },
    }
}

/// An optional field holding a nested mapping node.
pub(crate) fn opt_field<'a>(v: &'a serde_yaml::Value, key: &str) -> (r: Option<
    &'a serde_yaml::Value,
>) {
    match get(v, key) {
        None => None,
        Some(f) => {
            if is_null(f) {
                None
            } else {
                Some(f)
            }
        },
    }
}

} // verus!
