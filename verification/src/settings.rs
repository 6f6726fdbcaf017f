//! Settings resolver: parses the untyped string-keyed configuration into a
//! validated, typed connection descriptor.

use vstd::prelude::*;

use crate::data::{dict_view, Dict};

verus! {

/// The value the last pair with key `k` carries, if any. This is the
/// lookup the raw configuration is read with: a later occurrence of a key
/// silently overrides an earlier one.
pub open spec fn lookup_last(d: Seq<(Seq<char>, Seq<char>)>, k: Seq<char>) -> Option<Seq<char>>
    decreases d.len(),
{
    if d.len() == 0 {
        None
    } else if d.last().0 == k {
        Some(d.last().1)
    } else {
        lookup_last(d.drop_last(), k)
    }
}

/// A key is considered set only when its (last) value is non-empty.
pub open spec fn lookup_nonempty(
    d: Seq<(Seq<char>, Seq<char>)>,
    k: Seq<char>,
) -> Option<Seq<char>> {
    match lookup_last(d, k) {
        Some(v) => if v.len() > 0 {
            Some(v)
        } else {
            None
        },
        None => None,
    }
}

/// The ingestion endpoint used when `instance_url` is absent or empty.
pub open spec fn default_instance_url() -> Seq<char> {
    "https://plausible.io"@
}

/// A raw configuration resolves successfully exactly when it carries a
/// non-empty `domain`.
pub open spec fn settings_ok(d: Seq<(Seq<char>, Seq<char>)>) -> bool {
    lookup_nonempty(d, "domain"@) is Some
}

/// The `domain` a valid raw configuration resolves to.
pub open spec fn resolved_domain(d: Seq<(Seq<char>, Seq<char>)>) -> Seq<char>
    recommends
        settings_ok(d),
{
    lookup_nonempty(d, "domain"@)->Some_0
}

/// The `instance_url` a raw configuration resolves to: the configured value
/// when non-empty, the fixed default otherwise.
pub open spec fn resolved_instance_url(d: Seq<(Seq<char>, Seq<char>)>) -> Seq<char> {
    match lookup_nonempty(d, "instance_url"@) {
        Some(v) => v,
        None => default_instance_url(),
    }
}

/// The configuration error reported when `domain` is absent or empty.
pub open spec fn missing_domain_message() -> Seq<char> {
    "Key not found in settings: domain"@
}

/// Resolved, validated connection configuration for the analytics backend.
/// A value of this type is only ever constructed with both fields resolved.
#[derive(Debug)]
pub struct Settings {
    pub instance_url: String,
    pub domain: String,
}

/// Returns the value of the last pair whose key equals `key`, if any.
fn dict_get_last(d: &Dict, key: &String) -> (r: Option<String>)
    ensures
        match r {
            Some(v) => lookup_last(dict_view(d@), key@) == Some(v@),
            None => lookup_last(dict_view(d@), key@) is None,
        },
{
    let ghost dv = dict_view(d@);
    let mut found: Option<String> = None;
    let mut i: usize = 0;
    while i < d.len()
        invariant
            i <= d.len(),
            dv == dict_view(d@),
            dv.len() == d@.len(),
            forall|j: int| 0 <= j < dv.len() ==> dv[j] == (d@[j].0@, d@[j].1@),
            match found {
                Some(v) => lookup_last(dv.subrange(0, i as int), key@) == Some(v@),
                None => lookup_last(dv.subrange(0, i as int), key@) is None,
            },
        decreases d.len() - i,
    {
        proof {
            assert(dv.subrange(0, i + 1).drop_last() =~= dv.subrange(0, i as int));
            assert(dv.subrange(0, i + 1).last() == dv[i as int]);
            assert(dv[i as int] == (d@[i as int].0@, d@[i as int].1@));
        }
        let pair = &d[i];
        if pair.0 == *key {
            found = Some(pair.1.clone());
        }
        i += 1;
    }
    proof {
        assert(dv.subrange(0, d@.len() as int) =~= dv);
    }
    found
}

impl Settings {
    /// Resolves the raw configuration. Fails with a configuration error
    /// naming `domain` exactly when `domain` is absent or empty; uses the
    /// configured `instance_url` verbatim when non-empty and the fixed
    /// default endpoint otherwise.
    pub fn try_from(value: Dict) -> (r: Result<Settings, String>)
        ensures
            r is Ok <==> settings_ok(dict_view(value@)),
            r matches Ok(s) ==> s.domain@ == resolved_domain(dict_view(value@)),
            r matches Ok(s) ==> s.instance_url@ == resolved_instance_url(dict_view(value@)),
            r matches Err(e) ==> e@ == missing_domain_message(),
    {
        let instance_url: String = match dict_get_last(&value, &String::from_str("instance_url")) {
            Some(v) => {
                if v.as_str().is_empty() {
                    String::from_str("https://plausible.io")
                } else {
                    v
                }
            },
            None => String::from_str("https://plausible.io"),
        };
        let domain: String = match dict_get_last(&value, &String::from_str("domain")) {
            Some(v) => {
                if v.as_str().is_empty() {
                    return Err(String::from_str("Key not found in settings: domain"));
                } else {
                    v
                }
            },
            None => {
                return Err(String::from_str("Key not found in settings: domain"));
            },
        };
        Ok(Settings { instance_url, domain })
    }
}

} // verus!
