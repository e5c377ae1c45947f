//! The field sets sent with create and update calls, and their encoding as
//! plain form pairs. Which fields a call carries is part of the
//! reconciler's contract; the caller only serializes the pairs.

use vstd::prelude::*;
use crate::config::DeclaredResource;
use crate::text::{dec_string_of, eq_ignore_case, lower_of, u64_to_string};

verus! {

/// A resource category. Categories share one reconciliation algorithm but
/// differ in which fields their calls carry.
#[derive(Clone, Copy, PartialEq, Eq, Structural)]
pub enum Category {
    GamePass,
    DeveloperProduct,
    Badge,
}

/// The fields of one create or update call.
pub struct ResourceFields {
    pub name: String,
    pub description: Option<String>,
    pub price: Option<u64>,
    pub icon_asset_id: Option<u64>,
    pub enabled: Option<bool>,
}

/// The field set of a create or update call for a declared resource:
/// game passes price to the declared price (zero at creation when none is
/// declared), products always carry their declared price, badges carry no
/// price and send their enabled flag on updates.
pub open spec fn fields_spec(
    cat: Category,
    r: DeclaredResource,
    icon_asset_id: Option<u64>,
    creating: bool,
) -> ResourceFields {
    ResourceFields {
        name: r.name,
        description: r.description,
        price: match cat {
            Category::GamePass => if creating {
                match r.price {
                    Some(p) => Some(p),
                    None => Some(0u64),
                }
            } else {
                r.price
            },
            Category::DeveloperProduct => match r.price {
                Some(p) => Some(p),
                None => Some(0u64),
            },
            Category::Badge => None,
        },
        icon_asset_id,
        enabled: match cat {
            Category::Badge => if creating {
                None
            } else {
                r.is_enabled
            },
            _ => None,
        },
    }
}

fn clone_opt_string(o: &Option<String>) -> (r: Option<String>)
    ensures
        r == *o,
{
    match o {
        Some(s) => Some(s.clone()),
        None => None,
    }
}

/// Builds the field set of a create or update call.
pub fn build_fields(
    cat: Category,
    r: &DeclaredResource,
    icon_asset_id: Option<u64>,
    creating: bool,
) -> (f: ResourceFields)
    ensures
        f == fields_spec(cat, *r, icon_asset_id, creating),
{
    let price: Option<u64> = match cat {
        Category::GamePass => {
            if creating {
                match r.price {
                    Some(p) => Some(p),
                    None => Some(0),
                }
            } else {
                r.price
            }
        },
        Category::DeveloperProduct => {
            match r.price {
                Some(p) => Some(p),
                None => Some(0),
            }
        },
        Category::Badge => None,
    };
    let enabled: Option<bool> = match cat {
        Category::Badge => if creating {
            None
        } else {
            r.is_enabled
        },
        _ => None,
    };
    ResourceFields {
        name: r.name.clone(),
        description: clone_opt_string(&r.description),
        price,
        icon_asset_id,
        enabled,
    }
}

/// The payment-source code a badge creation sends: group funds are code
/// two; anything else, the user's funds, code one.
pub fn badge_payment_source_code(source: &str) -> (r: &'static str)
    ensures
        r@ == if lower_of(source@) == lower_of("group"@) {
            "2"@
        } else {
            "1"@
        },
{
    if eq_ignore_case(source, "group") {
        "2"
    } else {
        "1"
    }
}

/// The form key under which a category's calls carry the icon asset
/// identifier.
pub open spec fn icon_key_spec(cat: Category) -> Seq<char> {
    match cat {
        Category::Badge => "iconImageId"@,
        _ => "iconAssetId"@,
    }
}

/// The views of a pair list: each key and value as a character sequence.
pub open spec fn pair_views(pairs: Seq<(String, String)>) -> Seq<(Seq<char>, Seq<char>)> {
    pairs.map_values(|p: (String, String)| (p.0@, p.1@))
}

/// The form encoding of a field set: the name always; the description if
/// present, or empty at creation; the price, icon identifier and enabled
/// flag when present.
pub open spec fn form_pairs_spec(cat: Category, f: ResourceFields, creating: bool) -> Seq<
    (Seq<char>, Seq<char>),
> {
    let base = seq![("name"@, f.name@)];
    let base = match f.description {
        Some(d) => base.push(("description"@, d@)),
        None => if creating {
            base.push(("description"@, Seq::<char>::empty()))
        } else {
            base
        },
    };
    let base = match f.price {
        Some(p) => base.push(("price"@, dec_string_of(p as nat))),
        None => base,
    };
    let base = match f.icon_asset_id {
        Some(a) => base.push((icon_key_spec(cat), dec_string_of(a as nat))),
        None => base,
    };
    match f.enabled {
        Some(e) => base.push(("enabled"@, if e {
            "true"@
        } else {
            "false"@
        })),
        None => base,
    }
}

/// Encodes a field set as plain form pairs, ready for the transport layer.
pub fn fields_to_form_pairs(cat: Category, f: &ResourceFields, creating: bool) -> (pairs: Vec<
    (String, String),
>)
    ensures
        pair_views(pairs@) == form_pairs_spec(cat, *f, creating),
{
    let mut pairs: Vec<(String, String)> = Vec::new();
    pairs.push((String::from_str("name"), f.name.clone()));
    match &f.description {
        Some(d) => {
            pairs.push((String::from_str("description"), d.clone()));
        },
        None => {
            if creating {
                pairs.push((String::from_str("description"), String::new()));
            }
        },
    }
    match f.price {
        Some(p) => {
            pairs.push((String::from_str("price"), u64_to_string(p)));
        },
        None => {},
    }
    match f.icon_asset_id {
        Some(a) => {
            let key = match cat {
                Category::Badge => String::from_str("iconImageId"),
                _ => String::from_str("iconAssetId"),
            };
            pairs.push((key, u64_to_string(a)));
        },
        None => {},
    }
    match f.enabled {
        Some(e) => {
            let v = if e {
                String::from_str("true")
            } else {
                String::from_str("false")
            };
            pairs.push((String::from_str("enabled"), v));
        },
        None => {},
    }
    proof {
        assert(pair_views(pairs@) =~= form_pairs_spec(cat, *f, creating));
    }
    pairs
}

} // verus!
