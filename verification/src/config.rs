//! The declared (desired) state: per-category resource declarations, the
//! universe settings block, and environment-derived values. The caller
//! parses its configuration file and environment into these records; the
//! reconciler reads them and never mutates them.

use vstd::prelude::*;

verus! {

/// Environment-derived configuration.
pub struct Config {
    pub api_key: String,
    pub universe_id: Option<u64>,
}

/// The account or group that pays for and owns uploaded assets.
pub struct CreatorConfig {
    pub id: String,
    pub creator_type: String,
}

/// Declared universe-level settings; every field is optional.
pub struct UniverseConfig {
    pub name: Option<String>,
    pub description: Option<String>,
    pub genre: Option<String>,
    pub playable_devices: Option<Vec<String>>,
    pub max_players: Option<u32>,
}

/// A declared game pass.
pub struct GamePassConfig {
    pub name: String,
    pub description: Option<String>,
    pub price_in_robux: Option<u32>,
    pub icon: Option<String>,
    pub is_for_sale: Option<bool>,
}

/// A declared developer product.
pub struct DeveloperProductConfig {
    pub name: String,
    pub description: Option<String>,
    pub price_in_robux: u32,
    pub icon: Option<String>,
    pub is_active: Option<bool>,
}

/// A declared badge.
pub struct BadgeConfig {
    pub name: String,
    pub description: Option<String>,
    pub icon: Option<String>,
    pub is_enabled: Option<bool>,
}

/// A place file and whether it should be published.
pub struct PlaceConfig {
    pub place_id: u64,
    pub file_path: String,
    pub publish: bool,
}

impl Clone for PlaceConfig {
    fn clone(&self) -> (r: Self)
        ensures
            r == *self,
    {
        PlaceConfig {
            place_id: self.place_id,
            file_path: self.file_path.clone(),
            publish: self.publish,
        }
    }
}

/// The whole declared configuration.
pub struct RbxSyncConfig {
    pub assets_dir: String,
    pub creator: Option<CreatorConfig>,
    pub universe: UniverseConfig,
    pub game_passes: Vec<GamePassConfig>,
    pub developer_products: Vec<DeveloperProductConfig>,
    pub badges: Vec<BadgeConfig>,
    pub places: Vec<PlaceConfig>,
    pub badge_payment_source: Option<String>,
}

/// The assets directory used when the configuration names none.
pub fn default_assets_dir() -> (r: String)
    ensures
        r@ == "assets"@,
{
    String::from_str("assets")
}

/// One declared resource, in the shape the reconciler works on, whatever
/// its category.
pub struct DeclaredResource {
    pub name: String,
    pub description: Option<String>,
    pub price: Option<u64>,
    pub icon: Option<String>,
    pub is_for_sale: Option<bool>,
    pub is_enabled: Option<bool>,
}

impl GamePassConfig {
    /// The reconciler's shape of a declared game pass.
    pub fn to_declared(self) -> (r: DeclaredResource)
        ensures
            r.name == self.name,
            r.description == self.description,
            r.price == match self.price_in_robux {
                Some(p) => Some(p as u64),
                None => None::<u64>,
            },
            r.icon == self.icon,
            r.is_for_sale == self.is_for_sale,
            r.is_enabled is None,
    {
        let price: Option<u64> = match self.price_in_robux {
            Some(p) => Some(p as u64),
            None => None,
        };
        DeclaredResource {
            name: self.name,
            description: self.description,
            price,
            icon: self.icon,
            is_for_sale: self.is_for_sale,
            is_enabled: None,
        }
    }
}

impl DeveloperProductConfig {
    /// The reconciler's shape of a declared developer product; the price is
    /// always declared for products.
    pub fn to_declared(self) -> (r: DeclaredResource)
        ensures
            r.name == self.name,
            r.description == self.description,
            r.price == Some(self.price_in_robux as u64),
            r.icon == self.icon,
            r.is_for_sale is None,
            r.is_enabled is None,
    {
        DeclaredResource {
            name: self.name,
            description: self.description,
            price: Some(self.price_in_robux as u64),
            icon: self.icon,
            is_for_sale: None,
            is_enabled: None,
        }
    }
}

impl BadgeConfig {
    /// The reconciler's shape of a declared badge; badges carry no price.
    pub fn to_declared(self) -> (r: DeclaredResource)
        ensures
            r.name == self.name,
            r.description == self.description,
            r.price is None,
            r.icon == self.icon,
            r.is_for_sale is None,
            r.is_enabled == self.is_enabled,
    {
        DeclaredResource {
            name: self.name,
            description: self.description,
            price: None,
            icon: self.icon,
            is_for_sale: None,
            is_enabled: self.is_enabled,
        }
    }
}

/// The universe settings fields that a run sends, when any is declared.
pub struct UniverseSettingsPatch {
    pub name: Option<String>,
    pub description: Option<String>,
    pub genre: Option<String>,
    pub playable_devices: Option<Vec<String>>,
}

/// Whether a universe configuration declares nothing to send.
pub open spec fn universe_patch_empty(u: UniverseConfig) -> bool {
    &&& u.name is None
    &&& u.description is None
    &&& u.genre is None
    &&& u.playable_devices is None
}

/// Gathers the declared universe settings into one patch, or nothing when
/// no settable field is declared (then no settings call is made).
pub fn build_universe_patch(u: UniverseConfig) -> (r: Option<UniverseSettingsPatch>)
    ensures
        match r {
            Some(p) => !universe_patch_empty(u) && p.name == u.name && p.description
                == u.description && p.genre == u.genre && p.playable_devices
                == u.playable_devices,
            None => universe_patch_empty(u),
        },
{
    if u.name.is_none() && u.description.is_none() && u.genre.is_none()
        && u.playable_devices.is_none() {
        None
    } else {
        Some(
            UniverseSettingsPatch {
                name: u.name,
                description: u.description,
                genre: u.genre,
                playable_devices: u.playable_devices,
            },
        )
    }
}

/// The places that a publish run uploads: exactly those flagged for
/// publishing, in declaration order.
pub open spec fn publishable(places: Seq<PlaceConfig>) -> Seq<PlaceConfig> {
    places.filter(|p: PlaceConfig| p.publish)
}

/// Selects the places flagged for publishing.
pub fn places_to_publish(places: &Vec<PlaceConfig>) -> (r: Vec<PlaceConfig>)
    ensures
        r@ == publishable(places@),
{
    let mut out: Vec<PlaceConfig> = Vec::new();
    let mut i: usize = 0;
    proof {
        reveal(Seq::filter);
        assert(places@.subrange(0, 0) =~= Seq::<PlaceConfig>::empty());
        assert(publishable(places@.subrange(0, 0)) =~= Seq::<PlaceConfig>::empty());
    }
    while i < places.len()
        invariant
            i <= places@.len(),
            out@ == publishable(places@.subrange(0, i as int)),
        decreases places@.len() - i,
    {
        let ghost pre = places@.subrange(0, i as int);
        let ghost post = places@.subrange(0, i + 1);
        proof {
            reveal(Seq::filter);
            assert(post.drop_last() =~= pre);
            assert(post.last() == places@[i as int]);
            assert(publishable(post) == if places@[i as int].publish {
                publishable(pre).push(places@[i as int])
            } else {
                publishable(pre)
            });
        }
        if places[i].publish {
            out.push(places[i].clone());
        }
        i += 1;
    }
    proof {
        assert(places@.subrange(0, places@.len() as int) =~= places@);
    }
    out
}

} // verus!
