use rbxsync::config::DeclaredResource;
use rbxsync::fields::{badge_payment_source_code, build_fields, fields_to_form_pairs, Category};

fn declared(name: &str, description: Option<&str>, price: Option<u64>) -> DeclaredResource {
    DeclaredResource {
        name: name.to_string(),
        description: description.map(|s| s.to_string()),
        price,
        icon: None,
        is_for_sale: None,
        is_enabled: None,
    }
}

fn pairs_of(pairs: &[(String, String)]) -> Vec<(&str, &str)> {
    pairs.iter().map(|p| (p.0.as_str(), p.1.as_str())).collect()
}

#[test]
fn game_pass_create_defaults_price_to_zero() {
    let r = declared("Sword", None, None);
    let f = build_fields(Category::GamePass, &r, None, true);
    assert_eq!(f.price, Some(0));
    let pairs = fields_to_form_pairs(Category::GamePass, &f, true);
    assert_eq!(
        pairs_of(&pairs),
        vec![("name", "Sword"), ("description", ""), ("price", "0")]
    );
}

#[test]
fn game_pass_update_sends_declared_fields_only() {
    let r = declared("Sword", Some("sharp"), Some(25));
    let f = build_fields(Category::GamePass, &r, Some(900), false);
    let pairs = fields_to_form_pairs(Category::GamePass, &f, false);
    assert_eq!(
        pairs_of(&pairs),
        vec![
            ("name", "Sword"),
            ("description", "sharp"),
            ("price", "25"),
            ("iconAssetId", "900"),
        ]
    );
}

#[test]
fn game_pass_update_omits_absent_fields() {
    let r = declared("Sword", None, None);
    let f = build_fields(Category::GamePass, &r, None, false);
    let pairs = fields_to_form_pairs(Category::GamePass, &f, false);
    assert_eq!(pairs_of(&pairs), vec![("name", "Sword")]);
}

#[test]
fn product_always_carries_price() {
    let r = declared("Gems", None, Some(100));
    let f = build_fields(Category::DeveloperProduct, &r, None, false);
    assert_eq!(f.price, Some(100));
    let pairs = fields_to_form_pairs(Category::DeveloperProduct, &f, false);
    assert_eq!(pairs_of(&pairs), vec![("name", "Gems"), ("price", "100")]);
}

#[test]
fn badge_uses_icon_image_key_and_enabled_flag() {
    let mut r = declared("Explorer", Some("found it"), None);
    r.is_enabled = Some(true);
    let f = build_fields(Category::Badge, &r, Some(777), false);
    assert_eq!(f.price, None);
    let pairs = fields_to_form_pairs(Category::Badge, &f, false);
    assert_eq!(
        pairs_of(&pairs),
        vec![
            ("name", "Explorer"),
            ("description", "found it"),
            ("iconImageId", "777"),
            ("enabled", "true"),
        ]
    );
}

#[test]
fn payment_source_codes() {
    assert_eq!(badge_payment_source_code("group"), "2");
    assert_eq!(badge_payment_source_code("Group"), "2");
    assert_eq!(badge_payment_source_code("GROUP"), "2");
    assert_eq!(badge_payment_source_code("user"), "1");
    assert_eq!(badge_payment_source_code("anything else"), "1");
}

#[test]
fn badge_create_sends_no_enabled_flag() {
    let mut r = declared("Explorer", None, None);
    r.is_enabled = Some(true);
    let f = build_fields(Category::Badge, &r, Some(777), true);
    let pairs = fields_to_form_pairs(Category::Badge, &f, true);
    assert_eq!(
        pairs_of(&pairs),
        vec![("name", "Explorer"), ("description", ""), ("iconImageId", "777")]
    );
}
