use onscreenski::assets::{LayoutAssets, DEFAULT_LAYOUT};
use onscreenski::keys::SupportedKeys;
use onscreenski::layout::{KeyDefinition, Layer, LayoutDefinition, LayoutError};
use onscreenski::model::{KeyboardError, UIMessage, UIModel};

fn key(scan_code: SupportedKeys) -> KeyDefinition {
    KeyDefinition { top_legend: None, bottom_legend: None, scan_code, width: None }
}

fn layer_of(keys: Vec<SupportedKeys>) -> Layer {
    let row: Vec<KeyDefinition> = keys.into_iter().map(key).collect();
    (vec![row], vec![])
}

fn layout(layers: Vec<Layer>) -> LayoutDefinition {
    LayoutDefinition::from_layers(layers).unwrap()
}

fn two_layer_model() -> UIModel {
    let def = layout(vec![
        layer_of(vec![SupportedKeys::Mod(10), SupportedKeys::Key(20)]),
        layer_of(vec![SupportedKeys::Key(30)]),
    ]);
    UIModel::new(def, 40)
}

fn one_layer_model() -> UIModel {
    UIModel::new(layout(vec![layer_of(vec![SupportedKeys::Key(20)])]), 40)
}

fn latched(m: &UIModel) -> Vec<u8> {
    (0u8..255).filter(|c| m.is_toggled(*c)).collect()
}

#[test]
fn modifier_then_plain_key_sends_both() {
    let mut m = two_layer_model();
    let first = m.update(UIMessage::OneShot(SupportedKeys::Mod(10))).unwrap();
    assert_eq!(first, vec![10]);
    assert!(m.is_toggled(10));
    let second = m.update(UIMessage::OneShot(SupportedKeys::Key(20))).unwrap();
    assert_eq!(second, vec![20]);
    assert!(!m.is_toggled(10));
    let mut all = first;
    all.extend(second);
    assert_eq!(all, vec![10, 20]);
}

#[test]
fn layer_key_to_missing_layer_fails() {
    let mut m = one_layer_model();
    let r = m.update(UIMessage::OneShot(SupportedKeys::Layer(1)));
    assert_eq!(r, Err(KeyboardError::UnknownLayer(1)));
    assert_eq!(m.active_layer(), 0);
}

#[test]
fn duplicate_codes_forward_the_activated_key() {
    let def = layout(vec![layer_of(vec![SupportedKeys::Key(20), SupportedKeys::Key(20)])]);
    let mut m = UIModel::new(def, 40);
    assert_eq!(m.update(UIMessage::OneShot(SupportedKeys::Key(20))), Ok(vec![20]));
    assert_eq!(m.update(UIMessage::OneShot(SupportedKeys::Key(20))), Ok(vec![20]));
}

#[test]
fn toggling_twice_restores_latches() {
    let mut m = two_layer_model();
    m.update(UIMessage::OneShot(SupportedKeys::Lock(58))).unwrap();
    let before = latched(&m);
    assert_eq!(m.update(UIMessage::OneShot(SupportedKeys::Mod(42))), Ok(vec![42]));
    assert_eq!(latched(&m), vec![42, 58]);
    assert_eq!(m.update(UIMessage::OneShot(SupportedKeys::Mod(42))), Ok(vec![42]));
    assert_eq!(latched(&m), before);
}

#[test]
fn plain_key_consumes_all_latches() {
    let mut m = two_layer_model();
    m.update(UIMessage::OneShot(SupportedKeys::Mod(42))).unwrap();
    m.update(UIMessage::OneShot(SupportedKeys::Mod(29))).unwrap();
    m.update(UIMessage::OneShot(SupportedKeys::Lock(254))).unwrap();
    assert_eq!(latched(&m), vec![29, 42, 254]);
    assert_eq!(m.update(UIMessage::OneShot(SupportedKeys::Key(30))), Ok(vec![30]));
    assert!(latched(&m).is_empty());
}

#[test]
fn set_layer_in_and_out_of_range() {
    let mut m = two_layer_model();
    m.update(UIMessage::OneShot(SupportedKeys::Mod(10))).unwrap();
    assert_eq!(m.update(UIMessage::Layer(1)), Ok(vec![]));
    assert_eq!(m.active_layer(), 1);
    assert_eq!(latched(&m), vec![10]);
    assert_eq!(m.update(UIMessage::Layer(2)), Err(KeyboardError::UnknownLayer(2)));
    assert_eq!(m.active_layer(), 1);
    assert_eq!(latched(&m), vec![10]);
    assert_eq!(m.update(UIMessage::OneShot(SupportedKeys::Layer(0))), Ok(vec![]));
    assert_eq!(m.active_layer(), 0);
}

#[test]
fn shutdown_releases_latches_in_ascending_order() {
    let mut m = two_layer_model();
    m.update(UIMessage::OneShot(SupportedKeys::Mod(42))).unwrap();
    m.update(UIMessage::OneShot(SupportedKeys::Mod(10))).unwrap();
    assert_eq!(m.update(UIMessage::AppQuit), Ok(vec![10, 42]));
    assert!(m.has_quit());
    assert_eq!(m.update(UIMessage::OneShot(SupportedKeys::Key(20))), Ok(vec![]));
    assert_eq!(m.update(UIMessage::Layer(1)), Ok(vec![]));
    assert_eq!(m.active_layer(), 0);
    assert_eq!(latched(&m), vec![10, 42]);
}

#[test]
fn close_key_shuts_down_and_releases_the_last_code() {
    let mut m = two_layer_model();
    m.update(UIMessage::OneShot(SupportedKeys::Lock(254))).unwrap();
    assert_eq!(m.update(UIMessage::OneShot(SupportedKeys::Close)), Ok(vec![254]));
    assert!(m.has_quit());
}

#[test]
fn no_op_key_changes_nothing() {
    let mut m = two_layer_model();
    m.update(UIMessage::OneShot(SupportedKeys::Mod(10))).unwrap();
    assert_eq!(m.update(UIMessage::OneShot(SupportedKeys::NoOp)), Ok(vec![]));
    assert_eq!(latched(&m), vec![10]);
    assert_eq!(m.active_layer(), 0);
}

#[test]
fn fresh_model_starts_on_base_layer() {
    let m = two_layer_model();
    assert_eq!(m.active_layer(), 0);
    assert!(latched(&m).is_empty());
    assert!(!m.has_quit());
    assert_eq!(m.key_height(), 40);
    assert_eq!(m.current_layer().0[0].len(), 2);
    assert_eq!(m.definition().len(), 2);
}

#[test]
fn empty_layout_is_malformed() {
    let r = LayoutDefinition::from_layers(vec![]);
    assert_eq!(r.err(), Some(LayoutError::MalformedLayout));
}

#[test]
fn zero_width_key_is_malformed() {
    let mut k = key(SupportedKeys::Key(4));
    k.width = Some(0);
    let r = LayoutDefinition::from_layers(vec![(vec![], vec![vec![key(SupportedKeys::Close), k]])]);
    assert_eq!(r.err(), Some(LayoutError::MalformedLayout));
}

#[test]
fn scan_code_255_is_malformed() {
    let r = LayoutDefinition::from_layers(vec![layer_of(vec![SupportedKeys::Lock(255)])]);
    assert_eq!(r.err(), Some(LayoutError::MalformedLayout));
}

#[test]
fn empty_rows_and_halves_are_accepted() {
    let def = layout(vec![(vec![vec![]], vec![]), layer_of(vec![SupportedKeys::Layer(7)])]);
    assert_eq!(def.len(), 2);
    assert_eq!(def.get_layer(0).0.len(), 1);
}

#[test]
fn key_classification() {
    assert!(SupportedKeys::Mod(42).is_mod_key());
    assert!(!SupportedKeys::Mod(42).is_lock_key());
    assert!(SupportedKeys::Lock(58).is_lock_key());
    assert!(!SupportedKeys::Key(30).is_mod_key());
    assert!(!SupportedKeys::Layer(1).is_lock_key());
    assert_eq!(SupportedKeys::Key(30).as_key_code(), 30);
    assert_eq!(SupportedKeys::Lock(58).as_key_code(), 58);
    assert!(SupportedKeys::Key(254).is_valid());
    assert!(!SupportedKeys::Key(255).is_valid());
    assert!(SupportedKeys::Layer(255).is_valid());
    assert_ne!(SupportedKeys::Layer(1), SupportedKeys::Layer(2));
}

#[test]
fn pixel_width_rounds_to_nearest() {
    let mut k = key(SupportedKeys::Key(1));
    assert_eq!(k.pixel_width(40), 40);
    k.width = Some(1500);
    assert_eq!(k.pixel_width(41), 62);
    k.width = Some(333);
    assert_eq!(k.pixel_width(40), 13);
    assert!(k.is_well_formed());
}

#[test]
fn default_layout_has_a_layer() {
    let doc = LayoutAssets::default_layout_str();
    assert_eq!(doc, DEFAULT_LAYOUT);
    let table: toml::Table = toml::from_str(&doc).unwrap();
    let layers = table.get("layer").unwrap().as_array().unwrap();
    assert!(!layers.is_empty());
    for l in layers {
        assert_eq!(l.as_array().unwrap().len(), 2);
    }
}
