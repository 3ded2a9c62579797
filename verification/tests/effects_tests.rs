use guest_bridge::contract::{PanelConfig, TextConfig};
use guest_bridge::effects::{CreationEffect, EffectQueue, MutationEffect};

fn panel(name: &str) -> PanelConfig {
    PanelConfig {
        name: name.to_owned(),
        x_bits: 0,
        y_bits: 0,
        width_bits: 0,
        height_bits: 0,
        color_r_bits: 0,
        color_g_bits: 0,
        color_b_bits: 0,
        color_a_bits: 0,
    }
}

fn text(name: &str, parent: &str) -> TextConfig {
    TextConfig {
        name: name.to_owned(),
        parent: parent.to_owned(),
        text: "hello".to_owned(),
        font_size_bits: 0,
        color_r_bits: 0,
        color_g_bits: 0,
        color_b_bits: 0,
    }
}

#[test]
fn handlers_record_in_issue_order() {
    let mut q = EffectQueue::new();
    q.create_panel(panel("hud"));
    q.create_text(text("hud.title", "hud"));
    q.set_visible("hud".to_owned(), false);
    q.remove("hud".to_owned());
    let (creations, mutations) = q.drain();
    assert_eq!(creations.len(), 2);
    match &creations[0] {
        CreationEffect::Panel(c) => assert_eq!(c.name, "hud"),
        CreationEffect::Text(_) => panic!("first effect should be the panel"),
    }
    match &creations[1] {
        CreationEffect::Text(c) => {
            assert_eq!(c.name, "hud.title");
            assert_eq!(c.parent, "hud");
        }
        CreationEffect::Panel(_) => panic!("second effect should be the text"),
    }
    assert_eq!(mutations.len(), 2);
    match &mutations[0] {
        MutationEffect::SetVisible { name, visible } => {
            assert_eq!(name, "hud");
            assert!(!*visible);
        }
        MutationEffect::Remove { .. } => panic!("first mutation should be the visibility change"),
    }
    match &mutations[1] {
        MutationEffect::Remove { name } => assert_eq!(name, "hud"),
        MutationEffect::SetVisible { .. } => panic!("second mutation should be the removal"),
    }
}

#[test]
fn drain_leaves_logs_empty() {
    let mut q = EffectQueue::new();
    q.create_panel(panel("hud"));
    q.remove("hud".to_owned());
    let _ = q.drain();
    let (creations, mutations) = q.drain();
    assert!(creations.is_empty());
    assert!(mutations.is_empty());
}

#[test]
fn log_messages_survive_drain() {
    let mut q = EffectQueue::new();
    q.log("first".to_owned());
    q.create_panel(panel("hud"));
    q.log("second".to_owned());
    let _ = q.drain();
    let messages = q.take_messages();
    assert_eq!(messages, vec!["first".to_owned(), "second".to_owned()]);
    assert!(q.take_messages().is_empty());
}
