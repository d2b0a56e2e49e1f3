use resume_state::overlay::{Content, OverlaySlot, Producer, FILLER_WORDS};

fn text(s: &str) -> Producer {
    Producer::Text(s.to_string())
}

#[test]
fn a_new_slot_is_empty_and_hidden() {
    let slot = OverlaySlot::new();
    assert!(!slot.is_visible());
    assert!(!slot.is_loaded());
    let slot = OverlaySlot::default();
    assert!(!slot.is_visible());
    assert!(!slot.is_loaded());
}

#[test]
fn consuming_an_empty_slot_gives_the_placeholder() {
    let mut slot = OverlaySlot::new();
    assert_eq!(slot.consume_and_render(), Content::Empty);
    assert_eq!(slot.consume_and_render(), Content::Empty);
    assert!(!slot.is_visible());
}

#[test]
fn the_usual_sequence() {
    let mut slot = OverlaySlot::new();
    slot.install(text("A"));
    slot.show();
    assert_eq!(slot.consume_and_render(), Content::Text("A".to_string()));
    slot.install(Producer::Markdown("# B".to_string()));
    assert_eq!(slot.consume_and_render(), Content::Markdown("# B".to_string()));
    assert_eq!(slot.consume_and_render(), Content::Empty);
    assert!(slot.is_visible());
}

#[test]
fn a_producer_is_consumed_once() {
    let mut slot = OverlaySlot::new();
    slot.install(text("P"));
    assert!(slot.is_loaded());
    assert_eq!(slot.consume_and_render(), Content::Text("P".to_string()));
    assert!(!slot.is_loaded());
    assert_eq!(slot.consume_and_render(), Content::Empty);
}

#[test]
fn installing_replaces_what_waits() {
    let mut slot = OverlaySlot::new();
    slot.install(text("A"));
    slot.install(text("B"));
    assert_eq!(slot.consume_and_render(), Content::Text("B".to_string()));
    assert_eq!(slot.consume_and_render(), Content::Empty);
}

#[test]
fn visibility_does_not_touch_the_slot() {
    let mut slot = OverlaySlot::new();
    slot.install(text("A"));
    slot.conceal();
    assert!(!slot.is_visible());
    assert!(slot.is_loaded());
    slot.show();
    assert!(slot.is_visible());
    assert_eq!(slot.consume_and_render(), Content::Text("A".to_string()));
}

#[test]
fn install_does_not_touch_visibility() {
    let mut slot = OverlaySlot::new();
    slot.install(text("A"));
    assert!(!slot.is_visible());
    slot.show();
    slot.install(text("B"));
    assert!(slot.is_visible());
    slot.consume_and_render();
    assert!(slot.is_visible());
}

#[test]
fn show_and_conceal_are_idempotent() {
    let mut slot = OverlaySlot::new();
    slot.show();
    slot.show();
    assert!(slot.is_visible());
    slot.conceal();
    slot.conceal();
    assert!(!slot.is_visible());
}

#[test]
fn the_panel_slides_out_when_concealed() {
    let mut slot = OverlaySlot::new();
    assert_eq!(slot.inset_right_pct(), -100);
    slot.show();
    assert_eq!(slot.inset_right_pct(), 0);
    slot.conceal();
    assert_eq!(slot.inset_right_pct(), -100);
}

#[test]
fn take_hands_out_the_producer_unbuilt() {
    let mut slot = OverlaySlot::new();
    assert_eq!(slot.take(), None);
    slot.install(Producer::Filler(3));
    slot.show();
    assert_eq!(slot.take(), Some(Producer::Filler(3)));
    assert_eq!(slot.take(), None);
    assert!(slot.is_visible());
}

#[test]
fn present_installs_and_shows() {
    let mut slot = OverlaySlot::new();
    slot.present(text("A"));
    assert!(slot.is_visible());
    assert_eq!(slot.consume_and_render(), Content::Text("A".to_string()));
}

#[test]
fn a_producer_builds_the_same_content_each_time() {
    let p = Producer::Markdown("*x*".to_string());
    assert_eq!(p.get(), Content::Markdown("*x*".to_string()));
    assert_eq!(p.get(), Content::Markdown("*x*".to_string()));
    let t = text("plain");
    assert_eq!(t.get(), Content::Text("plain".to_string()));
    let q = t.clone();
    assert_eq!(q.get(), t.get());
}

#[test]
fn filler_is_generated_text() {
    assert_eq!(
        Producer::Filler(7).get(),
        Content::Text("Lorem ipsum dolor sit amet, consectetur adipiscing.".to_string())
    );
    assert_eq!(Producer::Filler(0).get(), Content::Text(String::new()));
    match Producer::Filler(FILLER_WORDS).get() {
        Content::Text(body) => {
            assert_eq!(body, lipsum::lipsum(500));
            assert!(body.starts_with("Lorem ipsum"));
            assert_eq!(body.split_whitespace().count(), 500);
        }
        other => panic!("filler built {:?}", other),
    }
}

#[test]
fn present_filler_shows_five_hundred_words() {
    assert_eq!(FILLER_WORDS, 500);
    let mut slot = OverlaySlot::new();
    slot.present_filler();
    assert!(slot.is_visible());
    match slot.consume_and_render() {
        Content::Text(body) => assert_eq!(body.split_whitespace().count(), 500),
        other => panic!("filler built {:?}", other),
    }
    assert_eq!(slot.consume_and_render(), Content::Empty);
}

#[test]
fn a_write_up_that_was_read_is_shown_as_markdown() {
    let mut slot = OverlaySlot::new();
    slot.detail_loaded(Some("# Role\n\nDetails.".to_string()));
    assert!(slot.is_visible());
    assert_eq!(slot.consume_and_render(), Content::Markdown("# Role\n\nDetails.".to_string()));
}

#[test]
fn a_write_up_that_could_not_be_read_changes_nothing() {
    let mut slot = OverlaySlot::new();
    slot.detail_loaded(None);
    assert!(!slot.is_visible());
    assert!(!slot.is_loaded());
    slot.install(text("A"));
    slot.detail_loaded(None);
    assert!(!slot.is_visible());
    assert_eq!(slot.consume_and_render(), Content::Text("A".to_string()));
}
