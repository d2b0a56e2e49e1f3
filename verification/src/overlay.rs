//! The detail overlay: one slot for the content that the panel shows next,
//! and a flag for whether the panel is on screen.
//!
//! Content is stored unbuilt, as a [`Producer`], and built when the panel
//! asks for it. The slot holds at most one producer; installing another
//! replaces it, and building empties the slot.

use crate::outside::{filler, filler_text};
use vstd::prelude::*;

verus! {

/// How many words of filler a panel without a write-up of its own shows.
pub const FILLER_WORDS: usize = 500;

/// Content that has not been built yet.
#[derive(Clone, Debug, PartialEq, Eq)]
pub enum Producer {
    /// Plain text, shown as it stands.
    Text(String),
    /// Markdown source, to be laid out by the panel.
    Markdown(String),
    /// Placeholder text of the given number of words.
    Filler(usize),
}

/// A [`Producer`] as a value.
pub enum ProducerView {
    Text(Seq<char>),
    Markdown(Seq<char>),
    Filler(usize),
}

impl View for Producer {
    type V = ProducerView;

    open spec fn view(&self) -> ProducerView {
        match self {
            Producer::Text(text) => ProducerView::Text(text@),
            Producer::Markdown(source) => ProducerView::Markdown(source@),
            Producer::Filler(words) => ProducerView::Filler(*words),
        }
    }
}

/// What the panel is to show.
#[derive(Clone, Debug, PartialEq, Eq)]
pub enum Content {
    /// Nothing: the placeholder for a slot that held no producer.
    Empty,
    /// Plain text.
    Text(String),
    /// Markdown source.
    Markdown(String),
}

/// A [`Content`] as a value.
pub enum ContentView {
    Empty,
    Text(Seq<char>),
    Markdown(Seq<char>),
}

impl View for Content {
    type V = ContentView;

    open spec fn view(&self) -> ContentView {
        match self {
            Content::Empty => ContentView::Empty,
            Content::Text(text) => ContentView::Text(text@),
            Content::Markdown(source) => ContentView::Markdown(source@),
        }
    }
}

/// What a producer builds. Text and Markdown come out as they went in;
/// filler is the generated text of that many words, as plain text.
pub open spec fn rendered(producer: ProducerView) -> ContentView {
    match producer {
        ProducerView::Text(text) => ContentView::Text(text),
        ProducerView::Markdown(source) => ContentView::Markdown(source),
        ProducerView::Filler(words) => ContentView::Text(filler_text(words)),
    }
}

impl Producer {
    /// Builds the content. The producer stays as it was and can build again.
    pub fn get(&self) -> (content: Content)
        ensures
            content@ == rendered(self@),
    {
        match self {
            Producer::Text(text) => Content::Text(text.clone()),
            Producer::Markdown(source) => Content::Markdown(source.clone()),
            Producer::Filler(words) => Content::Text(filler(*words)),
        }
    }
}

/// The slot and the flag, as values.
pub struct OverlayView {
    pub producer: Option<ProducerView>,
    pub visible: bool,
}

impl OverlayView {
    /// Nothing installed, panel off screen.
    pub open spec fn empty() -> OverlayView {
        OverlayView { producer: None, visible: false }
    }

    /// After installing `producer`: it is the one in the slot, whatever was
    /// there before; the flag is as it was.
    pub open spec fn install(self, producer: ProducerView) -> OverlayView {
        OverlayView { producer: Some(producer), visible: self.visible }
    }

    /// After showing the panel.
    pub open spec fn show(self) -> OverlayView {
        OverlayView { producer: self.producer, visible: true }
    }

    /// After taking the panel off screen.
    pub open spec fn conceal(self) -> OverlayView {
        OverlayView { producer: self.producer, visible: false }
    }

    /// What the panel gets when it asks for content now.
    pub open spec fn render(self) -> ContentView {
        match self.producer {
            Some(producer) => rendered(producer),
            None => ContentView::Empty,
        }
    }

    /// After the panel has asked for content: the slot is empty, the flag
    /// is as it was.
    pub open spec fn consume(self) -> OverlayView {
        OverlayView { producer: None, visible: self.visible }
    }

    /// How far the panel is pushed out past the right edge, in percent of
    /// its width: not at all when shown, by its whole width when not.
    pub open spec fn inset_right_pct(self) -> int {
        if self.visible {
            0
        } else {
            -100
        }
    }
}

/// The overlay's state.
#[derive(Debug)]
pub struct OverlaySlot {
    producer: Option<Producer>,
    visible: bool,
}

impl View for OverlaySlot {
    type V = OverlayView;

    closed spec fn view(&self) -> OverlayView {
        OverlayView {
            producer: match self.producer {
                Some(producer) => Some(producer@),
                None => None,
            },
            visible: self.visible,
        }
    }
}

impl OverlaySlot {
    /// An empty slot with the panel off screen.
    pub fn new() -> (slot: OverlaySlot)
        ensures
            slot@ == OverlayView::empty(),
    {
        OverlaySlot { producer: None, visible: false }
    }

    /// Puts `producer` in the slot. One that was there and has not been
    /// built is dropped unbuilt.
    pub fn install(&mut self, producer: Producer)
        ensures
            final(self)@ == old(self)@.install(producer@),
    {
        self.producer = Some(producer);
    }

    /// Brings the panel on screen.
    pub fn show(&mut self)
        ensures
            final(self)@ == old(self)@.show(),
    {
        self.visible = true;
    }

    /// Takes the panel off screen. The slot keeps what it holds.
    pub fn conceal(&mut self)
        ensures
            final(self)@ == old(self)@.conceal(),
    {
        self.visible = false;
    }

    /// Installs `producer` and brings the panel on screen: what a click on
    /// a card or an icon does.
    pub fn present(&mut self, producer: Producer)
        ensures
            final(self)@ == old(self)@.install(producer@).show(),
    {
        self.install(producer);
        self.show();
    }

    /// Installs the placeholder text and brings the panel on screen.
    pub fn present_filler(&mut self)
        ensures
            final(self)@ == old(self)@.install(ProducerView::Filler(FILLER_WORDS)).show(),
    {
        self.present(Producer::Filler(FILLER_WORDS));
    }

    /// What to do when the write-up asked for on a click has been read, or
    /// could not be: with its text, show it as Markdown; without, leave
    /// everything as it is.
    pub fn detail_loaded(&mut self, source: Option<String>)
        ensures
            final(self)@ == match source {
                Some(text) => old(self)@.install(ProducerView::Markdown(text@)).show(),
                None => old(self)@,
            },
    {
        match source {
            Some(text) => self.present(Producer::Markdown(text)),
            None => {},
        }
    }

    /// Whether the panel is on screen.
    pub fn is_visible(&self) -> (visible: bool)
        ensures
            visible == self@.visible,
    {
        self.visible
    }

    /// Whether a producer waits in the slot.
    pub fn is_loaded(&self) -> (loaded: bool)
        ensures
            loaded == self@.producer.is_some(),
    {
        self.producer.is_some()
    }

    /// Where the panel sits: see [`OverlayView::inset_right_pct`].
    pub fn inset_right_pct(&self) -> (pct: i8)
        ensures
            pct == self@.inset_right_pct(),
    {
        if self.visible {
            0
        } else {
            -100
        }
    }

    /// Empties the slot and hands out what was in it, unbuilt.
    pub fn take(&mut self) -> (producer: Option<Producer>)
        ensures
            final(self)@ == old(self)@.consume(),
            match producer {
                Some(p) => old(self)@.producer == Some(p@),
                None => old(self)@.producer.is_none(),
            },
    {
        self.producer.take()
    }

    /// Empties the slot and builds what was in it; an empty slot gives
    /// [`Content::Empty`].
    pub fn consume_and_render(&mut self) -> (content: Content)
        ensures
            final(self)@ == old(self)@.consume(),
            content@ == old(self)@.render(),
    {
        match self.take() {
            Some(producer) => producer.get(),
            None => Content::Empty,
        }
    }
}

impl Default for OverlaySlot {
    fn default() -> (slot: OverlaySlot)
        ensures
            slot@ == OverlayView::empty(),
    {
        OverlaySlot::new()
    }
}

/// A producer is built at most once for each time it is installed: the
/// panel's first request after `install(p)` gets what `p` builds, and a
/// second request with no install between gets the empty placeholder.
pub proof fn law_consumed_once(slot: OverlayView, p: ProducerView)
    ensures
        slot.install(p).render() == rendered(p),
        slot.install(p).consume().render() == ContentView::Empty,
{
}

/// Installing replaces: after `install(a); install(b)` the slot is as if
/// `a` had never been installed, and the panel gets what `b` builds.
pub proof fn law_last_install_wins(slot: OverlayView, a: ProducerView, b: ProducerView)
    ensures
        slot.install(a).install(b) == slot.install(b),
        slot.install(a).install(b).render() == rendered(b),
{
}

/// Showing and hiding never touch the slot: whatever the flag is put
/// through, the panel still gets what the installed producer builds.
pub proof fn law_visibility_keeps_producer(slot: OverlayView, a: ProducerView)
    ensures
        slot.show().producer == slot.producer,
        slot.conceal().producer == slot.producer,
        slot.install(a).conceal().show().render() == rendered(a),
{
}

/// Showing twice is showing once, and concealing twice is concealing once.
pub proof fn law_show_conceal_idempotent(slot: OverlayView)
    ensures
        slot.show().show() == slot.show(),
        slot.conceal().conceal() == slot.conceal(),
{
}

/// A request empties the slot and leaves the flag alone; installing leaves
/// the flag alone too.
pub proof fn law_slot_and_flag_independent(slot: OverlayView, p: ProducerView)
    ensures
        slot.consume().visible == slot.visible,
        slot.install(p).visible == slot.visible,
        slot.consume().producer.is_none(),
{
}

} // verus!
