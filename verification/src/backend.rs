//! The framework-facing backend: one screen buffer and one event
//! bridge, with the framework's calls forwarded to them. Host-side
//! concerns — locating the render surface, painting a snapshot,
//! delivering raw keyboard events — live with the embedding
//! integration, which holds a `Backend` and calls it with plain values.

use vstd::prelude::*;

use crate::buffer::ScreenBuffer;
use crate::buffer::ScreenBufferView;
use crate::buffer::TextColorPair;
use crate::buffer::Vec2;
use crate::buffer::blank_cell;
use crate::buffer::spec_write;
use crate::color::ColorPairView;
use crate::color::color_pair_hex;
use crate::color::cursive_to_color_pair;
use crate::event::Event;
use crate::event::EventBridge;
use crate::event::spec_enqueue;
use crate::event::spec_poll_rest;
use crate::event::spec_poll_result;
use crate::theme;

verus! {

/// The color pair every cell starts out with, and the initial value of
/// the current-color register: light black on dark green.
pub open spec fn initial_color() -> ColorPairView {
    color_pair_hex(
        theme::ColorPair {
            front: theme::Color::Light(theme::BaseColor::Black),
            back: theme::Color::Dark(theme::BaseColor::Green),
        },
    )
}

/// The in-memory backend: a fixed-size character grid with its
/// current-color register, and the FIFO queue of pending input events.
pub struct Backend {
    screen: ScreenBuffer,
    bridge: EventBridge,
}

/// The mathematical content of a `Backend`: the screen's content and
/// the queued events.
#[verifier::ext_equal]
pub ghost struct BackendView {
    pub screen: ScreenBufferView,
    pub events: Seq<Event>,
}

impl View for Backend {
    type V = BackendView;

    closed spec fn view(&self) -> BackendView {
        BackendView { screen: self.screen@, events: self.bridge@ }
    }
}

impl Backend {
    /// The shape invariant: the grid holds exactly `width * height`
    /// cells for its whole lifetime.
    pub open spec fn wf(&self) -> bool {
        self@.screen.cells.len() == self@.screen.width * self@.screen.height
    }

    /// Builds a backend for a render surface of the given dimensions:
    /// every cell blank in the initial colors, the register at the
    /// initial colors, and no event queued.
    pub fn new(width: usize, height: usize) -> (r: Self)
        requires
            width * height <= usize::MAX,
        ensures
            r.wf(),
            r@.screen.width == width,
            r@.screen.height == height,
            r@.screen.color == initial_color(),
            forall|i: int|
                0 <= i < r@.screen.cells.len() ==> r@.screen.cells[i] == blank_cell(
                    initial_color(),
                ),
            r@.events.len() == 0,
    {
        let color = cursive_to_color_pair(
            theme::ColorPair {
                front: theme::Color::Light(theme::BaseColor::Black),
                back: theme::Color::Dark(theme::BaseColor::Green),
            },
        );
        Backend { screen: ScreenBuffer::new(width, height, color), bridge: EventBridge::new() }
    }

    /// Removes and returns the oldest queued input event, or the
    /// no-event sentinel `None` when the queue is empty, leaving the
    /// screen untouched. Never blocks.
    pub fn poll_event(&mut self) -> (r: Option<Event>)
        ensures
            r == spec_poll_result(old(self)@.events),
            final(self)@.events == spec_poll_rest(old(self)@.events),
            final(self)@.screen == old(self)@.screen,
    {
        self.bridge.poll()
    }

    /// Takes one host keyboard event's text payload and queues one
    /// input event per Unicode scalar, in order, at the tail. The host
    /// integration's listener calls this for every raw event.
    pub fn on_host_event(&mut self, text: &str)
        ensures
            final(self)@.events == spec_enqueue(old(self)@.events, text@),
            final(self)@.screen == old(self)@.screen,
    {
        self.bridge.on_host_event(text)
    }

    /// A deep, independent copy of the grid in row-major order, for the
    /// host's paint routine: the refresh handoff.
    pub fn snapshot(&self) -> (r: Vec<TextColorPair>)
        ensures
            r@.map_values(|c: TextColorPair| c@) == self@.screen.cells,
    {
        self.screen.snapshot()
    }

    /// This backend always renders colors.
    pub fn has_colors(&self) -> (r: bool)
        ensures
            r == true,
    {
        true
    }

    /// The grid dimensions, as column and row counts.
    pub fn screen_size(&self) -> (r: Vec2)
        ensures
            r.x == self@.screen.width,
            r.y == self@.screen.height,
    {
        Vec2 { x: self.screen.width(), y: self.screen.height() }
    }

    /// Writes `text` at `pos` with the current-color register's value
    /// at call time, clipping at the end of the row and at the edge of
    /// the grid. The register, the dimensions and the event queue are
    /// untouched.
    pub fn print_at(&mut self, pos: Vec2, text: &str)
        requires
            old(self).wf(),
        ensures
            final(self).wf(),
            final(self)@.screen.width == old(self)@.screen.width,
            final(self)@.screen.height == old(self)@.screen.height,
            final(self)@.screen.color == old(self)@.screen.color,
            final(self)@.events == old(self)@.events,
            final(self)@.screen.cells == spec_write(
                old(self)@.screen.cells,
                old(self)@.screen.width,
                pos.x as int,
                pos.y as int,
                text@,
                old(self)@.screen.color,
            ),
    {
        self.screen.write_current(pos, text);
    }

    /// Replaces the current-color register with the pixel form of the
    /// given abstract pair and hands the pair back, the framework's
    /// effective-color convention. Cells already written keep their
    /// colors.
    pub fn set_color(&mut self, color_pair: theme::ColorPair) -> (r: theme::ColorPair)
        requires
            old(self).wf(),
        ensures
            final(self).wf(),
            final(self)@.screen.width == old(self)@.screen.width,
            final(self)@.screen.height == old(self)@.screen.height,
            final(self)@.screen.cells == old(self)@.screen.cells,
            final(self)@.screen.color == color_pair_hex(color_pair),
            final(self)@.events == old(self)@.events,
            r == color_pair,
    {
        let _prev = self.screen.set_color(cursive_to_color_pair(color_pair));
        color_pair
    }

    /// True screen clearing is an unsupported capability: the call is
    /// accepted and changes nothing.
    pub fn clear(&mut self, _color: theme::Color)
        ensures
            *final(self) == *old(self),
    {
    }

    /// Text effects are an unsupported capability: the call is accepted
    /// and changes nothing.
    pub fn set_effect(&mut self, _effect: theme::Effect)
        ensures
            *final(self) == *old(self),
    {
    }

    /// Text effects are an unsupported capability: the call is accepted
    /// and changes nothing.
    pub fn unset_effect(&mut self, _effect: theme::Effect)
        ensures
            *final(self) == *old(self),
    {
    }

    /// The backend's identifier.
    pub fn name(&self) -> (r: &'static str)
        ensures
            r@ == "cursive-wasm-backend"@,
    {
        "cursive-wasm-backend"
    }
}

} // verus!
