//! Minimal concrete components exercising the dispatch machinery: a
//! one-flag state, a message that toggles it, a message that only
//! observes, and a renderer over it.

use vstd::prelude::*;

use crate::channel::Channel;
use crate::component::Component;
use crate::messenger::Envelope;
use crate::messenger::Messenger;
use crate::renderer::Renderer;

verus! {

/// A component state of one visible flag.
#[derive(Clone, Copy, Debug, PartialEq, Eq, Structural)]
pub struct Data {
    /// The flag the tree displays.
    pub button: bool,
}

/// The local message of `Data`: toggle the flag.
#[derive(Clone, Copy, Debug, PartialEq, Eq, Structural)]
pub enum Msg {
    /// Flip the flag; visible state changes, so a redraw is due.
    Flipit,
}

/// The observe-only message of `Data`: it reads the state, changes
/// nothing, and asks for no redraw.
#[derive(Clone, Copy, Debug, PartialEq, Eq, Structural)]
pub enum Msg2 {
    /// Look at the state and leave it alone.
    Secret,
}

impl Component for Data {
    type Msg = Msg;

    type RootMsg = Msg2;

    open spec fn next(self, msg: Msg) -> Data {
        Data { button: !self.button }
    }

    open spec fn needs_redraw(self, msg: Msg) -> bool {
        true
    }

    open spec fn next_root(self, msg: Msg2) -> Data {
        self
    }

    open spec fn needs_redraw_root(self, msg: Msg2) -> bool {
        false
    }

    fn update(&mut self, msg: Msg) -> (redraw: bool) {
        self.button = !self.button;
        true
    }

    fn update_el(&mut self, msg: Msg2) -> (redraw: bool) {
        false
    }
}

impl Messenger for Msg {
    type Target = Data;

    open spec fn next(self, target: Data) -> Data {
        Data { button: !target.button }
    }

    open spec fn needs_redraw(self, target: Data) -> bool {
        true
    }

    fn update(
        self,
        target: &mut Data,
        sender: &mut Channel<Envelope<Msg>>,
        render_tx: &mut Channel<bool>,
    ) -> (redraw: bool) {
        target.button = !target.button;
        proof {
            assert(sender@.queue.subrange(0, sender@.queue.len() as int) =~= sender@.queue);
        }
        true
    }
}

impl Messenger for Msg2 {
    type Target = Data;

    open spec fn next(self, target: Data) -> Data {
        target
    }

    open spec fn needs_redraw(self, target: Data) -> bool {
        false
    }

    fn update(
        self,
        target: &mut Data,
        sender: &mut Channel<Envelope<Msg2>>,
        render_tx: &mut Channel<bool>,
    ) -> (redraw: bool) {
        proof {
            assert(sender@.queue.subrange(0, sender@.queue.len() as int) =~= sender@.queue);
        }
        false
    }
}

impl crate::component::Render<Msg, Msg2> for Data {
    type Node = Option<bool>;

    open spec fn node_of(self) -> Option<bool> {
        Some(self.button)
    }

    fn render(&self) -> (n: Option<bool>) {
        Some(self.button)
    }
}

/// The kind of device a fixture tree renders for.
#[derive(Clone, Copy, Debug, PartialEq, Eq, Structural)]
pub enum Device {
    /// A desktop view.
    Pc,
    /// A mobile view.
    Mobile,
}

impl Renderer for Device {
    type Target = Data;

    type Data = Data;

    type Node = Option<bool>;

    open spec fn node_of(&self, target: Data) -> Option<bool> {
        Some(target.button)
    }

    open spec fn placeholder_of(&self) -> Option<bool> {
        None
    }

    fn view(&self, target: &Data) -> (n: Option<bool>) {
        Some(target.button)
    }

    fn placeholder(&self) -> (n: Option<bool>) {
        None
    }
}

} // verus!
