//! A screen of components drawn through a common trait object, so that
//! component types unknown to this library can be mixed into the same
//! list at runtime.

use vstd::prelude::*;

verus! {

/// Anything that can draw itself. How a component draws is its own
/// business — with printing the host's business, the components here
/// compose their appearance and keep it to themselves.
pub trait Draw {
    fn draw(&self);
}

/// A width and height in pixels.
pub struct Dimensions {
    pub width: u32,
    pub height: u32,
}

/// One drawable component of any type, boxed behind the trait.
struct Component(Box<dyn Draw>);

/// A list of components of arbitrary, mixed types, each drawable.
pub struct Screen {
    components: Vec<Component>,
}

impl Screen {
    /// How many components are on the screen.
    pub closed spec fn component_count(&self) -> nat {
        self.components@.len()
    }

    /// An empty screen.
    pub fn new() -> (s: Screen)
        ensures
            s.component_count() == 0,
    {
        Screen { components: Vec::new() }
    }

    /// Puts one wrapped component onto the screen.
    fn push_component(&mut self, component: Component)
        ensures
            final(self).component_count() == old(self).component_count() + 1,
    {
        self.components.push(component);
    }

    /// Puts one more component onto the screen.
    pub fn push(&mut self, component: Box<dyn Draw>)
        ensures
            final(self).component_count() == old(self).component_count() + 1,
    {
        let wrapped = Component(component);
        self.push_component(wrapped);
    }

    /// Draws every component, in the order they were pushed.
    pub fn run(&self) {
        let mut i: usize = 0;
        while i < self.components.len()
            invariant
                i <= self.components@.len(),
            decreases self.components@.len() - i,
        {
            self.components[i].0.draw();
            i = i + 1;
        }
    }
}

/// A clickable button with a label.
pub struct Button {
    pub dimensions: Dimensions,
    pub label: String,
}

impl Button {
    pub fn new(dimensions: Dimensions, label: String) -> (b: Button)
        ensures
            b.label@ == label@,
            b.dimensions.width == dimensions.width,
            b.dimensions.height == dimensions.height,
    {
        Button { dimensions, label }
    }
}

impl Draw for Button {
    fn draw(&self) {
    }
}

/// A select box offering a list of options.
pub struct SelectBox {
    pub dimensions: Dimensions,
    pub options: Vec<String>,
}

impl SelectBox {
    pub fn new(dimensions: Dimensions, options: Vec<String>) -> (b: SelectBox)
        ensures
            b.options@ == options@,
            b.dimensions.width == dimensions.width,
            b.dimensions.height == dimensions.height,
    {
        SelectBox { dimensions, options }
    }
}

impl Draw for SelectBox {
    fn draw(&self) {
    }
}

} // verus!
