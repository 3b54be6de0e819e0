//! Core of a terminal typing exercise: the text model, the screen composer and
//! the decisions of the event loop.
//!
//! Nothing here touches a terminal. The driver of the loop reads events, hands
//! them to [`App`], and performs the effects that come back.

use vstd::prelude::*;

pub mod app;
pub mod args;
pub mod compositor;
pub mod document;
pub mod event;
pub mod frame;
pub mod inbox;
pub mod layout;
pub mod stats;
pub mod terminal;
pub mod text;

pub use app::App;
pub use args::Args;
pub use compositor::Compositor;
pub use document::{Document, State};
pub use stats::Stats;

verus! {

/// A sample text to practise on.
pub const EXAMPLE_TEXT: &'static str = r#"pub fn add(left: usize, right: usize) -> usize {
    left + right
}

#[cfg(test)]
mod tests {
    use super::*;

    #[test]
    fn it_works() {
        let result = add(2, 2);
        assert_eq!(result, 4);
    }
}

// Lorem ipsum dolor sit amet, consectetur adipiscing elit. Curabitur lacinia nibh id mi pellentesque finibus. Etiam suscipit, felis sed laoreet venenatis, sem quam efficitur purus, vitae commodo nisl.
// Please note that the text provided is a commonly used placeholder text called "Lorem Ipsum." It is used to fill in spaces where actual text will be placed later on.
"#;

} // verus!
