//! Event renderers: they turn the runtime events of a turn into display output.
//!
//! - [`TerminalRenderer`]: colored terminal text with a duration / tool-count summary
//! - [`JsonStreamRenderer`]: one JSON object per line for programmatic consumers
//! - [`NullRenderer`]: silent
//!
//! The renderers here decide what is shown and keep the per-turn state; the
//! text they produce is handed to a writer by the caller.
use vstd::prelude::*;

pub mod json_stream;
pub mod terminal;


pub use json_stream::JsonStreamRenderer;
pub use terminal::TerminalRenderer;

verus! {

/// Output format.
#[derive(Clone, Copy, Debug, PartialEq, Eq, Structural)]
pub enum OutputFormat {
    /// Rich terminal output (with colors and emoji).
    Terminal {
        /// Whether to display the model's thinking/reasoning content.
        show_thinking: bool,
        /// Whether to display tool call arguments.
        show_tool_args: bool,
        /// Whether to use ANSI color codes.
        color: bool,
    },
    /// One JSON object per line.
    Json,
    /// No output.
    Quiet,
}

impl Default for OutputFormat {
    /// Terminal output with tool arguments shown, thinking hidden, colors on.
    fn default() -> (f: Self)
        ensures
            f == (OutputFormat::Terminal { show_thinking: false, show_tool_args: true, color: true }),
    {
        OutputFormat::Terminal { show_thinking: false, show_tool_args: true, color: true }
    }
}

/// A renderer that shows nothing.
pub struct NullRenderer;

impl NullRenderer {
    /// Consumes an event; there is never any output.
    pub fn render(&mut self, event: &crate::event::RuntimeEvent) -> (out: String)
        ensures
            out@.len() == 0,
    {
        String::new()
    }

    /// Ends a turn; there is never any output.
    pub fn finish_turn(&mut self) -> (out: String)
        ensures
            out@.len() == 0,
    {
        String::new()
    }
}

} // verus!
