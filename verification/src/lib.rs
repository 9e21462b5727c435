//! Verified core of a terminal control plane for the Animus daemon: key
//! translation, the UI state machine, the content of every view, and the
//! daemon scope naming rules. Drawing, sockets, files and the clock live
//! in the application crate that wraps this library.
use vstd::prelude::*;

pub mod app;
pub mod control_client;
pub mod keybinds;
pub mod text;
pub mod views;
pub mod widgets;

pub use app::App;

verus! {

/// JSON payload emitted by `animus-tui --manifest`.
pub const PLUGIN_MANIFEST_JSON: &'static str = "{
  \"name\": \"animus-tui\",
  \"version\": \"0.1.0\",
  \"plugin_kind\": \"custom\",
  \"description\": \"Terminal control plane for the Animus daemon \u{2014} k9s-style UI for workflows, queue, subjects, logs, and cost.\",
  \"protocol_version\": \"0.1.14\",
  \"capabilities\": [],
  \"env_required\": []
}
";

} // verus!
