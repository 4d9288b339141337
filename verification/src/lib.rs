//! The state and the decisions of a small Markdown browser that can run WebAssembly guests.
//!
//! * [`location`]: what a location asks to be fetched, and what becomes of the reply;
//! * [`markdown`]: the events of a page, its heading and its links;
//! * [`links`]: watching the links of the displayed page for clicks;
//! * [`surface`]: the surface that the browser window draws to;
//! * [`tab`]: a tab with its page and its history;
//! * [`state`]: the browser as a mathematical state machine;
//! * [`app`]: the browser itself, each step proved to be one of that machine's;
//! * [`wasm`]: the runtime for guests, and the surface handed to them;
//! * [`page_laws`], [`step_laws`], [`laws`]: what holds of pages and links, of each step of the
//!   browser, and of the browser as a whole.
pub mod app;
pub mod laws;
pub mod links;
pub mod location;
pub mod markdown;
pub mod page_laws;
pub mod state;
pub mod step_laws;
pub mod surface;
pub mod tab;
pub mod wasm;
