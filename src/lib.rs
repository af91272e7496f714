//! Live-view synchronisation core of a chat front end for a home-automation hub.
//!
//! - `codec`: navigation intents and their compact text form for buttons.
//! - `router`: from an intent to the screen to show.
//! - `session` and `reconcile`: what each user sees, and keeping it in step.
//! - `fanout`, `queue`, `stream`, `frame`: hub events to open screens.
//! - `history`: the window, series and navigation of state charts.
//! - `presentation`, `screen`, `devices`, `config`: texts, devices, settings.
use vstd::prelude::*;

pub mod codec;
pub mod config;
pub mod devices;
pub mod fanout;
pub mod frame;
pub mod history;
pub mod presentation;
pub mod queue;
pub mod reconcile;
pub mod router;
pub mod screen;
pub mod session;
pub mod stream;
pub mod text;
pub mod wire;

verus! {

} // verus!
