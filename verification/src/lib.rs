//! What an Android framework decides when its apps run on a host without Android: handles and the
//! state behind them, resources and themes, views and layout, text fields, web views with their
//! cookies and bridges, and the order in which an app is brought up and down.
//!
//! Every function takes the state it works on as an argument. The single-precision numbers that
//! reach it are held as their bits; arithmetic on them, and every call into the managed runtime,
//! is left to the host.

use vstd::prelude::*;

pub mod activities;
pub mod asset_registry;
pub mod assets;
pub mod bitmap;
pub mod bitmap_registry;
pub mod bridge;
pub mod canvas_registry;
pub mod cookies;
pub mod draw;
pub mod error;
pub mod host;
pub mod input;
pub mod json;
pub mod layout;
pub mod lifecycle;
pub mod looper;
pub mod main_dispatch;
pub mod matrix_registry;
pub mod memory;
pub mod message_queue;
pub mod names;
pub mod native_load;
pub mod natives;
pub mod paint;
pub mod paint_registry;
pub mod path;
pub mod resources;
pub mod slots;
pub mod styling;
pub mod text;
pub mod text_edit;
pub mod text_field;
pub mod text_pointer;
pub mod theme_registry;
pub mod typed_array;
pub mod typed_value;
pub mod view_registry;
pub mod web_callbacks;
pub mod web_view;
pub mod window;
pub mod xml_registry;

verus! {

} // verus!
