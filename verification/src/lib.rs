use vstd::prelude::*;

pub mod commands;
pub mod control;
pub mod credentials;
pub mod dialogs;
pub mod engagement;
pub mod fetch;
pub mod filtering;
pub mod firefox;
pub mod format;
pub mod hls;
pub mod ids;
pub mod input;
pub mod json;
pub mod layout;
pub mod models;
pub mod navigation;
pub mod oauth;
pub mod parse;
pub mod player;
pub mod pointer;
pub mod queue;
pub mod requests;
pub mod search;
pub mod segments;
pub mod session;
pub mod state;
pub mod status;
pub mod text;
pub mod title;
pub mod token;
pub mod view;
pub mod wave;

verus! {

} // verus!
