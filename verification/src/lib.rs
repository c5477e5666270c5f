use vstd::prelude::*;

pub mod text;
pub mod prefix;
pub mod install;
pub mod settings;
pub mod patch;
pub mod recorder;
pub mod ffmpeg;
pub mod startup;
pub mod platform;
pub mod encoder;

verus! {

} // verus!
