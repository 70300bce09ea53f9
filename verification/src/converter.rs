pub mod chorddown;
pub mod html;
