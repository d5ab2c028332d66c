//! Window-effect controls for a terminal window with a blurred, tinted,
//! translucent background: the decisions, texts and style sheets behind
//! the control panel, with their contracts.

pub mod text;
pub mod style;
pub mod effects;
pub mod blur;
pub mod transcript;
