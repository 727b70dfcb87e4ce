pub mod auto_filter;
pub mod chorus;
pub mod delay;
pub mod delay_line;
pub mod lfo;
pub mod phaser;
pub mod pitch_shifter;
