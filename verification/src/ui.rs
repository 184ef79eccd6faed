//! Display elements shared by the modes: bars, circles, vector
//! indicators, the environment table and the title frame.

pub mod environment;
pub mod filled_circle;
pub mod horizontal_bar;
pub mod layout;
pub mod title_frame;
pub mod vector;
pub mod vector_box;
