//! Runtime core of a graphical front end for a headless text editor: the
//! settings that the editor and the front end share, the scheduler that decides
//! when a frame is drawn, the cursor's blink and placement rules, and the rules
//! by which the bridge to the editor process starts up and forwards commands.

pub mod bridge;
pub mod editor;
pub mod redraw_scheduler;
pub mod renderer;
pub mod settings;
pub mod wire;
