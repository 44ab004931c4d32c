//! A terminal Bluetooth device manager: the device list, the rules that
//! decide what each event does to it, and the computations behind the screen.

pub mod text;
pub mod device;
pub mod btui;
pub mod blueman;
pub mod display;
pub mod input;
pub mod listener;
pub mod inspect;
pub mod layout;
