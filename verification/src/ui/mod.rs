//! What a front end needs to draw a surface and turn a pointer into interactions, whatever it draws
//! with.
//!
//! A front end is not generic over the device. It draws whatever [`Surface`](crate::Surface) it is
//! handed, using a [`Layout`] to know which positions are pads, round buttons or the logo, shows
//! [`Labels`] while the pointer rests on a pad, and hands the pad under a pressed pointer to
//! [`LaunchpadUi::interactions`].

pub mod labels;
pub mod layout;
pub mod widget;

pub use labels::Labels;
pub use layout::Layout;
pub use widget::LaunchpadUi;

