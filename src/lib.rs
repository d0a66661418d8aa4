//! Decision logic of a tray-resident desktop shell: which in-process events a
//! redirected second launch produces, how window close requests are answered,
//! and the order in which the shell starts up.

pub mod redirect;
pub mod lifecycle;
