//! Configuration, logging and hook decisions of the bflib DCS mission library.
pub mod kinds;
pub mod tables;
pub mod cfg;
pub mod logging;
pub mod hooks;
pub mod load;
