//! Window and screen screenshot logic: which windows are listed, how a window
//! or monitor is chosen, how a captured image is scaled, encoded and wrapped in
//! base64, and the texts that describe the results.

pub mod capture;
pub mod imaging;
pub mod laws;
pub mod server;
pub mod text;
