//! What the viewer of a contact is shown.

pub mod subscription;
