//! Core logic of a version-check DLL: it parses the fixed file-info record
//! out of a module's version resource, derives the version triple shown to
//! the user, builds the dialog text, and decides how each loader lifecycle
//! event is handled. All OS interaction (module path lookup, resource
//! queries, the message box) lives outside this crate; the functions here
//! work on the plain values those calls produce.

pub mod fileinfo;
pub mod lifecycle;
pub mod lookup;
pub mod text;
