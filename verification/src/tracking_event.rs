//! Semantic tracking events exchanged between subsystems and exposed to
//! consumers; durations are milliseconds.

use vstd::prelude::*;

verus! {

#[derive(Clone, Debug)]
pub enum TrackingEvents {
    FileOpened { path: String, language: String },
    FileClosed { path: String },
    FileModified { path: String },
    FileFocused { path: String },
    UserActive,
    UserIdle { duration: u64 },
    SystemAwake,
    SystemSleep,
}

} // verus!
