//! The keys of well-known settings.
use vstd::prelude::*;

verus! {

pub const SYSTEM_NAME: &'static str = "system.name";

pub const RETENTION_POLICY_DAYS: &'static str = "system.retention_days";

pub const UI_THEME: &'static str = "ui.theme";

pub const UI_LANGUAGE: &'static str = "ui.language";

} // verus!
