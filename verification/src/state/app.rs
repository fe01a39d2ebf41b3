//! Application-wide state: the navigation layout and hand-declared pages.
use vstd::prelude::*;

verus! {

/// A role that can gate a navigation section or entry.
#[derive(Debug, Clone, Copy, PartialEq, Eq, Structural)]
pub enum Role {
    Admin,
    User,
}

/// One navigation link: the route it points at, with optional label, icon
/// name and role gate.
pub struct Entry {
    pub route: String,
    pub label: Option<String>,
    pub icon: Option<String>,
    pub roles: Option<Vec<Role>>,
}

/// A titled group of navigation links.
pub struct Section {
    pub key: String,
    pub label: String,
    pub icon: String,
    pub roles: Option<Vec<Role>>,
    pub entries: Vec<Entry>,
}

/// The navigation layout, sections in display order.
pub struct NavConfig {
    pub sections: Vec<Section>,
}

/// A hand-written page registered under a route name.
pub struct Page {
    pub route: String,
    pub path: String,
    pub component: String,
    pub label: Option<String>,
    pub icon: Option<String>,
    pub in_nav: bool,
    pub roles: Option<Vec<Role>>,
}

/// One variable of `.env.example`.
pub struct EnvVarSpec {
    pub default: String,
    pub comment: Option<String>,
    /// The value is a secret: the example shows a placeholder instead.
    pub sensitive: bool,
}

/// The declared environment variables, in declaration order.
pub struct EnvSpecState {
    pub vars: Vec<(String, EnvVarSpec)>,
}

} // verus!
