//! The plugin runtime's face toward the editor core.
//!
//! Plugins run in an embedded JavaScript engine owned by the application
//! shell; the core only records which runtime is in use, that it is always
//! available, and what it knows of a loaded plugin.

use vstd::prelude::*;

verus! {

/// Information about a loaded plugin.
#[derive(Debug)]
pub struct PluginInfo {
    /// Plugin name.
    pub name: String,
    /// Plugin file path.
    pub path: String,
    /// Whether the plugin is enabled.
    pub enabled: bool,
}

impl Clone for PluginInfo {
    /// Clone the plugin description, field for field.
    fn clone(&self) -> (r: PluginInfo)
        ensures
            r == *self,
    {
        PluginInfo { name: self.name.clone(), path: self.path.clone(), enabled: self.enabled }
    }
}

/// The name of the JavaScript backend in use.
pub fn backend_name() -> (r: &'static str)
    ensures
        r@ == "QuickJS + oxc"@,
{
    "QuickJS + oxc"
}

/// Whether the runtime is available; an embedded engine always is.
pub fn check_runtime_available() -> (r: Result<(), String>)
    ensures
        r is Ok,
{
    Result::Ok(())
}

} // verus!
