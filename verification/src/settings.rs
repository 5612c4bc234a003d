//! User settings read from the optional configuration file. Every field is
//! optional; an absent field means "use the default or auto-detect".

use vstd::prelude::*;

verus! {

/// Settings from the configuration file. Sizes are in megabytes.
pub struct Settings {
    pub initial_heap_size: Option<u32>,
    pub maximum_heap_size: Option<u32>,
    pub thread_stack_size: Option<u32>,
    pub java_path: Option<String>,
    pub java_args: Option<Vec<String>>,
    pub wurst_path: Option<String>,
}

impl Settings {
    /// Every field is unset.
    pub open spec fn all_unset(self) -> bool {
        &&& self.initial_heap_size is None
        &&& self.maximum_heap_size is None
        &&& self.thread_stack_size is None
        &&& self.java_path is None
        &&& self.java_args is None
        &&& self.wurst_path is None
    }
}

impl Default for Settings {
    /// The settings used when no configuration file is present.
    fn default() -> (r: Settings)
        ensures
            r.all_unset(),
    {
        Settings {
            initial_heap_size: None,
            maximum_heap_size: None,
            thread_stack_size: None,
            java_path: None,
            java_args: None,
            wurst_path: None,
        }
    }
}

} // verus!
