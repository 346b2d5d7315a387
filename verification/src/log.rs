//! The decisions of the logging API: which modules log, up to which level.
//! The callbacks that receive the messages are held by the caller.
use vstd::prelude::*;
use std::collections::BTreeMap;

verus! {

broadcast use vstd::std_specs::btree::group_btree_axioms;

/// The level of a log message; smaller is more severe.
pub type log_log_level_t = i32;

/// A module of the program that logs.
pub type log_module_t = i32;

/// For each module that logs, the largest level it logs at.
pub struct LogConfig {
    pub levels: BTreeMap<log_module_t, log_log_level_t>,
}

impl View for LogConfig {
    type V = Map<log_module_t, log_log_level_t>;

    open spec fn view(&self) -> Map<log_module_t, log_log_level_t> {
        self.levels@
    }
}

/// Whether a message of module `module` at level `level` is logged.
pub open spec fn spec_log_enabled(
    levels: Map<log_module_t, log_log_level_t>,
    module: log_module_t,
    level: log_log_level_t,
) -> bool {
    levels.contains_key(module) && level <= levels[module]
}

/// The configuration after `log_set_callback` for `module`: with a callback
/// the module logs up to `max_level`; without one it does not log.
pub open spec fn spec_log_configure(
    levels: Map<log_module_t, log_log_level_t>,
    module: log_module_t,
    has_callback: bool,
    max_level: log_log_level_t,
) -> Map<log_module_t, log_log_level_t> {
    if has_callback {
        levels.insert(module, max_level)
    } else {
        levels.remove(module)
    }
}

impl LogConfig {
    /// No module logs.
    pub fn new() -> (res: Self)
        ensures
            res@ == Map::<log_module_t, log_log_level_t>::empty(),
    {
        LogConfig { levels: BTreeMap::new() }
    }

    /// Sets whether `module` logs (whether it has a callback) and up to
    /// which level.
    pub fn log_set_callback(&mut self, module: log_module_t, has_callback: bool, max_level: log_log_level_t)
        ensures
            final(self)@ == spec_log_configure(old(self)@, module, has_callback, max_level),
    {
        if has_callback {
            self.levels.insert(module, max_level);
        } else {
            self.levels.remove(&module);
        }
    }

    /// Whether a message of `module` at `level` goes to the module's
    /// callback: the module has one, and `level` is at most its level.
    pub fn log_enabled(&self, module: &log_module_t, level: &log_log_level_t) -> (res: bool)
        ensures
            res == spec_log_enabled(self@, *module, *level),
    {
        match self.levels.get(module) {
            Some(current_level) => *level <= *current_level,
            None => false,
        }
    }
}

} // verus!
