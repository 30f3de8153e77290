//! The modules that run beside the relay and listen to its events.

pub mod easy_dummy;
pub mod rw_engine;

use vstd::prelude::*;

verus! {

/// What every module is.
pub trait Module {

}

/// The kinds of module.
#[derive(Debug, Clone, Copy, PartialEq, Eq, Structural)]
pub enum ModuleType {
    RwEngine,
}

/// The modules that were started, in the order in which they were.
#[derive(Debug)]
pub struct ModuleManager {
    module_list: Vec<ModuleType>,
}

impl View for ModuleManager {
    type V = Seq<ModuleType>;

    closed spec fn view(&self) -> Seq<ModuleType> {
        self.module_list@
    }
}

impl ModuleManager {
    /// A manager with no module.
    pub fn new() -> (manager: ModuleManager)
        ensures
            manager@ == Seq::<ModuleType>::empty(),
    {
        ModuleManager { module_list: Vec::new() }
    }

    /// Notes that a module of the given kind is started.
    pub fn init_module(&mut self, module_type: ModuleType)
        ensures
            final(self)@ == old(self)@.push(module_type),
    {
        self.module_list.push(module_type);
    }

    /// The number of modules.
    pub fn len(&self) -> (count: usize)
        ensures
            count == self@.len(),
    {
        self.module_list.len()
    }

    /// The kind of the module that was started as the `index`-th.
    pub fn module_type(&self, index: usize) -> (module_type: Option<ModuleType>)
        ensures
            module_type == (if index < self@.len() {
                Some(self@[index as int])
            } else {
                None
            }),
    {
        if index < self.module_list.len() {
            Some(self.module_list[index])
        } else {
            None
        }
    }
}

} // verus!
