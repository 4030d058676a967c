//! The startup configuration of the shell: the capability plugins it
//! registers and the application context it hands to the runtime.

use vstd::prelude::*;

verus! {

/// A capability plugin that the shell registers at startup.
///
/// The shell knows exactly two: native file/message dialogs and scoped
/// native filesystem access. Both are consumed through their registration
/// call alone; their internals are outside the shell.
#[derive(Clone, Copy, Debug, PartialEq, Eq, Structural)]
pub enum Capability {
    Dialog,
    Filesystem,
}

/// The immutable application context: window metadata and bundle identifier,
/// materialized once at startup from packaged configuration and consumed
/// exactly once by the runtime builder.
#[derive(Debug, PartialEq, Eq)]
pub struct AppContext {
    pub identifier: String,
    pub window_title: String,
    pub window_width: u32,
    pub window_height: u32,
}

/// The startup configuration assembled by the bootstrap: the capability
/// plugins in registration order, and the application context.
#[derive(Debug, PartialEq, Eq)]
pub struct ShellConfig {
    pub plugins: Vec<Capability>,
    pub context: AppContext,
}

impl ShellConfig {
    /// The configuration registers the given capability.
    pub open spec fn registers(self, cap: Capability) -> bool {
        self.plugins@.contains(cap)
    }

    /// Both capabilities of the shell are registered.
    pub open spec fn fully_equipped(self) -> bool {
        self.registers(Capability::Dialog) && self.registers(Capability::Filesystem)
    }

    /// A fresh configuration around the given context, with no plugin
    /// registered yet.
    pub fn new(context: AppContext) -> (c: ShellConfig)
        ensures
            c.plugins@ == Seq::<Capability>::empty(),
            c.context == context,
    {
        ShellConfig { plugins: Vec::new(), context }
    }

    /// Register one more capability plugin; registration order is insertion
    /// order, and the context is untouched.
    pub fn register(&mut self, cap: Capability)
        ensures
            final(self).plugins@ == old(self).plugins@.push(cap),
            final(self).context == old(self).context,
    {
        self.plugins.push(cap);
    }

    /// Whether the given capability has been registered.
    pub fn is_registered(&self, cap: Capability) -> (r: bool)
        ensures
            r == self.registers(cap),
    {
        let mut i: usize = 0;
        while i < self.plugins.len()
            invariant
                i <= self.plugins@.len(),
                forall|j: int| 0 <= j < i ==> self.plugins@[j] != cap,
            decreases self.plugins@.len() - i,
        {
            if self.plugins[i] == cap {
                return true;
            }
            i = i + 1;
        }
        false
    }
}

} // verus!
