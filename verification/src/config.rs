//! The configuration that a runtime is created from.
use crate::engine::ZenEngineCall;
use crate::engine::ZenEngineReply;
use crate::engine::ZenRuntimeConfigExtern;
use vstd::prelude::*;

verus! {

/// How the engine runs guest code.
#[derive(Clone, Copy, PartialEq, Eq, Structural, Debug)]
pub enum ZenRuntimeMode {
    /// Interpreted.
    Interp,
    /// Compiled in one pass.
    Singlepass,
    /// Compiled in several passes.
    Multipass,
}

impl ZenRuntimeMode {
    /// The number by which the engine knows the mode.
    pub open spec fn code(&self) -> int {
        match self {
            ZenRuntimeMode::Interp => 0,
            ZenRuntimeMode::Singlepass => 1,
            ZenRuntimeMode::Multipass => 2,
        }
    }

    /// The mode of a runtime for which none was chosen.
    pub open spec fn or_default(mode: Option<ZenRuntimeMode>) -> ZenRuntimeMode {
        match mode {
            Some(mode) => mode,
            None => ZenRuntimeMode::Singlepass,
        }
    }

    /// The number by which the engine knows the mode.
    pub fn to_i32(&self) -> (code: i32)
        ensures
            code == self.code(),
    {
        match self {
            ZenRuntimeMode::Interp => 0,
            ZenRuntimeMode::Singlepass => 1,
            ZenRuntimeMode::Multipass => 2,
        }
    }
}

/// An engine configuration. It is made for one runtime, handed to the engine
/// when that runtime is created, and released after.
#[derive(Debug)]
pub struct ZenRuntimeConfig {
    mode: ZenRuntimeMode,
    ptr: ZenRuntimeConfigExtern,
}

impl ZenRuntimeConfig {
    /// The mode that the configuration was made for.
    pub closed spec fn mode(&self) -> ZenRuntimeMode {
        self.mode
    }

    /// The engine handle of the configuration; null once released.
    pub closed spec fn handle(&self) -> ZenRuntimeConfigExtern {
        self.ptr
    }

    /// The call that creates a configuration for `mode`.
    pub fn new_call(mode: ZenRuntimeMode) -> (call: ZenEngineCall)
        ensures
            call == (ZenEngineCall::CreateRuntimeConfig { mode: mode.code() as i32 }),
    {
        ZenEngineCall::CreateRuntimeConfig { mode: mode.to_i32() }
    }

    /// The configuration that the engine created for `mode`. A null handle is
    /// taken as it is.
    pub fn new(mode: ZenRuntimeMode, created: &ZenEngineReply) -> (config: ZenRuntimeConfig)
        ensures
            config.mode() == mode,
            config.handle().addr == created.address(),
    {
        ZenRuntimeConfig { mode, ptr: ZenRuntimeConfigExtern { addr: created.pointer() } }
    }

    /// The engine handle of the configuration.
    pub fn ptr(&self) -> (ptr: ZenRuntimeConfigExtern)
        ensures
            ptr == self.handle(),
    {
        self.ptr
    }

    /// Gives up the engine handle: the call that deletes it, or `None` where the
    /// handle is null. After this the handle is null, so that a second release
    /// deletes nothing.
    pub fn release(&mut self) -> (call: Option<ZenEngineCall>)
        ensures
            final(self).handle().addr == 0,
            final(self).mode() == old(self).mode(),
            call == if old(self).handle().addr == 0 {
                None
            } else {
                Some(ZenEngineCall::DeleteRuntimeConfig { config: old(self).handle() })
            },
    {
        if self.ptr.is_null() {
            None
        } else {
            let config = self.ptr;
            self.ptr = ZenRuntimeConfigExtern { addr: 0 };
            Some(ZenEngineCall::DeleteRuntimeConfig { config })
        }
    }
}

} // verus!
