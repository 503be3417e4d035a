//! The boundary with the execution engine, as plain values.
//!
//! The engine is a native library. This crate never calls it: every operation
//! that needs the engine comes in two parts, one that describes the call to make
//! ([`ZenEngineCall`]) and one that takes what the engine answered
//! ([`ZenEngineReply`]). Whoever embeds the crate performs the call in between.
use crate::utils::ScopedMalloc;
use crate::utils::buffer_message;
use crate::utils::message_of_buffer;
use vstd::prelude::*;

verus! {

/// An engine-side runtime configuration, known by its address. Address 0 is the
/// null handle.
#[derive(Clone, Copy, PartialEq, Eq, Structural, Debug)]
pub struct ZenRuntimeConfigExtern {
    pub addr: cty::uintptr_t,
}

/// An engine-side runtime, known by its address. Address 0 is the null handle.
#[derive(Clone, Copy, PartialEq, Eq, Structural, Debug)]
pub struct ZenRuntimeExtern {
    pub addr: cty::uintptr_t,
}

/// An engine-side module, known by its address. Address 0 is the null handle.
#[derive(Clone, Copy, PartialEq, Eq, Structural, Debug)]
pub struct ZenModuleExtern {
    pub addr: cty::uintptr_t,
}

/// An engine-side isolation, known by its address. Address 0 is the null handle.
#[derive(Clone, Copy, PartialEq, Eq, Structural, Debug)]
pub struct ZenIsolationExtern {
    pub addr: cty::uintptr_t,
}

/// An engine-side instance, known by its address. Address 0 is the null handle.
#[derive(Clone, Copy, PartialEq, Eq, Structural, Debug)]
pub struct ZenInstanceExtern {
    pub addr: cty::uintptr_t,
}

/// An engine-side host module descriptor, known by its address. Address 0 is the
/// null handle.
#[derive(Clone, Copy, PartialEq, Eq, Structural, Debug)]
pub struct ZenHostModuleDescExtern {
    pub addr: cty::uintptr_t,
}

/// An engine-side loaded host module, known by its address. Address 0 is the null
/// handle.
#[derive(Clone, Copy, PartialEq, Eq, Structural, Debug)]
pub struct ZenHostModuleExtern {
    pub addr: cty::uintptr_t,
}

impl ZenRuntimeConfigExtern {
    /// Whether this is the null handle.
    pub fn is_null(&self) -> (r: bool)
        ensures
            r == (self.addr == 0),
    {
        self.addr == 0
    }
}

impl ZenRuntimeExtern {
    /// Whether this is the null handle.
    pub fn is_null(&self) -> (r: bool)
        ensures
            r == (self.addr == 0),
    {
        self.addr == 0
    }
}

impl ZenModuleExtern {
    /// Whether this is the null handle.
    pub fn is_null(&self) -> (r: bool)
        ensures
            r == (self.addr == 0),
    {
        self.addr == 0
    }
}

impl ZenIsolationExtern {
    /// Whether this is the null handle.
    pub fn is_null(&self) -> (r: bool)
        ensures
            r == (self.addr == 0),
    {
        self.addr == 0
    }
}

impl ZenInstanceExtern {
    /// Whether this is the null handle.
    pub fn is_null(&self) -> (r: bool)
        ensures
            r == (self.addr == 0),
    {
        self.addr == 0
    }
}

impl ZenHostModuleDescExtern {
    /// Whether this is the null handle.
    pub fn is_null(&self) -> (r: bool)
        ensures
            r == (self.addr == 0),
    {
        self.addr == 0
    }
}

impl ZenHostModuleExtern {
    /// Whether this is the null handle.
    pub fn is_null(&self) -> (r: bool)
        ensures
            r == (self.addr == 0),
    {
        self.addr == 0
    }
}

/// A result as the engine hands it back: a type tag and a 64-bit payload.
#[derive(Clone, Copy, PartialEq, Eq, Structural, Debug)]
pub struct ZenValueExtern {
    /// 0: 32-bit integer, 1: 64-bit integer, 2: 32-bit float, 3: 64-bit float.
    pub value_type: cty::c_int,
    /// The payload; the narrower kinds use its low bits.
    pub value: cty::int64_t,
}

/// One argument of a call as the engine takes it: the C string of its decimal
/// text. The text of a float is not made here: such an argument carries the bit
/// pattern of the float, and whoever performs the call formats it.
#[derive(Debug)]
pub enum ZenArgExtern {
    /// The NUL-terminated decimal text of an integer.
    Text(Vec<u8>),
    /// A 32-bit float, by its bit pattern.
    Float32(u32),
    /// A 64-bit float, by its bit pattern.
    Float64(u64),
}

/// One host function as the engine takes it: flat arrays and counts.
#[derive(Debug)]
pub struct ZenHostFuncDescExtern {
    /// The name, as a C string.
    pub name: Vec<u8>,
    pub num_args: cty::uint32_t,
    /// The tags of the argument kinds.
    pub arg_types: ScopedMalloc<cty::uint32_t>,
    pub num_returns: cty::uint32_t,
    /// The tags of the result kinds.
    pub ret_types: ScopedMalloc<cty::uint32_t>,
    /// The address of the native function. Its first parameter is the instance
    /// that calls it.
    pub ptr: cty::uintptr_t,
}

/// The size of the buffer into which the engine writes an error message, as a C
/// string.
pub const ERROR_BUF_SIZE: usize = 256;

/// The size of each buffer into which the engine writes the name of an import.
pub const HOST_MODULE_FUNC_NAME_BUF_SIZE: usize = 255;

/// A call into the engine, with everything the engine is handed. Buffers that the
/// engine fills are given by their size.
#[derive(Debug)]
pub enum ZenEngineCall {
    CreateRuntimeConfig { mode: cty::int32_t },
    DeleteRuntimeConfig { config: ZenRuntimeConfigExtern },
    CreateRuntime { config: ZenRuntimeConfigExtern },
    DeleteRuntime { rt: ZenRuntimeExtern },
    CreateHostModuleDesc {
        rt: ZenRuntimeExtern,
        host_mod_name: Vec<u8>,
        host_func_descs: ScopedMalloc<ZenHostFuncDescExtern>,
        num_host_funcs: cty::uint32_t,
    },
    DeleteHostModuleDesc { rt: ZenRuntimeExtern, host_module_desc: ZenHostModuleDescExtern },
    LoadHostModule { rt: ZenRuntimeExtern, host_module_desc: ZenHostModuleDescExtern },
    MergeHostModule {
        rt: ZenRuntimeExtern,
        host_module: ZenHostModuleExtern,
        other_host_module_desc: ZenHostModuleDescExtern,
    },
    DeleteHostModule { rt: ZenRuntimeExtern, host_module: ZenHostModuleExtern },
    FilterHostFunctions {
        host_module: ZenHostModuleExtern,
        func_names: ScopedMalloc<Vec<u8>>,
        num_func_names: cty::uint32_t,
    },
    LoadModuleFromFile { rt: ZenRuntimeExtern, wasm_path: Vec<u8>, error_buf_size: cty::uint32_t },
    LoadModuleFromBuffer {
        rt: ZenRuntimeExtern,
        module_name: Vec<u8>,
        code: Vec<u8>,
        code_size: cty::uint32_t,
        error_buf_size: cty::uint32_t,
    },
    GetNumImportFunctions { module: ZenModuleExtern },
    GetImportFuncName {
        module: ZenModuleExtern,
        func_idx: cty::uint32_t,
        host_module_name_out_buf_size: cty::uint32_t,
        func_name_out_buf_size: cty::uint32_t,
    },
    DeleteModule { rt: ZenRuntimeExtern, module: ZenModuleExtern },
    CreateIsolation { rt: ZenRuntimeExtern },
    DeleteIsolation { rt: ZenRuntimeExtern, isolation: ZenIsolationExtern },
    CreateInstanceWithGas {
        isolation: ZenIsolationExtern,
        wasm_mod: ZenModuleExtern,
        gas_limit: cty::uint64_t,
        error_buf_size: cty::uint32_t,
    },
    DeleteInstance { isolation: ZenIsolationExtern, inst: ZenInstanceExtern },
    CallWasmFuncByName {
        rt: ZenRuntimeExtern,
        inst: ZenInstanceExtern,
        func_name: Vec<u8>,
        in_args: ScopedMalloc<ZenArgExtern>,
        num_in_args: cty::uint32_t,
        /// How many results the engine may write.
        out_results_size: cty::uint32_t,
    },
    GetInstanceError { inst: ZenInstanceExtern, error_buf_size: cty::uint32_t },
    ValidateHostMemAddr { inst: ZenInstanceExtern, host_addr: cty::uintptr_t, size: cty::uint32_t },
    ValidateAppMemAddr { inst: ZenInstanceExtern, offset: cty::uint32_t, size: cty::uint32_t },
    GetHostMemAddr { inst: ZenInstanceExtern, offset: cty::uint32_t },
    GetAppMemOffset { inst: ZenInstanceExtern, host_addr: cty::uintptr_t },
    GetInstanceGasLeft { inst: ZenInstanceExtern },
    SetInstanceGasLeft { inst: ZenInstanceExtern, new_gas: cty::uint64_t },
    SetInstanceCustomData { inst: ZenInstanceExtern, custom_data: cty::uintptr_t },
    GetInstanceCustomData { inst: ZenInstanceExtern },
    SetInstanceExceptionByHostapi { inst: ZenInstanceExtern, error_code: cty::uint32_t },
    GetErrCodeEnvAbort,
    GetErrCodeGasLimitExceeded,
    GetErrCodeOutOfBoundsMemory,
    InstanceExit { inst: ZenInstanceExtern, exit_code: cty::int32_t },
    InstanceProtectMemoryAgain { inst: ZenInstanceExtern },
}

impl ZenEngineCall {
    /// The engine failed in a way that leaves no sound state to go on from: it
    /// reported that it could not delete a loaded host module.
    pub open spec fn fatal(&self, reply: ZenEngineReply) -> bool {
        self is DeleteHostModule && !reply.truth()
    }

    /// Whether the answer to this call is a failure after which the process must
    /// not go on.
    pub fn failed_fatally(&self, reply: &ZenEngineReply) -> (fatal: bool)
        ensures
            fatal == self.fatal(*reply),
    {
        match self {
            ZenEngineCall::DeleteHostModule { .. } => !reply.flag(),
            _ => false,
        }
    }
}

/// What the engine answered to a call. A boolean comes as the integer that the
/// engine returned: zero is false.
#[derive(Debug)]
pub enum ZenEngineReply {
    /// The call returns nothing.
    Unit,
    /// An address: a handle, a host address, custom data.
    Pointer(cty::uintptr_t),
    /// A boolean.
    Flag(cty::uint32_t),
    /// A 32-bit number: a count, an error code, an offset into linear memory.
    Word(cty::uint32_t),
    /// A 64-bit number: gas.
    Long(cty::uint64_t),
    /// A handle, and what the error buffer held after the call.
    Created { ptr: cty::uintptr_t, error_buf: Vec<u8> },
    /// Whether the instance had an error, and what the error buffer held after
    /// the call.
    Error { got: cty::uint32_t, error_buf: Vec<u8> },
    /// Whether the import was found, and the two name buffers with the lengths
    /// that the engine reported for them.
    ImportName {
        got: cty::uint32_t,
        host_module_name: Vec<u8>,
        host_module_name_size: cty::uint32_t,
        func_name: Vec<u8>,
        func_name_size: cty::uint32_t,
    },
    /// Whether the call succeeded, the result records, and how many of them the
    /// engine reported.
    Called { ok: cty::uint32_t, out_results: Vec<ZenValueExtern>, out_num_results: cty::uint32_t },
}

impl ZenEngineReply {
    /// The address that the reply carries; null for a reply that carries none.
    pub open spec fn address(&self) -> usize {
        match self {
            ZenEngineReply::Pointer(ptr) => *ptr,
            ZenEngineReply::Created { ptr, .. } => *ptr,
            _ => 0,
        }
    }

    /// The boolean that the reply carries; false for a reply that carries none.
    pub open spec fn truth(&self) -> bool {
        match self {
            ZenEngineReply::Flag(flag) => *flag != 0,
            ZenEngineReply::Error { got, .. } => *got != 0,
            ZenEngineReply::ImportName { got, .. } => *got != 0,
            ZenEngineReply::Called { ok, .. } => *ok != 0,
            _ => false,
        }
    }

    /// The 32-bit number that the reply carries; zero for a reply that carries
    /// none.
    pub open spec fn number(&self) -> u32 {
        match self {
            ZenEngineReply::Word(word) => *word,
            _ => 0,
        }
    }

    /// The 64-bit number that the reply carries; zero for a reply that carries
    /// none.
    pub open spec fn long_number(&self) -> u64 {
        match self {
            ZenEngineReply::Long(long) => *long,
            _ => 0,
        }
    }

    /// What the error buffer held; nothing for a reply without one.
    pub open spec fn error_bytes(&self) -> Seq<u8> {
        match self {
            ZenEngineReply::Created { error_buf, .. } => error_buf@,
            ZenEngineReply::Error { error_buf, .. } => error_buf@,
            _ => Seq::<u8>::empty(),
        }
    }

    /// The message in the error buffer of the reply.
    pub open spec fn error_message(&self) -> Seq<char> {
        buffer_message(self.error_bytes(), ERROR_BUF_SIZE as int)
    }

    /// The message in the error buffer of the reply; see [`message_of_buffer`].
    pub fn error_text(&self) -> (message: String)
        ensures
            message@ == self.error_message(),
    {
        match self {
            ZenEngineReply::Created { error_buf, .. } => message_of_buffer(
                error_buf.as_slice(),
                ERROR_BUF_SIZE,
            ),
            ZenEngineReply::Error { error_buf, .. } => message_of_buffer(
                error_buf.as_slice(),
                ERROR_BUF_SIZE,
            ),
            _ => {
                let nothing: Vec<u8> = Vec::new();
                message_of_buffer(nothing.as_slice(), ERROR_BUF_SIZE)
            },
        }
    }

    /// The address that the reply carries; null for a reply that carries none.
    pub fn pointer(&self) -> (ptr: usize)
        ensures
            ptr == self.address(),
    {
        match self {
            ZenEngineReply::Pointer(ptr) => *ptr,
            ZenEngineReply::Created { ptr, .. } => *ptr,
            _ => 0,
        }
    }

    /// The boolean that the reply carries; false for a reply that carries none.
    pub fn flag(&self) -> (flag: bool)
        ensures
            flag == self.truth(),
    {
        match self {
            ZenEngineReply::Flag(flag) => *flag != 0,
            ZenEngineReply::Error { got, .. } => *got != 0,
            ZenEngineReply::ImportName { got, .. } => *got != 0,
            ZenEngineReply::Called { ok, .. } => *ok != 0,
            _ => false,
        }
    }

    /// The 32-bit number that the reply carries; zero for a reply that carries
    /// none.
    pub fn word(&self) -> (word: u32)
        ensures
            word == self.number(),
    {
        match self {
            ZenEngineReply::Word(word) => *word,
            _ => 0,
        }
    }

    /// The 64-bit number that the reply carries; zero for a reply that carries
    /// none.
    pub fn long(&self) -> (long: u64)
        ensures
            long == self.long_number(),
    {
        match self {
            ZenEngineReply::Long(long) => *long,
            _ => 0,
        }
    }
}

} // verus!
