//! What an embedder does with a loaded module: make instances of it, and ask
//! which functions it imports.
use crate::decimal::decimal_nat;
use crate::decimal::u64_to_decimal;
use crate::engine::ERROR_BUF_SIZE;
use crate::engine::HOST_MODULE_FUNC_NAME_BUF_SIZE;
use crate::engine::ZenEngineCall;
use crate::engine::ZenEngineReply;
use crate::engine::ZenInstanceExtern;
use crate::instance::ZenInstance;
use crate::isolation::ZenIsolation;
use crate::lifetime::ZenInstanceState;
use crate::lifetime::ZenRuntimeView;
use crate::runtime::ZenModule;
use crate::runtime::ZenRuntime;
use crate::runtime::unknown_isolation_message;
use crate::runtime::unknown_module_message;
use crate::utils::count_of;
use crate::utils::string_from_utf8;
use vstd::prelude::*;
use vstd::string::StringExecFns;
use vstd::utf8::decode_utf8;
use vstd::utf8::valid_utf8;

verus! {

/// The `size` bytes that the engine reported of a name: the start of the buffer,
/// and zeros where the buffer holds less.
pub open spec fn sized_bytes(buffer: Seq<u8>, size: int) -> Seq<u8> {
    Seq::new(
        size as nat,
        |i: int|
            if i < buffer.len() {
                buffer[i]
            } else {
                0u8
            },
    )
}

/// The `size` bytes that the engine reported of a name.
fn sized(buffer: &Vec<u8>, size: u32) -> (bytes: Vec<u8>)
    ensures
        bytes@ == sized_bytes(buffer@, size as int),
{
    let mut bytes: Vec<u8> = Vec::new();
    let mut i: usize = 0;
    while i < size as usize
        invariant
            i <= size,
            bytes@.len() == i,
            forall|j: int| 0 <= j < i ==> bytes@[j] == sized_bytes(buffer@, size as int)[j],
        decreases size - i,
    {
        let byte = if i < buffer.len() {
            buffer[i]
        } else {
            0u8
        };
        bytes.push(byte);
        i = i + 1;
    }
    assert(bytes@ =~= sized_bytes(buffer@, size as int));
    bytes
}

/// What the question for import `func_index` answers when the engine has no such
/// import.
pub open spec fn import_failed_message(func_index: usize) -> Seq<char> {
    "get import func #"@ + decimal_nat(func_index as nat) + " failed"@
}

/// What the question for import `func_index` answers when the name of the host
/// module is not UTF-8.
pub open spec fn import_module_name_message(func_index: usize) -> Seq<char> {
    "get import func #"@ + decimal_nat(func_index as nat)
        + " failed: decode host module name failed"@
}

/// What the question for import `func_index` answers when the name of the
/// function is not UTF-8.
pub open spec fn import_func_name_message(func_index: usize) -> Seq<char> {
    "get import func #"@ + decimal_nat(func_index as nat) + " failed: decode host func name failed"@
}

/// The name in a buffer of which the engine reported `size` bytes, if those bytes
/// are UTF-8.
pub open spec fn reported_name(buffer: Seq<u8>, size: u32) -> Option<Seq<char>> {
    if valid_utf8(sized_bytes(buffer, size as int)) {
        Some(decode_utf8(sized_bytes(buffer, size as int)))
    } else {
        None
    }
}

/// What the question for import `func_index` comes to, given what the engine
/// answered: the name of the host module and the name of the function; an error
/// where the engine found no such import, and where a name is not UTF-8. An
/// index beyond 32 bits is beyond every import that a module can have: the
/// engine is not asked, and the answer is an error whatever the reply.
pub open spec fn import_name_result(
    func_index: usize,
    named: ZenEngineReply,
    result: Result<(String, String), String>,
) -> bool {
    if func_index > u32::MAX {
        result is Err && result->Err_0@ == import_failed_message(func_index)
    } else {
        match named {
            ZenEngineReply::ImportName {
                got,
                host_module_name,
                host_module_name_size,
                func_name,
                func_name_size,
            } => {
                if got == 0 {
                    result is Err && result->Err_0@ == import_failed_message(func_index)
                } else if reported_name(host_module_name@, host_module_name_size) is None {
                    result is Err && result->Err_0@ == import_module_name_message(func_index)
                } else if reported_name(func_name@, func_name_size) is None {
                    result is Err && result->Err_0@ == import_func_name_message(func_index)
                } else {
                    &&& result is Ok
                    &&& result->Ok_0.0@ == reported_name(
                        host_module_name@,
                        host_module_name_size,
                    )->0
                    &&& result->Ok_0.1@ == reported_name(func_name@, func_name_size)->0
                }
            },
            _ => result is Err && result->Err_0@ == import_failed_message(func_index),
        }
    }
}

/// The start of every message about import `func_index`.
fn import_message(func_index: usize, ending: &str) -> (message: String)
    ensures
        message@ == "get import func #"@ + decimal_nat(func_index as nat) + ending@,
{
    let mut message = "get import func #".to_owned();
    let number = u64_to_decimal(func_index as u64);
    message.append(number.as_str());
    message.append(ending);
    message
}

impl ZenModule {
    /// `rt` holds the module and the isolation, so that an instance of the one can
    /// be made in the other.
    pub open spec fn can_instantiate(&self, rt: ZenRuntimeView, isolation: ZenIsolation) -> bool {
        rt.owns_module(*self) && rt.owns_isolation(isolation)
    }

    /// The holder of the module lets go of it: see [`ZenRuntime::release_module`].
    pub fn release(&self, rt: &mut ZenRuntime) -> (calls: Vec<ZenEngineCall>)
        requires
            old(rt).wf(),
        ensures
            final(rt).wf(),
            old(rt)@.owns_module(*self) ==> final(rt)@ == old(rt)@.module_released(
                self.slot as int,
            ) && calls@ == old(rt)@.module_release_calls(self.slot as int),
            !old(rt)@.owns_module(*self) ==> final(rt)@ == old(rt)@ && calls@.len() == 0,
    {
        rt.release_module(self)
    }

    /// The call that makes an instance of the module in `isolation`, with
    /// `gas_limit` as its gas; `None` where `rt` does not hold the module and the
    /// isolation.
    pub fn new_instance_call(
        &self,
        rt: &ZenRuntime,
        isolation: &ZenIsolation,
        gas_limit: u64,
    ) -> (call: Option<ZenEngineCall>)
        ensures
            call == if self.can_instantiate(rt@, *isolation) {
                Some(
                    ZenEngineCall::CreateInstanceWithGas {
                        isolation: isolation.ptr,
                        wasm_mod: self.ptr,
                        gas_limit,
                        error_buf_size: ERROR_BUF_SIZE as u32,
                    },
                )
            } else {
                None
            },
    {
        if rt.owns_module(self) && rt.owns_isolation(isolation) {
            Some(
                ZenEngineCall::CreateInstanceWithGas {
                    isolation: isolation.ptr,
                    wasm_mod: self.ptr,
                    gas_limit,
                    error_buf_size: ERROR_BUF_SIZE as u32,
                },
            )
        } else {
            None
        }
    }

    /// The instance that the engine made of the module in `isolation`, with `ctx`
    /// beside it, and the call that makes the instance known to the engine by its
    /// position. Where the engine gave no handle, the error is the message that
    /// it left in the error buffer. It fails, too, where `rt` does not hold the
    /// module or the isolation.
    pub fn new_instance_with_context<T>(
        &self,
        rt: &mut ZenRuntime,
        isolation: &ZenIsolation,
        created: &ZenEngineReply,
        ctx: T,
    ) -> (made: Result<(ZenInstance<T>, ZenEngineCall), String>)
        requires
            old(rt).wf(),
        ensures
            final(rt).wf(),
            !old(rt)@.owns_module(*self) ==> made is Err && made->Err_0@
                == unknown_module_message() && final(rt)@ == old(rt)@,
            old(rt)@.owns_module(*self) && !old(rt)@.owns_isolation(*isolation) ==> made is Err
                && made->Err_0@ == unknown_isolation_message() && final(rt)@ == old(rt)@,
            self.can_instantiate(old(rt)@, *isolation) && created.address() == 0 ==> made is Err
                && made->Err_0@ == created.error_message() && final(rt)@ == old(rt)@,
            self.can_instantiate(old(rt)@, *isolation) && created.address() != 0 ==> {
                let ptr = ZenInstanceExtern { addr: created.address() };
                &&& final(rt)@ == old(rt)@.with_instance(ptr, isolation.slot, self.slot)
                &&& made matches Ok((inst, call))
                &&& inst.rt == old(rt)@.ptr
                &&& inst.isolation == *isolation
                &&& inst.wasm_mod == *self
                &&& inst.ptr == ptr
                &&& inst.slot == old(rt)@.instances.len()
                &&& inst.extra_ctx == ctx
                &&& inst.known_to(final(rt)@)
                &&& inst.state_in(final(rt)@) == ZenInstanceState::Created
                &&& call == (ZenEngineCall::SetInstanceCustomData {
                    inst: ptr,
                    custom_data: inst.slot,
                })
            },
    {
        if !rt.owns_module(self) {
            return Err("module is not held by this runtime".to_owned());
        }
        if !rt.owns_isolation(isolation) {
            return Err("isolation is not held by this runtime".to_owned());
        }
        let ptr = ZenInstanceExtern { addr: created.pointer() };
        if ptr.is_null() {
            return Err(created.error_text());
        }
        match ZenInstance::new(rt, isolation, self, ptr, ctx) {
            Some(made) => Ok(made),
            None => Err("module is not held by this runtime".to_owned()),
        }
    }

    /// The instance that the engine made of the module in `isolation`, with the
    /// number zero beside it: see [`ZenModule::new_instance_with_context`].
    pub fn new_instance(
        &self,
        rt: &mut ZenRuntime,
        isolation: &ZenIsolation,
        created: &ZenEngineReply,
    ) -> (made: Result<(ZenInstance<i64>, ZenEngineCall), String>)
        requires
            old(rt).wf(),
        ensures
            final(rt).wf(),
            !old(rt)@.owns_module(*self) ==> made is Err && made->Err_0@
                == unknown_module_message() && final(rt)@ == old(rt)@,
            old(rt)@.owns_module(*self) && !old(rt)@.owns_isolation(*isolation) ==> made is Err
                && made->Err_0@ == unknown_isolation_message() && final(rt)@ == old(rt)@,
            self.can_instantiate(old(rt)@, *isolation) && created.address() == 0 ==> made is Err
                && made->Err_0@ == created.error_message() && final(rt)@ == old(rt)@,
            self.can_instantiate(old(rt)@, *isolation) && created.address() != 0 ==> {
                let ptr = ZenInstanceExtern { addr: created.address() };
                &&& final(rt)@ == old(rt)@.with_instance(ptr, isolation.slot, self.slot)
                &&& made matches Ok((inst, call))
                &&& inst.rt == old(rt)@.ptr
                &&& inst.isolation == *isolation
                &&& inst.wasm_mod == *self
                &&& inst.ptr == ptr
                &&& inst.slot == old(rt)@.instances.len()
                &&& inst.extra_ctx == 0
                &&& inst.known_to(final(rt)@)
                &&& inst.state_in(final(rt)@) == ZenInstanceState::Created
                &&& call == (ZenEngineCall::SetInstanceCustomData {
                    inst: ptr,
                    custom_data: inst.slot,
                })
            },
    {
        let ctx: i64 = 0;
        self.new_instance_with_context::<i64>(rt, isolation, created, ctx)
    }

    /// The call that asks how many functions the module imports; `None` for a
    /// module that `rt` does not hold.
    pub fn get_import_funcs_count_call(&self, rt: &ZenRuntime) -> (call: Option<ZenEngineCall>)
        ensures
            call == if rt@.owns_module(*self) {
                Some(ZenEngineCall::GetNumImportFunctions { module: self.ptr })
            } else {
                None
            },
    {
        if rt.owns_module(self) {
            Some(ZenEngineCall::GetNumImportFunctions { module: self.ptr })
        } else {
            None
        }
    }

    /// How many functions the module imports: the number that the engine
    /// answered.
    pub fn get_import_funcs_count(&self, counted: &ZenEngineReply) -> (count: usize)
        ensures
            count == counted.number(),
    {
        counted.word() as usize
    }

    /// The call that asks for the names of import `func_index`, with two name
    /// buffers of the size that the layer uses for names; `None` for a module that
    /// `rt` does not hold, and for an index beyond 32 bits, which is out of range
    /// for every module.
    pub fn get_import_func_name_call(&self, rt: &ZenRuntime, func_index: usize) -> (call: Option<
        ZenEngineCall,
    >)
        ensures
            call is Some <==> rt@.owns_module(*self) && func_index <= u32::MAX,
            call == if rt@.owns_module(*self) && func_index <= u32::MAX {
                Some(
                    ZenEngineCall::GetImportFuncName {
                        module: self.ptr,
                        func_idx: func_index as u32,
                        host_module_name_out_buf_size: HOST_MODULE_FUNC_NAME_BUF_SIZE as u32,
                        func_name_out_buf_size: HOST_MODULE_FUNC_NAME_BUF_SIZE as u32,
                    },
                )
            } else {
                None
            },
    {
        if !rt.owns_module(self) {
            return None;
        }
        match count_of(func_index) {
            Some(func_idx) => Some(
                ZenEngineCall::GetImportFuncName {
                    module: self.ptr,
                    func_idx,
                    host_module_name_out_buf_size: HOST_MODULE_FUNC_NAME_BUF_SIZE as u32,
                    func_name_out_buf_size: HOST_MODULE_FUNC_NAME_BUF_SIZE as u32,
                },
            ),
            None => None,
        }
    }

    /// The name of the host module and the name of the function of import
    /// `func_index`: see [`import_name_result`].
    pub fn get_import_func_name(&self, func_index: usize, named: &ZenEngineReply) -> (names: Result<
        (String, String),
        String,
    >)
        ensures
            import_name_result(func_index, *named, names),
    {
        if count_of(func_index).is_none() {
            return Err(import_message(func_index, " failed"));
        }
        match named {
            ZenEngineReply::ImportName {
                got,
                host_module_name,
                host_module_name_size,
                func_name,
                func_name_size,
            } => {
                if *got == 0 {
                    return Err(import_message(func_index, " failed"));
                }
                let host_module_name = string_from_utf8(
                    sized(host_module_name, *host_module_name_size),
                );
                if host_module_name.is_none() {
                    return Err(
                        import_message(func_index, " failed: decode host module name failed"),
                    );
                }
                let func_name = string_from_utf8(sized(func_name, *func_name_size));
                if func_name.is_none() {
                    return Err(import_message(func_index, " failed: decode host func name failed"));
                }
                Ok((host_module_name.unwrap(), func_name.unwrap()))
            },
            _ => Err(import_message(func_index, " failed")),
        }
    }
}

impl ZenIsolation {
    /// The holder of the isolation lets go of it: see
    /// [`ZenRuntime::release_isolation`].
    pub fn release(&self, rt: &mut ZenRuntime) -> (calls: Vec<ZenEngineCall>)
        requires
            old(rt).wf(),
        ensures
            final(rt).wf(),
            old(rt)@.owns_isolation(*self) ==> final(rt)@ == old(rt)@.isolation_released(
                self.slot as int,
            ) && calls@ == old(rt)@.isolation_release_calls(self.slot as int),
            !old(rt)@.owns_isolation(*self) ==> final(rt)@ == old(rt)@ && calls@.len() == 0,
    {
        rt.release_isolation(self)
    }
}

} // verus!
