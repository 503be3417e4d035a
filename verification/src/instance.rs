//! Instances: modules that run in an isolation. An embedder calls their exports,
//! reads and moves their gas, translates addresses between host and guest, and
//! stops them.
use crate::engine::ERROR_BUF_SIZE;
use crate::engine::ZenArgExtern;
use crate::engine::ZenEngineCall;
use crate::engine::ZenEngineReply;
use crate::engine::ZenInstanceExtern;
use crate::engine::ZenRuntimeExtern;
use crate::engine::ZenValueExtern;
use crate::isolation::ZenIsolation;
use crate::lifetime::ZenInstanceState;
use crate::lifetime::ZenRuntimeView;
use crate::runtime::ZenModule;
use crate::runtime::ZenRuntime;
use crate::types::ZenValue;
use crate::types::invalid_value_type_message;
use crate::utils::ScopedMalloc;
use crate::utils::c_str_bytes;
use crate::utils::count_of;
use crate::utils::rust_str_to_c_str;
use crate::utils::too_large_message;
use vstd::prelude::*;

verus! {

/// An instance of a module in an isolation, with whatever the embedder wants to
/// keep beside it. The layer never looks at `extra_ctx`. The instance is a name
/// for what its runtime keeps: the runtime decides whether the name is still
/// good, and where the instance stands.
#[derive(Debug)]
pub struct ZenInstance<T> {
    /// The runtime under which the instance was made.
    pub rt: ZenRuntimeExtern,
    pub isolation: ZenIsolation,
    pub wasm_mod: ZenModule,
    pub ptr: ZenInstanceExtern,
    /// The position of the instance in its runtime. The engine keeps it as the
    /// custom data of the instance, so that a host function finds the instance
    /// that called it.
    pub slot: usize,
    pub extra_ctx: T,
}

/// How many results a call can hand back.
pub const OUTPUT_MAX_COUNT: usize = 1;

/// What an operation answers to an instance that the runtime does not hold.
pub open spec fn unknown_instance_message() -> Seq<char> {
    "instance is not held by this runtime"@
}

/// What a call answers on an instance that has exited.
pub open spec fn exited_instance_message() -> Seq<char> {
    "instance has exited"@
}

/// What a call answers on an instance that has trapped.
pub open spec fn trapped_instance_message() -> Seq<char> {
    "instance has trapped"@
}

/// What a failed call answers when the engine has no message for it.
pub open spec fn call_failed_message() -> Seq<char> {
    "call wasm func error"@
}

/// The arguments `args` as the engine takes them, in order.
pub open spec fn flat_args(args: Seq<ZenValue>, buffer: ScopedMalloc<ZenArgExtern>) -> bool {
    &&& buffer.wf()
    &&& buffer.requested() == args.len()
    &&& forall|i: int|
        0 <= i < args.len() ==> (#[trigger] buffer@[i] matches Some(arg) && args[i].is_arg(arg))
    &&& args.len() == 0 ==> buffer@[0] is None
}

/// Lays `args` out for the engine.
pub fn args_buffer(args: &[ZenValue]) -> (buffer: ScopedMalloc<ZenArgExtern>)
    ensures
        flat_args(args@, buffer),
{
    let args_count = args.len();
    let mut buffer: ScopedMalloc<ZenArgExtern> = ScopedMalloc::new(args_count);
    let mut i: usize = 0;
    while i < args_count
        invariant
            i <= args_count,
            args_count == args@.len(),
            buffer.wf(),
            buffer.requested() == args_count,
            forall|j: int|
                0 <= j < i ==> (#[trigger] buffer@[j] matches Some(arg) && args@[j].is_arg(arg)),
            forall|j: int| i <= j < buffer@.len() ==> buffer@[j] is None,
        decreases args_count - i,
    {
        let arg = args[i].to_arg();
        buffer.write(i, arg);
        i = i + 1;
    }
    buffer
}

/// The records that a call handed back: as many as the engine reported, as far
/// as there are records and the boundary has room for them.
pub open spec fn returned_records(called: ZenEngineReply) -> Seq<ZenValueExtern> {
    match called {
        ZenEngineReply::Called { out_results, out_num_results, .. } => {
            let reported = out_num_results as int;
            let held = if reported < out_results@.len() {
                reported
            } else {
                out_results@.len() as int
            };
            let count = if held < OUTPUT_MAX_COUNT {
                held
            } else {
                OUTPUT_MAX_COUNT as int
            };
            out_results@.subrange(0, count)
        },
        _ => Seq::empty(),
    }
}

/// Every one of `records` carries a value.
pub open spec fn all_decodable(records: Seq<ZenValueExtern>) -> bool {
    forall|i: int| 0 <= i < records.len() ==> ZenValue::of_record(#[trigger] records[i]) is Some
}

/// The values that `records` carry, in order.
pub open spec fn decoded_values(records: Seq<ZenValueExtern>) -> Seq<ZenValue> {
    Seq::new(records.len(), |i: int| ZenValue::of_record(records[i])->0)
}

/// What a call comes to, given what the engine answered to the call and, after a
/// failed call, to the question for the error: the values that the call handed
/// back; or, for a record that carries no value, an error; or, after a failed
/// call, the engine's message, and a fixed message where it has none.
pub open spec fn call_result(
    called: ZenEngineReply,
    error: ZenEngineReply,
    result: Result<Vec<ZenValue>, String>,
) -> bool {
    if !called.truth() {
        result is Err && result->Err_0@ == if error.truth() {
            error.error_message()
        } else {
            call_failed_message()
        }
    } else if all_decodable(returned_records(called)) {
        result is Ok && result->Ok_0@ == decoded_values(returned_records(called))
    } else {
        result is Err && result->Err_0@ == invalid_value_type_message()
    }
}

/// Decodes what a successful call handed back.
fn decode_results(called: &ZenEngineReply) -> (result: Result<Vec<ZenValue>, String>)
    ensures
        all_decodable(returned_records(*called)) ==> result is Ok && result->Ok_0@
            == decoded_values(returned_records(*called)),
        !all_decodable(returned_records(*called)) ==> result is Err && result->Err_0@
            == invalid_value_type_message(),
{
    let mut result_values: Vec<ZenValue> = Vec::new();
    match called {
        ZenEngineReply::Called { out_results, out_num_results, .. } => {
            let mut count: usize = out_results.len();
            if (*out_num_results as usize) < count {
                count = *out_num_results as usize;
            }
            if OUTPUT_MAX_COUNT < count {
                count = OUTPUT_MAX_COUNT;
            }
            let ghost records = returned_records(*called);
            assert(records == out_results@.subrange(0, count as int));
            let mut i: usize = 0;
            while i < count
                invariant
                    i <= count,
                    count <= out_results@.len(),
                    records == out_results@.subrange(0, count as int),
                    records == returned_records(*called),
                    result_values@.len() == i,
                    forall|j: int|
                        0 <= j < i ==> ZenValue::of_record(#[trigger] records[j]) == Some(
                            result_values@[j],
                        ),
                decreases count - i,
            {
                let value = ZenValue::from_extern(&out_results[i]);
                assert(out_results@[i as int] == records[i as int]);
                match value {
                    Ok(value) => {
                        result_values.push(value);
                    },
                    Err(message) => {
                        assert(ZenValue::of_record(records[i as int]) is None);
                        return Err(message);
                    },
                }
                i = i + 1;
            }
            assert(result_values@ =~= decoded_values(records));
            Ok(result_values)
        },
        _ => {
            assert(result_values@ =~= decoded_values(returned_records(*called)));
            Ok(result_values)
        },
    }
}

impl<T> ZenInstance<T> {
    /// The runtime holds the instance: it was made under `rt` and has not been
    /// released.
    pub open spec fn known_to(&self, rt: ZenRuntimeView) -> bool {
        rt.owns_instance(self.slot, self.ptr) && self.rt == rt.ptr
    }

    /// Where the instance stands in `rt`.
    pub open spec fn state_in(&self, rt: ZenRuntimeView) -> ZenInstanceState {
        rt.instances[self.slot as int].state
    }

    /// Whether `rt` holds the instance.
    pub fn is_known_to(&self, rt: &ZenRuntime) -> (known: bool)
        ensures
            known == self.known_to(rt@),
    {
        rt.instance_state(self.slot, self.ptr).is_some() && self.rt == rt.ptr()
    }

    /// Records an instance that the engine created on `wasm_mod` in `isolation`,
    /// and gives the call that makes its position known to the engine as its
    /// custom data. `None`, and nothing recorded, for a null handle or a module or
    /// isolation that the runtime does not hold.
    pub fn new(
        rt: &mut ZenRuntime,
        isolation: &ZenIsolation,
        wasm_mod: &ZenModule,
        ptr: ZenInstanceExtern,
        extra_ctx: T,
    ) -> (made: Option<(ZenInstance<T>, ZenEngineCall)>)
        requires
            old(rt).wf(),
        ensures
            final(rt).wf(),
            made is Some <==> ptr.addr != 0 && old(rt)@.owns_isolation(*isolation)
                && old(rt)@.owns_module(*wasm_mod),
            made is None ==> final(rt)@ == old(rt)@,
            made matches Some((inst, call)) ==> {
                &&& final(rt)@ == old(rt)@.with_instance(ptr, isolation.slot, wasm_mod.slot)
                &&& inst.rt == old(rt)@.ptr
                &&& inst.isolation == *isolation
                &&& inst.wasm_mod == *wasm_mod
                &&& inst.ptr == ptr
                &&& inst.slot == old(rt)@.instances.len()
                &&& inst.extra_ctx == extra_ctx
                &&& inst.known_to(final(rt)@)
                &&& inst.state_in(final(rt)@) == ZenInstanceState::Created
                &&& call == (ZenEngineCall::SetInstanceCustomData {
                    inst: ptr,
                    custom_data: inst.slot,
                })
            },
    {
        match rt.add_instance(isolation, wasm_mod, ptr) {
            Some(slot) => {
                let inst = ZenInstance {
                    rt: rt.ptr(),
                    isolation: *isolation,
                    wasm_mod: *wasm_mod,
                    ptr,
                    slot,
                    extra_ctx,
                };
                Some((inst, ZenEngineCall::SetInstanceCustomData { inst: ptr, custom_data: slot }))
            },
            None => None,
        }
    }

    /// Replaces what the embedder keeps beside the instance.
    pub fn set_extra_ctx(&mut self, extra_ctx: T)
        ensures
            final(self).extra_ctx == extra_ctx,
            final(self).rt == old(self).rt,
            final(self).isolation == old(self).isolation,
            final(self).wasm_mod == old(self).wasm_mod,
            final(self).ptr == old(self).ptr,
            final(self).slot == old(self).slot,
    {
        self.extra_ctx = extra_ctx;
    }

    /// What the embedder keeps beside the instance.
    pub fn get_extra_ctx(&self) -> (extra_ctx: &T)
        ensures
            *extra_ctx == self.extra_ctx,
    {
        &self.extra_ctx
    }

    /// The holder of the instance lets go of it: see
    /// [`ZenRuntime::release_instance`].
    pub fn release(&self, rt: &mut ZenRuntime) -> (calls: Vec<ZenEngineCall>)
        requires
            old(rt).wf(),
        ensures
            final(rt).wf(),
            self.known_to(old(rt)@) ==> final(rt)@ == old(rt)@.instance_released(self.slot as int)
                && calls@ == old(rt)@.instance_release_calls(self.slot as int),
            !self.known_to(old(rt)@) ==> final(rt)@ == old(rt)@ && calls@.len() == 0,
    {
        if self.is_known_to(rt) {
            rt.release_instance(self.slot, self.ptr)
        } else {
            Vec::new()
        }
    }

    /// The call that runs the export `func_name` on `args`, each argument as the
    /// C string of its decimal text, with room for one result. From its first
    /// call on the instance is running. No call is made, nothing changes, and an
    /// error says why, on an instance that the runtime does not hold, on one that
    /// has exited or trapped, and for more arguments than the engine can be told
    /// in 32 bits.
    pub fn call_wasm_func_call(
        &self,
        rt: &mut ZenRuntime,
        func_name: &str,
        args: &[ZenValue],
    ) -> (call: Result<ZenEngineCall, String>)
        requires
            old(rt).wf(),
        ensures
            final(rt).wf(),
            !self.known_to(old(rt)@) ==> call is Err && call->Err_0@ == unknown_instance_message()
                && final(rt)@ == old(rt)@,
            self.known_to(old(rt)@) ==> match self.state_in(old(rt)@) {
                ZenInstanceState::Exited => call is Err && call->Err_0@ == exited_instance_message()
                    && final(rt)@ == old(rt)@,
                ZenInstanceState::Trapped => call is Err && call->Err_0@
                    == trapped_instance_message() && final(rt)@ == old(rt)@,
                _ => if args@.len() > u32::MAX {
                    call is Err && call->Err_0@ == too_large_message() && final(rt)@ == old(rt)@
                } else {
                    &&& final(rt)@ == old(rt)@.with_instance_state(
                        self.slot as int,
                        ZenInstanceState::Running,
                    )
                    &&& call matches Ok(
                        ZenEngineCall::CallWasmFuncByName {
                            rt: runtime,
                            inst,
                            func_name: name,
                            in_args,
                            num_in_args,
                            out_results_size,
                        },
                    ) && runtime == old(rt)@.ptr && inst == self.ptr && name@ == c_str_bytes(
                        func_name@,
                    ) && flat_args(args@, in_args) && num_in_args == args@.len()
                        && out_results_size == OUTPUT_MAX_COUNT
                },
            },
    {
        if !self.is_known_to(rt) {
            return Err("instance is not held by this runtime".to_owned());
        }
        match rt.instance_state(self.slot, self.ptr) {
            Some(ZenInstanceState::Exited) => {
                return Err("instance has exited".to_owned());
            },
            Some(ZenInstanceState::Trapped) => {
                return Err("instance has trapped".to_owned());
            },
            _ => {},
        }
        let num_in_args = match count_of(args.len()) {
            Some(count) => count,
            None => {
                return Err("length does not fit in 32 bits".to_owned());
            },
        };
        rt.set_instance_state(self.slot, self.ptr, ZenInstanceState::Running);
        Ok(
            ZenEngineCall::CallWasmFuncByName {
                rt: rt.ptr(),
                inst: self.ptr,
                func_name: rust_str_to_c_str(func_name),
                in_args: args_buffer(args),
                num_in_args,
                out_results_size: OUTPUT_MAX_COUNT as u32,
            },
        )
    }

    /// The call that asks the engine for the error of the instance, after a call
    /// to which the engine answered `called`: there is one for a call that failed,
    /// on an instance that the runtime holds.
    pub fn call_wasm_func_error_call(
        &self,
        rt: &ZenRuntime,
        called: &ZenEngineReply,
    ) -> (call: Option<ZenEngineCall>)
        ensures
            call == if self.known_to(rt@) && !called.truth() {
                Some(
                    ZenEngineCall::GetInstanceError {
                        inst: self.ptr,
                        error_buf_size: ERROR_BUF_SIZE as u32,
                    },
                )
            } else {
                None
            },
    {
        if self.is_known_to(rt) && !called.flag() {
            Some(
                ZenEngineCall::GetInstanceError {
                    inst: self.ptr,
                    error_buf_size: ERROR_BUF_SIZE as u32,
                },
            )
        } else {
            None
        }
    }

    /// What a call comes to: see [`call_result`]. `called` is what the engine
    /// answered to the call, `error` what it answered to the question for the
    /// error, which is looked at after a failed call only.
    pub fn call_wasm_func(
        &self,
        called: &ZenEngineReply,
        error: &ZenEngineReply,
    ) -> (result: Result<Vec<ZenValue>, String>)
        ensures
            call_result(*called, *error, result),
    {
        if !called.flag() {
            if !error.flag() {
                return Err("call wasm func error".to_owned());
            }
            Err(error.error_text())
        } else {
            decode_results(called)
        }
    }
}

impl<T> ZenInstance<T> {
    /// The call that asks for the host address of the byte at `offset` of linear
    /// memory; `None` for an instance that `rt` does not hold.
    pub fn get_host_memory_call(
        &self,
        rt: &ZenRuntime,
        offset: u32,
    ) -> (call: Option<ZenEngineCall>)
        ensures
            call == if self.known_to(rt@) {
                Some(ZenEngineCall::GetHostMemAddr { inst: self.ptr, offset })
            } else {
                None
            },
    {
        if self.is_known_to(rt) {
            Some(ZenEngineCall::GetHostMemAddr { inst: self.ptr, offset })
        } else {
            None
        }
    }

    /// The host address of a byte of linear memory: what the engine answered.
    pub fn get_host_memory(&self, answered: &ZenEngineReply) -> (answer: usize)
        ensures
            answer == answered.address(),
    {
        answered.pointer()
    }

    /// The call that asks for the offset in linear memory of the byte at the host
    /// address `host_addr`; `None` for an instance that `rt` does not hold.
    pub fn get_wasm_addr_call(
        &self,
        rt: &ZenRuntime,
        host_addr: usize,
    ) -> (call: Option<ZenEngineCall>)
        ensures
            call == if self.known_to(rt@) {
                Some(ZenEngineCall::GetAppMemOffset { inst: self.ptr, host_addr })
            } else {
                None
            },
    {
        if self.is_known_to(rt) {
            Some(ZenEngineCall::GetAppMemOffset { inst: self.ptr, host_addr })
        } else {
            None
        }
    }

    /// The offset in linear memory of a byte: what the engine answered.
    pub fn get_wasm_addr(&self, answered: &ZenEngineReply) -> (answer: u32)
        ensures
            answer == answered.number(),
    {
        answered.word()
    }

    /// The call that asks for the offset in linear memory of the byte at the host
    /// address `host_addr`; `None` for an instance that `rt` does not hold.
    pub fn get_linear_memory_offset_call(
        &self,
        rt: &ZenRuntime,
        host_addr: usize,
    ) -> (call: Option<ZenEngineCall>)
        ensures
            call == if self.known_to(rt@) {
                Some(ZenEngineCall::GetAppMemOffset { inst: self.ptr, host_addr })
            } else {
                None
            },
    {
        if self.is_known_to(rt) {
            Some(ZenEngineCall::GetAppMemOffset { inst: self.ptr, host_addr })
        } else {
            None
        }
    }

    /// The offset in linear memory of a byte: what the engine answered.
    pub fn get_linear_memory_offset(&self, answered: &ZenEngineReply) -> (answer: u32)
        ensures
            answer == answered.number(),
    {
        answered.word()
    }

    /// The call that asks whether the `size` bytes at `offset` lie within linear
    /// memory; `None` for an instance that `rt` does not hold.
    pub fn validate_wasm_addr_call(
        &self,
        rt: &ZenRuntime,
        offset: u32,
        size: u32,
    ) -> (call: Option<ZenEngineCall>)
        ensures
            call == if self.known_to(rt@) {
                Some(ZenEngineCall::ValidateAppMemAddr { inst: self.ptr, offset, size })
            } else {
                None
            },
    {
        if self.is_known_to(rt) {
            Some(ZenEngineCall::ValidateAppMemAddr { inst: self.ptr, offset, size })
        } else {
            None
        }
    }

    /// Whether a range of offsets lies within linear memory: what the engine
    /// answered.
    pub fn validate_wasm_addr(&self, answered: &ZenEngineReply) -> (answer: bool)
        ensures
            answer == answered.truth(),
    {
        answered.flag()
    }

    /// The call that asks whether the `size` bytes at the host address `host_addr`
    /// lie within linear memory; `None` for an instance that `rt` does not hold.
    pub fn validate_host_addr_call(
        &self,
        rt: &ZenRuntime,
        host_addr: usize,
        size: u32,
    ) -> (call: Option<ZenEngineCall>)
        ensures
            call == if self.known_to(rt@) {
                Some(ZenEngineCall::ValidateHostMemAddr { inst: self.ptr, host_addr, size })
            } else {
                None
            },
    {
        if self.is_known_to(rt) {
            Some(ZenEngineCall::ValidateHostMemAddr { inst: self.ptr, host_addr, size })
        } else {
            None
        }
    }

    /// Whether a range of host addresses lies within linear memory: what the engine
    /// answered.
    pub fn validate_host_addr(&self, answered: &ZenEngineReply) -> (answer: bool)
        ensures
            answer == answered.truth(),
    {
        answered.flag()
    }

    /// The call that asks how much gas the instance has left; `None` for an
    /// instance that `rt` does not hold.
    pub fn get_gas_left_call(&self, rt: &ZenRuntime) -> (call: Option<ZenEngineCall>)
        ensures
            call == if self.known_to(rt@) {
                Some(ZenEngineCall::GetInstanceGasLeft { inst: self.ptr })
            } else {
                None
            },
    {
        if self.is_known_to(rt) {
            Some(ZenEngineCall::GetInstanceGasLeft { inst: self.ptr })
        } else {
            None
        }
    }

    /// The gas that the instance has left: what the engine answered.
    pub fn get_gas_left(&self, answered: &ZenEngineReply) -> (answer: u64)
        ensures
            answer == answered.long_number(),
    {
        answered.long()
    }

    /// The call that sets the gas of the instance to `new_gas`; `None` for an
    /// instance that `rt` does not hold.
    pub fn set_gas_left(&self, rt: &ZenRuntime, new_gas: u64) -> (call: Option<ZenEngineCall>)
        ensures
            call == if self.known_to(rt@) {
                Some(ZenEngineCall::SetInstanceGasLeft { inst: self.ptr, new_gas })
            } else {
                None
            },
    {
        if self.is_known_to(rt) {
            Some(ZenEngineCall::SetInstanceGasLeft { inst: self.ptr, new_gas })
        } else {
            None
        }
    }

    /// The call that protects the memory of the instance again, after host code
    /// had it opened to write into it; `None` for an instance that `rt` does not
    /// hold.
    pub fn protect_memory_again(&self, rt: &ZenRuntime) -> (call: Option<ZenEngineCall>)
        ensures
            call == if self.known_to(rt@) {
                Some(ZenEngineCall::InstanceProtectMemoryAgain { inst: self.ptr })
            } else {
                None
            },
    {
        if self.is_known_to(rt) {
            Some(ZenEngineCall::InstanceProtectMemoryAgain { inst: self.ptr })
        } else {
            None
        }
    }

    /// Flags the instance with the exception `error_code`: the call that tells the
    /// engine, which fails the running call at its next check. The instance has
    /// trapped from here on. `None`, and nothing changed, for an instance that
    /// `rt` does not hold.
    pub fn set_exception_by_hostapi(&self, rt: &mut ZenRuntime, error_code: u32) -> (call: Option<
        ZenEngineCall,
    >)
        requires
            old(rt).wf(),
        ensures
            final(rt).wf(),
            self.known_to(old(rt)@) ==> call == Some(
                ZenEngineCall::SetInstanceExceptionByHostapi { inst: self.ptr, error_code },
            ) && final(rt)@ == old(rt)@.with_instance_state(
                self.slot as int,
                ZenInstanceState::Trapped,
            ),
            !self.known_to(old(rt)@) ==> call is None && final(rt)@ == old(rt)@,
    {
        if self.is_known_to(rt) {
            rt.set_instance_state(self.slot, self.ptr, ZenInstanceState::Trapped);
            Some(ZenEngineCall::SetInstanceExceptionByHostapi { inst: self.ptr, error_code })
        } else {
            None
        }
    }

    /// The call that asks the engine for its code for exhausted gas; `None` for an
    /// instance that `rt` does not hold.
    pub fn raise_out_of_gas_error_call(&self, rt: &ZenRuntime) -> (call: Option<ZenEngineCall>)
        ensures
            call == if self.known_to(rt@) {
                Some(ZenEngineCall::GetErrCodeGasLimitExceeded)
            } else {
                None
            },
    {
        if self.is_known_to(rt) {
            Some(ZenEngineCall::GetErrCodeGasLimitExceeded)
        } else {
            None
        }
    }

    /// Flags the instance as out of gas, with the code that the engine answered:
    /// see [`ZenInstance::set_exception_by_hostapi`].
    pub fn raise_out_of_gas_error(
        &self,
        rt: &mut ZenRuntime,
        err_code: &ZenEngineReply,
    ) -> (call: Option<ZenEngineCall>)
        requires
            old(rt).wf(),
        ensures
            final(rt).wf(),
            self.known_to(old(rt)@) ==> call == Some(
                ZenEngineCall::SetInstanceExceptionByHostapi {
                    inst: self.ptr,
                    error_code: err_code.number(),
                },
            ) && final(rt)@ == old(rt)@.with_instance_state(
                self.slot as int,
                ZenInstanceState::Trapped,
            ),
            !self.known_to(old(rt)@) ==> call is None && final(rt)@ == old(rt)@,
    {
        self.set_exception_by_hostapi(rt, err_code.word())
    }

    /// The call that asks the engine for its code for memory accessed out of
    /// bounds; `None` for an instance that `rt` does not hold.
    pub fn raise_out_of_bounds_memory_error_call(&self, rt: &ZenRuntime) -> (call: Option<
        ZenEngineCall,
    >)
        ensures
            call == if self.known_to(rt@) {
                Some(ZenEngineCall::GetErrCodeOutOfBoundsMemory)
            } else {
                None
            },
    {
        if self.is_known_to(rt) {
            Some(ZenEngineCall::GetErrCodeOutOfBoundsMemory)
        } else {
            None
        }
    }

    /// Flags the instance as having accessed memory out of bounds, with the code
    /// that the engine answered: see [`ZenInstance::set_exception_by_hostapi`].
    pub fn raise_out_of_bounds_memory_error(
        &self,
        rt: &mut ZenRuntime,
        err_code: &ZenEngineReply,
    ) -> (call: Option<ZenEngineCall>)
        requires
            old(rt).wf(),
        ensures
            final(rt).wf(),
            self.known_to(old(rt)@) ==> call == Some(
                ZenEngineCall::SetInstanceExceptionByHostapi {
                    inst: self.ptr,
                    error_code: err_code.number(),
                },
            ) && final(rt)@ == old(rt)@.with_instance_state(
                self.slot as int,
                ZenInstanceState::Trapped,
            ),
            !self.known_to(old(rt)@) ==> call is None && final(rt)@ == old(rt)@,
    {
        self.set_exception_by_hostapi(rt, err_code.word())
    }

    /// The call that asks the engine for its code for an abort; `None` for an
    /// instance that `rt` does not hold.
    pub fn raise_abort_error_call(&self, rt: &ZenRuntime) -> (call: Option<ZenEngineCall>)
        ensures
            call == if self.known_to(rt@) {
                Some(ZenEngineCall::GetErrCodeEnvAbort)
            } else {
                None
            },
    {
        if self.is_known_to(rt) {
            Some(ZenEngineCall::GetErrCodeEnvAbort)
        } else {
            None
        }
    }

    /// Flags the instance as aborted, with the code that the engine answered: see
    /// [`ZenInstance::set_exception_by_hostapi`].
    pub fn raise_abort_error(
        &self,
        rt: &mut ZenRuntime,
        err_code: &ZenEngineReply,
    ) -> (call: Option<ZenEngineCall>)
        requires
            old(rt).wf(),
        ensures
            final(rt).wf(),
            self.known_to(old(rt)@) ==> call == Some(
                ZenEngineCall::SetInstanceExceptionByHostapi {
                    inst: self.ptr,
                    error_code: err_code.number(),
                },
            ) && final(rt)@ == old(rt)@.with_instance_state(
                self.slot as int,
                ZenInstanceState::Trapped,
            ),
            !self.known_to(old(rt)@) ==> call is None && final(rt)@ == old(rt)@,
    {
        self.set_exception_by_hostapi(rt, err_code.word())
    }

    /// Ends the instance with `exit_code`: the call that tells the engine. The
    /// instance has exited from here on. `None`, and nothing changed, for an
    /// instance that `rt` does not hold.
    pub fn exit(&self, rt: &mut ZenRuntime, exit_code: i32) -> (call: Option<ZenEngineCall>)
        requires
            old(rt).wf(),
        ensures
            final(rt).wf(),
            self.known_to(old(rt)@) ==> call == Some(
                ZenEngineCall::InstanceExit { inst: self.ptr, exit_code },
            ) && final(rt)@ == old(rt)@.with_instance_state(
                self.slot as int,
                ZenInstanceState::Exited,
            ),
            !self.known_to(old(rt)@) ==> call is None && final(rt)@ == old(rt)@,
    {
        if self.is_known_to(rt) {
            rt.set_instance_state(self.slot, self.ptr, ZenInstanceState::Exited);
            Some(ZenEngineCall::InstanceExit { inst: self.ptr, exit_code })
        } else {
            None
        }
    }
}

impl<T> ZenInstance<T> {
    /// The call that asks the engine for the custom data of the instance `c_ptr`,
    /// which a host function was handed.
    pub fn from_raw_pointer_call(c_ptr: ZenInstanceExtern) -> (call: ZenEngineCall)
        ensures
            call == (ZenEngineCall::GetInstanceCustomData { inst: c_ptr }),
    {
        ZenEngineCall::GetInstanceCustomData { inst: c_ptr }
    }

    /// The position in `rt` of the instance `c_ptr`, from the custom data that the
    /// engine keeps for it. The custom data is looked up, not trusted: `None`
    /// unless `rt` holds an instance with the handle `c_ptr` at that position.
    pub fn from_raw_pointer(
        rt: &ZenRuntime,
        c_ptr: ZenInstanceExtern,
        custom_data: &ZenEngineReply,
    ) -> (slot: Option<usize>)
        ensures
            slot == if rt@.owns_instance(custom_data.address(), c_ptr) {
                Some(custom_data.address())
            } else {
                None
            },
    {
        let slot = custom_data.pointer();
        match rt.instance_state(slot, c_ptr) {
            Some(_) => Some(slot),
            None => None,
        }
    }
}

} // verus!
