//! The runtime: the root of everything an embedder holds. It keeps the engine
//! handle, the host modules and their descriptors, and a record of every module,
//! isolation and instance made under it, from which it decides when each engine
//! object is deleted.
use crate::config::ZenRuntimeConfig;
use crate::config::ZenRuntimeMode;
use crate::engine::ERROR_BUF_SIZE;
use crate::engine::ZenEngineCall;
use crate::engine::ZenEngineReply;
use crate::engine::ZenHostModuleDescExtern;
use crate::engine::ZenInstanceExtern;
use crate::engine::ZenIsolationExtern;
use crate::engine::ZenModuleExtern;
use crate::engine::ZenRuntimeConfigExtern;
use crate::engine::ZenRuntimeExtern;
use crate::host_module::ZenHostModule;
use crate::host_module::ZenHostModuleDesc;
use crate::isolation::ZenIsolation;
use crate::lifetime::ZenInstanceSlot;
use crate::lifetime::ZenInstanceState;
use crate::lifetime::ZenIsolationSlot;
use crate::lifetime::ZenModuleSlot;
use crate::lifetime::ZenRuntimeView;
use crate::lifetime::fresh;
use crate::lifetime::lemma_instance_released_wf;
use crate::lifetime::lemma_isolation_released_wf;
use crate::lifetime::lemma_module_released_wf;
use crate::lifetime::lemma_released_wf;
use crate::lifetime::lemma_with_host_module_desc_wf;
use crate::lifetime::lemma_with_host_module_wf;
use crate::lifetime::lemma_with_instance_state_wf;
use crate::lifetime::lemma_with_instance_wf;
use crate::lifetime::lemma_with_isolation_wf;
use crate::lifetime::lemma_with_module_wf;
use crate::utils::c_str_bytes;
use crate::utils::count_of;
use crate::utils::rust_str_to_c_str;
use crate::utils::too_large_message;
use vstd::prelude::*;
use vstd::slice::slice_to_vec;

verus! {

/// A runtime of the engine, with what was made under it.
#[derive(Debug)]
pub struct ZenRuntime {
    ptr: ZenRuntimeExtern,
    held: bool,
    host_module_descs: Vec<ZenHostModuleDesc>,
    host_modules: Vec<ZenHostModule>,
    modules: Vec<ZenModuleSlot>,
    isolations: Vec<ZenIsolationSlot>,
    instances: Vec<ZenInstanceSlot>,
}

/// A module of a runtime. It is a name for what the runtime keeps: the runtime
/// decides whether the name is still good, and when the engine object goes.
#[derive(Clone, Copy, PartialEq, Eq, Structural, Debug)]
pub struct ZenModule {
    /// The runtime that loaded the module.
    pub rt: ZenRuntimeExtern,
    pub ptr: ZenModuleExtern,
    /// The position of the module in its runtime.
    pub slot: usize,
}

impl View for ZenRuntime {
    type V = ZenRuntimeView;

    closed spec fn view(&self) -> ZenRuntimeView {
        ZenRuntimeView {
            ptr: self.ptr,
            held: self.held,
            host_module_descs: self.host_module_descs@,
            host_modules: self.host_modules@,
            modules: self.modules@,
            isolations: self.isolations@,
            instances: self.instances@,
        }
    }
}

impl ZenRuntimeView {
    /// `module` names a module that its holder has not released.
    pub open spec fn owns_module(self, module: ZenModule) -> bool {
        &&& self.module_held(module.slot as int)
        &&& self.modules[module.slot as int].ptr == module.ptr
        &&& module.rt == self.ptr
    }

    /// `isolation` names an isolation that its holder has not released.
    pub open spec fn owns_isolation(self, isolation: ZenIsolation) -> bool {
        &&& self.isolation_held(isolation.slot as int)
        &&& self.isolations[isolation.slot as int].ptr == isolation.ptr
        &&& isolation.rt == self.ptr
    }

    /// `slot` and `ptr` name an instance that has not been released.
    pub open spec fn owns_instance(self, slot: usize, ptr: ZenInstanceExtern) -> bool {
        &&& self.instance_live(slot as int)
        &&& self.instances[slot as int].ptr == ptr
    }
}

/// What an operation answers on a runtime that has no handle or was released.
pub open spec fn unusable_runtime_message() -> Seq<char> {
    "runtime is not usable"@
}

/// What an operation answers to a module that the runtime does not hold.
pub open spec fn unknown_module_message() -> Seq<char> {
    "module is not held by this runtime"@
}

/// What an operation answers to an isolation that the runtime does not hold.
pub open spec fn unknown_isolation_message() -> Seq<char> {
    "isolation is not held by this runtime"@
}

/// What the creation of an isolation answers when the engine gave no handle.
pub open spec fn isolation_failed_message() -> Seq<char> {
    "isolation create failed"@
}

impl ZenRuntime {
    /// The record of the runtime is well-formed.
    pub open spec fn wf(&self) -> bool {
        self@.wf()
    }

    /// The call that creates the configuration for a runtime of `mode`; of the
    /// single-pass mode where none is given.
    pub fn new_config_call(mode: Option<ZenRuntimeMode>) -> (call: ZenEngineCall)
        ensures
            call == (ZenEngineCall::CreateRuntimeConfig {
                mode: ZenRuntimeMode::or_default(mode).code() as i32,
            }),
    {
        let mode = match mode {
            Some(mode) => mode,
            None => ZenRuntimeMode::Singlepass,
        };
        ZenRuntimeConfig::new_call(mode)
    }

    /// The call that creates a runtime from the configuration that the engine
    /// gave.
    pub fn new_runtime_call(config_created: &ZenEngineReply) -> (call: ZenEngineCall)
        ensures
            call == (ZenEngineCall::CreateRuntime {
                config: ZenRuntimeConfigExtern { addr: config_created.address() },
            }),
    {
        let config = ZenRuntimeConfig::new(ZenRuntimeMode::Singlepass, config_created);
        ZenEngineCall::CreateRuntime { config: config.ptr() }
    }

    /// The runtime that the engine created, held by the caller and with nothing
    /// under it, and the call that deletes the configuration it was created from,
    /// which has served; no such call for a null configuration. A null runtime
    /// handle is taken as it is: the runtime is then of no use, and every
    /// operation on it says so.
    pub fn new(
        mode: Option<ZenRuntimeMode>,
        config_created: &ZenEngineReply,
        runtime_created: &ZenEngineReply,
    ) -> (made: (ZenRuntime, Option<ZenEngineCall>))
        ensures
            made.0.wf(),
            made.0@ == fresh(ZenRuntimeExtern { addr: runtime_created.address() }),
            made.1 == if config_created.address() == 0 {
                None
            } else {
                Some(
                    ZenEngineCall::DeleteRuntimeConfig {
                        config: crate::engine::ZenRuntimeConfigExtern {
                            addr: config_created.address(),
                        },
                    },
                )
            },
    {
        let mode = match mode {
            Some(mode) => mode,
            None => ZenRuntimeMode::Singlepass,
        };
        let mut config = ZenRuntimeConfig::new(mode, config_created);
        let rt = ZenRuntime {
            ptr: ZenRuntimeExtern { addr: runtime_created.pointer() },
            held: true,
            host_module_descs: Vec::new(),
            host_modules: Vec::new(),
            modules: Vec::new(),
            isolations: Vec::new(),
            instances: Vec::new(),
        };
        assert(rt@.host_module_descs =~= Seq::empty());
        assert(rt@.host_modules =~= Seq::empty());
        assert(rt@.modules =~= Seq::empty());
        assert(rt@.isolations =~= Seq::empty());
        assert(rt@.instances =~= Seq::empty());
        let cleanup = config.release();
        (rt, cleanup)
    }

    /// The engine handle of the runtime.
    pub fn ptr(&self) -> (ptr: ZenRuntimeExtern)
        ensures
            ptr == self@.ptr,
    {
        self.ptr
    }

    /// Whether the runtime can be used: it has a handle, and its holder has not
    /// released it.
    pub fn is_usable(&self) -> (usable: bool)
        ensures
            usable == self@.usable(),
    {
        !self.ptr.is_null() && self.held
    }

    fn module_in_use(&self, k: usize) -> (used: bool)
        ensures
            used == self@.module_in_use(k as int),
    {
        let mut i: usize = 0;
        while i < self.instances.len()
            invariant
                i <= self.instances@.len(),
                forall|n: int|
                    0 <= n < i ==> !(#[trigger] self@.instance_live(n) && self@.instances[n].module
                        == k),
            decreases self.instances@.len() - i,
        {
            let slot = self.instances[i];
            if slot.state != ZenInstanceState::Destroyed && slot.module == k {
                assert(self@.instance_live(i as int));
                return true;
            }
            i = i + 1;
        }
        false
    }

    fn isolation_in_use(&self, k: usize) -> (used: bool)
        ensures
            used == self@.isolation_in_use(k as int),
    {
        let mut i: usize = 0;
        while i < self.instances.len()
            invariant
                i <= self.instances@.len(),
                forall|n: int|
                    0 <= n < i ==> !(#[trigger] self@.instance_live(n)
                        && self@.instances[n].isolation == k),
            decreases self.instances@.len() - i,
        {
            let slot = self.instances[i];
            if slot.state != ZenInstanceState::Destroyed && slot.isolation == k {
                assert(self@.instance_live(i as int));
                return true;
            }
            i = i + 1;
        }
        false
    }

    fn idle(&self) -> (idle: bool)
        ensures
            idle == self@.idle(),
    {
        let mut k: usize = 0;
        while k < self.modules.len()
            invariant
                k <= self.modules@.len(),
                forall|n: int| 0 <= n < k ==> !#[trigger] self@.module_live(n),
            decreases self.modules@.len() - k,
        {
            if self.modules[k].live {
                assert(self@.module_live(k as int));
                return false;
            }
            k = k + 1;
        }
        let mut k: usize = 0;
        while k < self.isolations.len()
            invariant
                k <= self.isolations@.len(),
                forall|n: int| !#[trigger] self@.module_live(n),
                forall|n: int| 0 <= n < k ==> !#[trigger] self@.isolation_live(n),
            decreases self.isolations@.len() - k,
        {
            if self.isolations[k].live {
                assert(self@.isolation_live(k as int));
                return false;
            }
            k = k + 1;
        }
        let mut i: usize = 0;
        while i < self.instances.len()
            invariant
                i <= self.instances@.len(),
                forall|n: int| !#[trigger] self@.module_live(n),
                forall|n: int| !#[trigger] self@.isolation_live(n),
                forall|n: int| 0 <= n < i ==> !#[trigger] self@.instance_live(n),
            decreases self.instances@.len() - i,
        {
            if self.instances[i].state != ZenInstanceState::Destroyed {
                assert(self@.instance_live(i as int));
                return false;
            }
            i = i + 1;
        }
        true
    }

    /// Takes the runtime down if nobody needs it, adding the calls to `calls`.
    fn sweep(&mut self, calls: &mut Vec<ZenEngineCall>)
        ensures
            final(self)@ == old(self)@.swept(),
            final(calls)@ == old(calls)@ + old(self)@.sweep_calls(),
    {
        if !self.ptr.is_null() && !self.held && self.idle() {
            let ghost before = calls@;
            let ghost v = self@;
            let rt = self.ptr;
            let mut j: usize = 0;
            while j < self.host_modules.len()
                invariant
                    j <= self.host_modules@.len(),
                    self@ == v,
                    rt == v.ptr,
                    calls@ == before + Seq::new(
                        j as nat,
                        |n: int|
                            ZenEngineCall::DeleteHostModule {
                                rt: v.ptr,
                                host_module: v.host_modules[n].ptr,
                            },
                    ),
                decreases self.host_modules@.len() - j,
            {
                calls.push(
                    ZenEngineCall::DeleteHostModule { rt, host_module: self.host_modules[j].ptr },
                );
                j = j + 1;
                assert(calls@ =~= before + Seq::new(
                    j as nat,
                    |n: int|
                        ZenEngineCall::DeleteHostModule {
                            rt: v.ptr,
                            host_module: v.host_modules[n].ptr,
                        },
                ));
            }
            let ghost middle = calls@;
            let mut j: usize = 0;
            while j < self.host_module_descs.len()
                invariant
                    j <= self.host_module_descs@.len(),
                    self@ == v,
                    rt == v.ptr,
                    calls@ == middle + Seq::new(
                        j as nat,
                        |n: int|
                            ZenEngineCall::DeleteHostModuleDesc {
                                rt: v.ptr,
                                host_module_desc: v.host_module_descs[n].ptr,
                            },
                    ),
                decreases self.host_module_descs@.len() - j,
            {
                calls.push(
                    ZenEngineCall::DeleteHostModuleDesc {
                        rt,
                        host_module_desc: self.host_module_descs[j].ptr,
                    },
                );
                j = j + 1;
                assert(calls@ =~= middle + Seq::new(
                    j as nat,
                    |n: int|
                        ZenEngineCall::DeleteHostModuleDesc {
                            rt: v.ptr,
                            host_module_desc: v.host_module_descs[n].ptr,
                        },
                ));
            }
            calls.push(ZenEngineCall::DeleteRuntime { rt });
            self.host_modules = Vec::new();
            self.host_module_descs = Vec::new();
            self.ptr = ZenRuntimeExtern { addr: 0 };
            assert(calls@ =~= before + v.teardown_calls());
            assert(self@.host_modules =~= Seq::empty());
            assert(self@.host_module_descs =~= Seq::empty());
        } else {
            assert(calls@ =~= calls@ + Seq::empty());
        }
    }

    /// Deletes module `k` if nobody needs it, adding the call to `calls`.
    fn sweep_module(&mut self, k: usize, calls: &mut Vec<ZenEngineCall>)
        ensures
            final(self)@ == old(self)@.module_swept(k as int),
            final(calls)@ == old(calls)@ + old(self)@.module_sweep_calls(k as int),
    {
        if k < self.modules.len() {
            let slot = self.modules[k];
            if slot.live && !slot.held && !self.module_in_use(k) {
                calls.push(ZenEngineCall::DeleteModule { rt: self.ptr, module: slot.ptr });
                self.modules.set(k, ZenModuleSlot { live: false, ..slot });
                assert(calls@ =~= old(calls)@ + old(self)@.module_sweep_calls(k as int));
                return ;
            }
        }
        assert(calls@ =~= calls@ + Seq::empty());
    }

    /// Deletes isolation `k` if nobody needs it, adding the call to `calls`.
    fn sweep_isolation(&mut self, k: usize, calls: &mut Vec<ZenEngineCall>)
        ensures
            final(self)@ == old(self)@.isolation_swept(k as int),
            final(calls)@ == old(calls)@ + old(self)@.isolation_sweep_calls(k as int),
    {
        if k < self.isolations.len() {
            let slot = self.isolations[k];
            if slot.live && !slot.held && !self.isolation_in_use(k) {
                calls.push(ZenEngineCall::DeleteIsolation { rt: self.ptr, isolation: slot.ptr });
                self.isolations.set(k, ZenIsolationSlot { live: false, ..slot });
                assert(calls@ =~= old(calls)@ + old(self)@.isolation_sweep_calls(k as int));
                return ;
            }
        }
        assert(calls@ =~= calls@ + Seq::empty());
    }

    /// The holder of the runtime lets go of it. The engine objects go now if
    /// nothing under the runtime is left: the host modules, then the descriptors,
    /// then the runtime. Otherwise they go with the release of the last module,
    /// isolation or instance. The calls are to be made in the order given. A
    /// second release asks for nothing.
    pub fn release(&mut self) -> (calls: Vec<ZenEngineCall>)
        requires
            old(self).wf(),
        ensures
            final(self).wf(),
            final(self)@ == old(self)@.released(),
            calls@ == old(self)@.release_calls(),
    {
        proof {
            lemma_released_wf(self@);
        }
        let mut calls: Vec<ZenEngineCall> = Vec::new();
        self.held = false;
        self.sweep(&mut calls);
        assert(calls@ =~= old(self)@.release_calls());
        calls
    }

    /// The holder of `module` lets go of it. The engine object goes now if no
    /// instance runs on the module, otherwise with the last such instance; and
    /// the runtime with it, if that was all it was kept for. A name that the
    /// runtime does not hold changes nothing.
    pub fn release_module(&mut self, module: &ZenModule) -> (calls: Vec<ZenEngineCall>)
        requires
            old(self).wf(),
        ensures
            final(self).wf(),
            old(self)@.owns_module(*module) ==> final(self)@ == old(self)@.module_released(
                module.slot as int,
            ) && calls@ == old(self)@.module_release_calls(module.slot as int),
            !old(self)@.owns_module(*module) ==> final(self)@ == old(self)@ && calls@.len() == 0,
    {
        let mut calls: Vec<ZenEngineCall> = Vec::new();
        let k = module.slot;
        if k < self.modules.len() && module.rt == self.ptr {
            let slot = self.modules[k];
            if slot.held && slot.ptr == module.ptr {
                proof {
                    lemma_module_released_wf(self@, k as int);
                }
                self.modules.set(k, ZenModuleSlot { held: false, ..slot });
                assert(self@ == old(self)@.module_unheld(k as int));
                self.sweep_module(k, &mut calls);
                self.sweep(&mut calls);
                assert(calls@ =~= old(self)@.module_release_calls(k as int));
            }
        }
        calls
    }

    /// The holder of `isolation` lets go of it. The engine object goes now if no
    /// instance runs in the isolation, otherwise with the last such instance; and
    /// the runtime with it, if that was all it was kept for. A name that the
    /// runtime does not hold changes nothing.
    pub fn release_isolation(&mut self, isolation: &ZenIsolation) -> (calls: Vec<ZenEngineCall>)
        requires
            old(self).wf(),
        ensures
            final(self).wf(),
            old(self)@.owns_isolation(*isolation) ==> final(self)@
                == old(self)@.isolation_released(isolation.slot as int) && calls@
                == old(self)@.isolation_release_calls(isolation.slot as int),
            !old(self)@.owns_isolation(*isolation) ==> final(self)@ == old(self)@ && calls@.len()
                == 0,
    {
        let mut calls: Vec<ZenEngineCall> = Vec::new();
        let k = isolation.slot;
        if k < self.isolations.len() && isolation.rt == self.ptr {
            let slot = self.isolations[k];
            if slot.held && slot.ptr == isolation.ptr {
                proof {
                    lemma_isolation_released_wf(self@, k as int);
                }
                self.isolations.set(k, ZenIsolationSlot { held: false, ..slot });
                assert(self@ == old(self)@.isolation_unheld(k as int));
                self.sweep_isolation(k, &mut calls);
                self.sweep(&mut calls);
                assert(calls@ =~= old(self)@.isolation_release_calls(k as int));
            }
        }
        calls
    }

    /// The holder of the instance at `slot` lets go of it. The instance is
    /// deleted, while its isolation still lives; then the isolation and the
    /// module, each if its holder has released it and no other instance runs on
    /// it; then the runtime, if that was all it was kept for. A name that the
    /// runtime does not hold changes nothing.
    pub fn release_instance(&mut self, slot: usize, ptr: ZenInstanceExtern) -> (calls: Vec<
        ZenEngineCall,
    >)
        requires
            old(self).wf(),
        ensures
            final(self).wf(),
            old(self)@.owns_instance(slot, ptr) ==> final(self)@ == old(self)@.instance_released(
                slot as int,
            ) && calls@ == old(self)@.instance_release_calls(slot as int),
            !old(self)@.owns_instance(slot, ptr) ==> final(self)@ == old(self)@ && calls@.len()
                == 0,
    {
        let mut calls: Vec<ZenEngineCall> = Vec::new();
        if slot < self.instances.len() {
            let record = self.instances[slot];
            if record.state != ZenInstanceState::Destroyed && record.ptr == ptr {
                proof {
                    lemma_instance_released_wf(self@, slot as int);
                    assert(self@.instance_live(slot as int));
                }
                let isolation = self.isolations[record.isolation].ptr;
                calls.push(ZenEngineCall::DeleteInstance { isolation, inst: record.ptr });
                self.instances.set(
                    slot,
                    ZenInstanceSlot { state: ZenInstanceState::Destroyed, ..record },
                );
                assert(self@ == old(self)@.instance_destroyed(slot as int));
                self.sweep_isolation(record.isolation, &mut calls);
                self.sweep_module(record.module, &mut calls);
                self.sweep(&mut calls);
                assert(calls@ =~= old(self)@.instance_release_calls(slot as int));
            }
        }
        calls
    }

    /// Whether `module` names a module that its holder has not released.
    pub fn owns_module(&self, module: &ZenModule) -> (owned: bool)
        ensures
            owned == self@.owns_module(*module),
    {
        module.slot < self.modules.len() && self.modules[module.slot].held
            && self.modules[module.slot].ptr == module.ptr && module.rt == self.ptr
    }

    /// Whether `isolation` names an isolation that its holder has not released.
    pub fn owns_isolation(&self, isolation: &ZenIsolation) -> (owned: bool)
        ensures
            owned == self@.owns_isolation(*isolation),
    {
        isolation.slot < self.isolations.len() && self.isolations[isolation.slot].held
            && self.isolations[isolation.slot].ptr == isolation.ptr && isolation.rt == self.ptr
    }

    /// Where the instance that `slot` and `ptr` name stands; `None` where they
    /// name no instance, or one that was released.
    pub fn instance_state(&self, slot: usize, ptr: ZenInstanceExtern) -> (state: Option<
        ZenInstanceState,
    >)
        ensures
            state == if self@.owns_instance(slot, ptr) {
                Some(self@.instances[slot as int].state)
            } else {
                None
            },
    {
        if slot < self.instances.len() {
            let record = self.instances[slot];
            if record.state != ZenInstanceState::Destroyed && record.ptr == ptr {
                return Some(record.state);
            }
        }
        None
    }

    /// Moves the instance that `slot` and `ptr` name to `state`, and says whether
    /// there was such an instance.
    pub(crate) fn set_instance_state(
        &mut self,
        slot: usize,
        ptr: ZenInstanceExtern,
        state: ZenInstanceState,
    ) -> (moved: bool)
        requires
            old(self).wf(),
            state != ZenInstanceState::Destroyed,
        ensures
            final(self).wf(),
            moved == old(self)@.owns_instance(slot, ptr),
            final(self)@ == if moved {
                old(self)@.with_instance_state(slot as int, state)
            } else {
                old(self)@
            },
    {
        if slot < self.instances.len() {
            let record = self.instances[slot];
            if record.state != ZenInstanceState::Destroyed && record.ptr == ptr {
                proof {
                    assert(self@.instance_live(slot as int));
                    lemma_with_instance_state_wf(self@, slot as int, state);
                }
                self.instances.set(slot, ZenInstanceSlot { state, ..record });
                return true;
            }
        }
        false
    }

    /// Records an instance that the engine created on `module` in `isolation`, and
    /// gives its position; `None`, and nothing recorded, for a null handle or a
    /// module or isolation that the runtime does not hold.
    pub(crate) fn add_instance(
        &mut self,
        isolation: &ZenIsolation,
        module: &ZenModule,
        ptr: ZenInstanceExtern,
    ) -> (slot: Option<usize>)
        requires
            old(self).wf(),
        ensures
            final(self).wf(),
            slot is Some <==> ptr.addr != 0 && old(self)@.owns_isolation(*isolation)
                && old(self)@.owns_module(*module),
            slot is Some ==> slot->0 == old(self)@.instances.len() && final(self)@
                == old(self)@.with_instance(ptr, isolation.slot, module.slot),
            slot is None ==> final(self)@ == old(self)@,
    {
        if ptr.is_null() || !self.owns_isolation(isolation) || !self.owns_module(module) {
            return None;
        }
        proof {
            lemma_with_instance_wf(self@, ptr, isolation.slot, module.slot);
        }
        let slot = self.instances.len();
        self.instances.push(
            ZenInstanceSlot {
                ptr,
                isolation: isolation.slot,
                module: module.slot,
                state: ZenInstanceState::Created,
            },
        );
        Some(slot)
    }

    /// Records a descriptor that the engine compiled for this runtime.
    pub(crate) fn add_host_module_desc(&mut self, desc: ZenHostModuleDesc)
        requires
            old(self).wf(),
            old(self)@.ptr.addr != 0,
            desc.ptr.addr != 0,
            desc.rt == old(self)@.ptr,
        ensures
            final(self).wf(),
            final(self)@ == old(self)@.with_host_module_desc(desc),
    {
        proof {
            lemma_with_host_module_desc_wf(self@, desc);
        }
        self.host_module_descs.push(desc);
    }

    /// Records a host module that the engine loaded for this runtime.
    pub(crate) fn add_host_module(&mut self, host_module: ZenHostModule)
        requires
            old(self).wf(),
            old(self)@.ptr.addr != 0,
            host_module.ptr.addr != 0,
            host_module.rt == old(self)@.ptr,
        ensures
            final(self).wf(),
            final(self)@ == old(self)@.with_host_module(host_module),
    {
        proof {
            lemma_with_host_module_wf(self@, host_module);
        }
        self.host_modules.push(host_module);
    }

    /// The descriptors of the runtime, in the order of their creation.
    pub fn host_module_descs(&self) -> (descs: &Vec<ZenHostModuleDesc>)
        ensures
            descs@ == self@.host_module_descs,
    {
        &self.host_module_descs
    }

    /// The loaded host modules of the runtime, in the order of their loading.
    pub fn host_modules(&self) -> (host_modules: &Vec<ZenHostModule>)
        ensures
            host_modules@ == self@.host_modules,
    {
        &self.host_modules
    }

    /// Records the module that the engine loaded, if it loaded one.
    fn module_loaded(&mut self, loaded: &ZenEngineReply) -> (module: Result<ZenModule, String>)
        requires
            old(self).wf(),
        ensures
            final(self).wf(),
            old(self)@.module_load_result(*loaded, final(self)@, module),
    {
        if !self.is_usable() {
            return Err("runtime is not usable".to_owned());
        }
        let ptr = ZenModuleExtern { addr: loaded.pointer() };
        if ptr.is_null() {
            return Err(loaded.error_text());
        }
        proof {
            lemma_with_module_wf(self@, ptr);
        }
        let slot = self.modules.len();
        self.modules.push(ZenModuleSlot { ptr, live: true, held: true });
        Ok(ZenModule { rt: self.ptr, ptr, slot })
    }

    /// The call that loads the module in the file at `wasm_path`; `None` on a
    /// runtime that cannot be used.
    pub fn load_module_call(&self, wasm_path: &str) -> (call: Option<ZenEngineCall>)
        ensures
            call is Some <==> self@.usable(),
            call matches Some(c) ==> (c matches ZenEngineCall::LoadModuleFromFile {
                rt,
                wasm_path: path,
                error_buf_size,
            } && rt == self@.ptr && path@ == c_str_bytes(wasm_path@) && error_buf_size
                == ERROR_BUF_SIZE),
    {
        if !self.is_usable() {
            return None;
        }
        Some(
            ZenEngineCall::LoadModuleFromFile {
                rt: self.ptr,
                wasm_path: rust_str_to_c_str(wasm_path),
                error_buf_size: ERROR_BUF_SIZE as u32,
            },
        )
    }

    /// The module that the engine loaded from a file. Where the engine gave no
    /// handle, because the file is missing or is no module it can compile, the
    /// error is the message that it left in the error buffer; a null handle is
    /// never handed on as a module.
    pub fn load_module(&mut self, loaded: &ZenEngineReply) -> (module: Result<ZenModule, String>)
        requires
            old(self).wf(),
        ensures
            final(self).wf(),
            old(self)@.module_load_result(*loaded, final(self)@, module),
    {
        self.module_loaded(loaded)
    }

    /// The call that loads the module `code` under the name `module_name`; `None`
    /// on a runtime that cannot be used, and for code whose length the engine
    /// cannot be told in 32 bits.
    pub fn load_module_from_bytes_call(&self, module_name: &str, code: &[u8]) -> (call: Option<
        ZenEngineCall,
    >)
        ensures
            call is Some <==> self@.usable() && code@.len() <= u32::MAX,
            call matches Some(c) ==> (c matches ZenEngineCall::LoadModuleFromBuffer {
                rt,
                module_name: name,
                code: bytes,
                code_size,
                error_buf_size,
            } && rt == self@.ptr && name@ == c_str_bytes(module_name@) && bytes@ == code@
                && code_size == code@.len() && error_buf_size == ERROR_BUF_SIZE),
    {
        if !self.is_usable() {
            return None;
        }
        let code_size = match count_of(code.len()) {
            Some(count) => count,
            None => {
                return None;
            },
        };
        Some(
            ZenEngineCall::LoadModuleFromBuffer {
                rt: self.ptr,
                module_name: rust_str_to_c_str(module_name),
                code: slice_to_vec(code),
                code_size,
                error_buf_size: ERROR_BUF_SIZE as u32,
            },
        )
    }

    /// The module that the engine loaded from `code`. Where the engine gave no
    /// handle, the error is the message that it left in the error buffer; a null
    /// handle is never handed on as a module. For code whose length the engine
    /// cannot be told in 32 bits no call was to be made, and the reply is not
    /// looked at.
    pub fn load_module_from_bytes(
        &mut self,
        code: &[u8],
        loaded: &ZenEngineReply,
    ) -> (module: Result<ZenModule, String>)
        requires
            old(self).wf(),
        ensures
            final(self).wf(),
            old(self)@.usable() && code@.len() > u32::MAX ==> module is Err && module->Err_0@
                == too_large_message() && final(self)@ == old(self)@,
            !old(self)@.usable() || code@.len() <= u32::MAX ==> old(self)@.module_load_result(
                *loaded,
                final(self)@,
                module,
            ),
    {
        if self.is_usable() && count_of(code.len()).is_none() {
            return Err("length does not fit in 32 bits".to_owned());
        }
        self.module_loaded(loaded)
    }

    /// The call that creates an isolation; `None` on a runtime that cannot be
    /// used.
    pub fn new_isolation_call(&self) -> (call: Option<ZenEngineCall>)
        ensures
            call == if self@.usable() {
                Some(ZenEngineCall::CreateIsolation { rt: self@.ptr })
            } else {
                None
            },
    {
        if !self.is_usable() {
            return None;
        }
        Some(ZenEngineCall::CreateIsolation { rt: self.ptr })
    }

    /// The isolation that the engine created, which the runtime holds from then
    /// on. It fails only on a runtime that cannot be used and where the engine
    /// gave no handle.
    pub fn new_isolation(&mut self, created: &ZenEngineReply) -> (isolation: Result<
        ZenIsolation,
        String,
    >)
        requires
            old(self).wf(),
        ensures
            final(self).wf(),
            !old(self)@.usable() ==> isolation is Err && isolation->Err_0@
                == unusable_runtime_message() && final(self)@ == old(self)@,
            old(self)@.usable() && created.address() == 0 ==> isolation is Err
                && isolation->Err_0@ == isolation_failed_message() && final(self)@ == old(self)@,
            old(self)@.usable() && created.address() != 0 ==> isolation == Ok::<
                ZenIsolation,
                String,
            >(
                ZenIsolation {
                    rt: old(self)@.ptr,
                    ptr: ZenIsolationExtern { addr: created.address() },
                    slot: old(self)@.isolations.len() as usize,
                },
            ) && final(self)@ == old(self)@.with_isolation(
                ZenIsolationExtern { addr: created.address() },
            ),
            isolation matches Ok(i) ==> final(self)@.owns_isolation(i),
    {
        if !self.is_usable() {
            return Err("runtime is not usable".to_owned());
        }
        let ptr = ZenIsolationExtern { addr: created.pointer() };
        if ptr.is_null() {
            return Err("isolation create failed".to_owned());
        }
        proof {
            lemma_with_isolation_wf(self@, ptr);
        }
        let slot = self.isolations.len();
        self.isolations.push(ZenIsolationSlot { ptr, live: true, held: true });
        Ok(ZenIsolation { rt: self.ptr, ptr, slot })
    }
}

impl ZenRuntimeView {
    /// What the loading of a module comes to, given what the engine answered: on
    /// a runtime that cannot be used, an error and no change; for a null handle,
    /// the engine's message as the error and no change; else the module, which
    /// the runtime holds from then on, at the end of its modules.
    pub open spec fn module_load_result(
        self,
        loaded: ZenEngineReply,
        after: ZenRuntimeView,
        module: Result<ZenModule, String>,
    ) -> bool {
        if !self.usable() {
            module is Err && module->Err_0@ == unusable_runtime_message() && after == self
        } else if loaded.address() == 0 {
            module is Err && module->Err_0@ == loaded.error_message() && after == self
        } else {
            &&& module == Ok::<ZenModule, String>(
                ZenModule {
                    rt: self.ptr,
                    ptr: ZenModuleExtern { addr: loaded.address() },
                    slot: self.modules.len() as usize,
                },
            )
            &&& after == self.with_module(ZenModuleExtern { addr: loaded.address() })
            &&& module matches Ok(m) && after.owns_module(m)
        }
    }
}

} // verus!
