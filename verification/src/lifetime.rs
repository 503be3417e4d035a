//! What a runtime keeps track of, as a mathematical model: which engine objects
//! exist under it, who still holds them, and which engine calls release them.
//!
//! An engine object is deleted when nothing needs it any more: an instance when
//! its holder releases it; a module or an isolation when its holder has released
//! it and no instance runs on it; the runtime when its holder has released it and
//! no module, isolation or instance is left. In whatever order the holders
//! release, the engine is asked to delete an instance before its isolation and
//! its module, and those before the runtime.
use crate::engine::ZenEngineCall;
use crate::engine::ZenInstanceExtern;
use crate::engine::ZenIsolationExtern;
use crate::engine::ZenModuleExtern;
use crate::engine::ZenRuntimeExtern;
use crate::host_module::ZenHostModule;
use crate::host_module::ZenHostModuleDesc;
use vstd::prelude::*;

verus! {

/// Where an instance stands. An instance that was just created has run nothing;
/// it runs from its first call on. Exit and a trap end it: calls into it are
/// then answered with an error, without asking the engine. A destroyed instance
/// has no engine object any more.
#[derive(Clone, Copy, PartialEq, Eq, Structural, Debug)]
pub enum ZenInstanceState {
    Created,
    Running,
    Exited,
    Trapped,
    Destroyed,
}

/// What a runtime knows of one of its modules.
#[derive(Clone, Copy, PartialEq, Eq, Structural, Debug)]
pub struct ZenModuleSlot {
    pub ptr: ZenModuleExtern,
    /// The engine object exists.
    pub live: bool,
    /// The embedder has not released the module.
    pub held: bool,
}

/// What a runtime knows of one of its isolations.
#[derive(Clone, Copy, PartialEq, Eq, Structural, Debug)]
pub struct ZenIsolationSlot {
    pub ptr: ZenIsolationExtern,
    /// The engine object exists.
    pub live: bool,
    /// The embedder has not released the isolation.
    pub held: bool,
}

/// What a runtime knows of one of its instances: the isolation and the module
/// that it runs on, by their positions, and where it stands.
#[derive(Clone, Copy, PartialEq, Eq, Structural, Debug)]
pub struct ZenInstanceSlot {
    pub ptr: ZenInstanceExtern,
    pub isolation: usize,
    pub module: usize,
    pub state: ZenInstanceState,
}

/// A runtime and everything under it.
pub struct ZenRuntimeView {
    /// The engine handle; null before the engine gave one and after it was
    /// deleted.
    pub ptr: ZenRuntimeExtern,
    /// The embedder has not released the runtime.
    pub held: bool,
    /// The descriptors, in the order of their creation.
    pub host_module_descs: Seq<ZenHostModuleDesc>,
    /// The loaded host modules, in the order of their loading.
    pub host_modules: Seq<ZenHostModule>,
    pub modules: Seq<ZenModuleSlot>,
    pub isolations: Seq<ZenIsolationSlot>,
    pub instances: Seq<ZenInstanceSlot>,
}

impl ZenRuntimeView {
    pub open spec fn module_live(self, k: int) -> bool {
        0 <= k < self.modules.len() && self.modules[k].live
    }

    pub open spec fn isolation_live(self, k: int) -> bool {
        0 <= k < self.isolations.len() && self.isolations[k].live
    }

    pub open spec fn instance_live(self, i: int) -> bool {
        0 <= i < self.instances.len() && self.instances[i].state != ZenInstanceState::Destroyed
    }

    /// A live instance runs on module `k`.
    pub open spec fn module_in_use(self, k: int) -> bool {
        exists|i: int| #[trigger] self.instance_live(i) && self.instances[i].module == k
    }

    /// A live instance runs in isolation `k`.
    pub open spec fn isolation_in_use(self, k: int) -> bool {
        exists|i: int| #[trigger] self.instance_live(i) && self.instances[i].isolation == k
    }

    /// No module, isolation or instance has an engine object.
    pub open spec fn idle(self) -> bool {
        &&& forall|k: int| !#[trigger] self.module_live(k)
        &&& forall|k: int| !#[trigger] self.isolation_live(k)
        &&& forall|i: int| !#[trigger] self.instance_live(i)
    }

    /// Nothing that has an engine object depends on one that has none: a live
    /// instance runs on a live module in a live isolation, whatever is held is
    /// live, whatever is live has a handle, and under a null runtime there is
    /// nothing.
    pub open spec fn sound(self) -> bool {
        &&& self.ptr.addr == 0 ==> self.idle() && self.host_module_descs.len() == 0
            && self.host_modules.len() == 0
        &&& forall|i: int| #[trigger]
            self.instance_live(i) ==> {
                &&& self.isolation_live(self.instances[i].isolation as int)
                &&& self.module_live(self.instances[i].module as int)
                &&& self.instances[i].ptr.addr != 0
            }
        &&& forall|k: int|
            0 <= k < self.modules.len() ==> {
                &&& (#[trigger] self.modules[k]).held ==> self.modules[k].live
                &&& self.modules[k].live ==> self.modules[k].ptr.addr != 0
            }
        &&& forall|k: int|
            0 <= k < self.isolations.len() ==> {
                &&& (#[trigger] self.isolations[k]).held ==> self.isolations[k].live
                &&& self.isolations[k].live ==> self.isolations[k].ptr.addr != 0
            }
        &&& forall|j: int|
            0 <= j < self.host_module_descs.len() ==> {
                &&& (#[trigger] self.host_module_descs[j]).ptr.addr != 0
                &&& self.host_module_descs[j].rt == self.ptr
            }
        &&& forall|j: int|
            0 <= j < self.host_modules.len() ==> {
                &&& (#[trigger] self.host_modules[j]).ptr.addr != 0
                &&& self.host_modules[j].rt == self.ptr
            }
    }

    /// Module `k` is not kept for nothing: if it is live, it is held or in use.
    pub open spec fn module_settled(self, k: int) -> bool {
        self.module_live(k) ==> self.modules[k].held || self.module_in_use(k)
    }

    /// Isolation `k` is not kept for nothing: if it is live, it is held or in use.
    pub open spec fn isolation_settled(self, k: int) -> bool {
        self.isolation_live(k) ==> self.isolations[k].held || self.isolation_in_use(k)
    }

    /// The runtime is not kept for nothing: if it has a handle, it is held or
    /// something under it is live.
    pub open spec fn runtime_settled(self) -> bool {
        self.ptr.addr != 0 ==> self.held || !self.idle()
    }

    /// The state is sound, and nothing is kept that nobody needs.
    pub open spec fn wf(self) -> bool {
        &&& self.sound()
        &&& forall|k: int| #[trigger] self.module_settled(k)
        &&& forall|k: int| #[trigger] self.isolation_settled(k)
        &&& self.runtime_settled()
    }

    /// The runtime can be used: it has a handle and its holder has not released
    /// it.
    pub open spec fn usable(self) -> bool {
        self.ptr.addr != 0 && self.held
    }

    /// The calls that take the runtime down: its host modules, then its
    /// descriptors, each in the order of its creation, then the runtime itself.
    pub open spec fn teardown_calls(self) -> Seq<ZenEngineCall> {
        Seq::new(
            self.host_modules.len(),
            |j: int|
                ZenEngineCall::DeleteHostModule {
                    rt: self.ptr,
                    host_module: self.host_modules[j].ptr,
                },
        ) + Seq::new(
            self.host_module_descs.len(),
            |j: int|
                ZenEngineCall::DeleteHostModuleDesc {
                    rt: self.ptr,
                    host_module_desc: self.host_module_descs[j].ptr,
                },
        ) + seq![ZenEngineCall::DeleteRuntime { rt: self.ptr }]
    }

    /// Nobody needs the runtime any more.
    pub open spec fn runtime_unneeded(self) -> bool {
        self.ptr.addr != 0 && !self.held && self.idle()
    }

    /// The state after the runtime was taken down, if nobody needs it.
    pub open spec fn swept(self) -> ZenRuntimeView {
        if self.runtime_unneeded() {
            ZenRuntimeView {
                ptr: ZenRuntimeExtern { addr: 0 },
                host_module_descs: Seq::empty(),
                host_modules: Seq::empty(),
                ..self
            }
        } else {
            self
        }
    }

    /// The calls that take the runtime down, if nobody needs it.
    pub open spec fn sweep_calls(self) -> Seq<ZenEngineCall> {
        if self.runtime_unneeded() {
            self.teardown_calls()
        } else {
            Seq::empty()
        }
    }

    /// Nobody needs module `k` any more.
    pub open spec fn module_unneeded(self, k: int) -> bool {
        self.module_live(k) && !self.modules[k].held && !self.module_in_use(k)
    }

    /// The state after module `k` was deleted, if nobody needs it.
    pub open spec fn module_swept(self, k: int) -> ZenRuntimeView {
        if self.module_unneeded(k) {
            ZenRuntimeView {
                modules: self.modules.update(k, ZenModuleSlot { live: false, ..self.modules[k] }),
                ..self
            }
        } else {
            self
        }
    }

    /// The call that deletes module `k`, if nobody needs it.
    pub open spec fn module_sweep_calls(self, k: int) -> Seq<ZenEngineCall> {
        if self.module_unneeded(k) {
            seq![ZenEngineCall::DeleteModule { rt: self.ptr, module: self.modules[k].ptr }]
        } else {
            Seq::empty()
        }
    }

    /// Nobody needs isolation `k` any more.
    pub open spec fn isolation_unneeded(self, k: int) -> bool {
        self.isolation_live(k) && !self.isolations[k].held && !self.isolation_in_use(k)
    }

    /// The state after isolation `k` was deleted, if nobody needs it.
    pub open spec fn isolation_swept(self, k: int) -> ZenRuntimeView {
        if self.isolation_unneeded(k) {
            ZenRuntimeView {
                isolations: self.isolations.update(
                    k,
                    ZenIsolationSlot { live: false, ..self.isolations[k] },
                ),
                ..self
            }
        } else {
            self
        }
    }

    /// The call that deletes isolation `k`, if nobody needs it.
    pub open spec fn isolation_sweep_calls(self, k: int) -> Seq<ZenEngineCall> {
        if self.isolation_unneeded(k) {
            seq![
                ZenEngineCall::DeleteIsolation { rt: self.ptr, isolation: self.isolations[k].ptr },
            ]
        } else {
            Seq::empty()
        }
    }

    /// The state in which the holder of the runtime has let go of it.
    pub open spec fn unheld(self) -> ZenRuntimeView {
        ZenRuntimeView { held: false, ..self }
    }

    /// The state after the holder of the runtime released it.
    pub open spec fn released(self) -> ZenRuntimeView {
        self.unheld().swept()
    }

    /// The calls that the release of the runtime asks for.
    pub open spec fn release_calls(self) -> Seq<ZenEngineCall> {
        self.unheld().sweep_calls()
    }

    /// Module `k` is held: its holder can use and release it.
    pub open spec fn module_held(self, k: int) -> bool {
        0 <= k < self.modules.len() && self.modules[k].held
    }

    /// The state in which the holder of module `k` has let go of it.
    pub open spec fn module_unheld(self, k: int) -> ZenRuntimeView {
        ZenRuntimeView {
            modules: self.modules.update(k, ZenModuleSlot { held: false, ..self.modules[k] }),
            ..self
        }
    }

    /// The state after the holder of module `k` released it.
    pub open spec fn module_released(self, k: int) -> ZenRuntimeView {
        if self.module_held(k) {
            self.module_unheld(k).module_swept(k).swept()
        } else {
            self
        }
    }

    /// The calls that the release of module `k` asks for.
    pub open spec fn module_release_calls(self, k: int) -> Seq<ZenEngineCall> {
        if self.module_held(k) {
            self.module_unheld(k).module_sweep_calls(k) + self.module_unheld(k).module_swept(
                k,
            ).sweep_calls()
        } else {
            Seq::empty()
        }
    }

    /// Isolation `k` is held: its holder can use and release it.
    pub open spec fn isolation_held(self, k: int) -> bool {
        0 <= k < self.isolations.len() && self.isolations[k].held
    }

    /// The state in which the holder of isolation `k` has let go of it.
    pub open spec fn isolation_unheld(self, k: int) -> ZenRuntimeView {
        ZenRuntimeView {
            isolations: self.isolations.update(
                k,
                ZenIsolationSlot { held: false, ..self.isolations[k] },
            ),
            ..self
        }
    }

    /// The state after the holder of isolation `k` released it.
    pub open spec fn isolation_released(self, k: int) -> ZenRuntimeView {
        if self.isolation_held(k) {
            self.isolation_unheld(k).isolation_swept(k).swept()
        } else {
            self
        }
    }

    /// The calls that the release of isolation `k` asks for.
    pub open spec fn isolation_release_calls(self, k: int) -> Seq<ZenEngineCall> {
        if self.isolation_held(k) {
            self.isolation_unheld(k).isolation_sweep_calls(k) + self.isolation_unheld(
                k,
            ).isolation_swept(k).sweep_calls()
        } else {
            Seq::empty()
        }
    }

    /// The state with one more module, live and held, at the end.
    pub open spec fn with_module(self, ptr: ZenModuleExtern) -> ZenRuntimeView {
        ZenRuntimeView {
            modules: self.modules.push(ZenModuleSlot { ptr, live: true, held: true }),
            ..self
        }
    }

    /// The state with one more isolation, live and held, at the end.
    pub open spec fn with_isolation(self, ptr: ZenIsolationExtern) -> ZenRuntimeView {
        ZenRuntimeView {
            isolations: self.isolations.push(ZenIsolationSlot { ptr, live: true, held: true }),
            ..self
        }
    }

    /// The state with one more instance at the end, just created, on module
    /// `module` in isolation `isolation`.
    pub open spec fn with_instance(
        self,
        ptr: ZenInstanceExtern,
        isolation: usize,
        module: usize,
    ) -> ZenRuntimeView {
        ZenRuntimeView {
            instances: self.instances.push(
                ZenInstanceSlot { ptr, isolation, module, state: ZenInstanceState::Created },
            ),
            ..self
        }
    }

    /// The state with one more descriptor at the end.
    pub open spec fn with_host_module_desc(self, desc: ZenHostModuleDesc) -> ZenRuntimeView {
        ZenRuntimeView { host_module_descs: self.host_module_descs.push(desc), ..self }
    }

    /// The state with one more loaded host module at the end.
    pub open spec fn with_host_module(self, host_module: ZenHostModule) -> ZenRuntimeView {
        ZenRuntimeView { host_modules: self.host_modules.push(host_module), ..self }
    }

    /// The state in which instance `i` is in `state`.
    pub open spec fn with_instance_state(self, i: int, state: ZenInstanceState) -> ZenRuntimeView {
        ZenRuntimeView {
            instances: self.instances.update(i, ZenInstanceSlot { state, ..self.instances[i] }),
            ..self
        }
    }

    /// The state right after the engine object of instance `i` was deleted.
    pub open spec fn instance_destroyed(self, i: int) -> ZenRuntimeView {
        self.with_instance_state(i, ZenInstanceState::Destroyed)
    }

    /// The state after the holder of instance `i` released it: the instance is
    /// destroyed, and what only it needed goes with it, the isolation first, then
    /// the module, then the runtime.
    pub open spec fn instance_released(self, i: int) -> ZenRuntimeView {
        if self.instance_live(i) {
            self.instance_destroyed(i).isolation_swept(
                self.instances[i].isolation as int,
            ).module_swept(self.instances[i].module as int).swept()
        } else {
            self
        }
    }

    /// The calls that the release of instance `i` asks for.
    pub open spec fn instance_release_calls(self, i: int) -> Seq<ZenEngineCall> {
        if self.instance_live(i) {
            let slot = self.instances[i];
            let a = self.instance_destroyed(i);
            let b = a.isolation_swept(slot.isolation as int);
            let c = b.module_swept(slot.module as int);
            seq![
                ZenEngineCall::DeleteInstance {
                    isolation: self.isolations[slot.isolation as int].ptr,
                    inst: slot.ptr,
                },
            ] + a.isolation_sweep_calls(slot.isolation as int) + b.module_sweep_calls(
                slot.module as int,
            ) + c.sweep_calls()
        } else {
            Seq::empty()
        }
    }
}

/// Taking the runtime down when nobody needs it leaves a well-formed state.
pub proof fn lemma_swept_wf(v: ZenRuntimeView)
    requires
        v.sound(),
        forall|k: int| #[trigger] v.module_settled(k),
        forall|k: int| #[trigger] v.isolation_settled(k),
    ensures
        v.swept().wf(),
{
    let w = v.swept();
    assert forall|i: int| w.instance_live(i) == v.instance_live(i) by {}
    assert forall|k: int| #[trigger] w.module_settled(k) by {
        assert(v.module_settled(k));
        if w.module_live(k) && !w.modules[k].held {
            let i = choose|i: int| #[trigger] v.instance_live(i) && v.instances[i].module == k;
            assert(w.instance_live(i));
        }
    }
    assert forall|k: int| #[trigger] w.isolation_settled(k) by {
        assert(v.isolation_settled(k));
        if w.isolation_live(k) && !w.isolations[k].held {
            let i = choose|i: int| #[trigger] v.instance_live(i) && v.instances[i].isolation == k;
            assert(w.instance_live(i));
        }
    }
    if v.runtime_unneeded() {
        assert forall|k: int| !#[trigger] w.module_live(k) by {
            assert(!v.module_live(k));
        }
        assert forall|k: int| !#[trigger] w.isolation_live(k) by {
            assert(!v.isolation_live(k));
        }
        assert forall|i: int| !#[trigger] w.instance_live(i) by {
            assert(!v.instance_live(i));
        }
    }
}

/// Deleting a module that nobody needs keeps the state sound and settles the
/// module; what was settled stays settled.
pub proof fn lemma_module_swept(v: ZenRuntimeView, k: int)
    requires
        v.sound(),
    ensures
        v.module_swept(k).sound(),
        v.module_swept(k).module_settled(k),
        forall|j: int| v.module_settled(j) ==> #[trigger] v.module_swept(k).module_settled(j),
        forall|j: int|
            v.isolation_settled(j) ==> #[trigger] v.module_swept(k).isolation_settled(j),
{
    let w = v.module_swept(k);
    assert forall|i: int| w.instance_live(i) == v.instance_live(i) by {}
    assert forall|j: int| v.module_settled(j) implies #[trigger] w.module_settled(j) by {
        if w.module_live(j) && !w.modules[j].held {
            assert(v.module_live(j));
            let i = choose|i: int| #[trigger] v.instance_live(i) && v.instances[i].module == j;
            assert(w.instance_live(i));
        }
    }
    assert forall|j: int| v.isolation_settled(j) implies #[trigger] w.isolation_settled(j) by {
        if w.isolation_live(j) && !w.isolations[j].held {
            let i = choose|i: int| #[trigger] v.instance_live(i) && v.instances[i].isolation == j;
            assert(w.instance_live(i));
        }
    }
    if v.module_unneeded(k) {
        assert forall|i: int| #[trigger] w.instance_live(i) implies w.module_live(
            w.instances[i].module as int,
        ) by {
            assert(v.instance_live(i));
            if v.instances[i].module == k {
                assert(v.module_in_use(k));
            }
        }
        assert forall|i: int| #[trigger] w.instance_live(i) implies w.isolation_live(
            w.instances[i].isolation as int,
        ) by {
            assert(v.instance_live(i));
        }
        if v.ptr.addr == 0 {
            assert(!v.module_live(k));
        }
    } else {
        if v.module_live(k) && !v.modules[k].held {
            let i = choose|i: int| #[trigger] v.instance_live(i) && v.instances[i].module == k;
            assert(w.instance_live(i));
        }
    }
}

/// Deleting an isolation that nobody needs keeps the state sound and settles the
/// isolation; what was settled stays settled.
pub proof fn lemma_isolation_swept(v: ZenRuntimeView, k: int)
    requires
        v.sound(),
    ensures
        v.isolation_swept(k).sound(),
        v.isolation_swept(k).isolation_settled(k),
        forall|j: int| v.module_settled(j) ==> #[trigger] v.isolation_swept(k).module_settled(j),
        forall|j: int|
            v.isolation_settled(j) ==> #[trigger] v.isolation_swept(k).isolation_settled(j),
{
    let w = v.isolation_swept(k);
    assert forall|i: int| w.instance_live(i) == v.instance_live(i) by {}
    assert forall|j: int| v.module_settled(j) implies #[trigger] w.module_settled(j) by {
        if w.module_live(j) && !w.modules[j].held {
            let i = choose|i: int| #[trigger] v.instance_live(i) && v.instances[i].module == j;
            assert(w.instance_live(i));
        }
    }
    assert forall|j: int| v.isolation_settled(j) implies #[trigger] w.isolation_settled(j) by {
        if w.isolation_live(j) && !w.isolations[j].held {
            assert(v.isolation_live(j));
            let i = choose|i: int| #[trigger] v.instance_live(i) && v.instances[i].isolation == j;
            assert(w.instance_live(i));
        }
    }
    if v.isolation_unneeded(k) {
        assert forall|i: int| #[trigger] w.instance_live(i) implies w.isolation_live(
            w.instances[i].isolation as int,
        ) by {
            assert(v.instance_live(i));
            if v.instances[i].isolation == k {
                assert(v.isolation_in_use(k));
            }
        }
        assert forall|i: int| #[trigger] w.instance_live(i) implies w.module_live(
            w.instances[i].module as int,
        ) by {
            assert(v.instance_live(i));
        }
        if v.ptr.addr == 0 {
            assert(!v.isolation_live(k));
        }
    } else {
        if v.isolation_live(k) && !v.isolations[k].held {
            let i = choose|i: int| #[trigger] v.instance_live(i) && v.instances[i].isolation == k;
            assert(w.instance_live(i));
        }
    }
}

/// Destroying a live instance keeps the state sound; only the module and the
/// isolation that it ran on may be left unsettled.
pub proof fn lemma_instance_destroyed(v: ZenRuntimeView, i: int)
    requires
        v.wf(),
        v.instance_live(i),
    ensures
        v.instance_destroyed(i).sound(),
        forall|j: int|
            j != v.instances[i].module ==> #[trigger] v.instance_destroyed(i).module_settled(j),
        forall|j: int|
            j != v.instances[i].isolation ==> #[trigger] v.instance_destroyed(i).isolation_settled(
                j,
            ),
{
    let w = v.instance_destroyed(i);
    assert forall|n: int| #[trigger] w.instance_live(n) implies v.instance_live(n) && n != i
        && w.instances[n] == v.instances[n] by {}
    assert forall|j: int| j != v.instances[i].module implies #[trigger] w.module_settled(j) by {
        assert(v.module_settled(j));
        if w.module_live(j) && !w.modules[j].held {
            let n = choose|n: int| #[trigger] v.instance_live(n) && v.instances[n].module == j;
            assert(w.instance_live(n));
        }
    }
    assert forall|j: int| j != v.instances[i].isolation implies #[trigger] w.isolation_settled(
        j,
    ) by {
        assert(v.isolation_settled(j));
        if w.isolation_live(j) && !w.isolations[j].held {
            let n = choose|n: int| #[trigger] v.instance_live(n) && v.instances[n].isolation == j;
            assert(w.instance_live(n));
        }
    }
    if v.ptr.addr == 0 {
        assert(!v.instance_live(i));
    }
    assert forall|n: int| #[trigger] w.instance_live(n) implies {
        &&& w.isolation_live(w.instances[n].isolation as int)
        &&& w.module_live(w.instances[n].module as int)
        &&& w.instances[n].ptr.addr != 0
    } by {
        assert(v.instance_live(n));
    }
}

/// The release of an instance leaves a well-formed state.
pub proof fn lemma_instance_released_wf(v: ZenRuntimeView, i: int)
    requires
        v.wf(),
    ensures
        v.instance_released(i).wf(),
{
    if v.instance_live(i) {
        let slot = v.instances[i];
        let a = v.instance_destroyed(i);
        lemma_instance_destroyed(v, i);
        let b = a.isolation_swept(slot.isolation as int);
        lemma_isolation_swept(a, slot.isolation as int);
        let c = b.module_swept(slot.module as int);
        lemma_module_swept(b, slot.module as int);
        assert forall|j: int| #[trigger] c.module_settled(j) by {
            if j != slot.module {
                assert(a.module_settled(j));
                assert(b.module_settled(j));
            }
        }
        assert forall|j: int| #[trigger] c.isolation_settled(j) by {
            if j != slot.isolation {
                assert(a.isolation_settled(j));
            }
            assert(b.isolation_settled(j));
        }
        lemma_swept_wf(c);
    }
}

/// The release of a module leaves a well-formed state.
pub proof fn lemma_module_released_wf(v: ZenRuntimeView, k: int)
    requires
        v.wf(),
    ensures
        v.module_released(k).wf(),
{
    if v.module_held(k) {
        let a = v.module_unheld(k);
        assert forall|i: int| a.instance_live(i) == v.instance_live(i) by {}
        assert forall|j: int| j != k implies #[trigger] a.module_settled(j) by {
            assert(v.module_settled(j));
            if a.module_live(j) && !a.modules[j].held {
                let n = choose|n: int| #[trigger] v.instance_live(n) && v.instances[n].module == j;
                assert(a.instance_live(n));
            }
        }
        assert forall|j: int| #[trigger] a.isolation_settled(j) by {
            assert(v.isolation_settled(j));
            if a.isolation_live(j) && !a.isolations[j].held {
                let n = choose|n: int| #[trigger] v.instance_live(n) && v.instances[n].isolation
                    == j;
                assert(a.instance_live(n));
            }
        }
        assert(a.sound()) by {
            assert forall|n: int| #[trigger] a.instance_live(n) implies {
                &&& a.isolation_live(a.instances[n].isolation as int)
                &&& a.module_live(a.instances[n].module as int)
                &&& a.instances[n].ptr.addr != 0
            } by {
                assert(v.instance_live(n));
            }
            if v.ptr.addr == 0 {
                assert(!v.module_live(k));
            }
        }
        let b = a.module_swept(k);
        lemma_module_swept(a, k);
        assert forall|j: int| #[trigger] b.module_settled(j) by {
            if j != k {
                assert(a.module_settled(j));
            }
        }
        assert forall|j: int| #[trigger] b.isolation_settled(j) by {
            assert(a.isolation_settled(j));
        }
        lemma_swept_wf(b);
    }
}

/// The release of an isolation leaves a well-formed state.
pub proof fn lemma_isolation_released_wf(v: ZenRuntimeView, k: int)
    requires
        v.wf(),
    ensures
        v.isolation_released(k).wf(),
{
    if v.isolation_held(k) {
        let a = v.isolation_unheld(k);
        assert forall|i: int| a.instance_live(i) == v.instance_live(i) by {}
        assert forall|j: int| j != k implies #[trigger] a.isolation_settled(j) by {
            assert(v.isolation_settled(j));
            if a.isolation_live(j) && !a.isolations[j].held {
                let n = choose|n: int| #[trigger] v.instance_live(n) && v.instances[n].isolation
                    == j;
                assert(a.instance_live(n));
            }
        }
        assert forall|j: int| #[trigger] a.module_settled(j) by {
            assert(v.module_settled(j));
            if a.module_live(j) && !a.modules[j].held {
                let n = choose|n: int| #[trigger] v.instance_live(n) && v.instances[n].module == j;
                assert(a.instance_live(n));
            }
        }
        assert(a.sound()) by {
            assert forall|n: int| #[trigger] a.instance_live(n) implies {
                &&& a.isolation_live(a.instances[n].isolation as int)
                &&& a.module_live(a.instances[n].module as int)
                &&& a.instances[n].ptr.addr != 0
            } by {
                assert(v.instance_live(n));
            }
            if v.ptr.addr == 0 {
                assert(!v.isolation_live(k));
            }
        }
        let b = a.isolation_swept(k);
        lemma_isolation_swept(a, k);
        assert forall|j: int| #[trigger] b.isolation_settled(j) by {
            if j != k {
                assert(a.isolation_settled(j));
            }
        }
        assert forall|j: int| #[trigger] b.module_settled(j) by {
            assert(a.module_settled(j));
        }
        lemma_swept_wf(b);
    }
}

/// The release of the runtime leaves a well-formed state.
pub proof fn lemma_released_wf(v: ZenRuntimeView)
    requires
        v.wf(),
    ensures
        v.released().wf(),
{
    let a = v.unheld();
    assert forall|i: int| a.instance_live(i) == v.instance_live(i) by {}
    assert forall|j: int| #[trigger] a.module_settled(j) by {
        assert(v.module_settled(j));
        if a.module_live(j) && !a.modules[j].held {
            let n = choose|n: int| #[trigger] v.instance_live(n) && v.instances[n].module == j;
            assert(a.instance_live(n));
        }
    }
    assert forall|j: int| #[trigger] a.isolation_settled(j) by {
        assert(v.isolation_settled(j));
        if a.isolation_live(j) && !a.isolations[j].held {
            let n = choose|n: int| #[trigger] v.instance_live(n) && v.instances[n].isolation == j;
            assert(a.instance_live(n));
        }
    }
    assert(a.sound()) by {
        assert forall|n: int| #[trigger] a.instance_live(n) implies {
            &&& a.isolation_live(a.instances[n].isolation as int)
            &&& a.module_live(a.instances[n].module as int)
            &&& a.instances[n].ptr.addr != 0
        } by {
            assert(v.instance_live(n));
        }
        if v.ptr.addr == 0 {
            assert forall|k: int| !#[trigger] a.module_live(k) by {
                assert(!v.module_live(k));
            }
            assert forall|k: int| !#[trigger] a.isolation_live(k) by {
                assert(!v.isolation_live(k));
            }
            assert forall|i: int| !#[trigger] a.instance_live(i) by {
                assert(!v.instance_live(i));
            }
        }
    }
    lemma_swept_wf(a);
}

/// What lives under a runtime is the same in `w` as in `v`, which differ at most
/// in what the runtime itself holds.
proof fn lemma_same_dependents(v: ZenRuntimeView, w: ZenRuntimeView)
    requires
        v.wf(),
        w.modules == v.modules,
        w.isolations == v.isolations,
        w.instances == v.instances,
    ensures
        w.idle() == v.idle(),
        forall|k: int| #[trigger] w.module_settled(k),
        forall|k: int| #[trigger] w.isolation_settled(k),
        forall|i: int| #[trigger]
            w.instance_live(i) ==> {
                &&& w.isolation_live(w.instances[i].isolation as int)
                &&& w.module_live(w.instances[i].module as int)
                &&& w.instances[i].ptr.addr != 0
            },
{
    assert forall|i: int| w.instance_live(i) == v.instance_live(i) by {}
    assert forall|k: int| w.module_live(k) == v.module_live(k) by {}
    assert forall|k: int| w.isolation_live(k) == v.isolation_live(k) by {}
    assert forall|k: int| #[trigger] w.module_settled(k) by {
        assert(v.module_settled(k));
        if w.module_live(k) && !w.modules[k].held {
            let n = choose|n: int| #[trigger] v.instance_live(n) && v.instances[n].module == k;
            assert(w.instance_live(n));
        }
    }
    assert forall|k: int| #[trigger] w.isolation_settled(k) by {
        assert(v.isolation_settled(k));
        if w.isolation_live(k) && !w.isolations[k].held {
            let n = choose|n: int| #[trigger] v.instance_live(n) && v.instances[n].isolation == k;
            assert(w.instance_live(n));
        }
    }
    assert forall|i: int| #[trigger] w.instance_live(i) implies {
        &&& w.isolation_live(w.instances[i].isolation as int)
        &&& w.module_live(w.instances[i].module as int)
        &&& w.instances[i].ptr.addr != 0
    } by {
        assert(v.instance_live(i));
    }
    if v.idle() {
        assert forall|k: int| !#[trigger] w.module_live(k) by {
            assert(!v.module_live(k));
        }
        assert forall|k: int| !#[trigger] w.isolation_live(k) by {
            assert(!v.isolation_live(k));
        }
        assert forall|i: int| !#[trigger] w.instance_live(i) by {
            assert(!v.instance_live(i));
        }
    }
    if w.idle() {
        assert forall|k: int| !#[trigger] v.module_live(k) by {
            assert(!w.module_live(k));
        }
        assert forall|k: int| !#[trigger] v.isolation_live(k) by {
            assert(!w.isolation_live(k));
        }
        assert forall|i: int| !#[trigger] v.instance_live(i) by {
            assert(!w.instance_live(i));
        }
    }
}

/// A descriptor with a handle, made by a runtime that has one, joins it in a
/// well-formed state.
pub proof fn lemma_with_host_module_desc_wf(v: ZenRuntimeView, desc: ZenHostModuleDesc)
    requires
        v.wf(),
        v.ptr.addr != 0,
        desc.ptr.addr != 0,
        desc.rt == v.ptr,
    ensures
        v.with_host_module_desc(desc).wf(),
{
    lemma_same_dependents(v, v.with_host_module_desc(desc));
}

/// A loaded host module with a handle, loaded by a runtime that has one, joins it
/// in a well-formed state.
pub proof fn lemma_with_host_module_wf(v: ZenRuntimeView, host_module: ZenHostModule)
    requires
        v.wf(),
        v.ptr.addr != 0,
        host_module.ptr.addr != 0,
        host_module.rt == v.ptr,
    ensures
        v.with_host_module(host_module).wf(),
{
    lemma_same_dependents(v, v.with_host_module(host_module));
}

/// A module with a handle joins a runtime that has one in a well-formed state.
pub proof fn lemma_with_module_wf(v: ZenRuntimeView, ptr: ZenModuleExtern)
    requires
        v.wf(),
        v.ptr.addr != 0,
        ptr.addr != 0,
    ensures
        v.with_module(ptr).wf(),
{
    let w = v.with_module(ptr);
    assert forall|i: int| w.instance_live(i) == v.instance_live(i) by {}
    assert forall|k: int| #[trigger] w.module_settled(k) by {
        assert(v.module_settled(k));
        if w.module_live(k) && !w.modules[k].held {
            assert(v.module_live(k));
            let n = choose|n: int| #[trigger] v.instance_live(n) && v.instances[n].module == k;
            assert(w.instance_live(n));
        }
    }
    assert forall|k: int| #[trigger] w.isolation_settled(k) by {
        assert(v.isolation_settled(k));
        if w.isolation_live(k) && !w.isolations[k].held {
            let n = choose|n: int| #[trigger] v.instance_live(n) && v.instances[n].isolation == k;
            assert(w.instance_live(n));
        }
    }
    assert forall|i: int| #[trigger] w.instance_live(i) implies {
        &&& w.isolation_live(w.instances[i].isolation as int)
        &&& w.module_live(w.instances[i].module as int)
        &&& w.instances[i].ptr.addr != 0
    } by {
        assert(v.instance_live(i));
        assert(v.module_live(v.instances[i].module as int));
    }
    assert(w.module_live(v.modules.len() as int));
}

/// An isolation with a handle joins a runtime that has one in a well-formed
/// state.
pub proof fn lemma_with_isolation_wf(v: ZenRuntimeView, ptr: ZenIsolationExtern)
    requires
        v.wf(),
        v.ptr.addr != 0,
        ptr.addr != 0,
    ensures
        v.with_isolation(ptr).wf(),
{
    let w = v.with_isolation(ptr);
    assert forall|i: int| w.instance_live(i) == v.instance_live(i) by {}
    assert forall|k: int| #[trigger] w.module_settled(k) by {
        assert(v.module_settled(k));
        if w.module_live(k) && !w.modules[k].held {
            let n = choose|n: int| #[trigger] v.instance_live(n) && v.instances[n].module == k;
            assert(w.instance_live(n));
        }
    }
    assert forall|k: int| #[trigger] w.isolation_settled(k) by {
        assert(v.isolation_settled(k));
        if w.isolation_live(k) && !w.isolations[k].held {
            assert(v.isolation_live(k));
            let n = choose|n: int| #[trigger] v.instance_live(n) && v.instances[n].isolation == k;
            assert(w.instance_live(n));
        }
    }
    assert forall|i: int| #[trigger] w.instance_live(i) implies {
        &&& w.isolation_live(w.instances[i].isolation as int)
        &&& w.module_live(w.instances[i].module as int)
        &&& w.instances[i].ptr.addr != 0
    } by {
        assert(v.instance_live(i));
        assert(v.isolation_live(v.instances[i].isolation as int));
    }
    assert(w.isolation_live(v.isolations.len() as int));
}

/// An instance with a handle, on a live module in a live isolation, joins a
/// runtime in a well-formed state.
pub proof fn lemma_with_instance_wf(
    v: ZenRuntimeView,
    ptr: ZenInstanceExtern,
    isolation: usize,
    module: usize,
)
    requires
        v.wf(),
        ptr.addr != 0,
        v.isolation_live(isolation as int),
        v.module_live(module as int),
    ensures
        v.with_instance(ptr, isolation, module).wf(),
{
    let w = v.with_instance(ptr, isolation, module);
    let last = v.instances.len() as int;
    assert forall|i: int| v.instance_live(i) implies w.instance_live(i) && w.instances[i]
        == v.instances[i] by {}
    assert(w.instance_live(last));
    assert forall|k: int| #[trigger] w.module_settled(k) by {
        assert(v.module_settled(k));
        if w.module_live(k) && !w.modules[k].held {
            if v.module_in_use(k) {
                let n = choose|n: int| #[trigger] v.instance_live(n) && v.instances[n].module == k;
                assert(w.instance_live(n));
            }
        }
    }
    assert forall|k: int| #[trigger] w.isolation_settled(k) by {
        assert(v.isolation_settled(k));
        if w.isolation_live(k) && !w.isolations[k].held {
            if v.isolation_in_use(k) {
                let n = choose|n: int| #[trigger] v.instance_live(n) && v.instances[n].isolation
                    == k;
                assert(w.instance_live(n));
            }
        }
    }
    assert forall|i: int| #[trigger] w.instance_live(i) implies {
        &&& w.isolation_live(w.instances[i].isolation as int)
        &&& w.module_live(w.instances[i].module as int)
        &&& w.instances[i].ptr.addr != 0
    } by {
        if i != last {
            assert(v.instance_live(i));
        }
    }
    if v.ptr.addr == 0 {
        assert(!v.module_live(module as int));
    }
}

/// An instance that stays alive may change its state in a well-formed state.
pub proof fn lemma_with_instance_state_wf(v: ZenRuntimeView, i: int, state: ZenInstanceState)
    requires
        v.wf(),
        v.instance_live(i),
        state != ZenInstanceState::Destroyed,
    ensures
        v.with_instance_state(i, state).wf(),
{
    let w = v.with_instance_state(i, state);
    assert forall|n: int| w.instance_live(n) == v.instance_live(n) by {}
    assert forall|k: int| #[trigger] w.module_settled(k) by {
        assert(v.module_settled(k));
        if w.module_live(k) && !w.modules[k].held {
            let n = choose|n: int| #[trigger] v.instance_live(n) && v.instances[n].module == k;
            assert(w.instance_live(n));
        }
    }
    assert forall|k: int| #[trigger] w.isolation_settled(k) by {
        assert(v.isolation_settled(k));
        if w.isolation_live(k) && !w.isolations[k].held {
            let n = choose|n: int| #[trigger] v.instance_live(n) && v.instances[n].isolation == k;
            assert(w.instance_live(n));
        }
    }
    assert forall|n: int| #[trigger] w.instance_live(n) implies {
        &&& w.isolation_live(w.instances[n].isolation as int)
        &&& w.module_live(w.instances[n].module as int)
        &&& w.instances[n].ptr.addr != 0
    } by {
        assert(v.instance_live(n));
    }
    assert(w.instance_live(i));
    if v.ptr.addr == 0 {
        assert(!v.instance_live(i));
    }
}

/// The state of a runtime that was just created with the handle `ptr`: held, with
/// nothing under it.
pub open spec fn fresh(ptr: ZenRuntimeExtern) -> ZenRuntimeView {
    ZenRuntimeView {
        ptr,
        held: true,
        host_module_descs: Seq::empty(),
        host_modules: Seq::empty(),
        modules: Seq::empty(),
        isolations: Seq::empty(),
        instances: Seq::empty(),
    }
}

/// A runtime that is released right after its creation gives its handle back
/// once: the release asks for the deletion of the runtime and nothing else, or
/// for nothing where the engine gave no handle; after it the runtime has no
/// handle, and a second release asks for nothing.
pub proof fn lemma_create_then_release(ptr: ZenRuntimeExtern)
    ensures
        fresh(ptr).wf(),
        fresh(ptr).release_calls() == if ptr.addr != 0 {
            seq![ZenEngineCall::DeleteRuntime { rt: ptr }]
        } else {
            Seq::<ZenEngineCall>::empty()
        },
        fresh(ptr).released().ptr.addr == 0,
        fresh(ptr).released().wf(),
        fresh(ptr).released().release_calls() == Seq::<ZenEngineCall>::empty(),
        fresh(ptr).released().released() == fresh(ptr).released(),
{
    let v = fresh(ptr);
    assert(v.wf());
    let a = v.unheld();
    assert(a.idle());
    if ptr.addr != 0 {
        assert(a.runtime_unneeded());
        assert(a.teardown_calls() =~= seq![ZenEngineCall::DeleteRuntime { rt: ptr }]);
    }
    lemma_released_wf(v);
    let r = v.released();
    assert(r.unheld() == r);
    assert(!r.runtime_unneeded());
}

/// Which instances use a module or an isolation is a matter of the instances
/// alone.
proof fn lemma_usage_by_instances(v: ZenRuntimeView, w: ZenRuntimeView)
    requires
        w.instances == v.instances,
    ensures
        forall|k: int| #[trigger] w.module_in_use(k) == v.module_in_use(k),
        forall|k: int| #[trigger] w.isolation_in_use(k) == v.isolation_in_use(k),
        forall|i: int| #[trigger] w.instance_live(i) == v.instance_live(i),
{
    assert forall|i: int| #[trigger] w.instance_live(i) == v.instance_live(i) by {}
    assert forall|k: int| #[trigger] w.module_in_use(k) == v.module_in_use(k) by {
        if v.module_in_use(k) {
            let n = choose|n: int| #[trigger] v.instance_live(n) && v.instances[n].module == k;
            assert(w.instance_live(n));
        }
        if w.module_in_use(k) {
            let n = choose|n: int| #[trigger] w.instance_live(n) && w.instances[n].module == k;
            assert(v.instance_live(n));
        }
    }
    assert forall|k: int| #[trigger] w.isolation_in_use(k) == v.isolation_in_use(k) by {
        if v.isolation_in_use(k) {
            let n = choose|n: int| #[trigger] v.instance_live(n) && v.instances[n].isolation == k;
            assert(w.instance_live(n));
        }
        if w.isolation_in_use(k) {
            let n = choose|n: int| #[trigger] w.instance_live(n) && w.instances[n].isolation == k;
            assert(v.instance_live(n));
        }
    }
}

/// An instance and its isolation may be released in either order. Either way
/// the state at the end is the same, and the engine is asked to delete the
/// instance first, while its isolation lives; the isolation and the module
/// follow, each if nobody needs it any more; the runtime, if nobody needs it any
/// more, goes last. The two orders differ only in which of isolation and module
/// goes before the other.
pub proof fn lemma_instance_and_isolation_in_either_order(v: ZenRuntimeView, i: int)
    requires
        v.wf(),
        v.instance_live(i),
        v.isolation_held(v.instances[i].isolation as int),
    ensures
        ({
            let k = v.instances[i].isolation as int;
            let m = v.instances[i].module as int;
            let deleted = seq![
                ZenEngineCall::DeleteInstance {
                    isolation: v.isolations[k].ptr,
                    inst: v.instances[i].ptr,
                },
            ];
            let gone = v.instance_destroyed(i).isolation_unheld(k);
            let isolation_calls = gone.isolation_sweep_calls(k);
            let module_calls = gone.module_sweep_calls(m);
            let rest = gone.isolation_swept(k).module_swept(m);
            &&& v.instance_released(i).isolation_released(k) == rest.swept()
            &&& v.isolation_released(k).instance_released(i) == rest.swept()
            &&& v.instance_release_calls(i) + v.instance_released(i).isolation_release_calls(k)
                == deleted + module_calls + isolation_calls + rest.sweep_calls()
            &&& v.isolation_release_calls(k) + v.isolation_released(k).instance_release_calls(i)
                == deleted + isolation_calls + module_calls + rest.sweep_calls()
        }),
{
    let k = v.instances[i].isolation as int;
    let m = v.instances[i].module as int;
    let slot = v.instances[i];
    let d = v.instance_destroyed(i);
    let gone = d.isolation_unheld(k);
    let rest = gone.isolation_swept(k).module_swept(m);
    let deleted = seq![
        ZenEngineCall::DeleteInstance { isolation: v.isolations[k].ptr, inst: v.instances[i].ptr },
    ];
    assert(v.isolation_live(k));
    assert(v.module_live(m));
    // The instance first.
    assert(!d.isolation_unneeded(k));
    assert(d.isolation_swept(k) == d);
    let a1 = d.module_swept(m);
    assert(a1.isolation_live(k));
    assert(!a1.idle());
    assert(a1.swept() == a1);
    assert(v.instance_released(i) == a1);
    assert(a1.isolation_held(k));
    let a2 = a1.isolation_unheld(k);
    lemma_usage_by_instances(d, gone);
    lemma_usage_by_instances(d, a1);
    lemma_usage_by_instances(d, a2);
    lemma_usage_by_instances(d, gone.isolation_swept(k));
    assert(a2.modules =~= gone.module_swept(m).modules);
    assert(a2.isolations =~= gone.module_swept(m).isolations);
    assert(a2 == gone.module_swept(m));
    assert(a2.isolation_unneeded(k) == gone.isolation_unneeded(k));
    assert(gone.isolation_swept(k).module_unneeded(m) == gone.module_unneeded(m));
    assert(a2.isolation_swept(k).modules =~= rest.modules);
    assert(a2.isolation_swept(k).isolations =~= rest.isolations);
    assert(a2.isolation_swept(k) == rest);
    assert(a2.isolation_sweep_calls(k) == gone.isolation_sweep_calls(k));
    assert(d.module_sweep_calls(m) == gone.module_sweep_calls(m));
    assert(gone.isolation_swept(k).module_sweep_calls(m) == gone.module_sweep_calls(m));
    assert(v.instance_release_calls(i) =~= deleted + gone.module_sweep_calls(m));
    assert(a1.isolation_release_calls(k) =~= gone.isolation_sweep_calls(k) + rest.sweep_calls());
    assert(v.instance_release_calls(i) + a1.isolation_release_calls(k) =~= deleted
        + gone.module_sweep_calls(m) + gone.isolation_sweep_calls(k) + rest.sweep_calls());
    // The isolation first.
    let b0 = v.isolation_unheld(k);
    lemma_usage_by_instances(v, b0);
    assert(v.isolation_in_use(k));
    assert(!b0.isolation_unneeded(k));
    assert(b0.instance_live(i));
    assert(!b0.idle());
    assert(b0.swept() == b0);
    assert(v.isolation_released(k) == b0);
    assert(v.isolation_release_calls(k) =~= Seq::<ZenEngineCall>::empty());
    assert(b0.instance_destroyed(i).isolations =~= gone.isolations);
    assert(b0.instance_destroyed(i).instances =~= gone.instances);
    assert(b0.instance_destroyed(i) == gone);
    assert(b0.instance_released(i) == rest.swept());
    assert(b0.isolations[k].ptr == v.isolations[k].ptr);
    assert(b0.instance_release_calls(i) =~= deleted + gone.isolation_sweep_calls(k)
        + gone.module_sweep_calls(m) + rest.sweep_calls());
    assert(v.isolation_release_calls(k) + b0.instance_release_calls(i) =~= deleted
        + gone.isolation_sweep_calls(k) + gone.module_sweep_calls(m) + rest.sweep_calls());
}

/// An isolation and its runtime may be released in either order. Either way the
/// state at the end is the same and the engine is asked for the same calls in
/// the same order: the isolation is deleted, if no instance runs in it, and the
/// runtime is taken down after it, if nothing else is left under it.
pub proof fn lemma_isolation_and_runtime_in_either_order(v: ZenRuntimeView, k: int)
    requires
        v.wf(),
        v.isolation_held(k),
        v.held,
    ensures
        ({
            let gone = v.isolation_unheld(k).unheld();
            &&& v.isolation_released(k).released() == gone.isolation_swept(k).swept()
            &&& v.released().isolation_released(k) == gone.isolation_swept(k).swept()
            &&& v.isolation_release_calls(k) + v.isolation_released(k).release_calls()
                == gone.isolation_sweep_calls(k) + gone.isolation_swept(k).sweep_calls()
            &&& v.release_calls() + v.released().isolation_release_calls(k)
                == gone.isolation_sweep_calls(k) + gone.isolation_swept(k).sweep_calls()
        }),
{
    let gone = v.isolation_unheld(k).unheld();
    let end = gone.isolation_swept(k);
    assert(v.isolation_live(k));
    assert(v.ptr.addr != 0) by {
        if v.ptr.addr == 0 {
            assert(!v.isolation_live(k));
        }
    }
    // The isolation first.
    let a0 = v.isolation_unheld(k);
    lemma_usage_by_instances(a0, gone);
    let a1 = a0.isolation_swept(k);
    assert(a1.held);
    assert(a1.swept() == a1);
    assert(v.isolation_released(k) == a1);
    assert(a1.unheld().isolations =~= end.isolations);
    assert(a1.unheld() == end);
    assert(v.isolation_release_calls(k) =~= gone.isolation_sweep_calls(k));
    assert(a1.release_calls() == end.sweep_calls());
    // The runtime first.
    let b0 = v.unheld();
    assert(b0.isolation_live(k));
    assert(!b0.idle());
    assert(b0.swept() == b0);
    assert(v.released() == b0);
    assert(v.release_calls() =~= Seq::<ZenEngineCall>::empty());
    assert(b0.isolation_held(k));
    assert(b0.isolation_unheld(k) == gone);
    assert(b0.isolation_release_calls(k) =~= gone.isolation_sweep_calls(k) + end.sweep_calls());
    assert(v.release_calls() + b0.isolation_release_calls(k) =~= gone.isolation_sweep_calls(k)
        + end.sweep_calls());
}

/// Nothing leaks: once the runtime, every module and every isolation were
/// released and every instance is destroyed, no engine object is left, and the
/// runtime has no handle.
pub proof fn lemma_nothing_leaks(v: ZenRuntimeView)
    requires
        v.wf(),
        !v.held,
        forall|k: int| 0 <= k < v.modules.len() ==> !(#[trigger] v.modules[k]).held,
        forall|k: int| 0 <= k < v.isolations.len() ==> !(#[trigger] v.isolations[k]).held,
        forall|i: int| !#[trigger] v.instance_live(i),
    ensures
        v.idle(),
        v.ptr.addr == 0,
        v.host_modules.len() == 0,
        v.host_module_descs.len() == 0,
{
    assert forall|k: int| !#[trigger] v.module_live(k) by {
        assert(v.module_settled(k));
    }
    assert forall|k: int| !#[trigger] v.isolation_live(k) by {
        assert(v.isolation_settled(k));
    }
}

/// Whatever the engine is asked to delete exists, and nothing that exists
/// depends on it. An instance is deleted while its isolation and its module
/// live, and with a runtime that has its handle. A module or an isolation is
/// deleted while the runtime has its handle, and no live instance runs on it. The
/// runtime is taken down when no module, isolation or instance is left.
pub proof fn lemma_deletions_are_safe(v: ZenRuntimeView)
    requires
        v.sound(),
    ensures
        forall|i: int| #[trigger]
            v.instance_live(i) ==> {
                &&& v.ptr.addr != 0
                &&& v.instances[i].ptr.addr != 0
                &&& v.isolation_live(v.instances[i].isolation as int)
                &&& v.isolations[v.instances[i].isolation as int].ptr.addr != 0
                &&& v.module_live(v.instances[i].module as int)
            },
        forall|k: int, i: int|
            #[trigger] v.isolation_unneeded(k) && #[trigger] v.instance_live(i)
                ==> v.instances[i].isolation != k,
        forall|k: int| #[trigger]
            v.isolation_unneeded(k) ==> v.ptr.addr != 0 && v.isolations[k].ptr.addr != 0,
        forall|k: int, i: int|
            #[trigger] v.module_unneeded(k) && #[trigger] v.instance_live(i)
                ==> v.instances[i].module != k,
        forall|k: int| #[trigger]
            v.module_unneeded(k) ==> v.ptr.addr != 0 && v.modules[k].ptr.addr != 0,
        v.runtime_unneeded() ==> v.idle(),
{
    if v.ptr.addr == 0 {
        assert forall|i: int| !#[trigger] v.instance_live(i) by {}
        assert forall|k: int| !#[trigger] v.isolation_unneeded(k) by {
            assert(!v.isolation_live(k));
        }
        assert forall|k: int| !#[trigger] v.module_unneeded(k) by {
            assert(!v.module_live(k));
        }
    }
}

} // verus!
