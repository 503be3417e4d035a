//! The books of a runtime: which engine objects it answers for, and which of
//! them a sequence of calls deletes. Whatever is released, in whatever order,
//! the books balance: the objects before a release are the objects after it and
//! the objects that its calls delete. So every object is deleted once, and once
//! everything is released, none is left.
use crate::engine::ZenEngineCall;
use crate::engine::ZenHostModuleDescExtern;
use crate::engine::ZenHostModuleExtern;
use crate::engine::ZenInstanceExtern;
use crate::engine::ZenIsolationExtern;
use crate::engine::ZenModuleExtern;
use crate::engine::ZenRuntimeExtern;
use crate::host_module::ZenHostModule;
use crate::host_module::ZenHostModuleDesc;
use crate::lifetime::fresh;
use crate::lifetime::lemma_nothing_leaks;
use crate::lifetime::ZenInstanceState;
use crate::lifetime::ZenRuntimeView;
use vstd::multiset::Multiset;
use vstd::prelude::*;

verus! {

/// An engine object that a runtime answers for, by its kind and handle.
pub enum ZenObject {
    Runtime(ZenRuntimeExtern),
    HostModuleDesc(ZenHostModuleDescExtern),
    HostModule(ZenHostModuleExtern),
    Module(ZenModuleExtern),
    Isolation(ZenIsolationExtern),
    Instance(ZenInstanceExtern),
}

/// The object, if there is one, as a collection.
pub open spec fn one(entry: Option<ZenObject>) -> Multiset<ZenObject> {
    match entry {
        Some(object) => Multiset::singleton(object),
        None => Multiset::empty(),
    }
}

/// The objects among `entries`, each as often as it occurs.
pub open spec fn gathered(entries: Seq<Option<ZenObject>>) -> Multiset<ZenObject>
    decreases entries.len(),
{
    if entries.len() == 0 {
        Multiset::empty()
    } else {
        gathered(entries.drop_last()).add(one(entries.last()))
    }
}

/// The object that `call` deletes, if it deletes one.
pub open spec fn target(call: ZenEngineCall) -> Option<ZenObject> {
    match call {
        ZenEngineCall::DeleteRuntime { rt } => Some(ZenObject::Runtime(rt)),
        ZenEngineCall::DeleteHostModuleDesc { host_module_desc, .. } => Some(
            ZenObject::HostModuleDesc(host_module_desc),
        ),
        ZenEngineCall::DeleteHostModule { host_module, .. } => Some(
            ZenObject::HostModule(host_module),
        ),
        ZenEngineCall::DeleteModule { module, .. } => Some(ZenObject::Module(module)),
        ZenEngineCall::DeleteIsolation { isolation, .. } => Some(ZenObject::Isolation(isolation)),
        ZenEngineCall::DeleteInstance { inst, .. } => Some(ZenObject::Instance(inst)),
        _ => None,
    }
}

/// The objects that `calls` delete, each as often as it is deleted.
pub open spec fn deleted_by(calls: Seq<ZenEngineCall>) -> Multiset<ZenObject> {
    gathered(Seq::new(calls.len(), |i: int| target(calls[i])))
}

impl ZenRuntimeView {
    /// The runtime itself, while it has a handle.
    pub open spec fn runtime_object(self) -> Option<ZenObject> {
        if self.ptr.addr != 0 {
            Some(ZenObject::Runtime(self.ptr))
        } else {
            None
        }
    }

    pub open spec fn host_module_desc_objects(self) -> Seq<Option<ZenObject>> {
        Seq::new(
            self.host_module_descs.len(),
            |j: int| Some(ZenObject::HostModuleDesc(self.host_module_descs[j].ptr)),
        )
    }

    pub open spec fn host_module_objects(self) -> Seq<Option<ZenObject>> {
        Seq::new(
            self.host_modules.len(),
            |j: int| Some(ZenObject::HostModule(self.host_modules[j].ptr)),
        )
    }

    /// The live modules, each at the position of its slot.
    pub open spec fn module_objects(self) -> Seq<Option<ZenObject>> {
        Seq::new(
            self.modules.len(),
            |k: int|
                if self.modules[k].live {
                    Some(ZenObject::Module(self.modules[k].ptr))
                } else {
                    None
                },
        )
    }

    /// The live isolations, each at the position of its slot.
    pub open spec fn isolation_objects(self) -> Seq<Option<ZenObject>> {
        Seq::new(
            self.isolations.len(),
            |k: int|
                if self.isolations[k].live {
                    Some(ZenObject::Isolation(self.isolations[k].ptr))
                } else {
                    None
                },
        )
    }

    /// The live instances, each at the position of its slot.
    pub open spec fn instance_objects(self) -> Seq<Option<ZenObject>> {
        Seq::new(
            self.instances.len(),
            |i: int|
                if self.instances[i].state != ZenInstanceState::Destroyed {
                    Some(ZenObject::Instance(self.instances[i].ptr))
                } else {
                    None
                },
        )
    }

    /// The engine objects that the runtime answers for: itself, its descriptors
    /// and host modules, and its live modules, isolations and instances. An
    /// object counts as often as the runtime has it.
    pub open spec fn objects(self) -> Multiset<ZenObject> {
        one(self.runtime_object()).add(gathered(self.host_module_desc_objects())).add(
            gathered(self.host_module_objects()),
        ).add(gathered(self.module_objects())).add(gathered(self.isolation_objects())).add(
            gathered(self.instance_objects()),
        )
    }
}

/// Gathering from two sequences in a row is gathering from each.
pub proof fn lemma_gathered_concat(a: Seq<Option<ZenObject>>, b: Seq<Option<ZenObject>>)
    ensures
        gathered(a + b) =~= gathered(a).add(gathered(b)),
    decreases b.len(),
{
    if b.len() == 0 {
        assert(a + b =~= a);
    } else {
        assert((a + b).drop_last() =~= a + b.drop_last());
        assert((a + b).last() == b.last());
        lemma_gathered_concat(a, b.drop_last());
    }
}

/// Replacing one entry takes away what was there and adds what is there now.
pub proof fn lemma_gathered_update(
    entries: Seq<Option<ZenObject>>,
    k: int,
    entry: Option<ZenObject>,
)
    requires
        0 <= k < entries.len(),
    ensures
        forall|object: ZenObject| #[trigger]
            gathered(entries.update(k, entry)).count(object) + one(entries[k]).count(object)
                == gathered(entries).count(object) + one(entry).count(object),
    decreases entries.len(),
{
    let updated = entries.update(k, entry);
    let rest = entries.drop_last();
    assert(gathered(entries) == gathered(rest).add(one(entries.last())));
    assert(gathered(updated) == gathered(updated.drop_last()).add(one(updated.last())));
    if k == entries.len() - 1 {
        assert(updated.drop_last() =~= rest);
        assert(updated.last() == entry);
    } else {
        assert(updated.drop_last() =~= rest.update(k, entry));
        assert(updated.last() == entries.last());
        assert(rest[k] == entries[k]);
        lemma_gathered_update(rest, k, entry);
    }
}

/// Where there is no object, none is gathered.
pub proof fn lemma_gathered_nothing(entries: Seq<Option<ZenObject>>)
    requires
        forall|i: int| 0 <= i < entries.len() ==> entries[i] is None,
    ensures
        gathered(entries) =~= Multiset::empty(),
    decreases entries.len(),
{
    if entries.len() > 0 {
        lemma_gathered_nothing(entries.drop_last());
    }
}

/// What two sequences of calls delete is what each deletes.
pub proof fn lemma_deleted_by_concat(a: Seq<ZenEngineCall>, b: Seq<ZenEngineCall>)
    ensures
        deleted_by(a + b) =~= deleted_by(a).add(deleted_by(b)),
{
    let all = Seq::new((a + b).len(), |i: int| target((a + b)[i]));
    let first = Seq::new(a.len(), |i: int| target(a[i]));
    let second = Seq::new(b.len(), |i: int| target(b[i]));
    assert(all =~= first + second);
    lemma_gathered_concat(first, second);
}

/// One call deletes its target and nothing else.
proof fn lemma_deleted_by_one(call: ZenEngineCall)
    ensures
        deleted_by(seq![call]) =~= one(target(call)),
{
    let targets = Seq::new(1, |i: int| target(seq![call][i]));
    assert(targets.drop_last() =~= Seq::<Option<ZenObject>>::empty());
    assert(targets.last() == target(call));
    assert(gathered(targets.drop_last()) =~= Multiset::empty());
}

/// No call deletes nothing.
proof fn lemma_deleted_by_none()
    ensures
        deleted_by(Seq::<ZenEngineCall>::empty()) =~= Multiset::empty(),
{
    assert(Seq::new(0, |i: int| target(Seq::<ZenEngineCall>::empty()[i])) =~= Seq::<
        Option<ZenObject>,
    >::empty());
}

/// A runtime that was just created answers for itself and nothing else, and for
/// nothing where the engine gave no handle.
pub proof fn lemma_fresh_objects(ptr: ZenRuntimeExtern)
    ensures
        fresh(ptr).objects() =~= one(fresh(ptr).runtime_object()),
{
    let v = fresh(ptr);
    lemma_gathered_nothing(v.module_objects());
    lemma_gathered_nothing(v.isolation_objects());
    lemma_gathered_nothing(v.instance_objects());
    lemma_gathered_nothing(v.host_module_objects());
    lemma_gathered_nothing(v.host_module_desc_objects());
}

/// Whatever is recorded is answered for from then on: a new module, isolation,
/// instance, descriptor or host module adds itself to the objects of the
/// runtime, and nothing else changes.
pub proof fn lemma_recording_adds_one(
    v: ZenRuntimeView,
    module: ZenModuleExtern,
    isolation: ZenIsolationExtern,
    instance: ZenInstanceExtern,
    at: (usize, usize),
    desc: ZenHostModuleDesc,
    host_module: ZenHostModule,
)
    ensures
        v.with_module(module).objects() =~= v.objects().insert(ZenObject::Module(module)),
        v.with_isolation(isolation).objects() =~= v.objects().insert(
            ZenObject::Isolation(isolation),
        ),
        v.with_instance(instance, at.0, at.1).objects() =~= v.objects().insert(
            ZenObject::Instance(instance),
        ),
        v.with_host_module_desc(desc).objects() =~= v.objects().insert(
            ZenObject::HostModuleDesc(desc.ptr),
        ),
        v.with_host_module(host_module).objects() =~= v.objects().insert(
            ZenObject::HostModule(host_module.ptr),
        ),
{
    let a = v.with_module(module);
    assert(a.module_objects().drop_last() =~= v.module_objects());
    assert(a.isolation_objects() =~= v.isolation_objects());
    assert(a.instance_objects() =~= v.instance_objects());
    assert(a.host_module_objects() =~= v.host_module_objects());
    assert(a.host_module_desc_objects() =~= v.host_module_desc_objects());
    let b = v.with_isolation(isolation);
    assert(b.isolation_objects().drop_last() =~= v.isolation_objects());
    assert(b.module_objects() =~= v.module_objects());
    assert(b.instance_objects() =~= v.instance_objects());
    assert(b.host_module_objects() =~= v.host_module_objects());
    assert(b.host_module_desc_objects() =~= v.host_module_desc_objects());
    let c = v.with_instance(instance, at.0, at.1);
    assert(c.instance_objects().drop_last() =~= v.instance_objects());
    assert(c.module_objects() =~= v.module_objects());
    assert(c.isolation_objects() =~= v.isolation_objects());
    assert(c.host_module_objects() =~= v.host_module_objects());
    assert(c.host_module_desc_objects() =~= v.host_module_desc_objects());
    let d = v.with_host_module_desc(desc);
    assert(d.host_module_desc_objects().drop_last() =~= v.host_module_desc_objects());
    assert(d.module_objects() =~= v.module_objects());
    assert(d.isolation_objects() =~= v.isolation_objects());
    assert(d.instance_objects() =~= v.instance_objects());
    assert(d.host_module_objects() =~= v.host_module_objects());
    let e = v.with_host_module(host_module);
    assert(e.host_module_objects().drop_last() =~= v.host_module_objects());
    assert(e.module_objects() =~= v.module_objects());
    assert(e.isolation_objects() =~= v.isolation_objects());
    assert(e.instance_objects() =~= v.instance_objects());
    assert(e.host_module_desc_objects() =~= v.host_module_desc_objects());
}

/// An instance that stays alive changes its state without a change to the
/// objects of the runtime.
pub proof fn lemma_state_keeps_objects(v: ZenRuntimeView, i: int, state: ZenInstanceState)
    requires
        v.instance_live(i),
        state != ZenInstanceState::Destroyed,
    ensures
        v.with_instance_state(i, state).objects() =~= v.objects(),
{
    let w = v.with_instance_state(i, state);
    assert(w.instance_objects() =~= v.instance_objects());
    assert(w.module_objects() =~= v.module_objects());
    assert(w.isolation_objects() =~= v.isolation_objects());
    assert(w.host_module_objects() =~= v.host_module_objects());
    assert(w.host_module_desc_objects() =~= v.host_module_desc_objects());
}

/// Taking the runtime down, when nobody needs it, deletes the runtime, its host
/// modules and its descriptors, and leaves the rest as it is.
pub proof fn lemma_swept_balances(v: ZenRuntimeView)
    ensures
        v.objects() =~= v.swept().objects().add(deleted_by(v.sweep_calls())),
{
    let w = v.swept();
    if v.runtime_unneeded() {
        let calls = v.teardown_calls();
        let targets = Seq::new(calls.len(), |i: int| target(calls[i]));
        let last = seq![Some(ZenObject::Runtime(v.ptr))];
        assert(targets =~= v.host_module_objects() + v.host_module_desc_objects() + last);
        lemma_gathered_concat(v.host_module_objects() + v.host_module_desc_objects(), last);
        lemma_gathered_concat(v.host_module_objects(), v.host_module_desc_objects());
        assert(last.drop_last() =~= Seq::<Option<ZenObject>>::empty());
        assert(gathered(last) =~= one(v.runtime_object())) by {
            assert(gathered(last.drop_last()) =~= Multiset::empty());
        }
        assert(w.host_module_objects() =~= Seq::<Option<ZenObject>>::empty());
        assert(w.host_module_desc_objects() =~= Seq::<Option<ZenObject>>::empty());
        assert(w.module_objects() =~= v.module_objects());
        assert(w.isolation_objects() =~= v.isolation_objects());
        assert(w.instance_objects() =~= v.instance_objects());
    } else {
        lemma_deleted_by_none();
    }
}

/// Deleting a module that nobody needs deletes that module and leaves the rest
/// as it is.
pub proof fn lemma_module_swept_balances(v: ZenRuntimeView, k: int)
    ensures
        v.objects() =~= v.module_swept(k).objects().add(deleted_by(v.module_sweep_calls(k))),
{
    let w = v.module_swept(k);
    if v.module_unneeded(k) {
        assert(w.module_objects() =~= v.module_objects().update(k, None));
        lemma_gathered_update(v.module_objects(), k, None);
        lemma_deleted_by_one(
            ZenEngineCall::DeleteModule { rt: v.ptr, module: v.modules[k].ptr },
        );
        assert(w.isolation_objects() =~= v.isolation_objects());
        assert(w.instance_objects() =~= v.instance_objects());
        assert(w.host_module_objects() =~= v.host_module_objects());
        assert(w.host_module_desc_objects() =~= v.host_module_desc_objects());
    } else {
        lemma_deleted_by_none();
    }
}

/// Deleting an isolation that nobody needs deletes that isolation and leaves the
/// rest as it is.
pub proof fn lemma_isolation_swept_balances(v: ZenRuntimeView, k: int)
    ensures
        v.objects() =~= v.isolation_swept(k).objects().add(
            deleted_by(v.isolation_sweep_calls(k)),
        ),
{
    let w = v.isolation_swept(k);
    if v.isolation_unneeded(k) {
        assert(w.isolation_objects() =~= v.isolation_objects().update(k, None));
        lemma_gathered_update(v.isolation_objects(), k, None);
        lemma_deleted_by_one(
            ZenEngineCall::DeleteIsolation { rt: v.ptr, isolation: v.isolations[k].ptr },
        );
        assert(w.module_objects() =~= v.module_objects());
        assert(w.instance_objects() =~= v.instance_objects());
        assert(w.host_module_objects() =~= v.host_module_objects());
        assert(w.host_module_desc_objects() =~= v.host_module_desc_objects());
    } else {
        lemma_deleted_by_none();
    }
}

/// The books balance over the release of the runtime.
pub proof fn lemma_release_balances(v: ZenRuntimeView)
    ensures
        v.objects() =~= v.released().objects().add(deleted_by(v.release_calls())),
{
    let a = v.unheld();
    assert(a.module_objects() =~= v.module_objects());
    assert(a.isolation_objects() =~= v.isolation_objects());
    assert(a.instance_objects() =~= v.instance_objects());
    assert(a.host_module_objects() =~= v.host_module_objects());
    assert(a.host_module_desc_objects() =~= v.host_module_desc_objects());
    lemma_swept_balances(a);
}

/// The books balance over the release of a module.
pub proof fn lemma_module_release_balances(v: ZenRuntimeView, k: int)
    ensures
        v.objects() =~= v.module_released(k).objects().add(
            deleted_by(v.module_release_calls(k)),
        ),
{
    if v.module_held(k) {
        let a = v.module_unheld(k);
        assert(a.module_objects() =~= v.module_objects());
        assert(a.isolation_objects() =~= v.isolation_objects());
        assert(a.instance_objects() =~= v.instance_objects());
        assert(a.host_module_objects() =~= v.host_module_objects());
        assert(a.host_module_desc_objects() =~= v.host_module_desc_objects());
        lemma_module_swept_balances(a, k);
        lemma_swept_balances(a.module_swept(k));
        lemma_deleted_by_concat(a.module_sweep_calls(k), a.module_swept(k).sweep_calls());
    } else {
        lemma_deleted_by_none();
    }
}

/// The books balance over the release of an isolation.
pub proof fn lemma_isolation_release_balances(v: ZenRuntimeView, k: int)
    ensures
        v.objects() =~= v.isolation_released(k).objects().add(
            deleted_by(v.isolation_release_calls(k)),
        ),
{
    if v.isolation_held(k) {
        let a = v.isolation_unheld(k);
        assert(a.module_objects() =~= v.module_objects());
        assert(a.isolation_objects() =~= v.isolation_objects());
        assert(a.instance_objects() =~= v.instance_objects());
        assert(a.host_module_objects() =~= v.host_module_objects());
        assert(a.host_module_desc_objects() =~= v.host_module_desc_objects());
        lemma_isolation_swept_balances(a, k);
        lemma_swept_balances(a.isolation_swept(k));
        lemma_deleted_by_concat(
            a.isolation_sweep_calls(k),
            a.isolation_swept(k).sweep_calls(),
        );
    } else {
        lemma_deleted_by_none();
    }
}

/// The books balance over the release of an instance.
pub proof fn lemma_instance_release_balances(v: ZenRuntimeView, i: int)
    requires
        v.wf(),
    ensures
        v.objects() =~= v.instance_released(i).objects().add(
            deleted_by(v.instance_release_calls(i)),
        ),
{
    if v.instance_live(i) {
        let slot = v.instances[i];
        let a = v.instance_destroyed(i);
        let b = a.isolation_swept(slot.isolation as int);
        let c = b.module_swept(slot.module as int);
        let delete = ZenEngineCall::DeleteInstance {
            isolation: v.isolations[slot.isolation as int].ptr,
            inst: slot.ptr,
        };
        assert(a.instance_objects() =~= v.instance_objects().update(i, None));
        lemma_gathered_update(v.instance_objects(), i, None);
        lemma_deleted_by_one(delete);
        assert(a.module_objects() =~= v.module_objects());
        assert(a.isolation_objects() =~= v.isolation_objects());
        assert(a.host_module_objects() =~= v.host_module_objects());
        assert(a.host_module_desc_objects() =~= v.host_module_desc_objects());
        assert(v.objects() =~= a.objects().add(deleted_by(seq![delete])));
        lemma_isolation_swept_balances(a, slot.isolation as int);
        lemma_module_swept_balances(b, slot.module as int);
        lemma_swept_balances(c);
        let first = seq![delete] + a.isolation_sweep_calls(slot.isolation as int);
        let second = first + b.module_sweep_calls(slot.module as int);
        lemma_deleted_by_concat(seq![delete], a.isolation_sweep_calls(slot.isolation as int));
        lemma_deleted_by_concat(first, b.module_sweep_calls(slot.module as int));
        lemma_deleted_by_concat(second, c.sweep_calls());
        assert(v.instance_release_calls(i) == second + c.sweep_calls());
    } else {
        lemma_deleted_by_none();
    }
}

/// Once everything was released, the runtime answers for no engine object any
/// more: with the balance over every release, each object that was ever recorded
/// has been deleted, once.
pub proof fn lemma_nothing_is_left(v: ZenRuntimeView)
    requires
        v.wf(),
        !v.held,
        forall|k: int| 0 <= k < v.modules.len() ==> !(#[trigger] v.modules[k]).held,
        forall|k: int| 0 <= k < v.isolations.len() ==> !(#[trigger] v.isolations[k]).held,
        forall|i: int| !#[trigger] v.instance_live(i),
    ensures
        v.objects() =~= Multiset::empty(),
{
    lemma_nothing_leaks(v);
    assert forall|k: int| 0 <= k < v.modules.len() implies v.module_objects()[k] is None by {
        assert(!v.module_live(k));
    }
    assert forall|k: int| 0 <= k < v.isolations.len() implies v.isolation_objects()[k] is None by {
        assert(!v.isolation_live(k));
    }
    assert forall|i: int| 0 <= i < v.instances.len() implies v.instance_objects()[i] is None by {
        assert(!v.instance_live(i));
    }
    lemma_gathered_nothing(v.module_objects());
    lemma_gathered_nothing(v.isolation_objects());
    lemma_gathered_nothing(v.instance_objects());
    lemma_gathered_nothing(v.host_module_objects());
    lemma_gathered_nothing(v.host_module_desc_objects());
}

} // verus!
