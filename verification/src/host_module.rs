//! Host functions: how an embedder describes them, and how the description is
//! laid out for the engine.
use crate::engine::ZenEngineCall;
use crate::engine::ZenEngineReply;
use crate::engine::ZenHostFuncDescExtern;
use crate::engine::ZenHostModuleDescExtern;
use crate::engine::ZenHostModuleExtern;
use crate::engine::ZenRuntimeExtern;
use crate::lifetime::ZenRuntimeView;
use crate::runtime::ZenRuntime;
use crate::runtime::unusable_runtime_message;
use crate::types::ZenValueType;
use crate::utils::ScopedMalloc;
use crate::utils::c_str_bytes;
use crate::utils::count_of;
use crate::utils::get_all_hostapis_refs;
use crate::utils::get_hostapis_names;
use crate::utils::packed;
use crate::utils::rust_str_to_c_str;
use crate::utils::too_large_message;
use vstd::prelude::*;

verus! {

/// A native function that guest code may import.
#[derive(Clone, Debug)]
pub struct ZenHostFuncDesc {
    pub name: String,
    pub arg_types: Vec<ZenValueType>,
    pub ret_types: Vec<ZenValueType>,
    /// The address of the native function. Its first parameter is the instance
    /// that calls it.
    pub ptr: cty::uintptr_t,
}

/// The tags of `types`, in order.
pub open spec fn type_tags(types: Seq<ZenValueType>) -> Seq<u32> {
    Seq::new(types.len(), |i: int| types[i].tag() as u32)
}

/// The buffer that holds the tags of `types`.
pub fn type_tags_buffer(types: &Vec<ZenValueType>) -> (buffer: ScopedMalloc<u32>)
    ensures
        buffer.wf(),
        buffer.requested() == types@.len(),
        buffer@ == packed(type_tags(types@)),
{
    let count = types.len();
    let mut buffer: ScopedMalloc<u32> = ScopedMalloc::new(count);
    let mut j: usize = 0;
    while j < count
        invariant
            j <= count,
            count == types@.len(),
            buffer.wf(),
            buffer.requested() == count,
            forall|i: int| 0 <= i < j ==> buffer@[i] == Some(type_tags(types@)[i]),
            forall|i: int| j <= i < buffer@.len() ==> buffer@[i] is None,
        decreases count - j,
    {
        let tag = types[j].to_i32();
        buffer.write(j, tag as u32);
        j = j + 1;
    }
    assert(buffer@ =~= packed(type_tags(types@)));
    buffer
}

impl ZenHostFuncDesc {
    /// The engine can be told how many kinds the function takes and gives: both
    /// numbers fit 32 bits.
    pub open spec fn fits(&self) -> bool {
        self.arg_types@.len() <= u32::MAX && self.ret_types@.len() <= u32::MAX
    }

    /// `record` lays the function out for the engine: the name as a C string, the
    /// kinds as tags in buffers of their own with their counts, and the address of
    /// the native function.
    pub open spec fn is_flat(&self, record: ZenHostFuncDescExtern) -> bool {
        &&& record.name@ == c_str_bytes(self.name@)
        &&& record.num_args == self.arg_types@.len()
        &&& record.arg_types.wf()
        &&& record.arg_types.requested() == self.arg_types@.len()
        &&& record.arg_types@ == packed(type_tags(self.arg_types@))
        &&& record.num_returns == self.ret_types@.len()
        &&& record.ret_types.wf()
        &&& record.ret_types.requested() == self.ret_types@.len()
        &&& record.ret_types@ == packed(type_tags(self.ret_types@))
        &&& record.ptr == self.ptr
    }

    /// Lays the function out for the engine; `None` for a function with more
    /// kinds than the engine can be told.
    pub fn to_extern(&self) -> (record: Option<ZenHostFuncDescExtern>)
        ensures
            record is Some <==> self.fits(),
            record matches Some(r) ==> self.is_flat(r),
    {
        let num_args = match count_of(self.arg_types.len()) {
            Some(count) => count,
            None => {
                return None;
            },
        };
        let num_returns = match count_of(self.ret_types.len()) {
            Some(count) => count,
            None => {
                return None;
            },
        };
        Some(
            ZenHostFuncDescExtern {
                name: rust_str_to_c_str(self.name.as_str()),
                num_args,
                arg_types: type_tags_buffer(&self.arg_types),
                num_returns,
                ret_types: type_tags_buffer(&self.ret_types),
                ptr: self.ptr,
            },
        )
    }
}

/// The engine can be told how many functions `funcs` are, and of each how many
/// kinds it takes and gives: every one of these numbers fits 32 bits.
pub open spec fn funcs_fit(funcs: Seq<ZenHostFuncDesc>) -> bool {
    &&& funcs.len() <= u32::MAX
    &&& forall|i: int| 0 <= i < funcs.len() ==> (#[trigger] funcs[i]).fits()
}

/// `buffer` lays `funcs` out for the engine, one record for each function in
/// order.
pub open spec fn flat_funcs(
    funcs: Seq<ZenHostFuncDesc>,
    buffer: ScopedMalloc<ZenHostFuncDescExtern>,
) -> bool {
    &&& buffer.wf()
    &&& buffer.requested() == funcs.len()
    &&& forall|i: int|
        0 <= i < funcs.len() ==> (#[trigger] buffer@[i] matches Some(record) && funcs[i].is_flat(
            record,
        ))
    &&& funcs.len() == 0 ==> buffer@[0] is None
}

/// The host functions that `refs` refer to, in order.
pub open spec fn referred(refs: Seq<&ZenHostFuncDesc>) -> Seq<ZenHostFuncDesc> {
    Seq::new(refs.len(), |i: int| *refs[i])
}

/// Lays `funcs` out for the engine; `None` where they are more, or one of them
/// has more kinds, than the engine can be told.
pub fn host_funcs_buffer(funcs: &[&ZenHostFuncDesc]) -> (buffer: Option<
    ScopedMalloc<ZenHostFuncDescExtern>,
>)
    ensures
        buffer is Some <==> funcs_fit(referred(funcs@)),
        buffer matches Some(b) ==> flat_funcs(referred(funcs@), b),
{
    let count = funcs.len();
    if count_of(count).is_none() {
        return None;
    }
    let mut buffer: ScopedMalloc<ZenHostFuncDescExtern> = ScopedMalloc::new(count);
    let mut i: usize = 0;
    while i < count
        invariant
            i <= count,
            count == funcs@.len(),
            count <= u32::MAX,
            buffer.wf(),
            buffer.requested() == count,
            forall|j: int| 0 <= j < i ==> (#[trigger] referred(funcs@)[j]).fits(),
            forall|j: int|
                0 <= j < i ==> (#[trigger] buffer@[j] matches Some(record) && funcs@[j].is_flat(
                    record,
                )),
            forall|j: int| i <= j < buffer@.len() ==> buffer@[j] is None,
        decreases count - i,
    {
        match funcs[i].to_extern() {
            Some(record) => {
                buffer.write(i, record);
            },
            None => {
                assert(!referred(funcs@)[i as int].fits());
                return None;
            },
        }
        i = i + 1;
    }
    Some(buffer)
}

/// A set of host functions under one name, as the engine compiled it. The
/// descriptor keeps what was laid out for the engine, which reads it for as long
/// as the descriptor lives.
#[derive(Debug)]
pub struct ZenHostModuleDesc {
    pub rt: ZenRuntimeExtern,
    pub ptr: ZenHostModuleDescExtern,
    /// The name, as a C string.
    pub mod_name_bytes: Vec<u8>,
    /// The functions, as they were laid out.
    pub host_func_descs: ScopedMalloc<ZenHostFuncDescExtern>,
}

/// A host module that the engine has loaded. It is a name for the engine's
/// object: the runtime that loaded it keeps it alive.
#[derive(Clone, Copy, PartialEq, Eq, Structural, Debug)]
pub struct ZenHostModule {
    pub rt: ZenRuntimeExtern,
    pub ptr: ZenHostModuleExtern,
}

/// The C strings of `names`, in order.
pub open spec fn c_strings(names: Seq<&str>) -> Seq<Seq<u8>> {
    Seq::new(names.len(), |i: int| c_str_bytes(names[i]@))
}

/// What the cells of `buffer` hold, as byte sequences.
pub open spec fn buffer_bytes_view(buffer: ScopedMalloc<Vec<u8>>) -> Seq<Option<Seq<u8>>> {
    Seq::new(
        buffer@.len(),
        |i: int|
            match buffer@[i] {
                Some(bytes) => Some(bytes@),
                None => None,
            },
    )
}

/// The buffer that holds `names` as C strings.
pub fn c_strings_buffer(names: &[&str]) -> (buffer: ScopedMalloc<Vec<u8>>)
    ensures
        buffer.wf(),
        buffer.requested() == names@.len(),
        buffer_bytes_view(buffer) == packed(c_strings(names@)),
{
    let count = names.len();
    let mut buffer: ScopedMalloc<Vec<u8>> = ScopedMalloc::new(count);
    let mut i: usize = 0;
    while i < count
        invariant
            i <= count,
            count == names@.len(),
            buffer.wf(),
            buffer.requested() == count,
            forall|j: int|
                0 <= j < i ==> (#[trigger] buffer@[j] matches Some(bytes) && bytes@ == c_str_bytes(
                    names@[j]@,
                )),
            forall|j: int| i <= j < buffer@.len() ==> buffer@[j] is None,
        decreases count - i,
    {
        let item_c_bytes = rust_str_to_c_str(names[i]);
        buffer.write(i, item_c_bytes);
        i = i + 1;
    }
    assert(buffer_bytes_view(buffer) =~= packed(c_strings(names@)));
    buffer
}

/// What the creation of a descriptor answers when the engine gave no handle.
pub open spec fn desc_failed_message() -> Seq<char> {
    "host module desc create failed"@
}

/// What the loading of a host module answers when the engine gave no handle.
pub open spec fn load_failed_message() -> Seq<char> {
    "host module load failed"@
}

/// What an operation answers to a descriptor that the runtime does not hold.
pub open spec fn unknown_desc_message() -> Seq<char> {
    "host module desc is not held by this runtime"@
}

/// What an operation answers to a host module that the runtime does not hold.
pub open spec fn unknown_host_module_message() -> Seq<char> {
    "host module is not held by this runtime"@
}

/// What the making of a host module answers to names that are not laid out as
/// the engine takes them.
pub open spec fn broken_filter_message() -> Seq<char> {
    "host function names are not laid out"@
}

/// `call` asks the engine to compile `funcs` under `name` for runtime `rt`.
pub open spec fn describes(
    call: ZenEngineCall,
    rt: ZenRuntimeExtern,
    name: Seq<char>,
    funcs: Seq<ZenHostFuncDesc>,
) -> bool {
    call matches ZenEngineCall::CreateHostModuleDesc {
        rt: runtime,
        host_mod_name,
        host_func_descs,
        num_host_funcs,
    } && runtime == rt && host_mod_name@ == c_str_bytes(name) && flat_funcs(funcs, host_func_descs)
        && num_host_funcs == funcs.len()
}

/// `call` asks the engine to let guest code see, of the functions of
/// `host_module`, those named `names` and no others.
pub open spec fn filters(
    call: ZenEngineCall,
    host_module: ZenHostModuleExtern,
    names: Seq<Seq<u8>>,
) -> bool {
    call matches ZenEngineCall::FilterHostFunctions {
        host_module: module,
        func_names,
        num_func_names,
    } && module == host_module && func_names.wf() && func_names.requested() == names.len()
        && buffer_bytes_view(func_names) == packed(names) && num_func_names == names.len()
}

impl ZenRuntimeView {
    /// The runtime holds a descriptor with the handle `desc`.
    pub open spec fn has_host_module_desc(self, desc: ZenHostModuleDescExtern) -> bool {
        exists|j: int|
            0 <= j < self.host_module_descs.len() && (#[trigger] self.host_module_descs[j]).ptr
                == desc
    }

    /// The runtime holds the loaded host module `host_module`.
    pub open spec fn has_host_module(self, host_module: ZenHostModule) -> bool {
        exists|j: int|
            0 <= j < self.host_modules.len() && #[trigger] self.host_modules[j] == host_module
    }

    /// Descriptor `j` of the runtime is the one for the name `name`.
    pub open spec fn desc_named(self, j: int, name: Seq<char>) -> bool {
        0 <= j < self.host_module_descs.len() && self.host_module_descs[j].mod_name_bytes@
            == c_str_bytes(name)
    }
}

/// Whether `a` and `b` hold the same bytes.
fn same_bytes(a: &Vec<u8>, b: &Vec<u8>) -> (same: bool)
    ensures
        same == (a@ == b@),
{
    if a.len() != b.len() {
        return false;
    }
    let mut i: usize = 0;
    while i < a.len()
        invariant
            i <= a@.len(),
            a@.len() == b@.len(),
            forall|j: int| 0 <= j < i ==> a@[j] == b@[j],
        decreases a@.len() - i,
    {
        if a[i] != b[i] {
            return false;
        }
        i = i + 1;
    }
    assert(a@ =~= b@);
    true
}

impl ZenRuntime {
    /// Whether the runtime holds a descriptor with the handle `desc`.
    pub fn has_host_module_desc(&self, desc: ZenHostModuleDescExtern) -> (held: bool)
        ensures
            held == self@.has_host_module_desc(desc),
    {
        let descs = self.host_module_descs();
        let mut j: usize = 0;
        while j < descs.len()
            invariant
                j <= descs@.len(),
                descs@ == self@.host_module_descs,
                forall|n: int| 0 <= n < j ==> (#[trigger] descs@[n]).ptr != desc,
            decreases descs@.len() - j,
        {
            if descs[j].ptr == desc {
                return true;
            }
            j = j + 1;
        }
        false
    }

    /// Whether the runtime holds the loaded host module `host_module`.
    pub fn has_host_module(&self, host_module: &ZenHostModule) -> (held: bool)
        ensures
            held == self@.has_host_module(*host_module),
    {
        let host_modules = self.host_modules();
        let mut j: usize = 0;
        while j < host_modules.len()
            invariant
                j <= host_modules@.len(),
                host_modules@ == self@.host_modules,
                forall|n: int| 0 <= n < j ==> #[trigger] host_modules@[n] != *host_module,
            decreases host_modules@.len() - j,
        {
            if host_modules[j] == *host_module {
                return true;
            }
            j = j + 1;
        }
        false
    }

    /// The call that compiles `host_func_descs` into a descriptor under the name
    /// `host_module_name`; `None` on a runtime that cannot be used, and where the
    /// functions are more, or one of them has more kinds, than the engine can be
    /// told in 32 bits.
    pub fn create_host_module_desc_call(
        &self,
        host_module_name: &str,
        host_func_descs: &[&ZenHostFuncDesc],
    ) -> (call: Option<ZenEngineCall>)
        ensures
            call is Some <==> self@.usable() && funcs_fit(referred(host_func_descs@)),
            call matches Some(c) ==> describes(
                c,
                self@.ptr,
                host_module_name@,
                referred(host_func_descs@),
            ),
    {
        if !self.is_usable() {
            return None;
        }
        let flat = match host_funcs_buffer(host_func_descs) {
            Some(flat) => flat,
            None => {
                return None;
            },
        };
        let num_host_funcs = match count_of(host_func_descs.len()) {
            Some(count) => count,
            None => {
                return None;
            },
        };
        Some(
            ZenEngineCall::CreateHostModuleDesc {
                rt: self.ptr(),
                host_mod_name: rust_str_to_c_str(host_module_name),
                host_func_descs: flat,
                num_host_funcs,
            },
        )
    }

    /// The descriptor that the engine compiled, by its handle. The runtime holds
    /// the descriptor, with the name and the functions as they were laid out for
    /// the engine, until the runtime itself goes. It fails on a runtime that
    /// cannot be used, for functions that the engine cannot be told of in 32 bits,
    /// and where the engine gave no handle.
    pub fn create_host_module_desc(
        &mut self,
        host_module_name: &str,
        host_func_descs: &[&ZenHostFuncDesc],
        created: &ZenEngineReply,
    ) -> (desc: Result<ZenHostModuleDescExtern, String>)
        requires
            old(self).wf(),
        ensures
            final(self).wf(),
            !old(self)@.usable() ==> desc is Err && desc->Err_0@ == unusable_runtime_message()
                && final(self)@ == old(self)@,
            old(self)@.usable() && !funcs_fit(referred(host_func_descs@)) ==> desc is Err
                && desc->Err_0@ == too_large_message() && final(self)@ == old(self)@,
            old(self)@.usable() && funcs_fit(referred(host_func_descs@)) && created.address()
                == 0 ==> desc is Err && desc->Err_0@ == desc_failed_message() && final(self)@
                == old(self)@,
            old(self)@.usable() && funcs_fit(referred(host_func_descs@)) && created.address()
                != 0 ==> {
                let kept = final(self)@.host_module_descs.last();
                &&& desc == Ok::<ZenHostModuleDescExtern, String>(
                    ZenHostModuleDescExtern { addr: created.address() },
                )
                &&& final(self)@ == old(self)@.with_host_module_desc(kept)
                &&& kept.rt == old(self)@.ptr
                &&& kept.ptr.addr == created.address()
                &&& kept.mod_name_bytes@ == c_str_bytes(host_module_name@)
                &&& flat_funcs(referred(host_func_descs@), kept.host_func_descs)
            },
            desc matches Ok(d) ==> final(self)@.has_host_module_desc(d),
    {
        if !self.is_usable() {
            return Err("runtime is not usable".to_owned());
        }
        let flat = match host_funcs_buffer(host_func_descs) {
            Some(flat) => flat,
            None => {
                return Err("length does not fit in 32 bits".to_owned());
            },
        };
        let ptr = ZenHostModuleDescExtern { addr: created.pointer() };
        if ptr.is_null() {
            return Err("host module desc create failed".to_owned());
        }
        let desc = ZenHostModuleDesc {
            rt: self.ptr(),
            ptr,
            mod_name_bytes: rust_str_to_c_str(host_module_name),
            host_func_descs: flat,
        };
        self.add_host_module_desc(desc);
        assert(self@.host_module_descs.last() == desc);
        assert(self@.host_module_descs[self@.host_module_descs.len() - 1].ptr == ptr);
        Ok(ptr)
    }

    /// The call that loads the descriptor `host_module_desc`; `None` on a runtime
    /// that cannot be used, and for a descriptor that it does not hold.
    pub fn load_host_module_call(&self, host_module_desc: ZenHostModuleDescExtern) -> (call: Option<
        ZenEngineCall,
    >)
        ensures
            call == if self@.usable() && self@.has_host_module_desc(host_module_desc) {
                Some(ZenEngineCall::LoadHostModule { rt: self@.ptr, host_module_desc })
            } else {
                None
            },
    {
        if self.is_usable() && self.has_host_module_desc(host_module_desc) {
            Some(ZenEngineCall::LoadHostModule { rt: self.ptr(), host_module_desc })
        } else {
            None
        }
    }

    /// The host module that the engine loaded from `host_module_desc`. The runtime
    /// keeps it until the runtime itself goes. It fails on a runtime that cannot
    /// be used, for a descriptor that the runtime does not hold, and where the
    /// engine gave no handle.
    pub fn load_host_module(
        &mut self,
        host_module_desc: ZenHostModuleDescExtern,
        loaded: &ZenEngineReply,
    ) -> (host_module: Result<ZenHostModule, String>)
        requires
            old(self).wf(),
        ensures
            final(self).wf(),
            !old(self)@.usable() ==> host_module is Err && host_module->Err_0@
                == unusable_runtime_message() && final(self)@ == old(self)@,
            old(self)@.usable() && !old(self)@.has_host_module_desc(host_module_desc)
                ==> host_module is Err && host_module->Err_0@ == unknown_desc_message()
                && final(self)@ == old(self)@,
            old(self)@.usable() && old(self)@.has_host_module_desc(host_module_desc)
                && loaded.address() == 0 ==> host_module is Err && host_module->Err_0@
                == load_failed_message() && final(self)@ == old(self)@,
            old(self)@.usable() && old(self)@.has_host_module_desc(host_module_desc)
                && loaded.address() != 0 ==> host_module == Ok::<ZenHostModule, String>(
                ZenHostModule {
                    rt: old(self)@.ptr,
                    ptr: ZenHostModuleExtern { addr: loaded.address() },
                },
            ) && final(self)@ == old(self)@.with_host_module(
                ZenHostModule {
                    rt: old(self)@.ptr,
                    ptr: ZenHostModuleExtern { addr: loaded.address() },
                },
            ),
            host_module matches Ok(h) ==> final(self)@.has_host_module(h),
    {
        if !self.is_usable() {
            return Err("runtime is not usable".to_owned());
        }
        if !self.has_host_module_desc(host_module_desc) {
            return Err("host module desc is not held by this runtime".to_owned());
        }
        let ptr = ZenHostModuleExtern { addr: loaded.pointer() };
        if ptr.is_null() {
            return Err("host module load failed".to_owned());
        }
        let host_mod = ZenHostModule { rt: self.ptr(), ptr };
        self.add_host_module(host_mod);
        assert(self@.host_modules[self@.host_modules.len() - 1] == host_mod);
        Ok(host_mod)
    }

    /// The call that merges the functions of the descriptor
    /// `other_host_module_desc` into the loaded `host_module`; `None` on a runtime
    /// that cannot be used, and where it does not hold both.
    pub fn merge_host_module_call(
        &self,
        host_module: &ZenHostModule,
        other_host_module_desc: ZenHostModuleDescExtern,
    ) -> (call: Option<ZenEngineCall>)
        ensures
            call == if self@.usable() && self@.has_host_module(*host_module)
                && self@.has_host_module_desc(other_host_module_desc) {
                Some(
                    ZenEngineCall::MergeHostModule {
                        rt: self@.ptr,
                        host_module: host_module.ptr,
                        other_host_module_desc,
                    },
                )
            } else {
                None
            },
    {
        if self.is_usable() && self.has_host_module(host_module) && self.has_host_module_desc(
            other_host_module_desc,
        ) {
            Some(
                ZenEngineCall::MergeHostModule {
                    rt: self.ptr(),
                    host_module: host_module.ptr,
                    other_host_module_desc,
                },
            )
        } else {
            None
        }
    }

    /// Whether the engine merged the descriptor into the host module: what it
    /// answered, and false where no call was to be made.
    pub fn merge_host_module(
        &self,
        host_module: &ZenHostModule,
        other_host_module_desc: ZenHostModuleDescExtern,
        merged: &ZenEngineReply,
    ) -> (success: bool)
        ensures
            success == (self@.usable() && self@.has_host_module(*host_module)
                && self@.has_host_module_desc(other_host_module_desc) && merged.truth()),
    {
        self.is_usable() && self.has_host_module(host_module) && self.has_host_module_desc(
            other_host_module_desc,
        ) && merged.flag()
    }

    /// The first descriptor that was created under the name `name`, if there is
    /// one.
    pub fn find_host_func_desc(&self, name: &str) -> (found: Option<&ZenHostModuleDesc>)
        ensures
            found is None <==> forall|j: int| !self@.desc_named(j, name@),
            found matches Some(desc) ==> exists|j: int|
                {
                    &&& #[trigger] self@.desc_named(j, name@)
                    &&& *desc == self@.host_module_descs[j]
                    &&& forall|n: int| 0 <= n < j ==> !self@.desc_named(n, name@)
                },
    {
        let name_bytes = rust_str_to_c_str(name);
        let descs = self.host_module_descs();
        let mut j: usize = 0;
        while j < descs.len()
            invariant
                j <= descs@.len(),
                descs@ == self@.host_module_descs,
                name_bytes@ == c_str_bytes(name@),
                forall|n: int| 0 <= n < j ==> !self@.desc_named(n, name@),
            decreases descs@.len() - j,
        {
            if same_bytes(&descs[j].mod_name_bytes, &name_bytes) {
                assert(self@.desc_named(j as int, name@));
                return Some(&descs[j]);
            }
            j = j + 1;
        }
        None
    }
}

impl ZenHostModule {
    /// The call that narrows what guest code sees of the host module to the
    /// functions named in `allowed_func_names`, which may be none; `None` for a
    /// host module that `rt` does not hold, and for more names than the engine
    /// can be told in 32 bits.
    pub fn filter_host_funcs_call(
        &self,
        rt: &ZenRuntime,
        allowed_func_names: &[&str],
    ) -> (call: Option<ZenEngineCall>)
        ensures
            call is Some <==> rt@.has_host_module(*self) && allowed_func_names@.len() <= u32::MAX,
            call matches Some(c) ==> filters(c, self.ptr, c_strings(allowed_func_names@)),
    {
        if !rt.has_host_module(self) {
            return None;
        }
        let num_func_names = match count_of(allowed_func_names.len()) {
            Some(count) => count,
            None => {
                return None;
            },
        };
        Some(
            ZenEngineCall::FilterHostFunctions {
                host_module: self.ptr,
                func_names: c_strings_buffer(allowed_func_names),
                num_func_names,
            },
        )
    }

    /// Whether the engine narrowed the host module to `allowed_func_names`: what
    /// it answered, and false where no call was to be made.
    pub fn filter_host_funcs(
        &self,
        rt: &ZenRuntime,
        allowed_func_names: &[&str],
        filtered: &ZenEngineReply,
    ) -> (success: bool)
        ensures
            success == (rt@.has_host_module(*self) && allowed_func_names@.len() <= u32::MAX
                && filtered.truth()),
    {
        rt.has_host_module(self) && count_of(allowed_func_names.len()).is_some()
            && filtered.flag()
    }
}

/// The names to which a new host module is narrowed, laid out for the engine.
#[derive(Debug)]
pub struct ZenHostFuncFilter {
    pub func_names: ScopedMalloc<Vec<u8>>,
    pub num_func_names: cty::uint32_t,
}

impl ZenHostFuncFilter {
    /// The names are laid out as the engine takes them: the buffer has the cells
    /// that its count calls for, the count is the one the engine is told, and
    /// every name is there and ends in a NUL.
    pub open spec fn whole(&self) -> bool {
        &&& self.func_names.wf()
        &&& self.num_func_names == self.func_names.requested()
        &&& forall|i: int|
            0 <= i < self.func_names.requested() ==> (#[trigger] self.func_names@[i] matches Some(
                name,
            ) && name@.len() > 0 && name@.last() == 0u8)
    }

    /// Whether the names are laid out as the engine takes them.
    pub fn is_whole(&self) -> (whole: bool)
        ensures
            whole == self.whole(),
    {
        let count = self.func_names.len();
        let cells = self.func_names.data();
        let capacity = if count >= 1 {
            count
        } else {
            1
        };
        if cells.len() != capacity || count_of(count) != Some(self.num_func_names) {
            return false;
        }
        let mut i: usize = 0;
        while i < count
            invariant
                i <= count,
                count == self.func_names.requested(),
                cells@ == self.func_names@,
                count <= cells@.len(),
                forall|j: int|
                    0 <= j < i ==> (#[trigger] self.func_names@[j] matches Some(name)
                        && name@.len() > 0 && name@.last() == 0u8),
            decreases count - i,
        {
            match &cells[i] {
                Some(name) => {
                    if name.len() == 0 || name[name.len() - 1] != 0u8 {
                        return false;
                    }
                },
                None => {
                    return false;
                },
            }
            i = i + 1;
        }
        true
    }
}

/// Where the making of a host module stands. It takes up to four calls: the
/// descriptor is compiled; where the runtime has a host module already, the
/// descriptor is merged into the first of them; the descriptor is loaded; and,
/// where asked for, the new host module is narrowed to the functions it was made
/// of. What the engine answers to the merge and to the narrowing decides
/// nothing. A step takes nothing on trust from the state it is handed: it goes on
/// only for a descriptor and a host module that the runtime holds, and for names
/// that are laid out.
#[derive(Debug)]
pub enum ZenHostModuleSetup {
    /// Waiting for the descriptor.
    Describing {
        mod_name_bytes: Vec<u8>,
        host_func_descs: ScopedMalloc<ZenHostFuncDescExtern>,
        filter: Option<ZenHostFuncFilter>,
    },
    /// Waiting for the merge.
    Merging { desc: ZenHostModuleDescExtern, filter: Option<ZenHostFuncFilter> },
    /// Waiting for the host module.
    Loading { desc: ZenHostModuleDescExtern, filter: Option<ZenHostFuncFilter> },
    /// Waiting for the narrowing.
    Filtering { host_module: ZenHostModule },
    /// Done: the host module, or why there is none.
    Finished(Result<ZenHostModule, String>),
}

/// The names of `funcs` as C strings, in order.
pub open spec fn func_names(funcs: Seq<ZenHostFuncDesc>) -> Seq<Seq<u8>> {
    Seq::new(funcs.len(), |i: int| c_str_bytes(funcs[i].name@))
}

/// `filter` holds the names of `funcs`.
pub open spec fn names_all(funcs: Seq<ZenHostFuncDesc>, filter: ZenHostFuncFilter) -> bool {
    &&& filter.func_names.wf()
    &&& filter.func_names.requested() == funcs.len()
    &&& buffer_bytes_view(filter.func_names) == packed(func_names(funcs))
    &&& filter.num_func_names == funcs.len()
}

/// Names that were laid out from host functions are laid out as the engine
/// takes them.
pub proof fn lemma_names_are_whole(funcs: Seq<ZenHostFuncDesc>, filter: ZenHostFuncFilter)
    requires
        names_all(funcs, filter),
    ensures
        filter.whole(),
{
    assert forall|i: int| 0 <= i < filter.func_names.requested() implies (
    #[trigger] filter.func_names@[i] matches Some(name) && name@.len() > 0 && name@.last()
        == 0u8) by {
        assert(buffer_bytes_view(filter.func_names)[i] == packed(func_names(funcs))[i]);
    }
}

impl ZenRuntimeView {
    /// The step that follows once a descriptor with the handle `desc` is there:
    /// the merge into the first host module, where the runtime has one, else the
    /// loading.
    pub open spec fn after_describing(
        self,
        before: ZenRuntimeView,
        desc: ZenHostModuleDescExtern,
        filter: Option<ZenHostFuncFilter>,
        next: ZenHostModuleSetup,
        call: Option<ZenEngineCall>,
    ) -> bool {
        if before.host_modules.len() > 0 {
            &&& next == (ZenHostModuleSetup::Merging { desc, filter })
            &&& call == Some(
                ZenEngineCall::MergeHostModule {
                    rt: self.ptr,
                    host_module: before.host_modules[0].ptr,
                    other_host_module_desc: desc,
                },
            )
        } else {
            &&& next == (ZenHostModuleSetup::Loading { desc, filter })
            &&& call == Some(ZenEngineCall::LoadHostModule { rt: self.ptr, host_module_desc: desc })
        }
    }

    /// One step in the making of a host module: from where it stands and what the
    /// engine answered to the pending call, to where it stands next, the call to
    /// make next, and what the runtime keeps.
    pub open spec fn host_module_step(
        self,
        setup: ZenHostModuleSetup,
        reply: ZenEngineReply,
        after: ZenRuntimeView,
        next: ZenHostModuleSetup,
        call: Option<ZenEngineCall>,
    ) -> bool {
        match setup {
            ZenHostModuleSetup::Finished(_) => next == setup && call is None && after == self,
            _ => if !self.usable() {
                &&& next matches ZenHostModuleSetup::Finished(Err(message))
                &&& message@ == unusable_runtime_message()
                &&& call is None
                &&& after == self
            } else {
                match setup {
                    ZenHostModuleSetup::Describing { mod_name_bytes, host_func_descs, filter } => {
                        if reply.address() == 0 {
                            &&& next matches ZenHostModuleSetup::Finished(Err(message))
                            &&& message@ == desc_failed_message()
                            &&& call is None
                            &&& after == self
                        } else {
                            let desc = ZenHostModuleDescExtern { addr: reply.address() };
                            &&& after == self.with_host_module_desc(
                                ZenHostModuleDesc {
                                    rt: self.ptr,
                                    ptr: desc,
                                    mod_name_bytes,
                                    host_func_descs,
                                },
                            )
                            &&& after.after_describing(self, desc, filter, next, call)
                        }
                    },
                    ZenHostModuleSetup::Merging { desc, filter } => {
                        if !self.has_host_module_desc(desc) {
                            &&& next matches ZenHostModuleSetup::Finished(Err(message))
                            &&& message@ == unknown_desc_message()
                            &&& call is None
                            &&& after == self
                        } else {
                            &&& next == (ZenHostModuleSetup::Loading { desc, filter })
                            &&& call == Some(
                                ZenEngineCall::LoadHostModule {
                                    rt: self.ptr,
                                    host_module_desc: desc,
                                },
                            )
                            &&& after == self
                        }
                    },
                    ZenHostModuleSetup::Loading { desc, filter } => {
                        if !self.has_host_module_desc(desc) {
                            &&& next matches ZenHostModuleSetup::Finished(Err(message))
                            &&& message@ == unknown_desc_message()
                            &&& call is None
                            &&& after == self
                        } else if reply.address() == 0 {
                            &&& next matches ZenHostModuleSetup::Finished(Err(message))
                            &&& message@ == load_failed_message()
                            &&& call is None
                            &&& after == self
                        } else {
                            let host_module = ZenHostModule {
                                rt: self.ptr,
                                ptr: ZenHostModuleExtern { addr: reply.address() },
                            };
                            &&& after == self.with_host_module(host_module)
                            &&& match filter {
                                Some(filter) => if filter.whole() {
                                    &&& next == (ZenHostModuleSetup::Filtering { host_module })
                                    &&& call == Some(
                                        ZenEngineCall::FilterHostFunctions {
                                            host_module: host_module.ptr,
                                            func_names: filter.func_names,
                                            num_func_names: filter.num_func_names,
                                        },
                                    )
                                } else {
                                    &&& next matches ZenHostModuleSetup::Finished(Err(message))
                                    &&& message@ == broken_filter_message()
                                    &&& call is None
                                },
                                None => {
                                    &&& next == ZenHostModuleSetup::Finished(Ok(host_module))
                                    &&& call is None
                                },
                            }
                        }
                    },
                    ZenHostModuleSetup::Filtering { host_module } => {
                        &&& call is None
                        &&& after == self
                        &&& if self.has_host_module(host_module) {
                            next == ZenHostModuleSetup::Finished(Ok(host_module))
                        } else {
                            next matches ZenHostModuleSetup::Finished(Err(message)) && message@
                                == unknown_host_module_message()
                        }
                    },
                    ZenHostModuleSetup::Finished(_) => true,
                }
            },
        }
    }
}

impl ZenRuntime {
    /// Starts the making of a host module named `host_module_name` from
    /// `host_func_descs`: where it stands, and the first call to make. With
    /// `enable_all` the new host module is narrowed, at the end, to the functions
    /// of `host_func_descs`. It is done at once, with an error, on a runtime that
    /// cannot be used, and for functions that the engine cannot be told of in 32
    /// bits. The calls of one runtime are to be made one at a time.
    pub fn create_host_module(
        &self,
        host_module_name: &str,
        host_func_descs: &[ZenHostFuncDesc],
        enable_all: bool,
    ) -> (start: (ZenHostModuleSetup, Option<ZenEngineCall>))
        ensures
            !self@.usable() ==> start.1 is None && (start.0 matches ZenHostModuleSetup::Finished(
                Err(message),
            ) && message@ == unusable_runtime_message()),
            self@.usable() && !funcs_fit(host_func_descs@) ==> start.1 is None && (
            start.0 matches ZenHostModuleSetup::Finished(Err(message)) && message@
                == too_large_message()),
            self@.usable() && funcs_fit(host_func_descs@) ==> {
                &&& start.0 matches ZenHostModuleSetup::Describing {
                    mod_name_bytes,
                    host_func_descs: kept,
                    filter,
                } && mod_name_bytes@ == c_str_bytes(host_module_name@) && flat_funcs(
                    host_func_descs@,
                    kept,
                ) && (filter is Some <==> enable_all) && (filter matches Some(f) ==> names_all(
                    host_func_descs@,
                    f,
                ) && f.whole())
                &&& start.1 matches Some(c) && describes(
                    c,
                    self@.ptr,
                    host_module_name@,
                    host_func_descs@,
                )
            },
    {
        if !self.is_usable() {
            return (ZenHostModuleSetup::Finished(Err("runtime is not usable".to_owned())), None);
        }
        let host_func_descs_refs = get_all_hostapis_refs(host_func_descs);
        assert(referred(host_func_descs_refs@) =~= host_func_descs@);
        let call = self.create_host_module_desc_call(
            host_module_name,
            host_func_descs_refs.as_slice(),
        );
        let kept = host_funcs_buffer(host_func_descs_refs.as_slice());
        let num_func_names = count_of(host_func_descs.len());
        if call.is_none() || kept.is_none() || num_func_names.is_none() {
            return (
                ZenHostModuleSetup::Finished(Err("length does not fit in 32 bits".to_owned())),
                None,
            );
        }
        let filter = if enable_all {
            let names = get_hostapis_names(host_func_descs);
            assert(c_strings(names@) =~= func_names(host_func_descs@));
            let filter = ZenHostFuncFilter {
                func_names: c_strings_buffer(names.as_slice()),
                num_func_names: num_func_names.unwrap(),
            };
            proof {
                lemma_names_are_whole(host_func_descs@, filter);
            }
            Some(filter)
        } else {
            None
        };
        let setup = ZenHostModuleSetup::Describing {
            mod_name_bytes: rust_str_to_c_str(host_module_name),
            host_func_descs: kept.unwrap(),
            filter,
        };
        (setup, call)
    }

    /// Takes the making of a host module one step on, with what the engine
    /// answered to the pending call: see [`ZenRuntimeView::host_module_step`].
    /// The descriptor joins the runtime once the engine has compiled it, and
    /// stays whatever follows; the host module joins once it is loaded.
    pub fn create_host_module_step(
        &mut self,
        setup: ZenHostModuleSetup,
        reply: &ZenEngineReply,
    ) -> (step: (ZenHostModuleSetup, Option<ZenEngineCall>))
        requires
            old(self).wf(),
        ensures
            final(self).wf(),
            old(self)@.host_module_step(setup, *reply, final(self)@, step.0, step.1),
    {
        if let ZenHostModuleSetup::Finished(result) = setup {
            return (ZenHostModuleSetup::Finished(result), None);
        }
        if !self.is_usable() {
            return (ZenHostModuleSetup::Finished(Err("runtime is not usable".to_owned())), None);
        }
        match setup {
            ZenHostModuleSetup::Describing { mod_name_bytes, host_func_descs, filter } => {
                let desc = ZenHostModuleDescExtern { addr: reply.pointer() };
                if desc.is_null() {
                    return (
                        ZenHostModuleSetup::Finished(
                            Err("host module desc create failed".to_owned()),
                        ),
                        None,
                    );
                }
                let merge_into = if self.host_modules().len() > 0 {
                    Some(self.host_modules()[0].ptr)
                } else {
                    None
                };
                self.add_host_module_desc(
                    ZenHostModuleDesc {
                        rt: self.ptr(),
                        ptr: desc,
                        mod_name_bytes,
                        host_func_descs,
                    },
                );
                match merge_into {
                    Some(host_module) => (
                        ZenHostModuleSetup::Merging { desc, filter },
                        Some(
                            ZenEngineCall::MergeHostModule {
                                rt: self.ptr(),
                                host_module,
                                other_host_module_desc: desc,
                            },
                        ),
                    ),
                    None => (
                        ZenHostModuleSetup::Loading { desc, filter },
                        Some(
                            ZenEngineCall::LoadHostModule {
                                rt: self.ptr(),
                                host_module_desc: desc,
                            },
                        ),
                    ),
                }
            },
            ZenHostModuleSetup::Merging { desc, filter } => {
                if !self.has_host_module_desc(desc) {
                    return (
                        ZenHostModuleSetup::Finished(
                            Err("host module desc is not held by this runtime".to_owned()),
                        ),
                        None,
                    );
                }
                (
                    ZenHostModuleSetup::Loading { desc, filter },
                    Some(ZenEngineCall::LoadHostModule { rt: self.ptr(), host_module_desc: desc }),
                )
            },
            ZenHostModuleSetup::Loading { desc, filter } => {
                if !self.has_host_module_desc(desc) {
                    return (
                        ZenHostModuleSetup::Finished(
                            Err("host module desc is not held by this runtime".to_owned()),
                        ),
                        None,
                    );
                }
                let ptr = ZenHostModuleExtern { addr: reply.pointer() };
                if ptr.is_null() {
                    return (
                        ZenHostModuleSetup::Finished(Err("host module load failed".to_owned())),
                        None,
                    );
                }
                let host_module = ZenHostModule { rt: self.ptr(), ptr };
                self.add_host_module(host_module);
                match filter {
                    Some(filter) => {
                        if !filter.is_whole() {
                            return (
                                ZenHostModuleSetup::Finished(
                                    Err("host function names are not laid out".to_owned()),
                                ),
                                None,
                            );
                        }
                        (
                            ZenHostModuleSetup::Filtering { host_module },
                            Some(
                                ZenEngineCall::FilterHostFunctions {
                                    host_module: ptr,
                                    func_names: filter.func_names,
                                    num_func_names: filter.num_func_names,
                                },
                            ),
                        )
                    },
                    None => (ZenHostModuleSetup::Finished(Ok(host_module)), None),
                }
            },
            ZenHostModuleSetup::Filtering { host_module } => {
                if self.has_host_module(&host_module) {
                    (ZenHostModuleSetup::Finished(Ok(host_module)), None)
                } else {
                    (
                        ZenHostModuleSetup::Finished(
                            Err("host module is not held by this runtime".to_owned()),
                        ),
                        None,
                    )
                }
            },
            ZenHostModuleSetup::Finished(result) => (ZenHostModuleSetup::Finished(result), None),
        }
    }
}

} // verus!
