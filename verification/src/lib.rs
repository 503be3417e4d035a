//! Embedding layer of a sandboxed WebAssembly engine: the objects an embedder
//! holds (runtime, host modules, modules, isolations, instances), the order in
//! which their engine handles are released, and the values that cross the
//! boundary between host and guest.
//!
//! The engine is a native library, and this crate never calls it. Every
//! operation that needs the engine comes in two parts: one describes the call
//! to make, as a value of [`engine::ZenEngineCall`]; the other takes what the
//! engine answered, as a value of [`engine::ZenEngineReply`], and does the rest.
//! The embedder performs the call in between. What the layer decides is then
//! the same whatever the engine does, and is proved for every answer the engine
//! can give.
//!
//! A runtime keeps a record of everything made under it. The things an embedder
//! holds (a module, an isolation, an instance) are names into that record: an
//! operation on a name that the runtime does not hold makes no engine call.
//! Releasing a name deletes the engine object once nothing needs it any more,
//! so that the engine never sees a handle after its deletion, in whatever order
//! the embedder lets go. [`lifetime`] has the model and its laws, [`ledger`] the
//! proof that every engine object is deleted once.
pub mod config;
pub mod decimal;
pub mod engine;
pub mod host_module;
pub mod instance;
pub mod isolation;
pub mod ledger;
pub mod lifetime;
pub mod module;
pub mod runtime;
pub mod types;
pub mod utils;
