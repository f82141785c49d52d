//! Compiled kernel modules as the runtime consumes them.
//!
//! A kernel module is an opaque unit of parallel work produced by a kernel
//! authoring front end; the runtime only forwards it to the backend compiler.
//! The reference backend of this crate understands a small set of module
//! bodies, each a one-dimensional kernel over buffer parameters, which is
//! enough to exercise every part of the runtime: creation, compilation in both
//! modes, argument encoding, dispatch, and read-back.

use vstd::prelude::*;

verus! {

/// Body of a kernel module, as the reference backend interprets it.
///
/// Every body reads the x extent of the dispatch grid as its thread count.
#[derive(Clone, Copy, PartialEq, Eq, Structural, Debug)]
pub enum KernelBody {
    /// No effect.
    Nop,
    /// Thread `i` writes the value `i` into element `i` of the first
    /// (buffer) parameter.
    WriteIota,
    /// Thread `i` writes the given value into element `i` of the first
    /// (buffer) parameter.
    Fill(u64),
    /// Thread `i` copies element `i` of the first (buffer) parameter into
    /// element `i` of the second (buffer) parameter.
    CopyBuffer,
}

/// A compiled kernel module: a declared parameter count and a body.
///
/// Two modules are structurally identical exactly when their fields are equal.
#[derive(Clone, Copy, PartialEq, Eq, Structural, Debug)]
pub struct KernelModule {
    /// Declared number of kernel parameters, between 0 and 16.
    pub n_args: usize,
    pub body: KernelBody,
}

/// Identity under which the backend keys the on-disk shader cache of a
/// compiled module. Structurally identical modules get the same key.
#[derive(Clone, Copy, PartialEq, Eq, Structural, Debug)]
pub struct ShaderCacheKey {
    /// Code of the body variant.
    pub body_tag: u64,
    /// Immediate operand of the body, or 0 where it has none.
    pub body_value: u64,
    /// Declared parameter count of the module.
    pub arity: u64,
}

/// Number of parameters a body requires to be declared.
pub open spec fn required_args(b: KernelBody) -> nat {
    match b {
        KernelBody::Nop => 0,
        KernelBody::WriteIota => 1,
        KernelBody::Fill(_) => 1,
        KernelBody::CopyBuffer => 2,
    }
}

/// Whether the backend compiler accepts a module: its body must not use more
/// parameters than the module declares, and at most 16 parameters may be
/// declared.
pub open spec fn module_ok(m: KernelModule) -> bool {
    required_args(m.body) <= m.n_args && m.n_args <= 16
}

/// Cache identity of a body: variant code and immediate operand.
pub open spec fn body_key(b: KernelBody) -> (u64, u64) {
    match b {
        KernelBody::Nop => (0u64, 0u64),
        KernelBody::WriteIota => (1u64, 0u64),
        KernelBody::Fill(v) => (2u64, v),
        KernelBody::CopyBuffer => (3u64, 0u64),
    }
}

/// Cache identity of a module, a function of its structure alone.
pub open spec fn cache_key_of(n_args: nat, b: KernelBody) -> ShaderCacheKey {
    ShaderCacheKey { body_tag: body_key(b).0, body_value: body_key(b).1, arity: n_args as u64 }
}

/// Executable form of [`module_ok`].
pub fn check_module(m: &KernelModule) -> (r: bool)
    ensures
        r == module_ok(*m),
{
    let needed: usize = match m.body {
        KernelBody::Nop => 0,
        KernelBody::WriteIota => 1,
        KernelBody::Fill(_) => 1,
        KernelBody::CopyBuffer => 2,
    };
    needed <= m.n_args && m.n_args <= 16
}

/// Executable form of [`cache_key_of`].
pub fn compute_cache_key(n_args: usize, b: KernelBody) -> (k: ShaderCacheKey)
    requires
        n_args <= 16,
    ensures
        k == cache_key_of(n_args as nat, b),
{
    let (tag, value): (u64, u64) = match b {
        KernelBody::Nop => (0u64, 0u64),
        KernelBody::WriteIota => (1u64, 0u64),
        KernelBody::Fill(v) => (2u64, v),
        KernelBody::CopyBuffer => (3u64, 0u64),
    };
    ShaderCacheKey { body_tag: tag, body_value: value, arity: n_args as u64 }
}

} // verus!
