//! The delegate generator.
//!
//! Given an implementation block of the two-phase display protocol, the
//! generator emits that block unchanged together with a
//! standard-display conformance for the same type and generics whose
//! single operation forwards to the protocol's render entry point. Any
//! other input deserves exactly one diagnostic and produces no output.

use vstd::prelude::*;
use vstd::string::StringExecFns;

use crate::diagnostics::ExpandError;

verus! {

/// An implementation block, reduced to what the generator reads and
/// re-emits: the generic parameter list and implementing type (carried
/// through verbatim), and the path of the implemented trait, if any.
#[derive(Clone, Debug, PartialEq, Eq)]
pub struct ImplBlock {
    /// The generic parameter list, verbatim.
    pub generics: String,
    /// The implementing type, verbatim.
    pub self_ty: String,
    /// Whether the block is a negative implementation.
    pub negative: bool,
    /// The segments of the implemented trait's path; `None` for an
    /// inherent implementation block.
    pub trait_path: Option<Vec<String>>,
}

impl ImplBlock {
    /// An implemented trait is named by at least one path segment.
    pub open spec fn wf(&self) -> bool {
        self.trait_path matches Some(p) ==> p@.len() >= 1
    }
}

/// The generated standard-display conformance: for the same type and
/// generics as the protocol implementation, forwarding to the protocol's
/// render entry point through the path the implementation block named.
#[derive(Clone, Debug, PartialEq, Eq)]
pub struct DisplayForward {
    /// The generic parameter list, copied from the implementation block.
    pub generics: String,
    /// The implementing type, copied from the implementation block.
    pub self_ty: String,
    /// The path the forwarding call goes through: the protocol trait's
    /// path exactly as the implementation block wrote it.
    pub forward_path: Vec<String>,
}

/// The generator's output: the original block unchanged, plus the
/// generated standard-display conformance.
#[derive(Clone, Debug, PartialEq, Eq)]
pub struct DelegateExpansion {
    /// The input block, re-emitted without change.
    pub original: ImplBlock,
    /// The generated forwarding conformance.
    pub display: DisplayForward,
}

/// Whether a block implements the protocol trait: it names a trait, is
/// not a negative implementation, and the final path segment is the
/// protocol trait's name. No deeper check is possible structurally.
pub open spec fn spec_targets_protocol(block: ImplBlock) -> bool {
    &&& block.trait_path is Some
    &&& !block.negative
    &&& block.trait_path->Some_0@.last()@ == "SmartDisplay"@
}

/// Expand one protocol implementation block, or report the one
/// diagnostic its misuse deserves: the attribute takes no arguments, and
/// the block must implement the protocol trait. On success the expansion
/// re-emits the block unchanged and adds a standard-display conformance
/// for the same type and generics that forwards through the trait path
/// the block named; on error nothing is generated.
pub fn implementation(attr_empty: bool, block: ImplBlock) -> (r: Result<
    DelegateExpansion,
    ExpandError,
>)
    requires
        block.wf(),
    ensures
        !attr_empty ==> r == Err::<DelegateExpansion, ExpandError>(ExpandError::UnexpectedArguments),
        attr_empty && !spec_targets_protocol(block) ==> r == Err::<DelegateExpansion, ExpandError>(
            ExpandError::NotSmartDisplayImpl,
        ),
        attr_empty && spec_targets_protocol(block) ==> (r matches Ok(exp) && exp.original == block
            && exp.display.generics == block.generics && exp.display.self_ty == block.self_ty
            && exp.display.forward_path@ == block.trait_path->Some_0@),
{
    if !attr_empty {
        return Err(ExpandError::UnexpectedArguments);
    }
    let is_target: bool = match &block.trait_path {
        Some(p) => {
            if block.negative {
                false
            } else {
                let last: &String = &p[p.len() - 1];
                let target = String::from_str("SmartDisplay");
                *last == target
            }
        },
        None => false,
    };
    if !is_target {
        return Err(ExpandError::NotSmartDisplayImpl);
    }
    let forward_path = match &block.trait_path {
        Some(p) => clone_strings(p),
        None => Vec::new(),
    };
    let display = DisplayForward {
        generics: block.generics.clone(),
        self_ty: block.self_ty.clone(),
        forward_path,
    };
    Ok(DelegateExpansion { original: block, display })
}

/// A copy of a list of path segments.
fn clone_strings(v: &Vec<String>) -> (r: Vec<String>)
    ensures
        r@ == v@,
{
    let mut out: Vec<String> = Vec::new();
    let mut i: usize = 0;
    while i < v.len()
        invariant
            i <= v@.len(),
            out@ == v@.take(i as int),
        decreases v@.len() - i,
    {
        out.push(v[i].clone());
        proof {
            assert(out@ =~= v@.take(i as int + 1));
        }
        i = i + 1;
    }
    proof {
        assert(out@ =~= v@);
    }
    out
}

} // verus!
