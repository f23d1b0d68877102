//! The private-metadata generator.
//!
//! Given a non-public data definition, the generator re-states it as a
//! public, non-exhaustive definition inside a fresh hidden module and
//! re-exports the module's contents under the definition's original
//! visibility. Each field's visibility is rewritten one nesting level
//! outward to compensate for the added module, so external observers see
//! exactly the accessibility the original declaration had, while the type
//! itself becomes formally public and can stand in public
//! trait-associated-type position.

use vstd::prelude::*;
use vstd::string::StringExecFns;

use crate::diagnostics::ExpandError;
use crate::visibility::Visibility;
use crate::visibility::clone_vis;
use crate::visibility::rewritten_vis;
use crate::visibility::vis_prepend_super;
use crate::visibility::vis_wf;

verus! {

/// One field of a data definition: its name and declared visibility.
#[derive(Clone, Debug, PartialEq, Eq)]
pub struct FieldDef {
    /// The field's name.
    pub name: String,
    /// The field's declared visibility.
    pub vis: Visibility,
}

/// A struct data definition, reduced to what the generator reads: its
/// declared visibility, its name, its fields, and whether it is marked
/// non-exhaustive.
#[derive(Clone, Debug, PartialEq, Eq)]
pub struct StructDef {
    /// The definition's declared visibility.
    pub vis: Visibility,
    /// The definition's name.
    pub name: String,
    /// The fields, in declaration order.
    pub fields: Vec<FieldDef>,
    /// Whether the definition carries the non-exhaustive marker.
    pub non_exhaustive: bool,
}

impl StructDef {
    /// Every declared visibility in the definition names at least one
    /// path segment.
    pub open spec fn wf(&self) -> bool {
        &&& vis_wf(self.vis@)
        &&& forall|i: int|
            0 <= i < self.fields@.len() ==> vis_wf((#[trigger] self.fields@[i]).vis@)
    }
}

/// The generated replacement for a transformed definition: a hidden
/// module holding the promoted definition, and a re-export of the
/// module's contents under the original visibility.
#[derive(Debug, PartialEq, Eq)]
pub struct PrivateMetadataExpansion {
    /// The name of the generated hidden module.
    pub mod_name: String,
    /// The promoted, field-adjusted, non-exhaustive definition placed
    /// inside the module.
    pub item: StructDef,
    /// The visibility of the re-export: the original definition's.
    pub reexport_vis: Visibility,
}

/// Whether some field's visibility has a path shape the rewrite rejects.
pub open spec fn spec_rejected_field(item: StructDef) -> bool {
    exists|i: int|
        0 <= i < item.fields@.len() && rewritten_vis((#[trigger] item.fields@[i]).vis@) is None
}

/// What the generated module must look like for a given input
/// definition.
pub open spec fn spec_expansion_matches(item: StructDef, exp: PrivateMetadataExpansion) -> bool {
    &&& exp.mod_name@ == "__powerfmt_private_"@ + item.name@
    &&& exp.item.vis is Public
    &&& exp.item.non_exhaustive
    &&& exp.item.name == item.name
    &&& exp.item.fields@.len() == item.fields@.len()
    &&& forall|i: int|
        0 <= i < item.fields@.len() ==> (#[trigger] exp.item.fields@[i]).name
            == item.fields@[i].name && Some(exp.item.fields@[i].vis@) == rewritten_vis(
            item.fields@[i].vis@,
        )
    &&& exp.reexport_vis@ == item.vis@
}

/// Transform one non-public data definition, or report the one
/// diagnostic its misuse deserves: the attribute takes no arguments, the
/// definition must not already be fully public, and every field
/// visibility must have a shape the rewrite understands. On success the
/// expansion holds the promoted definition in its hidden module and the
/// re-export restoring the original visibility; on error nothing is
/// generated.
pub fn implementation(attr_empty: bool, item: StructDef) -> (r: Result<
    PrivateMetadataExpansion,
    ExpandError,
>)
    requires
        item.wf(),
    ensures
        !attr_empty ==> r == Err::<PrivateMetadataExpansion, ExpandError>(
            ExpandError::UnexpectedArguments,
        ),
        attr_empty && item.vis is Public ==> r == Err::<PrivateMetadataExpansion, ExpandError>(
            ExpandError::AlreadyPublic,
        ),
        attr_empty && !(item.vis is Public) ==> {
            &&& (r is Err <==> spec_rejected_field(item))
            &&& (r is Err ==> r == Err::<PrivateMetadataExpansion, ExpandError>(
                ExpandError::UnexpectedVisibilityPath,
            ))
            &&& (r matches Ok(exp) ==> spec_expansion_matches(item, exp))
        },
{
    if !attr_empty {
        return Err(ExpandError::UnexpectedArguments);
    }
    match &item.vis {
        Visibility::Public => {
            return Err(ExpandError::AlreadyPublic);
        },
        _ => {},
    }
    let original_vis = clone_vis(&item.vis);
    let n: usize = item.fields.len();
    let mut new_fields: Vec<FieldDef> = Vec::new();
    let mut idx: usize = 0;
    while idx < n
        invariant
            attr_empty,
            !(item.vis is Public),
            n == item.fields@.len(),
            idx <= n,
            item.wf(),
            new_fields@.len() == idx,
            forall|i: int|
                0 <= i < idx ==> (#[trigger] item.fields@[i]).name == new_fields@[i].name && Some(
                    new_fields@[i].vis@,
                ) == rewritten_vis(item.fields@[i].vis@),
        decreases n - idx,
    {
        let f = &item.fields[idx];
        let new_vis = match vis_prepend_super(&f.vis) {
            Ok(v) => v,
            Err(e) => {
                return Err(e);
            },
        };
        new_fields.push(FieldDef { name: f.name.clone(), vis: new_vis });
        idx = idx + 1;
    }
    let mod_name = String::from_str("__powerfmt_private_").concat(item.name.as_str());
    let promoted = StructDef {
        vis: Visibility::Public,
        name: item.name.clone(),
        fields: new_fields,
        non_exhaustive: true,
    };
    Ok(PrivateMetadataExpansion { mod_name, item: promoted, reexport_vis: original_vis })
}

} // verus!
