//! The descriptor-splicing transformation.
//!
//! Splicing builds, for a shadow/foreign pair of identical layout, a
//! replacement reflection descriptor: a copy of the shadow's own table in
//! which only the identity-related entries are patched. Identity queries
//! report the foreign type, downcasts succeed for the foreign type alone,
//! and every conversion into a further dynamic view re-installs the spliced
//! table itself — so the shadow's identity can never resurface — while all
//! structural behaviour keeps running the shadow's code.

use vstd::prelude::*;

use crate::descriptor::layout_compatible;
use crate::descriptor::native_reflect_table;
use crate::descriptor::native_vtable;
use crate::descriptor::spec_any_vtable;
use crate::descriptor::spec_common_vtable;
use crate::descriptor::spec_reflect_vtable;
use crate::descriptor::AnyVtable;
use crate::descriptor::CastEntry;
use crate::descriptor::CommonVtable;
use crate::descriptor::ConvertEntry;
use crate::descriptor::IdentityEntry;
use crate::descriptor::ReflectVtable;
use crate::descriptor::TypeDesc;

verus! {

/// The spliced descriptor for a shadow/foreign pair: the shadow's table with
/// the foreign type's capability sub-descriptors, identity patched to the
/// foreign key, downcasts retargeted to the foreign key, and every
/// conversion entry replaced by a re-splicing one.
pub open spec fn spliced_table(shadow: TypeDesc, foreign: TypeDesc) -> ReflectVtable {
    ReflectVtable {
        type_id: IdentityEntry { reports: foreign.key },
        into_any: CastEntry { target: foreign.key },
        as_any: CastEntry { target: foreign.key },
        as_any_mut: CastEntry { target: foreign.key },
        into_reflect: ConvertEntry::Spliced { shadow, foreign },
        as_reflect: ConvertEntry::Spliced { shadow, foreign },
        as_reflect_mut: ConvertEntry::Spliced { shadow, foreign },
        ..spec_reflect_vtable(
            shadow,
            spec_any_vtable(foreign),
            spec_common_vtable(foreign),
            spec_common_vtable(foreign),
        )
    }
}

/// A conversion entry is well formed when a pair it would re-splice has
/// compatible layouts; the tables this crate builds only ever hold such
/// entries.
pub open spec fn wf_convert(e: ConvertEntry) -> bool {
    match e {
        ConvertEntry::Native(_) => true,
        ConvertEntry::Spliced { shadow, foreign } => layout_compatible(shadow, foreign),
    }
}

/// Well-formedness of a descriptor table: each of its three conversion
/// entries is well formed.
pub open spec fn wf_table(t: ReflectVtable) -> bool {
    wf_convert(t.into_reflect) && wf_convert(t.as_reflect) && wf_convert(t.as_reflect_mut)
}

/// The descriptor table that a conversion entry installs on the view it
/// produces.
pub open spec fn convert_target(e: ConvertEntry) -> ReflectVtable {
    match e {
        ConvertEntry::Native(ty) => native_reflect_table(ty),
        ConvertEntry::Spliced { shadow, foreign } => spliced_table(shadow, foreign),
    }
}

/// Build the spliced descriptor for a shadow/foreign pair: start from the
/// shadow's table carrying the foreign type's capability sub-descriptors,
/// then patch the identity, downcast and conversion entries to describe the
/// foreign type.
pub fn new_vtable(shadow: &TypeDesc, foreign: &TypeDesc) -> (r: ReflectVtable)
    requires
        layout_compatible(*shadow, *foreign),
    ensures
        r == spliced_table(*shadow, *foreign),
        wf_table(r),
{
    let new_any_vtable = AnyVtable::new(foreign);
    let new_common_vtable = CommonVtable::new(foreign);
    let mut new = ReflectVtable::new(shadow, new_any_vtable, new_common_vtable, new_common_vtable);

    new.type_id = IdentityEntry { reports: foreign.key };
    new.into_any = CastEntry { target: foreign.key };
    new.as_any = CastEntry { target: foreign.key };
    new.as_any_mut = CastEntry { target: foreign.key };
    new.into_reflect = ConvertEntry::Spliced { shadow: *shadow, foreign: *foreign };
    new.as_reflect = ConvertEntry::Spliced { shadow: *shadow, foreign: *foreign };
    new.as_reflect_mut = ConvertEntry::Spliced { shadow: *shadow, foreign: *foreign };
    new
}

/// Dispatch the owned-conversion entry of a table: the descriptor the
/// resulting dynamic view carries after converting an owned value.
pub fn reconvert_owned(t: &ReflectVtable) -> (r: ReflectVtable)
    requires
        wf_table(*t),
    ensures
        r == convert_target(t.into_reflect),
{
    match &t.into_reflect {
        ConvertEntry::Native(ty) => native_vtable(ty),
        ConvertEntry::Spliced { shadow, foreign } => new_vtable(shadow, foreign),
    }
}

/// Dispatch the read-only-view conversion entry of a table.
pub fn reconvert_ref(t: &ReflectVtable) -> (r: ReflectVtable)
    requires
        wf_table(*t),
    ensures
        r == convert_target(t.as_reflect),
{
    match &t.as_reflect {
        ConvertEntry::Native(ty) => native_vtable(ty),
        ConvertEntry::Spliced { shadow, foreign } => new_vtable(shadow, foreign),
    }
}

/// Dispatch the mutable-view conversion entry of a table.
pub fn reconvert_mut(t: &ReflectVtable) -> (r: ReflectVtable)
    requires
        wf_table(*t),
    ensures
        r == convert_target(t.as_reflect_mut),
{
    match &t.as_reflect_mut {
        ConvertEntry::Native(ty) => native_vtable(ty),
        ConvertEntry::Spliced { shadow, foreign } => new_vtable(shadow, foreign),
    }
}

/// Which downcasts a table allows: the one type its downcast entry targets.
pub open spec fn downcast_allows(t: ReflectVtable, key: u64) -> bool {
    t.as_any.target == key
}

/// Every behavioral (non-identity) entry of a table executes the code of the
/// type named by `key`.
pub open spec fn runs_behavior_of(t: ReflectVtable, key: u64) -> bool {
    &&& t.drop_in_place.runs == key
    &&& t.reflect_type_path.runs == key
    &&& t.reflect_short_type_path.runs == key
    &&& t.reflect_type_ident.runs == key
    &&& t.reflect_crate_name.runs == key
    &&& t.reflect_module_path.runs == key
    &&& t.get_represented_type_info.runs == key
    &&& t.apply.runs == key
    &&& t.try_apply.runs == key
    &&& t.set.runs == key
    &&& t.reflect_kind.runs == key
    &&& t.reflect_ref.runs == key
    &&& t.reflect_mut.runs == key
    &&& t.reflect_owned.runs == key
    &&& t.clone_value.runs == key
    &&& t.reflect_hash.runs == key
    &&& t.reflect_partial_eq.runs == key
    &&& t.debug.runs == key
    &&& t.serializable.runs == key
    &&& t.is_dynamic.runs == key
}

/// Law: after splicing, identity queries report the foreign type's identity,
/// not the shadow's — both through the reflection descriptor itself and
/// through its "any value" sub-descriptor.
pub proof fn lemma_splice_reports_foreign(shadow: TypeDesc, foreign: TypeDesc)
    requires
        layout_compatible(shadow, foreign),
    ensures
        spliced_table(shadow, foreign).type_id.reports == foreign.key,
        spliced_table(shadow, foreign).trait_any_vtable.type_id.reports == foreign.key,
        shadow.key != foreign.key ==> spliced_table(shadow, foreign).type_id.reports != shadow.key,
{
}

/// Law: a spliced value downcasts to the foreign type and to no other; in
/// particular, when the two identities differ, downcasting to the shadow
/// type fails. All three downcast-path entries target the foreign type.
pub proof fn lemma_splice_downcast_discriminates(shadow: TypeDesc, foreign: TypeDesc)
    requires
        layout_compatible(shadow, foreign),
    ensures
        downcast_allows(spliced_table(shadow, foreign), foreign.key),
        shadow.key != foreign.key ==> !downcast_allows(spliced_table(shadow, foreign), shadow.key),
        spliced_table(shadow, foreign).into_any.target == foreign.key,
        spliced_table(shadow, foreign).as_any_mut.target == foreign.key,
{
}

/// Law: splicing leaves every behavioral capability with the shadow: each
/// non-identity entry of the spliced table still executes the shadow's code,
/// exactly as in the shadow's own unpatched table.
pub proof fn lemma_splice_preserves_shadow_behavior(shadow: TypeDesc, foreign: TypeDesc)
    requires
        layout_compatible(shadow, foreign),
    ensures
        runs_behavior_of(spliced_table(shadow, foreign), shadow.key),
        runs_behavior_of(native_reflect_table(shadow), shadow.key),
{
}

/// Law: converting a spliced value into a further dynamic view — from the
/// owned shape, the read-only borrowed shape, or the mutable borrowed shape —
/// installs the spliced table again, so the view still reports the foreign
/// identity and never leaks the shadow's.
pub proof fn lemma_reconvert_preserves_foreign_identity(shadow: TypeDesc, foreign: TypeDesc)
    requires
        layout_compatible(shadow, foreign),
    ensures
        convert_target(spliced_table(shadow, foreign).into_reflect) == spliced_table(
            shadow,
            foreign,
        ),
        convert_target(spliced_table(shadow, foreign).as_reflect) == spliced_table(shadow, foreign),
        convert_target(spliced_table(shadow, foreign).as_reflect_mut) == spliced_table(
            shadow,
            foreign,
        ),
        convert_target(spliced_table(shadow, foreign).into_reflect).type_id.reports == foreign.key,
{
}

} // verus!
