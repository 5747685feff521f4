//! The model of dynamic-dispatch descriptor tables.
//!
//! A descriptor table is the runtime companion of a dynamically-dispatched
//! value: an ordered collection of entries that say how to drop the value,
//! how large it is, which type it claims to be, which downcasts succeed,
//! how it converts into further dynamic views, and whose code runs for every
//! structural capability (field access, equality, hashing, printing,
//! cloning). Here each entry is plain data that records what the
//! corresponding function pointer would do, so the splicing transformation
//! on tables can be stated and proved exactly.

use vstd::prelude::*;

verus! {

/// Identity and layout of a concrete type, as the dispatch machinery sees it:
/// a unique identity key together with the size and alignment of a value.
#[derive(Clone, Copy, Debug, PartialEq, Eq)]
pub struct TypeDesc {
    /// Unique identity key; stands for the runtime type identity.
    pub key: u64,
    /// Size in bytes of a value of the type.
    pub size: usize,
    /// Alignment in bytes of a value of the type.
    pub align: usize,
}

/// Two types may share one descriptor's data entries only when their memory
/// layouts agree. This is the single precondition of the whole mechanism;
/// nothing at runtime checks it, so every splicing operation requires it.
pub open spec fn layout_compatible(shadow: TypeDesc, foreign: TypeDesc) -> bool {
    shadow.size == foreign.size && shadow.align == foreign.align
}

/// A slot holding a type's own compiled method: the table entry executes the
/// code of the type named by `runs`.
#[derive(Clone, Copy, Debug, PartialEq, Eq)]
pub struct BehaviorEntry {
    /// Identity key of the type whose implementation this entry executes.
    pub runs: u64,
}

/// A slot answering identity queries: the entry reports the type named by
/// `reports` as the value's type.
#[derive(Clone, Copy, Debug, PartialEq, Eq)]
pub struct IdentityEntry {
    /// Identity key that the entry reports.
    pub reports: u64,
}

/// A slot reinterpreting the value for the downcast path: a downcast through
/// this entry succeeds exactly for the type named by `target`.
#[derive(Clone, Copy, Debug, PartialEq, Eq)]
pub struct CastEntry {
    /// Identity key of the one type the value downcasts to.
    pub target: u64,
}

/// A slot converting the value into a further dynamic view. The entry
/// determines which descriptor table the resulting view carries.
#[derive(Clone, Copy, Debug, PartialEq, Eq)]
pub enum ConvertEntry {
    /// The type's own conversion: the resulting view carries the type's
    /// unpatched table.
    Native(TypeDesc),
    /// A patched conversion: the resulting view carries the spliced table
    /// for the given shadow/foreign pair, so repeated conversion cannot
    /// fall back to the shadow's identity.
    Spliced { shadow: TypeDesc, foreign: TypeDesc },
}

/// The descriptor shared by every dynamically-dispatched capability:
/// destruction and layout alone.
#[derive(Clone, Copy, Debug, PartialEq, Eq)]
pub struct CommonVtable {
    pub drop_in_place: BehaviorEntry,
    pub size: usize,
    pub align: usize,
}

/// The descriptor of the bare "any value" capability: destruction, layout
/// and identity.
#[derive(Clone, Copy, Debug, PartialEq, Eq)]
pub struct AnyVtable {
    pub drop_in_place: BehaviorEntry,
    pub size: usize,
    pub align: usize,
    pub type_id: IdentityEntry,
}

/// The full reflection descriptor: one entry per capability of a reflected
/// value, in the order the dispatch convention fixes.
#[derive(Clone, Copy, Debug, PartialEq, Eq)]
pub struct ReflectVtable {
    pub drop_in_place: BehaviorEntry,
    pub size: usize,
    pub align: usize,
    pub reflect_type_path: BehaviorEntry,
    pub reflect_short_type_path: BehaviorEntry,
    pub reflect_type_ident: BehaviorEntry,
    pub reflect_crate_name: BehaviorEntry,
    pub reflect_module_path: BehaviorEntry,
    pub type_id: IdentityEntry,
    pub trait_any_vtable: AnyVtable,
    pub trait_send_vtable: CommonVtable,
    pub trait_sync_vtable: CommonVtable,
    pub get_represented_type_info: BehaviorEntry,
    pub into_any: CastEntry,
    pub as_any: CastEntry,
    pub as_any_mut: CastEntry,
    pub into_reflect: ConvertEntry,
    pub as_reflect: ConvertEntry,
    pub as_reflect_mut: ConvertEntry,
    pub apply: BehaviorEntry,
    pub try_apply: BehaviorEntry,
    pub set: BehaviorEntry,
    pub reflect_kind: BehaviorEntry,
    pub reflect_ref: BehaviorEntry,
    pub reflect_mut: BehaviorEntry,
    pub reflect_owned: BehaviorEntry,
    pub clone_value: BehaviorEntry,
    pub reflect_hash: BehaviorEntry,
    pub reflect_partial_eq: BehaviorEntry,
    pub debug: BehaviorEntry,
    pub serializable: BehaviorEntry,
    pub is_dynamic: BehaviorEntry,
}

/// The common descriptor a type gets for itself.
pub open spec fn spec_common_vtable(ty: TypeDesc) -> CommonVtable {
    CommonVtable {
        drop_in_place: BehaviorEntry { runs: ty.key },
        size: ty.size,
        align: ty.align,
    }
}

/// The "any value" descriptor a type gets for itself.
pub open spec fn spec_any_vtable(ty: TypeDesc) -> AnyVtable {
    AnyVtable {
        drop_in_place: BehaviorEntry { runs: ty.key },
        size: ty.size,
        align: ty.align,
        type_id: IdentityEntry { reports: ty.key },
    }
}

/// The reflection descriptor built from a type's own methods, with the three
/// capability sub-descriptors supplied by the caller.
pub open spec fn spec_reflect_vtable(
    ty: TypeDesc,
    trait_any_vtable: AnyVtable,
    trait_send_vtable: CommonVtable,
    trait_sync_vtable: CommonVtable,
) -> ReflectVtable {
    ReflectVtable {
        drop_in_place: BehaviorEntry { runs: ty.key },
        size: ty.size,
        align: ty.align,
        reflect_type_path: BehaviorEntry { runs: ty.key },
        reflect_short_type_path: BehaviorEntry { runs: ty.key },
        reflect_type_ident: BehaviorEntry { runs: ty.key },
        reflect_crate_name: BehaviorEntry { runs: ty.key },
        reflect_module_path: BehaviorEntry { runs: ty.key },
        type_id: IdentityEntry { reports: ty.key },
        trait_any_vtable: trait_any_vtable,
        trait_send_vtable: trait_send_vtable,
        trait_sync_vtable: trait_sync_vtable,
        get_represented_type_info: BehaviorEntry { runs: ty.key },
        into_any: CastEntry { target: ty.key },
        as_any: CastEntry { target: ty.key },
        as_any_mut: CastEntry { target: ty.key },
        into_reflect: ConvertEntry::Native(ty),
        as_reflect: ConvertEntry::Native(ty),
        as_reflect_mut: ConvertEntry::Native(ty),
        apply: BehaviorEntry { runs: ty.key },
        try_apply: BehaviorEntry { runs: ty.key },
        set: BehaviorEntry { runs: ty.key },
        reflect_kind: BehaviorEntry { runs: ty.key },
        reflect_ref: BehaviorEntry { runs: ty.key },
        reflect_mut: BehaviorEntry { runs: ty.key },
        reflect_owned: BehaviorEntry { runs: ty.key },
        clone_value: BehaviorEntry { runs: ty.key },
        reflect_hash: BehaviorEntry { runs: ty.key },
        reflect_partial_eq: BehaviorEntry { runs: ty.key },
        debug: BehaviorEntry { runs: ty.key },
        serializable: BehaviorEntry { runs: ty.key },
        is_dynamic: BehaviorEntry { runs: ty.key },
    }
}

/// The unpatched reflection descriptor of a type: every entry is the type's
/// own, and the sub-descriptors are the type's own as well.
pub open spec fn native_reflect_table(ty: TypeDesc) -> ReflectVtable {
    spec_reflect_vtable(ty, spec_any_vtable(ty), spec_common_vtable(ty), spec_common_vtable(ty))
}

impl CommonVtable {
    /// Build the common descriptor of `ty`.
    pub fn new(ty: &TypeDesc) -> (r: CommonVtable)
        ensures
            r == spec_common_vtable(*ty),
    {
        CommonVtable {
            drop_in_place: BehaviorEntry { runs: ty.key },
            size: ty.size,
            align: ty.align,
        }
    }
}

impl AnyVtable {
    /// Build the "any value" descriptor of `ty`.
    pub fn new(ty: &TypeDesc) -> (r: AnyVtable)
        ensures
            r == spec_any_vtable(*ty),
    {
        AnyVtable {
            drop_in_place: BehaviorEntry { runs: ty.key },
            size: ty.size,
            align: ty.align,
            type_id: IdentityEntry { reports: ty.key },
        }
    }
}

impl ReflectVtable {
    /// Build the reflection descriptor of `ty` from its own methods, with
    /// the given capability sub-descriptors.
    pub fn new(
        ty: &TypeDesc,
        trait_any_vtable: AnyVtable,
        trait_send_vtable: CommonVtable,
        trait_sync_vtable: CommonVtable,
    ) -> (r: ReflectVtable)
        ensures
            r == spec_reflect_vtable(*ty, trait_any_vtable, trait_send_vtable, trait_sync_vtable),
    {
        ReflectVtable {
            drop_in_place: BehaviorEntry { runs: ty.key },
            size: ty.size,
            align: ty.align,
            reflect_type_path: BehaviorEntry { runs: ty.key },
            reflect_short_type_path: BehaviorEntry { runs: ty.key },
            reflect_type_ident: BehaviorEntry { runs: ty.key },
            reflect_crate_name: BehaviorEntry { runs: ty.key },
            reflect_module_path: BehaviorEntry { runs: ty.key },
            type_id: IdentityEntry { reports: ty.key },
            trait_any_vtable: trait_any_vtable,
            trait_send_vtable: trait_send_vtable,
            trait_sync_vtable: trait_sync_vtable,
            get_represented_type_info: BehaviorEntry { runs: ty.key },
            into_any: CastEntry { target: ty.key },
            as_any: CastEntry { target: ty.key },
            as_any_mut: CastEntry { target: ty.key },
            into_reflect: ConvertEntry::Native(*ty),
            as_reflect: ConvertEntry::Native(*ty),
            as_reflect_mut: ConvertEntry::Native(*ty),
            apply: BehaviorEntry { runs: ty.key },
            try_apply: BehaviorEntry { runs: ty.key },
            set: BehaviorEntry { runs: ty.key },
            reflect_kind: BehaviorEntry { runs: ty.key },
            reflect_ref: BehaviorEntry { runs: ty.key },
            reflect_mut: BehaviorEntry { runs: ty.key },
            reflect_owned: BehaviorEntry { runs: ty.key },
            clone_value: BehaviorEntry { runs: ty.key },
            reflect_hash: BehaviorEntry { runs: ty.key },
            reflect_partial_eq: BehaviorEntry { runs: ty.key },
            debug: BehaviorEntry { runs: ty.key },
            serializable: BehaviorEntry { runs: ty.key },
            is_dynamic: BehaviorEntry { runs: ty.key },
        }
    }
}

/// Build the unpatched reflection descriptor of `ty`: the table a value of
/// `ty` carries before any splicing.
pub fn native_vtable(ty: &TypeDesc) -> (r: ReflectVtable)
    ensures
        r == native_reflect_table(*ty),
{
    let any = AnyVtable::new(ty);
    let common = CommonVtable::new(ty);
    ReflectVtable::new(ty, any, common, common)
}

} // verus!
