//! Dynamically-dispatched values over the descriptor model.
//!
//! A dynamic value pairs the data of a structured value with a descriptor
//! table, exactly as a trait object pairs a data pointer with a vtable
//! pointer. Splicing exchanges the table and leaves the data untouched, so
//! identity queries and downcasts follow the patched entries while field
//! access still sees the original data through the shadow's structural
//! logic.

use vstd::prelude::*;

use crate::descriptor::layout_compatible;
use crate::descriptor::native_reflect_table;
use crate::descriptor::ReflectVtable;
use crate::descriptor::TypeDesc;
use crate::splice::convert_target;
use crate::splice::new_vtable;
use crate::splice::reconvert_owned;
use crate::splice::spliced_table;
use crate::splice::wf_table;

verus! {

/// One field of a structured value.
#[derive(Debug, PartialEq, Eq)]
pub struct Field {
    pub name: String,
    pub value: FieldValue,
}

/// The data a field can hold.
#[derive(Debug, PartialEq, Eq)]
pub enum FieldValue {
    /// An unsigned integer.
    UInt(u64),
    /// A single piece of text.
    Text(String),
    /// A sequence of pieces of text.
    TextList(Vec<String>),
}

/// The concrete data of a structured value: its fields in declaration order.
#[derive(Debug, PartialEq, Eq)]
pub struct StructData {
    pub fields: Vec<Field>,
}

/// A dynamically-dispatched value: the data together with the descriptor
/// table it is dispatched through.
#[derive(Debug, PartialEq, Eq)]
pub struct DynValue {
    pub data: StructData,
    pub vtable: ReflectVtable,
}

/// The first field named `name`, if any.
pub open spec fn lookup_field(fields: Seq<Field>, name: Seq<char>) -> Option<FieldValue>
    decreases fields.len(),
{
    if fields.len() == 0 {
        None
    } else if fields[0].name@ == name {
        Some(fields[0].value)
    } else {
        lookup_field(fields.drop_first(), name)
    }
}

/// The dynamic value obtained by splicing a foreign value's data under the
/// shadow/foreign descriptor.
pub open spec fn spliced_value(data: StructData, shadow: TypeDesc, foreign: TypeDesc) -> DynValue {
    DynValue { data, vtable: spliced_table(shadow, foreign) }
}

/// Take ownership of a foreign value's data and dispatch it through the
/// spliced shadow/foreign descriptor. Models converting an owned value into
/// a dynamic view.
pub fn remote_into_reflect(data: StructData, shadow: &TypeDesc, foreign: &TypeDesc) -> (r: DynValue)
    requires
        layout_compatible(*shadow, *foreign),
    ensures
        r == spliced_value(data, *shadow, *foreign),
        r.data == data,
        r.vtable == spliced_table(*shadow, *foreign),
{
    let vtable = new_vtable(shadow, foreign);
    DynValue { data, vtable }
}

/// Exchange the descriptor of a dynamic value currently dispatched through
/// the shadow's own table for the spliced one, leaving the data untouched.
/// Models obtaining a borrowed dynamic view of a foreign value.
pub fn splice_descriptor(v: &mut DynValue, shadow: &TypeDesc, foreign: &TypeDesc)
    requires
        layout_compatible(*shadow, *foreign),
        old(v).vtable == native_reflect_table(*shadow),
    ensures
        final(v).data == old(v).data,
        final(v).vtable == spliced_table(*shadow, *foreign),
{
    v.vtable = new_vtable(shadow, foreign);
}

/// The identity a dynamic value reports for itself, read through its
/// descriptor's identity entry.
pub fn reported_type_key(v: &DynValue) -> (k: u64)
    ensures
        k == v.vtable.type_id.reports,
{
    v.vtable.type_id.reports
}

/// Downcast a dynamic value to the type named by `key`, through the
/// descriptor's downcast entry: the data comes back exactly when `key` is
/// the one type the entry targets.
pub fn downcast_ref<'a>(v: &'a DynValue, key: u64) -> (r: Option<&'a StructData>)
    ensures
        match r {
            Some(d) => key == v.vtable.as_any.target && *d == v.data,
            None => key != v.vtable.as_any.target,
        },
{
    if key == v.vtable.as_any.target {
        Some(&v.data)
    } else {
        None
    }
}

/// Convert an owned dynamic value into a further dynamic view: the data
/// moves untouched, and the view carries whatever table the value's
/// owned-conversion entry installs.
pub fn convert_owned(v: DynValue) -> (r: DynValue)
    requires
        wf_table(v.vtable),
    ensures
        r.data == v.data,
        r.vtable == convert_target(v.vtable.into_reflect),
{
    let vtable = reconvert_owned(&v.vtable);
    DynValue { data: v.data, vtable }
}

/// Field access by name through the dynamic view: returns the first field of
/// the underlying data carrying that name.
pub fn get_field<'a>(v: &'a DynValue, name: &String) -> (r: Option<&'a FieldValue>)
    ensures
        match r {
            Some(fv) => lookup_field(v.data.fields@, name@) == Some(*fv),
            None => lookup_field(v.data.fields@, name@) is None,
        },
{
    let fields = &v.data.fields;
    let n = fields.len();
    let mut i: usize = 0;
    proof {
        assert(fields@.skip(0) =~= fields@);
    }
    while i < n
        invariant
            i <= n,
            fields@ == v.data.fields@,
            n == fields@.len(),
            lookup_field(fields@, name@) == lookup_field(fields@.skip(i as int), name@),
        decreases n - i,
    {
        proof {
            assert(fields@.skip(i as int)[0] == fields@[i as int]);
        }
        if fields[i].name == *name {
            let fv = &fields[i].value;
            proof {
                assert(*fv == fields@[i as int].value);
                assert(lookup_field(fields@.skip(i as int), name@) == Some(
                    fields@[i as int].value,
                ));
            }
            return Some(fv);
        }
        proof {
            assert(fields@.skip(i as int).drop_first() =~= fields@.skip(i as int + 1));
        }
        i = i + 1;
    }
    None
}

/// Law: splicing touches only the descriptor, never the data, so field
/// access by name through the spliced dynamic view returns exactly what a
/// lookup on the original foreign data returns, for every field name.
pub proof fn lemma_field_access_preserved(
    data: StructData,
    shadow: TypeDesc,
    foreign: TypeDesc,
    name: Seq<char>,
)
    requires
        layout_compatible(shadow, foreign),
    ensures
        lookup_field(spliced_value(data, shadow, foreign).data.fields@, name) == lookup_field(
            data.fields@,
            name,
        ),
{
}

} // verus!
