//! Projections from a value: the element at an index, the field of a name.
use vstd::prelude::*;
use vstd::string::*;
use crate::error::{plain_error, Error, ErrorKind, ErrorView};
use crate::exp::{selectors_view, Selector, SelectorView};
use crate::label::{label_id, Label, LabelView};
use crate::record::field_id;
use crate::value::{fields_view, FieldView, Value, ValueField, ValueView};

verus! {

/// The value of the first field with the given id.
pub open spec fn find_field(fs: Seq<FieldView>, id: u32) -> Option<ValueView>
    decreases fs.len(),
{
    if fs.len() == 0 {
        None
    } else if field_id(fs[0]) == id {
        Some(fs[0].val)
    } else {
        find_field(fs.drop_first(), id)
    }
}

pub open spec fn range_error() -> ErrorView {
    plain_error(ErrorKind::Resolution, "index out of range"@)
}

pub open spec fn field_error() -> ErrorView {
    plain_error(ErrorKind::Resolution, "field not found"@)
}

pub open spec fn kind_error() -> ErrorView {
    plain_error(ErrorKind::Resolution, "value has no such projection"@)
}

/// The part of a record or a variant that bears the given label id.
pub open spec fn select_id(v: ValueView, id: u32) -> Result<ValueView, ErrorView> {
    match v {
        ValueView::Record(fs) => match find_field(fs, id) {
            Some(x) => Ok(x),
            None => Err(field_error()),
        },
        ValueView::Variant(f, _) => if field_id(*f) == id {
            Ok(f.val)
        } else {
            Err(field_error())
        },
        _ => Err(kind_error()),
    }
}

/// One step of a projection. An index takes an element of a vector, or the
/// field of a record or variant whose label id it is; a name takes the field
/// whose label has the id of that name.
pub open spec fn select(v: ValueView, s: SelectorView) -> Result<ValueView, ErrorView> {
    match s {
        SelectorView::Index(i) => match v {
            ValueView::Vec(xs) => if i < xs.len() {
                Ok(xs[i as int])
            } else {
                Err(range_error())
            },
            _ => if i <= u32::MAX {
                select_id(v, i as u32)
            } else {
                match v {
                    ValueView::Record(_) => Err(field_error()),
                    ValueView::Variant(_, _) => Err(field_error()),
                    _ => Err(kind_error()),
                }
            },
        },
        SelectorView::Field(name) => select_id(v, label_id(LabelView::Named(name))),
    }
}

/// A chain of projections, from the left.
pub open spec fn project(v: ValueView, path: Seq<SelectorView>) -> Result<ValueView, ErrorView>
    decreases path.len(),
{
    if path.len() == 0 {
        Ok(v)
    } else {
        match select(v, path[0]) {
            Ok(x) => project(x, path.drop_first()),
            Err(e) => Err(e),
        }
    }
}

/// The value of the first field with the given id, where there is one.
pub fn get_field_by_id(fs: &Vec<ValueField>, id: u32) -> (r: Option<&Value>)
    ensures
        match find_field(fields_view(fs@), id) {
            Some(v) => r matches Some(x) && x@ == v,
            None => r is None,
        },
{
    let ghost all = fields_view(fs@);
    let mut i: usize = 0;
    assert(all.subrange(0, all.len() as int) =~= all);
    while i < fs.len()
        invariant
            i <= fs.len(),
            all == fields_view(fs@),
            find_field(all, id) == find_field(all.subrange(i as int, all.len() as int), id),
        decreases fs.len() - i,
    {
        let ghost rest = all.subrange(i as int, all.len() as int);
        assert(rest[0] == fs@[i as int]@);
        if fs[i].id.id() == id {
            return Some(&fs[i].val);
        }
        assert(rest.drop_first() =~= all.subrange(i + 1, all.len() as int));
        i += 1;
    }
    None
}

/// The value of the field that a name labels, where there is one.
pub fn get_field<'a>(fs: &'a Vec<ValueField>, name: &str) -> (r: Option<&'a Value>)
    ensures
        match find_field(fields_view(fs@), label_id(LabelView::Named(name@))) {
            Some(v) => r matches Some(x) && x@ == v,
            None => r is None,
        },
{
    get_field_by_id(fs, Label::id_of_name(name))
}

fn pick_id<'a>(v: &'a Value, id: u32) -> (r: Result<&'a Value, Error>)
    ensures
        match select_id(v@, id) {
            Ok(x) => r matches Ok(y) && y@ == x,
            Err(e) => r matches Err(y) && y@ == e,
        },
{
    broadcast use crate::value::group_value_views;

    match v {
        Value::Record(fs) => match get_field_by_id(fs, id) {
            Some(x) => Ok(x),
            None => Err(Error::new(ErrorKind::Resolution, "field not found")),
        },
        Value::Variant(f, _) => {
            if f.id.id() == id {
                Ok(&f.val)
            } else {
                Err(Error::new(ErrorKind::Resolution, "field not found"))
            }
        },
        _ => Err(Error::new(ErrorKind::Resolution, "value has no such projection")),
    }
}

fn pick<'a>(v: &'a Value, s: &Selector) -> (r: Result<&'a Value, Error>)
    ensures
        match select(v@, s@) {
            Ok(x) => r matches Ok(y) && y@ == x,
            Err(e) => r matches Err(y) && y@ == e,
        },
{
    broadcast use crate::value::group_value_views;

    match s {
        Selector::Index(i) => match v {
            Value::Vec(xs) => {
                if *i < xs.len() as u64 {
                    Ok(&xs[*i as usize])
                } else {
                    Err(Error::new(ErrorKind::Resolution, "index out of range"))
                }
            },
            _ => {
                if *i <= u32::MAX as u64 {
                    pick_id(v, *i as u32)
                } else {
                    match v {
                        Value::Record(_) => Err(
                            Error::new(ErrorKind::Resolution, "field not found"),
                        ),
                        Value::Variant(_, _) => Err(
                            Error::new(ErrorKind::Resolution, "field not found"),
                        ),
                        _ => Err(
                            Error::new(ErrorKind::Resolution, "value has no such projection"),
                        ),
                    }
                }
            },
        },
        Selector::Field(name) => pick_id(v, Label::id_of_name(name.as_str())),
    }
}

/// Follows a chain of projections from a value.
pub fn project_value(v: &Value, path: &Vec<Selector>) -> (r: Result<Value, Error>)
    ensures
        match project(v@, selectors_view(path@)) {
            Ok(x) => r matches Ok(y) && y@ == x,
            Err(e) => r matches Err(y) && y@ == e,
        },
{
    let ghost all = selectors_view(path@);
    let mut at: &Value = v;
    let mut i: usize = 0;
    assert(all.subrange(0, all.len() as int) =~= all);
    while i < path.len()
        invariant
            i <= path.len(),
            all == selectors_view(path@),
            project(v@, all) == project(at@, all.subrange(i as int, all.len() as int)),
        decreases path.len() - i,
    {
        let ghost rest = all.subrange(i as int, all.len() as int);
        assert(rest[0] == path@[i as int]@);
        assert(rest.drop_first() =~= all.subrange(i + 1, all.len() as int));
        match pick(at, &path[i]) {
            Ok(x) => {
                at = x;
            },
            Err(e) => {
                return Err(e);
            },
        }
        i += 1;
    }
    Ok(at.duplicate())
}

} // verus!
