use vstd::prelude::*;

verus! {

/// A visibility specifier, as it would be written in front of an item.
#[derive(Debug)]
pub enum Visibility {
    /// `pub`
    Public,
    /// A restricted form such as `pub(crate)` or `pub(in ::a::b)`: whether
    /// `in` is written, whether the path starts with `::`, and the
    /// identifiers of the path's segments.
    Restricted { in_path: bool, leading_colon: bool, segments: Vec<String> },
    /// No specifier: private to the enclosing module.
    Inherited,
}

/// The mathematical value of a [`Visibility`].
pub enum VisibilityView {
    Public,
    Restricted { in_path: bool, leading_colon: bool, segments: Seq<Seq<char>> },
    Inherited,
}

impl View for Visibility {
    type V = VisibilityView;

    open spec fn view(&self) -> VisibilityView {
        match self {
            Visibility::Public => VisibilityView::Public,
            Visibility::Restricted { in_path, leading_colon, segments } => VisibilityView::Restricted {
                in_path: *in_path,
                leading_colon: *leading_colon,
                segments: segments@.map_values(|x: String| x@),
            },
            Visibility::Inherited => VisibilityView::Inherited,
        }
    }
}

/// The view of an optional visibility.
pub open spec fn opt_visibility_view(v: Option<Visibility>) -> Option<VisibilityView> {
    match v {
        Some(x) => Some(x@),
        None => None,
    }
}

/// An annotation attached to a declaration: its path (`no_new_arc`,
/// `new_visibility`, or anything else) and, when it is written as a list
/// (`#[path(...)]`), the text between the parentheses.
#[derive(Debug)]
pub struct Annotation {
    pub path: String,
    pub args: Option<String>,
}

/// A field with a declared name; its type is opaque text, passed through.
#[derive(Debug)]
pub struct NamedField {
    pub name: String,
    pub ty: String,
}

/// The field layout of a record.
#[derive(Debug)]
pub enum Fields {
    /// `struct S { a: A, b: B }`
    Named(Vec<NamedField>),
    /// `struct S(A, B);`, holding the type of each field in order.
    Positional(Vec<String>),
    /// `struct S;`
    Unit,
}

/// What kind of data a declaration defines.
#[derive(Debug)]
pub enum DataKind {
    Struct(Fields),
    Enum,
    Union,
}

/// A parsed declaration: its name, the three pieces of its generics as text
/// (parameters for the `impl`, arguments for the type, `where` clause), its
/// annotations in order, and its data.
#[derive(Debug)]
pub struct RecordDescription {
    pub name: String,
    pub impl_generics: String,
    pub ty_generics: String,
    pub where_clause: String,
    pub annotations: Vec<Annotation>,
    pub data: DataKind,
}

/// The three supported shapes.
#[derive(Debug, Clone, Copy, PartialEq, Eq, Structural)]
pub enum Shape {
    Named,
    Positional,
    Unit,
}

/// The number of fields of a layout.
pub open spec fn field_count(f: Fields) -> nat {
    match f {
        Fields::Named(v) => v@.len(),
        Fields::Positional(v) => v@.len(),
        Fields::Unit => 0,
    }
}

/// The shape of a layout.
pub open spec fn shape_of(f: Fields) -> Shape {
    match f {
        Fields::Named(_) => Shape::Named,
        Fields::Positional(_) => Shape::Positional,
        Fields::Unit => Shape::Unit,
    }
}

/// The type text of field `i`.
pub open spec fn field_type(f: Fields, i: int) -> Seq<char> {
    match f {
        Fields::Named(v) => v@[i].ty@,
        Fields::Positional(v) => v@[i]@,
        Fields::Unit => Seq::empty(),
    }
}

/// Field names of a named layout are pairwise distinct, as in any record the
/// host accepts.
pub open spec fn fields_wf(f: Fields) -> bool {
    match f {
        Fields::Named(v) => forall|i: int, j: int|
            0 <= i < j < v@.len() ==> #[trigger] v@[i].name@ != #[trigger] v@[j].name@,
        _ => true,
    }
}

impl RecordDescription {
    /// A record as the host's parser hands it over: field names distinct.
    pub open spec fn wf(&self) -> bool {
        match self.data {
            DataKind::Struct(f) => fields_wf(f),
            _ => true,
        }
    }
}

} // verus!
