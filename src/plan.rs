use vstd::prelude::*;
use vstd::string::StringExecFns;

use crate::config::{
    configured_visibility, extract_config, first_override_empty, shared_suppressed,
};
use crate::decl::{
    field_count, field_type, shape_of, DataKind, Fields, RecordDescription, Shape, Visibility,
    VisibilityView,
};
use crate::naming::{decimal, indexed_name};

verus! {

/// One parameter of a generated constructor.
#[derive(Debug)]
pub struct Param {
    pub name: String,
    pub ty: String,
}

/// Where a field lives inside the record: by name, or by position.
#[derive(Debug)]
pub enum FieldLocator {
    Name(String),
    Index(usize),
}

impl FieldLocator {
    /// An equal copy of this locator.
    pub fn copied(&self) -> (r: FieldLocator)
        ensures
            r == *self,
    {
        match self {
            FieldLocator::Name(n) => FieldLocator::Name(n.clone()),
            FieldLocator::Index(i) => FieldLocator::Index(*i),
        }
    }
}

/// The ordinary constructor sets `field` from the parameter named `source`.
#[derive(Debug)]
pub struct FieldInit {
    pub field: FieldLocator,
    pub source: String,
}

/// The parameter list and field initialisers that both constructors share.
#[derive(Debug)]
pub struct ConstructorPlan {
    pub shape: Shape,
    pub params: Vec<Param>,
    pub inits: Vec<FieldInit>,
}

/// One write of the in-place protocol: the location of `field` inside the
/// uninitialised block is bound to `slot`, and the parameter `source` is
/// written through it.
#[derive(Debug)]
pub struct FieldWrite {
    pub slot: String,
    pub field: FieldLocator,
    pub source: String,
}

/// How the shared constructor builds its value.
#[derive(Debug)]
pub enum SharedConstructor {
    /// Allocate an uninitialised shared block, perform these writes, then
    /// mark the block initialised.
    InPlace(Vec<FieldWrite>),
    /// Allocate the shared handle around the record's single value (records
    /// without fields).
    Direct,
}

/// Everything to emit for one declaration: one implementation block, scoped
/// to the record's generics, holding `new` and, where `shared` is present,
/// `new_arc`. Both functions have `visibility` and the parameters of `plan`.
#[derive(Debug)]
pub struct GeneratedImpl {
    pub record_name: String,
    pub impl_generics: String,
    pub ty_generics: String,
    pub where_clause: String,
    pub visibility: Visibility,
    pub plan: ConstructorPlan,
    pub shared: Option<SharedConstructor>,
}

/// A declaration that cannot get constructors, with the name it is reported
/// at.
#[derive(Debug)]
pub struct GenError {
    pub location: String,
    pub message: String,
}

/// The message of the one rejection.
pub open spec fn unsupported_message() -> Seq<char> {
    "only structs are allowed with #[derive(new)]"@
}

/// The parameter name for field `i`: its own name, or `arg<i>` for a
/// positional field.
pub open spec fn param_name(f: Fields, i: int) -> Seq<char> {
    match f {
        Fields::Named(v) => v@[i].name@,
        Fields::Positional(_) => "arg"@ + decimal(i as nat),
        Fields::Unit => Seq::empty(),
    }
}

/// The slot name bound to the location of field `i` in the in-place protocol.
pub open spec fn slot_name(i: int) -> Seq<char> {
    "ptr"@ + decimal(i as nat)
}

/// Whether `loc` designates field `i` of the layout `f`.
pub open spec fn locates(loc: FieldLocator, f: Fields, i: int) -> bool {
    match f {
        Fields::Named(v) => match loc {
            FieldLocator::Name(n) => n@ == v@[i].name@,
            FieldLocator::Index(_) => false,
        },
        Fields::Positional(_) => match loc {
            FieldLocator::Index(k) => k == i,
            FieldLocator::Name(_) => false,
        },
        Fields::Unit => false,
    }
}

/// The plan has one parameter per field, in declaration order, named and
/// typed after it, and sets field `i` from parameter `i`, unchanged.
pub open spec fn plan_matches(p: ConstructorPlan, f: Fields) -> bool {
    &&& p.shape == shape_of(f)
    &&& p.params@.len() == field_count(f)
    &&& p.inits@.len() == field_count(f)
    &&& forall|i: int|
        0 <= i < field_count(f) ==> (#[trigger] p.params@[i]).name@ == param_name(f, i)
            && p.params@[i].ty@ == field_type(f, i)
    &&& forall|i: int|
        0 <= i < field_count(f) ==> locates((#[trigger] p.inits@[i]).field, f, i)
            && p.inits@[i].source@ == p.params@[i].name@
}

/// The writes perform the plan's initialisers, one write per field, in order.
pub open spec fn writes_match(ws: Seq<FieldWrite>, p: ConstructorPlan, f: Fields) -> bool {
    &&& ws.len() == p.inits@.len()
    &&& forall|i: int|
        0 <= i < ws.len() ==> (#[trigger] ws[i]).field == p.inits@[i].field
            && ws[i].source@ == p.inits@[i].source@
            && ws[i].slot@ == slot_name(i)
}

/// The shared constructor suits the layout: the direct form exactly for
/// records without a field list, the in-place writes of the plan otherwise.
pub open spec fn shared_matches(s: SharedConstructor, p: ConstructorPlan, f: Fields) -> bool {
    match s {
        SharedConstructor::Direct => shape_of(f) == Shape::Unit,
        SharedConstructor::InPlace(ws) => shape_of(f) != Shape::Unit && writes_match(ws@, p, f),
    }
}

/// The layout of a record's data, where it is a product of fields.
pub open spec fn record_fields(rec: RecordDescription) -> Option<Fields> {
    match rec.data {
        DataKind::Struct(f) => Some(f),
        _ => None,
    }
}

/// `g` is what the record `rec`, whose layout is `f`, asks for.
pub open spec fn generated_for(g: GeneratedImpl, rec: RecordDescription, f: Fields) -> bool {
    &&& g.record_name@ == rec.name@
    &&& g.impl_generics@ == rec.impl_generics@
    &&& g.ty_generics@ == rec.ty_generics@
    &&& g.where_clause@ == rec.where_clause@
    &&& (configured_visibility(rec.annotations@) matches Some(v) ==> g.visibility@ == v)
    &&& (first_override_empty(rec.annotations@) ==> g.visibility@ == VisibilityView::Inherited)
    &&& plan_matches(g.plan, f)
    &&& (g.shared is Some <==> !shared_suppressed(rec.annotations@))
    &&& (g.shared matches Some(s) ==> shared_matches(s, g.plan, f))
}

/// Tells the three shapes apart.
pub fn classify(f: &Fields) -> (r: Shape)
    ensures
        r == shape_of(*f),
{
    match f {
        Fields::Named(_) => Shape::Named,
        Fields::Positional(_) => Shape::Positional,
        Fields::Unit => Shape::Unit,
    }
}

/// Builds the parameter list and initialisers that both constructors use.
pub fn build_plan(f: &Fields) -> (r: ConstructorPlan)
    ensures
        plan_matches(r, *f),
{
    let shape = classify(f);
    let mut params: Vec<Param> = Vec::new();
    let mut inits: Vec<FieldInit> = Vec::new();
    match f {
        Fields::Named(v) => {
            let n = v.len();
            let mut i: usize = 0;
            while i < n
                invariant
                    n == v@.len(),
                    0 <= i <= n,
                    *f == Fields::Named(*v),
                    params@.len() == i,
                    inits@.len() == i,
                    forall|k: int|
                        0 <= k < i ==> (#[trigger] params@[k]).name@ == param_name(*f, k)
                            && params@[k].ty@ == field_type(*f, k),
                    forall|k: int|
                        0 <= k < i ==> locates((#[trigger] inits@[k]).field, *f, k)
                            && inits@[k].source@ == params@[k].name@,
                decreases n - i,
            {
                let fld = &v[i];
                params.push(Param { name: fld.name.clone(), ty: fld.ty.clone() });
                inits.push(FieldInit { field: FieldLocator::Name(fld.name.clone()), source: fld.name.clone() });
                i = i + 1;
            }
        },
        Fields::Positional(v) => {
            let n = v.len();
            let mut i: usize = 0;
            while i < n
                invariant
                    n == v@.len(),
                    0 <= i <= n,
                    *f == Fields::Positional(*v),
                    params@.len() == i,
                    inits@.len() == i,
                    forall|k: int|
                        0 <= k < i ==> (#[trigger] params@[k]).name@ == param_name(*f, k)
                            && params@[k].ty@ == field_type(*f, k),
                    forall|k: int|
                        0 <= k < i ==> locates((#[trigger] inits@[k]).field, *f, k)
                            && inits@[k].source@ == params@[k].name@,
                decreases n - i,
            {
                let name = indexed_name("arg", i);
                params.push(Param { name: name.clone(), ty: v[i].clone() });
                inits.push(FieldInit { field: FieldLocator::Index(i), source: name });
                i = i + 1;
            }
        },
        Fields::Unit => {},
    }
    ConstructorPlan { shape, params, inits }
}

/// Builds the shared constructor for a plan: the in-place writes, one per
/// initialiser of the plan, or the direct form for a record without fields.
pub fn build_shared(p: &ConstructorPlan, f: &Fields) -> (r: SharedConstructor)
    requires
        plan_matches(*p, *f),
    ensures
        shared_matches(r, *p, *f),
{
    if p.shape == Shape::Unit {
        return SharedConstructor::Direct;
    }
    let n = p.inits.len();
    let mut writes: Vec<FieldWrite> = Vec::new();
    let mut i: usize = 0;
    while i < n
        invariant
            n == p.inits@.len(),
            0 <= i <= n,
            writes@.len() == i,
            forall|k: int|
                0 <= k < i ==> (#[trigger] writes@[k]).field == p.inits@[k].field
                    && writes@[k].source@ == p.inits@[k].source@
                    && writes@[k].slot@ == slot_name(k),
        decreases n - i,
    {
        let init = &p.inits[i];
        writes.push(
            FieldWrite {
                slot: indexed_name("ptr", i),
                field: init.field.copied(),
                source: init.source.clone(),
            },
        );
        i = i + 1;
    }
    SharedConstructor::InPlace(writes)
}

/// Generates the constructors of a declaration. A record of fields always
/// succeeds; any other declaration is rejected at its name, with nothing
/// generated.
pub fn derive_new(input: &RecordDescription) -> (r: Result<GeneratedImpl, GenError>)
    ensures
        match record_fields(*input) {
            Some(f) => r matches Ok(g) && generated_for(g, *input, f),
            None => r matches Err(e) && e.location@ == input.name@
                && e.message@ == unsupported_message(),
        },
{
    match &input.data {
        DataKind::Struct(f) => {
            let config = extract_config(&input.annotations);
            let plan = build_plan(f);
            let shared = if config.emit_shared_constructor {
                Some(build_shared(&plan, f))
            } else {
                None
            };
            Ok(
                GeneratedImpl {
                    record_name: input.name.clone(),
                    impl_generics: input.impl_generics.clone(),
                    ty_generics: input.ty_generics.clone(),
                    where_clause: input.where_clause.clone(),
                    visibility: config.visibility,
                    plan,
                    shared,
                },
            )
        },
        _ => Err(
            GenError {
                location: input.name.clone(),
                message: String::from_str("only structs are allowed with #[derive(new)]"),
            },
        ),
    }
}

} // verus!
