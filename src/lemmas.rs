use vstd::prelude::*;

use crate::config::{
    configured_visibility, first_override_empty, shared_suppressed, visibility_from_args,
    visibility_path,
};
use crate::decl::{field_count, field_type, fields_wf, Annotation, Fields, RecordDescription, VisibilityView};
use crate::plan::{
    generated_for, locates, record_fields, FieldLocator, GeneratedImpl, SharedConstructor,
};

verus! {

/// Target `k` of `targets` designates field `j` exactly when `k == j`: every
/// field is targeted once, by its own position in the list, and no target is
/// left over.
pub open spec fn targets_each_field_once(targets: Seq<FieldLocator>, f: Fields) -> bool {
    &&& targets.len() == field_count(f)
    &&& forall|j: int, k: int|
        0 <= j < field_count(f) && 0 <= k < targets.len() ==> (#[trigger] locates(targets[k], f, j) <==> k == j)
}

/// Locators that designate their own positions in a layout whose field names
/// are distinct designate no other field.
proof fn lemma_own_positions_only(targets: Seq<FieldLocator>, f: Fields)
    requires
        fields_wf(f),
        targets.len() == field_count(f),
        forall|i: int| 0 <= i < targets.len() ==> #[trigger] locates(targets[i], f, i),
    ensures
        targets_each_field_once(targets, f),
{
    assert forall|j: int, k: int|
        0 <= j < field_count(f) && 0 <= k < targets.len() implies (#[trigger] locates(targets[k], f, j) <==> k == j) by {
        assert(locates(targets[k], f, k));
        match f {
            Fields::Named(v) => {
                if k != j && locates(targets[k], f, j) {
                    if j < k {
                        assert(v@[j].name@ != v@[k].name@);
                    } else {
                        assert(v@[k].name@ != v@[j].name@);
                    }
                }
            },
            _ => {},
        }
    }
}

/// The ordinary constructor takes exactly one argument per field, in
/// declaration order and of that field's type, and sets each field from its
/// own argument, unchanged; no field is set twice or left out.
pub proof fn lemma_constructor_sets_each_field_from_its_argument(
    rec: RecordDescription,
    f: Fields,
    g: GeneratedImpl,
)
    requires
        rec.wf(),
        record_fields(rec) == Some(f),
        generated_for(g, rec, f),
    ensures
        g.plan.params@.len() == field_count(f),
        forall|i: int|
            0 <= i < field_count(f) ==> (#[trigger] g.plan.params@[i]).ty@ == field_type(f, i)
                && g.plan.inits@[i].source@ == g.plan.params@[i].name@,
        targets_each_field_once(g.plan.inits@.map_values(|x: crate::plan::FieldInit| x.field), f),
{
    let targets = g.plan.inits@.map_values(|x: crate::plan::FieldInit| x.field);
    assert forall|i: int| 0 <= i < targets.len() implies #[trigger] locates(targets[i], f, i) by {
        assert(locates(g.plan.inits@[i].field, f, i));
    }
    lemma_own_positions_only(targets, f);
}

/// Where the shared constructor is generated, it takes the same arguments as
/// the ordinary one, and for a record with a field list it writes each
/// argument, unchanged, into its own field of the uninitialised block:
/// every field exactly once, none skipped.
pub proof fn lemma_shared_constructor_writes_each_field_once(
    rec: RecordDescription,
    f: Fields,
    g: GeneratedImpl,
)
    requires
        rec.wf(),
        record_fields(rec) == Some(f),
        generated_for(g, rec, f),
        !shared_suppressed(rec.annotations@),
    ensures
        g.shared matches Some(s) && match s {
            SharedConstructor::Direct => field_count(f) == 0,
            SharedConstructor::InPlace(ws) => {
                &&& targets_each_field_once(
                    ws@.map_values(|w: crate::plan::FieldWrite| w.field),
                    f,
                )
                &&& forall|i: int|
                    0 <= i < ws@.len() ==> (#[trigger] ws@[i]).source@
                        == g.plan.params@[i].name@
            },
        },
{
    match g.shared {
        Some(SharedConstructor::InPlace(ws)) => {
            let targets = ws@.map_values(|w: crate::plan::FieldWrite| w.field);
            assert forall|i: int| 0 <= i < targets.len() implies #[trigger] locates(targets[i], f, i) by {
                assert(ws@[i].field == g.plan.inits@[i].field);
                assert(locates(g.plan.inits@[i].field, f, i));
            }
            lemma_own_positions_only(targets, f);
            assert forall|i: int| 0 <= i < ws@.len() implies (#[trigger] ws@[i]).source@
                == g.plan.params@[i].name@ by {
                assert(ws@[i].source@ == g.plan.inits@[i].source@);
            }
        },
        _ => {},
    }
}

/// Building in place gives, field by field, the value the ordinary
/// constructor gives: whatever write and initialiser designate the same
/// field carry the same argument.
pub proof fn lemma_shared_matches_ordinary(rec: RecordDescription, f: Fields, g: GeneratedImpl)
    requires
        record_fields(rec) == Some(f),
        generated_for(g, rec, f),
    ensures
        g.shared matches Some(SharedConstructor::InPlace(ws)) ==> forall|j: int, k: int, m: int|
            0 <= j < field_count(f) && 0 <= k < ws@.len() && 0 <= m < g.plan.inits@.len()
                && #[trigger] locates(ws@[k].field, f, j) && #[trigger] locates(g.plan.inits@[m].field, f, j) ==> ws@[k].source@ == g.plan.inits@[m].source@,
{
    if let Some(SharedConstructor::InPlace(ws)) = g.shared {
        assert forall|j: int, k: int, m: int|
            0 <= j < field_count(f) && 0 <= k < ws@.len() && 0 <= m < g.plan.inits@.len()
                && #[trigger] locates(ws@[k].field, f, j) && #[trigger] locates(g.plan.inits@[m].field, f, j) implies ws@[k].source@ == g.plan.inits@[m].source@ by {
            assert(ws@[k].field == g.plan.inits@[k].field);
        }
    }
}

/// The shared constructor is generated exactly when no annotation
/// suppresses it.
pub proof fn lemma_suppression(rec: RecordDescription, f: Fields, g: GeneratedImpl)
    requires
        record_fields(rec) == Some(f),
        generated_for(g, rec, f),
    ensures
        shared_suppressed(rec.annotations@) <==> g.shared is None,
{
}

/// Without an override annotation both constructors are `pub`; otherwise the
/// first override decides, and one whose argument is no visibility
/// specifier counts as absent, while one with an empty argument list makes
/// them private. Both constructors carry the one visibility of
/// the generated block.
pub proof fn lemma_visibility(attrs: Seq<Annotation>, i: int)
    requires
        0 <= i <= attrs.len(),
        forall|k: int| 0 <= k < i ==> (#[trigger] attrs[k]).path@ != visibility_path(),
    ensures
        i == attrs.len() ==> configured_visibility(attrs) == Some(VisibilityView::Public),
        i < attrs.len() && attrs[i].path@ == visibility_path() ==> configured_visibility(attrs)
            == visibility_from_args(attrs[i].args),
        i < attrs.len() && attrs[i].path@ == visibility_path() ==> first_override_empty(attrs)
            == (attrs[i].args matches Some(a) && a@.len() == 0),
    decreases i,
{
    if i > 0 {
        let rest = attrs.drop_first();
        assert(attrs[0].path@ != visibility_path());
        assert forall|k: int| 0 <= k < i - 1 implies (#[trigger] rest[k]).path@
            != visibility_path() by {
            assert(rest[k] == attrs[k + 1]);
        }
        lemma_visibility(rest, i - 1);
        if i < attrs.len() {
            assert(rest[i - 1] == attrs[i]);
        }
    }
}

} // verus!
