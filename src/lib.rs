//! Constructor generation for plain records.
//!
//! Given a parsed record declaration, the library decides which constructors
//! to emit (`new`, and optionally the shared constructor `new_arc`), with
//! which visibility and parameters, and how each field is initialised.
//! The plan it returns is structured data; turning it into tokens is left to
//! the caller.
mod config;
mod decl;
mod lemmas;
mod naming;
mod plan;

pub use naming::{decimal, digit_char, indexed_name};

pub use decl::{
    field_count, field_type, fields_wf, opt_visibility_view, shape_of, Annotation, DataKind,
    Fields, NamedField, RecordDescription, Shape, Visibility, VisibilityView,
};

pub use config::{
    configured_visibility, extract_config, first_override_empty, is_open_bracket, open_brackets,
    within_bracket_bound, MAX_OPEN_BRACKETS, shared_suppressed, suppress_path, visibility_from_annotation,
    visibility_from_args, visibility_or_default, visibility_or_public, visibility_parse,
    visibility_path, ConfigSet,
};

pub use plan::{
    build_plan, build_shared, classify, derive_new, generated_for, locates, param_name,
    plan_matches, record_fields, shared_matches, slot_name, unsupported_message, writes_match,
    ConstructorPlan, FieldInit, FieldLocator, FieldWrite, GenError, GeneratedImpl, Param,
    SharedConstructor,
};

pub use lemmas::{
    lemma_constructor_sets_each_field_from_its_argument, lemma_shared_constructor_writes_each_field_once,
    lemma_shared_matches_ordinary, lemma_suppression, lemma_visibility, targets_each_field_once,
};
