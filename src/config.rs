use vstd::prelude::*;
use vstd::std_specs::iter::IteratorSpec;
use vstd::string::StringExecFns;
use vstd::string::StringExecFnsIsAscii;
use vstd::utf8::is_ascii_chars;

use crate::decl::{opt_visibility_view, Annotation, Visibility, VisibilityView};

verus! {

/// What syn's visibility parser makes of an ASCII text: `None` where it is
/// not a visibility specifier, else the specifier it reads. (Outside ASCII
/// the lexer that proc-macro2 picks for the process can change identifiers,
/// so there the result is not a function of the text.)
pub uninterp spec fn visibility_parse(s: Seq<char>) -> Option<VisibilityView>;

/// The most opening brackets that a text handed to the visibility parser may
/// hold. syn's token buffer recurses once per nesting level, so an unbounded
/// nesting could exhaust the stack; a valid specifier holds one pair.
pub const MAX_OPEN_BRACKETS: usize = 256;

/// Whether `c` opens a delimited group.
pub open spec fn is_open_bracket(c: char) -> bool {
    c == '(' || c == '[' || c == '{'
}

/// How many opening brackets `s` holds.
pub open spec fn open_brackets(s: Seq<char>) -> nat
    decreases s.len(),
{
    if s.len() == 0 {
        0
    } else {
        open_brackets(s.drop_last()) + if is_open_bracket(s.last()) {
            1nat
        } else {
            0nat
        }
    }
}

/// Relies on `syn::parse_str::<syn::Visibility>`, which reads `pub`,
/// `pub(crate)`, `pub(self)`, `pub(super)`, `pub(in path)`, or nothing at all
/// (an empty input is the inherited visibility), and fails on anything else,
/// trailing tokens included. A restricted specifier is kept as its parts:
/// the `in` token, the path's leading `::`, and each segment's identifier.
/// The result is named for ASCII text only, and the text's nesting is
/// bounded so that syn's recursive token buffer stays within the stack.
#[verifier::external_body]
fn parse_visibility(s: &str) -> (r: Option<Visibility>)
    requires
        open_brackets(s@) <= MAX_OPEN_BRACKETS,
    ensures
        is_ascii_chars(s@) ==> opt_visibility_view(r) == visibility_parse(s@),
        s@.len() == 0 ==> opt_visibility_view(r) == Some(VisibilityView::Inherited),
{
    match syn::parse_str::<syn::Visibility>(s) {
        Ok(syn::Visibility::Public(_)) => Some(Visibility::Public),
        Ok(syn::Visibility::Restricted(v)) => Some(Visibility::Restricted {
            in_path: v.in_token.is_some(),
            leading_colon: v.path.leading_colon.is_some(),
            segments: v.path.segments.iter().map(|s| s.ident.to_string()).collect(),
        }),
        Ok(syn::Visibility::Inherited) => Some(Visibility::Inherited),
        Err(_) => None,
    }
}

/// The path of the visibility override annotation.
pub open spec fn visibility_path() -> Seq<char> {
    "new_visibility"@
}

/// The path of the annotation that suppresses the shared constructor.
pub open spec fn suppress_path() -> Seq<char> {
    "no_new_arc"@
}

/// The visibility that a parse result stands for: the parsed specifier, or
/// `pub` where the text was no specifier.
pub open spec fn visibility_or_public(parsed: Option<VisibilityView>) -> VisibilityView {
    match parsed {
        Some(v) => v,
        None => VisibilityView::Public,
    }
}

/// The visibility that the arguments of an override annotation give: a
/// malformed or missing argument list, or one nested too deeply to parse,
/// counts as no override at all. `None` where it is not determined by the
/// text alone (outside ASCII).
pub open spec fn visibility_from_args(args: Option<String>) -> Option<VisibilityView> {
    match args {
        Some(a) => if open_brackets(a@) > MAX_OPEN_BRACKETS {
            Some(VisibilityView::Public)
        } else if is_ascii_chars(a@) {
            Some(visibility_or_public(visibility_parse(a@)))
        } else {
            None
        },
        None => Some(VisibilityView::Public),
    }
}

/// The visibility configured by a list of annotations: the first override
/// annotation decides, and without one it is `pub`. `None` where the
/// deciding text is not ASCII.
pub open spec fn configured_visibility(attrs: Seq<Annotation>) -> Option<VisibilityView>
    decreases attrs.len(),
{
    if attrs.len() == 0 {
        Some(VisibilityView::Public)
    } else if attrs[0].path@ == visibility_path() {
        visibility_from_args(attrs[0].args)
    } else {
        configured_visibility(attrs.drop_first())
    }
}

/// Whether the first override annotation has an empty argument list
/// (`#[new_visibility()]`), which asks for private constructors.
pub open spec fn first_override_empty(attrs: Seq<Annotation>) -> bool
    decreases attrs.len(),
{
    if attrs.len() == 0 {
        false
    } else if attrs[0].path@ == visibility_path() {
        attrs[0].args matches Some(a) && a@.len() == 0
    } else {
        first_override_empty(attrs.drop_first())
    }
}

/// Whether some annotation suppresses the shared constructor.
pub open spec fn shared_suppressed(attrs: Seq<Annotation>) -> bool {
    exists|i: int| 0 <= i < attrs.len() && (#[trigger] attrs[i]).path@ == suppress_path()
}

/// The options that a declaration's annotations select.
#[derive(Debug)]
pub struct ConfigSet {
    pub visibility: Visibility,
    pub emit_shared_constructor: bool,
}

/// Takes a parse result over: the parsed specifier, or `pub` where there was
/// none.
pub fn visibility_or_default(parsed: Option<Visibility>) -> (r: Visibility)
    ensures
        r@ == visibility_or_public(opt_visibility_view(parsed)),
{
    match parsed {
        Some(v) => v,
        None => Visibility::Public,
    }
}

/// Whether `s` holds at most `MAX_OPEN_BRACKETS` opening brackets.
pub fn within_bracket_bound(s: &str) -> (r: bool)
    ensures
        r == (open_brackets(s@) <= MAX_OPEN_BRACKETS),
{
    let mut chars = s.chars();
    let mut count: usize = 0;
    let ghost mut seen: int = 0;
    loop
        invariant
            0 <= seen <= s@.len(),
            chars.obeys_prophetic_iter_laws(),
            chars.remaining() == s@.subrange(seen, s@.len() as int),
            count == open_brackets(s@.subrange(0, seen)),
            count <= MAX_OPEN_BRACKETS,
        decreases s@.len() - seen,
    {
        let next = chars.next();
        match next {
            Some(c) => {
                proof {
                    assert(s@.subrange(0, seen + 1).drop_last() =~= s@.subrange(0, seen));
                    assert(s@.subrange(seen, s@.len() as int).drop_first() =~= s@.subrange(
                        seen + 1,
                        s@.len() as int,
                    ));
                    seen = seen + 1;
                }
                if c == '(' || c == '[' || c == '{' {
                    if count == MAX_OPEN_BRACKETS {
                        proof {
                            lemma_open_brackets_prefix(s@, seen);
                        }
                        return false;
                    }
                    count = count + 1;
                }
            },
            None => {
                proof {
                    assert(s@.subrange(0, seen) =~= s@);
                }
                return true;
            },
        }
    }
}

/// A text holds at least as many opening brackets as any of its prefixes.
proof fn lemma_open_brackets_prefix(s: Seq<char>, k: int)
    requires
        0 <= k <= s.len(),
    ensures
        open_brackets(s.subrange(0, k)) <= open_brackets(s),
    decreases s.len() - k,
{
    if k < s.len() {
        lemma_open_brackets_prefix(s, k + 1);
        assert(s.subrange(0, k + 1).drop_last() =~= s.subrange(0, k));
    } else {
        assert(s.subrange(0, k) =~= s);
    }
}

/// The visibility that the arguments of an override annotation give.
pub fn visibility_from_annotation(args: &Option<String>) -> (r: Visibility)
    ensures
        visibility_from_args(*args) matches Some(v) ==> r@ == v,
        *args matches Some(a) && a@.len() == 0 ==> r@ == VisibilityView::Inherited,
{
    match args {
        Some(a) => if within_bracket_bound(a.as_str()) {
            visibility_or_default(parse_visibility(a.as_str()))
        } else {
            Visibility::Public
        },
        None => Visibility::Public,
    }
}

/// Reads the options from a declaration's annotations, ignoring all
/// annotations but the two it knows.
pub fn extract_config(annotations: &Vec<Annotation>) -> (r: ConfigSet)
    ensures
        configured_visibility(annotations@) matches Some(v) ==> r.visibility@ == v,
        first_override_empty(annotations@) ==> r.visibility@ == VisibilityView::Inherited,
        r.emit_shared_constructor == !shared_suppressed(annotations@),
{
    let vis_path = String::from_str("new_visibility");
    let suppress = String::from_str("no_new_arc");
    proof {
        reveal_strlit("new_visibility");
        reveal_strlit("no_new_arc");
    }
    let n = annotations.len();
    let mut visibility: Option<Visibility> = None;
    let mut emit_shared = true;
    let mut i: usize = 0;
    proof {
        assert(annotations@.subrange(0, n as int) =~= annotations@);
    }
    while i < n
        invariant
            n == annotations@.len(),
            0 <= i <= n,
            vis_path@ == visibility_path(),
            suppress@ == suppress_path(),
            emit_shared == !(exists|k: int|
                0 <= k < i && (#[trigger] annotations@[k]).path@ == suppress_path()),
            match visibility {
                Some(v) => (configured_visibility(annotations@) matches Some(w) ==> v@ == w) && (first_override_empty(
                    annotations@,
                ) ==> v@ == VisibilityView::Inherited),
                None => configured_visibility(annotations@) == configured_visibility(
                    annotations@.subrange(i as int, n as int),
                ) && first_override_empty(annotations@) == first_override_empty(
                    annotations@.subrange(i as int, n as int),
                ),
            },
        decreases n - i,
    {
        let a = &annotations[i];
        if a.path == suppress {
            emit_shared = false;
        }
        if visibility.is_none() && a.path == vis_path {
            proof {
                assert(annotations@.subrange(i as int, n as int)[0] == annotations@[i as int]);
            }
            visibility = Some(visibility_from_annotation(&a.args));
        } else if visibility.is_none() {
            proof {
                assert(annotations@.subrange(i as int, n as int).drop_first() =~= annotations@.subrange(
                    i + 1,
                    n as int,
                ));
            }
        }
        i = i + 1;
    }
    let visibility = match visibility {
        Some(v) => v,
        None => {
            proof {
                assert(annotations@.subrange(n as int, n as int).len() == 0);
            }
            Visibility::Public
        },
    };
    ConfigSet { visibility, emit_shared_constructor: emit_shared }
}

} // verus!
