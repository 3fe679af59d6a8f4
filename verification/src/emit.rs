//! Emission of the `ErrorLevel` impl for a classified enumeration: one
//! dispatch arm per leveled variant, one delegating arm per wrapping variant,
//! and one diagnostic per invalid variant. The emitted text is a pure
//! function of the type description, so generation is idempotent.

use vstd::prelude::*;

use crate::classify::{
    extract_variants, spec_extract, spec_tag_error_message, Diag, DiagView, Marked, MarkedView,
    TagFailure, TagFailureView, WithInnError, WithInnErrorView,
};
use crate::level::spec_level_expr;
use crate::model::{DataDesc, DataDescView, TypeDesc, TypeDescView, VariantDesc};

verus! {

/// A fatal failure: no implementation is generated at all.
#[derive(Clone, Debug)]
pub enum GenError {
    /// The annotated item is not an enumeration.
    NotAnEnum,
    /// A variant carries a malformed `level` tag.
    Tag(TagFailure),
}

pub enum GenErrorView {
    NotAnEnum,
    Tag(TagFailureView),
}

impl DeepView for GenError {
    type V = GenErrorView;

    open spec fn deep_view(&self) -> GenErrorView {
        match self {
            GenError::NotAnEnum => GenErrorView::NotAnEnum,
            GenError::Tag(f) => GenErrorView::Tag(f.deep_view()),
        }
    }
}

/// What generation produces for an enumeration with no malformed tag: the
/// implementation text, plus one diagnostic per invalid variant. The host
/// compilation can use the code only when there is no diagnostic.
#[derive(Clone, Debug)]
pub struct Generated {
    pub code: String,
    pub diagnostics: Vec<Diag>,
}

pub struct GeneratedView {
    pub code: Seq<char>,
    pub diagnostics: Seq<DiagView>,
}

impl DeepView for Generated {
    type V = GeneratedView;

    open spec fn deep_view(&self) -> GeneratedView {
        GeneratedView { code: self.code@, diagnostics: self.diagnostics.deep_view() }
    }
}

impl Generated {
    /// Whether generation succeeded. A diagnostic halts the host compilation,
    /// so the code is usable only when there is none.
    pub fn is_success(&self) -> (r: bool)
        ensures
            r == (self.deep_view().diagnostics.len() == 0),
    {
        self.diagnostics.len() == 0
    }
}

/// The opening of the generated impl, up to the first dispatch arm.
pub open spec fn spec_header(name: Seq<char>) -> Seq<char> {
    "impl ErrorLevel for "@ + name
        + " {\n    fn error_level(&self) -> Option<log::Level> {\n        match self {\n"@
}

/// The closing of the generated impl, after the last dispatch arm.
pub open spec fn spec_footer() -> Seq<char> {
    "        }\n    }\n}\n"@
}

/// The dispatch arm of one leveled variant.
pub open spec fn spec_marked_arm(name: Seq<char>, m: MarkedView) -> Seq<char> {
    "            "@ + name + "::"@ + m.variant_id + " => "@ + spec_level_expr(m.level) + ",\n"@
}

/// The dispatch arm of one delegating variant: it extracts the wrapped value
/// and asks it for its own level.
pub open spec fn spec_inner_arm(name: Seq<char>, w: WithInnErrorView) -> Seq<char> {
    "            "@ + name + "::"@ + w.variant_id + "(inn_err) => inn_err.error_level(),\n"@
}

/// The dispatch arms of all leveled variants, in declaration order.
pub open spec fn spec_marked_arms(name: Seq<char>, ms: Seq<MarkedView>) -> Seq<char>
    decreases ms.len(),
{
    if ms.len() == 0 {
        Seq::empty()
    } else {
        spec_marked_arms(name, ms.drop_last()) + spec_marked_arm(name, ms.last())
    }
}

/// The dispatch arms of all delegating variants, in declaration order.
pub open spec fn spec_inner_arms(name: Seq<char>, ws: Seq<WithInnErrorView>) -> Seq<char>
    decreases ws.len(),
{
    if ws.len() == 0 {
        Seq::empty()
    } else {
        spec_inner_arms(name, ws.drop_last()) + spec_inner_arm(name, ws.last())
    }
}

/// The whole generated implementation text: header, the leveled arms, the
/// delegating arms, footer.
pub open spec fn spec_code(
    name: Seq<char>,
    ms: Seq<MarkedView>,
    ws: Seq<WithInnErrorView>,
) -> Seq<char> {
    spec_header(name) + spec_marked_arms(name, ms) + spec_inner_arms(name, ws) + spec_footer()
}

/// What generation returns for the whole type: a fatal error for a non-enum
/// shape or a malformed tag, and the implementation text with the diagnostics
/// otherwise.
pub open spec fn spec_generate(t: TypeDescView) -> Result<GeneratedView, GenErrorView> {
    match t.data {
        DataDescView::NotEnum => Err(GenErrorView::NotAnEnum),
        DataDescView::Enum(vs) => match spec_extract(vs) {
            Err(f) => Err(GenErrorView::Tag(f)),
            Ok(ex) => Ok(
                GeneratedView {
                    code: spec_code(t.ident, ex.marked, ex.w_inner),
                    diagnostics: ex.diags,
                },
            ),
        },
    }
}

/// Renders the implementation text for the two groups of valid variants.
pub fn render_impl(name: &String, marked: &Vec<Marked>, w_inner: &Vec<WithInnError>) -> (r: String)
    ensures
        r@ == spec_code(name@, marked.deep_view(), w_inner.deep_view()),
{
    let ghost ms: Seq<MarkedView> = marked.deep_view();
    let ghost ws: Seq<WithInnErrorView> = w_inner.deep_view();
    let mut code = String::new();
    code.append("impl ErrorLevel for ");
    code.append(name.as_str());
    code.append(" {\n    fn error_level(&self) -> Option<log::Level> {\n        match self {\n");
    proof {
        assert(ms.subrange(0, 0) =~= Seq::<MarkedView>::empty());
        assert(code@ =~= spec_header(name@) + spec_marked_arms(name@, ms.subrange(0, 0)));
    }
    let n: usize = marked.len();
    let mut i: usize = 0;
    while i < n
        invariant
            n == marked.len(),
            i <= n,
            ms == marked.deep_view(),
            code@ == spec_header(name@) + spec_marked_arms(name@, ms.subrange(0, i as int)),
        decreases n - i,
    {
        let m = &marked[i];
        code.append("            ");
        code.append(name.as_str());
        code.append("::");
        code.append(m.variant_id.as_str());
        code.append(" => ");
        let expr = m.level.to_expr();
        code.append(expr.as_str());
        code.append(",\n");
        proof {
            assert(ms.subrange(0, i as int + 1).drop_last() =~= ms.subrange(0, i as int));
            assert(ms.subrange(0, i as int + 1).last() == m.deep_view());
            assert(code@ =~= spec_header(name@) + spec_marked_arms(
                name@,
                ms.subrange(0, i as int + 1),
            ));
        }
        i = i + 1;
    }
    proof {
        assert(ms.subrange(0, n as int) =~= ms);
        assert(ws.subrange(0, 0) =~= Seq::<WithInnErrorView>::empty());
        assert(code@ =~= spec_header(name@) + spec_marked_arms(name@, ms) + spec_inner_arms(
            name@,
            ws.subrange(0, 0),
        ));
    }
    let k: usize = w_inner.len();
    let mut j: usize = 0;
    while j < k
        invariant
            k == w_inner.len(),
            j <= k,
            ms == marked.deep_view(),
            ws == w_inner.deep_view(),
            code@ == spec_header(name@) + spec_marked_arms(name@, ms) + spec_inner_arms(
                name@,
                ws.subrange(0, j as int),
            ),
        decreases k - j,
    {
        let w = &w_inner[j];
        code.append("            ");
        code.append(name.as_str());
        code.append("::");
        code.append(w.variant_id.as_str());
        code.append("(inn_err) => inn_err.error_level(),\n");
        proof {
            assert(ws.subrange(0, j as int + 1).drop_last() =~= ws.subrange(0, j as int));
            assert(ws.subrange(0, j as int + 1).last() == w.deep_view());
            assert(code@ =~= spec_header(name@) + spec_marked_arms(name@, ms) + spec_inner_arms(
                name@,
                ws.subrange(0, j as int + 1),
            ));
        }
        j = j + 1;
    }
    code.append("        }\n    }\n}\n");
    proof {
        assert(ws.subrange(0, k as int) =~= ws);
        assert(code@ =~= spec_code(name@, ms, ws));
    }
    code
}

/// The variant list of an enumeration shape, or nothing: only enumerations
/// can be annotated.
pub fn unwrap_enum(data: &DataDesc) -> (r: Option<&Vec<VariantDesc>>)
    ensures
        match r {
            Some(vs) => data.deep_view() == DataDescView::Enum(vs.deep_view()),
            None => data.deep_view() is NotEnum,
        },
{
    match data {
        DataDesc::Enum(vs) => Some(vs),
        DataDesc::NotEnum => None,
    }
}

/// Generates the `ErrorLevel` implementation for one annotated type: rejects
/// a non-enum shape and a malformed tag outright, and otherwise returns the
/// implementation text together with one diagnostic per invalid variant. The
/// result is a function of the type description alone.
pub fn impl_error_level_macro(ast: &TypeDesc) -> (r: Result<Generated, GenError>)
    ensures
        (r matches Ok(g) ==> spec_generate(ast.deep_view()) == Ok::<GeneratedView, GenErrorView>(
            g.deep_view(),
        )),
        (r matches Err(e) ==> spec_generate(ast.deep_view()) == Err::<GeneratedView, GenErrorView>(
            e.deep_view(),
        )),
{
    match unwrap_enum(&ast.data) {
        None => Err(GenError::NotAnEnum),
        Some(variants) => match extract_variants(variants) {
            Err(f) => Err(GenError::Tag(f)),
            Ok(groups) => {
                let (marked, w_inner, diags) = groups;
                let code = render_impl(&ast.ident, &marked, &w_inner);
                Ok(Generated { code, diagnostics: diags })
            },
        },
    }
}

impl GenError {
    /// The diagnostic text for this fatal failure.
    pub fn message(&self) -> (r: String)
        ensures
            r@ == spec_gen_error_message(self.deep_view()),
    {
        match self {
            GenError::NotAnEnum => String::from_str("only enumerations are supported"),
            GenError::Tag(f) => f.error.message(),
        }
    }
}

/// The diagnostic text for each fatal failure.
pub open spec fn spec_gen_error_message(e: GenErrorView) -> Seq<char> {
    match e {
        GenErrorView::NotAnEnum => "only enumerations are supported"@,
        GenErrorView::Tag(f) => spec_tag_error_message(f.error),
    }
}

} // verus!
