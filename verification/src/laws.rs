//! The laws the classification and the generated dispatch obey, stated over
//! the spec-level extraction and dispatch and proved once for every type
//! description.

use vstd::prelude::*;

use crate::classify::{
    spec_classify, spec_extract, spec_is_level_attr, spec_tag_of_attrs, ClassView, DiagKind,
    DiagView, ExtractView, MarkedView, TagError, TagFailureView, WithInnErrorView,
};
use crate::dispatch::spec_dispatch;
use crate::emit::{spec_generate, GenErrorView, GeneratedView};
use crate::level::{spec_level_expr, spec_level_of_name, spec_reported, Level};
use crate::model::{ArgTokenView, AttrView, DataDescView, TypeDesc, VariantDescView};

verus! {

/// All variant identifiers are distinct, as they are in any legal enum.
pub open spec fn distinct_idents(vs: Seq<VariantDescView>) -> bool {
    forall|i: int, j: int| 0 <= i < j < vs.len() ==> vs[i].ident != vs[j].ident
}

/// Some variant of the list bears this identifier.
pub open spec fn has_ident(vs: Seq<VariantDescView>, name: Seq<char>) -> bool {
    exists|i: int| #![trigger vs[i].ident] 0 <= i < vs.len() && vs[i].ident == name
}

/// The diagnostic list contains this diagnostic.
pub open spec fn diag_in(ds: Seq<DiagView>, d: DiagView) -> bool {
    exists|j: int| #![trigger ds[j]] 0 <= j < ds.len() && ds[j] == d
}

pub open spec fn mk_marked(l: Level, id: Seq<char>) -> MarkedView {
    MarkedView { level: l, variant_id: id }
}

pub open spec fn mk_w_inner(n: Seq<char>, id: Seq<char>) -> WithInnErrorView {
    WithInnErrorView { inner_id: n, variant_id: id }
}

pub open spec fn mk_diag(id: Seq<char>, k: DiagKind) -> DiagView {
    DiagView { variant_id: id, kind: k }
}

pub open spec fn is_leveled(v: VariantDescView) -> bool {
    spec_classify(v) matches Ok(ClassView::Leveled(_))
}

pub open spec fn is_delegating(v: VariantDescView) -> bool {
    spec_classify(v) matches Ok(ClassView::Delegating(_))
}

pub open spec fn is_invalid(v: VariantDescView) -> bool {
    spec_classify(v) matches Ok(ClassView::Invalid(_))
}

/// Appending a leveled arm whose variant is not the one dispatched on does
/// not change what the dispatch returns.
proof fn lemma_dispatch_push_marked(
    marked: Seq<MarkedView>,
    w_inner: Seq<WithInnErrorView>,
    m: MarkedView,
    name: Seq<char>,
    inner: Option<Level>,
)
    requires
        m.variant_id != name,
    ensures
        spec_dispatch(marked.push(m), w_inner, name, inner) == spec_dispatch(
            marked,
            w_inner,
            name,
            inner,
        ),
    decreases marked.len(),
{
    if marked.len() == 0 {
        assert(marked.push(m)[0] == m);
        assert(marked.push(m).drop_first() =~= marked);
    } else {
        assert(marked.push(m)[0] == marked[0]);
        if marked[0].variant_id == name {
        } else {
            assert(marked.push(m).drop_first() =~= marked.drop_first().push(m));
            lemma_dispatch_push_marked(marked.drop_first(), w_inner, m, name, inner);
        }
    }
}

/// Appending a delegating arm whose variant is not the one dispatched on does
/// not change what the dispatch returns.
proof fn lemma_dispatch_push_inner(
    marked: Seq<MarkedView>,
    w_inner: Seq<WithInnErrorView>,
    w: WithInnErrorView,
    name: Seq<char>,
    inner: Option<Level>,
)
    requires
        w.variant_id != name,
    ensures
        spec_dispatch(marked, w_inner.push(w), name, inner) == spec_dispatch(
            marked,
            w_inner,
            name,
            inner,
        ),
    decreases marked.len() + w_inner.len(),
{
    if marked.len() > 0 {
        if marked[0].variant_id == name {
        } else {
            lemma_dispatch_push_inner(marked.drop_first(), w_inner, w, name, inner);
        }
    } else if w_inner.len() == 0 {
        assert(w_inner.push(w)[0] == w);
        assert(w_inner.push(w).drop_first() =~= w_inner);
    } else {
        assert(w_inner.push(w)[0] == w_inner[0]);
        if w_inner[0].variant_id == name {
        } else {
            assert(w_inner.push(w).drop_first() =~= w_inner.drop_first().push(w));
            lemma_dispatch_push_inner(marked, w_inner.drop_first(), w, name, inner);
        }
    }
}

/// Dispatching on a leveled arm just appended, whose variant no earlier
/// leveled arm covers, returns that arm's reported severity.
proof fn lemma_dispatch_finds_marked(
    marked: Seq<MarkedView>,
    w_inner: Seq<WithInnErrorView>,
    m: MarkedView,
    inner: Option<Level>,
)
    requires
        forall|j: int| #![trigger marked[j]] 0 <= j < marked.len() ==> marked[j].variant_id
            != m.variant_id,
    ensures
        spec_dispatch(marked.push(m), w_inner, m.variant_id, inner) == Some(spec_reported(m.level)),
    decreases marked.len(),
{
    if marked.len() == 0 {
        assert(marked.push(m)[0] == m);
    } else {
        assert(marked.push(m)[0] == marked[0]);
        assert(marked[0].variant_id != m.variant_id);
        assert(marked.push(m).drop_first() =~= marked.drop_first().push(m));
        assert forall|j: int| 0 <= j < marked.drop_first().len() implies marked.drop_first()[j].variant_id
            != m.variant_id by {
            assert(marked.drop_first()[j] == marked[j + 1]);
        }
        lemma_dispatch_finds_marked(marked.drop_first(), w_inner, m, inner);
    }
}

/// Dispatching on a delegating arm just appended, whose variant no leveled
/// arm and no earlier delegating arm covers, returns the wrapped value's own
/// level.
proof fn lemma_dispatch_finds_inner(
    marked: Seq<MarkedView>,
    w_inner: Seq<WithInnErrorView>,
    w: WithInnErrorView,
    inner: Option<Level>,
)
    requires
        forall|j: int| #![trigger marked[j]] 0 <= j < marked.len() ==> marked[j].variant_id
            != w.variant_id,
        forall|j: int| #![trigger w_inner[j]] 0 <= j < w_inner.len() ==> w_inner[j].variant_id
            != w.variant_id,
    ensures
        spec_dispatch(marked, w_inner.push(w), w.variant_id, inner) == Some(inner),
    decreases marked.len() + w_inner.len(),
{
    if marked.len() > 0 {
        assert(marked[0].variant_id != w.variant_id);
        assert forall|j: int| 0 <= j < marked.drop_first().len() implies marked.drop_first()[j].variant_id
            != w.variant_id by {
            assert(marked.drop_first()[j] == marked[j + 1]);
        }
        lemma_dispatch_finds_inner(marked.drop_first(), w_inner, w, inner);
    } else if w_inner.len() == 0 {
        assert(w_inner.push(w)[0] == w);
    } else {
        assert(w_inner.push(w)[0] == w_inner[0]);
        assert(w_inner[0].variant_id != w.variant_id);
        assert(w_inner.push(w).drop_first() =~= w_inner.drop_first().push(w));
        assert forall|j: int| 0 <= j < w_inner.drop_first().len() implies w_inner.drop_first()[j].variant_id
            != w.variant_id by {
            assert(w_inner.drop_first()[j] == w_inner[j + 1]);
        }
        lemma_dispatch_finds_inner(marked, w_inner.drop_first(), w, inner);
    }
}

/// When every variant classifies, extraction succeeds.
pub proof fn lemma_extract_ok(vs: Seq<VariantDescView>)
    requires
        forall|j: int| #![trigger vs[j]] 0 <= j < vs.len() ==> spec_classify(vs[j]) is Ok,
    ensures
        spec_extract(vs) is Ok,
    decreases vs.len(),
{
    if vs.len() == 0 {
    } else {
        let u = vs.drop_last();
        assert forall|j: int| 0 <= j < u.len() implies spec_classify(u[j]) is Ok by {
            assert(u[j] == vs[j]);
        }
        lemma_extract_ok(u);
        assert(spec_classify(vs.last()) is Ok);
    }
}

/// A malformed tag on any variant makes extraction fail.
pub proof fn lemma_extract_err(vs: Seq<VariantDescView>, i: int)
    requires
        0 <= i < vs.len(),
        spec_classify(vs[i]) is Err,
    ensures
        spec_extract(vs) is Err,
    decreases vs.len(),
{
    if i < vs.len() - 1 {
        assert(vs.drop_last()[i] == vs[i]);
        lemma_extract_err(vs.drop_last(), i);
    } else {
        assert(vs.last() == vs[i]);
    }
}

/// Extending the variant list keeps every identifier it already had.
proof fn lemma_has_ident_drop_last(vs: Seq<VariantDescView>, name: Seq<char>)
    requires
        vs.len() > 0,
        has_ident(vs.drop_last(), name),
    ensures
        has_ident(vs, name),
{
    let w = choose|w: int| 0 <= w < vs.drop_last().len() && vs.drop_last()[w].ident == name;
    assert(vs[w].ident == name);
}

/// Every arm extraction produces names an actual variant of the list.
proof fn lemma_extract_names(vs: Seq<VariantDescView>, ex: ExtractView)
    requires
        spec_extract(vs) == Ok::<ExtractView, TagFailureView>(ex),
    ensures
        forall|j: int| #![trigger ex.marked[j]] 0 <= j < ex.marked.len() ==> has_ident(
            vs,
            ex.marked[j].variant_id,
        ),
        forall|j: int| #![trigger ex.w_inner[j]] 0 <= j < ex.w_inner.len() ==> has_ident(
            vs,
            ex.w_inner[j].variant_id,
        ),
    decreases vs.len(),
{
    if vs.len() == 0 {
    } else {
        let u = vs.drop_last();
        let exu = spec_extract(u)->Ok_0;
        lemma_extract_names(u, exu);
        let v = vs.last();
        assert(vs[vs.len() - 1].ident == v.ident);
        assert(has_ident(vs, v.ident));
        assert forall|j: int| 0 <= j < ex.marked.len() implies has_ident(
            vs,
            ex.marked[j].variant_id,
        ) by {
            if j < exu.marked.len() {
                assert(ex.marked[j] == exu.marked[j]);
                lemma_has_ident_drop_last(vs, exu.marked[j].variant_id);
            } else {
                assert(ex.marked[j].variant_id == v.ident);
            }
        }
        assert forall|j: int| 0 <= j < ex.w_inner.len() implies has_ident(
            vs,
            ex.w_inner[j].variant_id,
        ) by {
            if j < exu.w_inner.len() {
                assert(ex.w_inner[j] == exu.w_inner[j]);
                lemma_has_ident_drop_last(vs, exu.w_inner[j].variant_id);
            } else {
                assert(ex.w_inner[j].variant_id == v.ident);
            }
        }
    }
}

/// What the generated dispatch returns for any valid variant of an extracted
/// enumeration: a leveled variant yields its reported severity, a delegating
/// variant yields whatever the wrapped value reports.
proof fn lemma_extract_dispatch(
    vs: Seq<VariantDescView>,
    ex: ExtractView,
    i: int,
    inner: Option<Level>,
)
    requires
        spec_extract(vs) == Ok::<ExtractView, TagFailureView>(ex),
        distinct_idents(vs),
        0 <= i < vs.len(),
    ensures
        (spec_classify(vs[i]) matches Ok(ClassView::Leveled(l)) ==> spec_dispatch(
            ex.marked,
            ex.w_inner,
            vs[i].ident,
            inner,
        ) == Some(spec_reported(l))),
        (spec_classify(vs[i]) matches Ok(ClassView::Delegating(n)) ==> spec_dispatch(
            ex.marked,
            ex.w_inner,
            vs[i].ident,
            inner,
        ) == Some(inner)),
    decreases vs.len(),
{
    let u = vs.drop_last();
    let exu = spec_extract(u)->Ok_0;
    let v = vs.last();
    assert forall|a: int, b: int| 0 <= a < b < u.len() implies u[a].ident != u[b].ident by {
        assert(u[a] == vs[a]);
        assert(u[b] == vs[b]);
    }
    if i < vs.len() - 1 {
        assert(u[i] == vs[i]);
        lemma_extract_dispatch(u, exu, i, inner);
        assert(vs[i].ident != vs[vs.len() - 1].ident);
        match spec_classify(v) {
            Ok(ClassView::Leveled(l)) => {
                lemma_dispatch_push_marked(
                    exu.marked,
                    exu.w_inner,
                    mk_marked(l, v.ident),
                    vs[i].ident,
                    inner,
                );
            },
            Ok(ClassView::Delegating(n)) => {
                lemma_dispatch_push_inner(
                    exu.marked,
                    exu.w_inner,
                    mk_w_inner(n, v.ident),
                    vs[i].ident,
                    inner,
                );
            },
            Ok(ClassView::Invalid(_)) => {},
            Err(_) => {
                assert(false);
            },
        }
    } else {
        assert(vs[i] == v);
        lemma_extract_names(u, exu);
        assert forall|j: int| 0 <= j < exu.marked.len() implies exu.marked[j].variant_id
            != v.ident by {
            if exu.marked[j].variant_id == v.ident {
                let w = choose|w: int|
                    0 <= w < u.len() && u[w].ident == exu.marked[j].variant_id;
                assert(u[w] == vs[w]);
                assert(vs[w].ident != vs[vs.len() - 1].ident);
            }
        }
        assert forall|j: int| 0 <= j < exu.w_inner.len() implies exu.w_inner[j].variant_id
            != v.ident by {
            if exu.w_inner[j].variant_id == v.ident {
                let w = choose|w: int|
                    0 <= w < u.len() && u[w].ident == exu.w_inner[j].variant_id;
                assert(u[w] == vs[w]);
                assert(vs[w].ident != vs[vs.len() - 1].ident);
            }
        }
        match spec_classify(v) {
            Ok(ClassView::Leveled(l)) => {
                lemma_dispatch_finds_marked(exu.marked, exu.w_inner, mk_marked(l, v.ident), inner);
            },
            Ok(ClassView::Delegating(n)) => {
                lemma_dispatch_finds_inner(exu.marked, exu.w_inner, mk_w_inner(n, v.ident), inner);
            },
            Ok(ClassView::Invalid(_)) => {},
            Err(_) => {
                assert(false);
            },
        }
    }
}

/// A diagnostic stays in the list when another is appended after it.
proof fn lemma_diag_in_push(ds: Seq<DiagView>, d: DiagView, d2: DiagView)
    requires
        diag_in(ds, d),
    ensures
        diag_in(ds.push(d2), d),
{
    let w = choose|w: int| 0 <= w < ds.len() && ds[w] == d;
    assert(ds.push(d2)[w] == d);
}

/// Extraction is a partition: the three groups together account for every
/// variant exactly once, and every invalid variant's diagnostic is in the
/// diagnostic list.
pub proof fn lemma_extract_partition(vs: Seq<VariantDescView>, ex: ExtractView)
    requires
        spec_extract(vs) == Ok::<ExtractView, TagFailureView>(ex),
    ensures
        ex.marked.len() + ex.w_inner.len() + ex.diags.len() == vs.len(),
        forall|i: int|
            #![trigger vs[i]]
            0 <= i < vs.len() ==> (spec_classify(vs[i]) matches Ok(ClassView::Invalid(k))
                ==> diag_in(ex.diags, mk_diag(vs[i].ident, k))),
    decreases vs.len(),
{
    if vs.len() == 0 {
    } else {
        let u = vs.drop_last();
        let exu = spec_extract(u)->Ok_0;
        lemma_extract_partition(u, exu);
        let v = vs.last();
        assert forall|i: int| #![trigger vs[i]] 0 <= i < vs.len() implies (spec_classify(vs[i])
            matches Ok(ClassView::Invalid(k)) ==> diag_in(ex.diags, mk_diag(vs[i].ident, k))) by {
            match spec_classify(vs[i]) {
                Ok(ClassView::Invalid(k)) => {
                    if i < vs.len() - 1 {
                        assert(u[i] == vs[i]);
                        assert(diag_in(exu.diags, mk_diag(vs[i].ident, k)));
                        match spec_classify(v) {
                            Ok(ClassView::Invalid(k2)) => {
                                lemma_diag_in_push(
                                    exu.diags,
                                    mk_diag(vs[i].ident, k),
                                    mk_diag(v.ident, k2),
                                );
                            },
                            _ => {},
                        }
                    } else {
                        assert(vs[i] == v);
                        assert(ex.diags[exu.diags.len() as int] == mk_diag(v.ident, k));
                    }
                },
                _ => {},
            }
        }
    }
}

/// Law: in an enumeration whose variants all carry a valid severity tag,
/// extraction succeeds and the generated dispatch returns exactly the
/// declared severity of each variant; a variant tagged `No` is reported as
/// absent.
pub proof fn lemma_all_leveled_exact(
    vs: Seq<VariantDescView>,
    i: int,
    l: Level,
    inner: Option<Level>,
)
    requires
        distinct_idents(vs),
        forall|j: int| #![trigger vs[j]] 0 <= j < vs.len() ==> is_leveled(vs[j]),
        0 <= i < vs.len(),
        spec_classify(vs[i]) == Ok::<ClassView, TagError>(ClassView::Leveled(l)),
    ensures
        spec_extract(vs) is Ok,
        spec_dispatch(
            spec_extract(vs)->Ok_0.marked,
            spec_extract(vs)->Ok_0.w_inner,
            vs[i].ident,
            inner,
        ) == Some(spec_reported(l)),
        l == Level::No ==> spec_dispatch(
            spec_extract(vs)->Ok_0.marked,
            spec_extract(vs)->Ok_0.w_inner,
            vs[i].ident,
            inner,
        ) == Some(None::<Level>),
{
    assert forall|j: int| 0 <= j < vs.len() implies spec_classify(vs[j]) is Ok by {
        assert(is_leveled(vs[j]));
    }
    lemma_extract_ok(vs);
    lemma_extract_dispatch(vs, spec_extract(vs)->Ok_0, i, inner);
}

/// Law (recursive transparency): a delegating variant is reported exactly as
/// its wrapped value reports itself — the dispatch hands back `inner`
/// unchanged, whatever it is.
pub proof fn lemma_delegation_transparent(
    vs: Seq<VariantDescView>,
    ex: ExtractView,
    i: int,
    inner: Option<Level>,
)
    requires
        distinct_idents(vs),
        spec_extract(vs) == Ok::<ExtractView, TagFailureView>(ex),
        0 <= i < vs.len(),
        is_delegating(vs[i]),
    ensures
        spec_dispatch(ex.marked, ex.w_inner, vs[i].ident, inner) == Some(inner),
{
    lemma_extract_dispatch(vs, ex, i, inner);
}

/// Law: when generation returns a result for an enumeration, its diagnostic
/// list references every invalid variant, and it is nonempty as soon as one
/// variant is invalid — generation never silently ignores a variant.
pub proof fn lemma_invalid_variants_reported(
    t: TypeDesc,
    vs: Seq<VariantDescView>,
    g: GeneratedView,
)
    requires
        t.deep_view().data == DataDescView::Enum(vs),
        spec_generate(t.deep_view()) == Ok::<GeneratedView, GenErrorView>(g),
    ensures
        forall|i: int|
            #![trigger vs[i]]
            0 <= i < vs.len() ==> (spec_classify(vs[i]) matches Ok(ClassView::Invalid(k))
                ==> diag_in(g.diagnostics, mk_diag(vs[i].ident, k))),
        (exists|i: int| #![trigger vs[i]] 0 <= i < vs.len() && is_invalid(vs[i]))
            ==> g.diagnostics.len() > 0,
{
    let ex = spec_extract(vs)->Ok_0;
    lemma_extract_partition(vs, ex);
    if exists|i: int| #![trigger vs[i]] 0 <= i < vs.len() && is_invalid(vs[i]) {
        let i = choose|i: int| #![trigger vs[i]] 0 <= i < vs.len() && is_invalid(vs[i]);
        match spec_classify(vs[i]) {
            Ok(ClassView::Invalid(k)) => {
                assert(diag_in(g.diagnostics, mk_diag(vs[i].ident, k)));
                let w = choose|w: int|
                    0 <= w < g.diagnostics.len() && g.diagnostics[w] == mk_diag(vs[i].ident, k);
                assert(g.diagnostics.len() > 0);
            },
            _ => {},
        }
    }
}

/// Law (idempotence): generation is a pure function of the type description —
/// two runs on equal descriptions yield the same result, in particular
/// byte-identical generated code.
pub proof fn lemma_generation_idempotent(t1: TypeDesc, t2: TypeDesc)
    requires
        t1.deep_view() == t2.deep_view(),
    ensures
        spec_generate(t1.deep_view()) == spec_generate(t2.deep_view()),
{
}

/// Law: when the first `level` tag of a variant names an unrecognized
/// identifier, reading the tag fails with `UnknownSeverity` — it never falls
/// back to a default severity.
pub proof fn lemma_unknown_name_tag_err(attrs: Seq<AttrView>, i: int, s: Seq<char>)
    requires
        0 <= i < attrs.len(),
        spec_is_level_attr(attrs[i]),
        forall|j: int| #![trigger attrs[j]] 0 <= j < i ==> !spec_is_level_attr(attrs[j]),
        attrs[i].args->Some_0.len() > 0,
        attrs[i].args->Some_0[0] == ArgTokenView::Ident(s),
        spec_level_of_name(s) is None,
    ensures
        spec_tag_of_attrs(attrs) == Err::<Option<Level>, TagError>(TagError::UnknownSeverity),
    decreases i,
{
    if i == 0 {
    } else {
        assert(!spec_is_level_attr(attrs[0]));
        assert(attrs.drop_first()[i - 1] == attrs[i]);
        assert forall|j: int| 0 <= j < i - 1 implies !spec_is_level_attr(
            attrs.drop_first()[j],
        ) by {
            assert(attrs.drop_first()[j] == attrs[j + 1]);
        }
        lemma_unknown_name_tag_err(attrs.drop_first(), i - 1, s);
    }
}

/// Law: the emitted arm expression agrees with the dispatch semantics — an
/// arm reads `None` exactly when its variant's severity is suppressed.
pub proof fn lemma_level_expr_matches_reported(l: Level)
    ensures
        (spec_level_expr(l) == "None"@) <==> (spec_reported(l) is None),
{
    reveal_strlit("None");
    reveal_strlit("Some(log::Level::Trace)");
    reveal_strlit("Some(log::Level::Debug)");
    reveal_strlit("Some(log::Level::Info)");
    reveal_strlit("Some(log::Level::Warn)");
    reveal_strlit("Some(log::Level::Error)");
    assert("None"@.len() == 4);
    assert("Some(log::Level::Trace)"@.len() == 23);
    assert("Some(log::Level::Debug)"@.len() == 23);
    assert("Some(log::Level::Info)"@.len() == 22);
    assert("Some(log::Level::Warn)"@.len() == 22);
    assert("Some(log::Level::Error)"@.len() == 23);
}

/// Law: a malformed tag on any variant fails generation of the whole type; no
/// implementation and no default severity is ever produced for it.
pub proof fn lemma_bad_tag_fails_generation(t: TypeDesc, vs: Seq<VariantDescView>, i: int)
    requires
        t.deep_view().data == DataDescView::Enum(vs),
        0 <= i < vs.len(),
        spec_tag_of_attrs(vs[i].attrs) is Err,
    ensures
        spec_generate(t.deep_view()) is Err,
{
    lemma_extract_err(vs, i);
}

} // verus!
