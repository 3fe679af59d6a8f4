//! Reading the `level(...)` tag off a variant's attributes, and sorting the
//! variants of an enumeration into the three groups generation works from:
//! explicitly leveled, delegating to a wrapped named type, and invalid.

use vstd::prelude::*;

use crate::level::{spec_level_of_name, Level};
use crate::model::{
    ArgToken, ArgTokenView, Attr, AttrView, FieldType, FieldTypeView, FieldsDesc, FieldsDescView,
    VariantDesc, VariantDescView,
};

verus! {

/// Why reading a `level(...)` tag failed. Any such failure aborts generation
/// for the whole type.
#[derive(Clone, Copy, Debug, PartialEq, Eq, Structural)]
pub enum TagError {
    /// The tag carries no argument at all, as in `level()`.
    NoArgument,
    /// The tag's first argument is not a single simple identifier.
    NotAnIdent,
    /// The tag's first argument is an identifier, but not one of the six
    /// recognized severity names.
    UnknownSeverity,
}

/// Which diagnostic an invalid variant earns.
#[derive(Clone, Copy, Debug, PartialEq, Eq, Structural)]
pub enum DiagKind {
    /// The variant has no tag and no fields a delegation could use: it must
    /// be tagged.
    MissingTag,
    /// The variant has no tag and carries unnamed fields, but not exactly one
    /// field of a simple named type, so it cannot delegate.
    NotDelegatable,
}

/// A variant carrying an explicit severity tag.
#[derive(Clone, Debug)]
pub struct Marked {
    pub level: Level,
    pub variant_id: String,
}

pub struct MarkedView {
    pub level: Level,
    pub variant_id: Seq<char>,
}

impl DeepView for Marked {
    type V = MarkedView;

    open spec fn deep_view(&self) -> MarkedView {
        MarkedView { level: self.level, variant_id: self.variant_id@ }
    }
}

/// An untagged variant that wraps one value of a named type and delegates the
/// classification to it.
#[derive(Clone, Debug)]
pub struct WithInnError {
    pub inner_id: String,
    pub variant_id: String,
}

pub struct WithInnErrorView {
    pub inner_id: Seq<char>,
    pub variant_id: Seq<char>,
}

impl DeepView for WithInnError {
    type V = WithInnErrorView;

    open spec fn deep_view(&self) -> WithInnErrorView {
        WithInnErrorView { inner_id: self.inner_id@, variant_id: self.variant_id@ }
    }
}

/// One diagnostic, anchored to the variant it is about.
#[derive(Clone, Debug)]
pub struct Diag {
    pub variant_id: String,
    pub kind: DiagKind,
}

pub struct DiagView {
    pub variant_id: Seq<char>,
    pub kind: DiagKind,
}

impl DeepView for Diag {
    type V = DiagView;

    open spec fn deep_view(&self) -> DiagView {
        DiagView { variant_id: self.variant_id@, kind: self.kind }
    }
}

/// A malformed tag, anchored to the variant that carries it.
#[derive(Clone, Debug)]
pub struct TagFailure {
    pub variant_id: String,
    pub error: TagError,
}

pub struct TagFailureView {
    pub variant_id: Seq<char>,
    pub error: TagError,
}

impl DeepView for TagFailure {
    type V = TagFailureView;

    open spec fn deep_view(&self) -> TagFailureView {
        TagFailureView { variant_id: self.variant_id@, error: self.error }
    }
}

/// Whether an attribute is a recognized severity tag: the list form whose
/// name is exactly `level`. Every other attribute is ignored.
pub open spec fn spec_is_level_attr(a: AttrView) -> bool {
    &&& a.name == "level"@
    &&& a.args is Some
}

/// The severity named by a tag's argument list: the first argument must be a
/// single simple identifier naming one of the six severities; everything else
/// fails. Arguments after the first are ignored.
pub open spec fn spec_parse_tag_args(args: Seq<ArgTokenView>) -> Result<Level, TagError> {
    if args.len() == 0 {
        Err(TagError::NoArgument)
    } else {
        match args[0] {
            ArgTokenView::Ident(s) => match spec_level_of_name(s) {
                Some(l) => Ok(l),
                None => Err(TagError::UnknownSeverity),
            },
            ArgTokenView::Lit => Err(TagError::NotAnIdent),
            ArgTokenView::Compound => Err(TagError::NotAnIdent),
        }
    }
}

/// The tag a variant's attribute list carries: `Ok(None)` when no attribute
/// is a `level` tag, the parsed severity of the first `level` tag otherwise.
/// Only the first tag is honored.
pub open spec fn spec_tag_of_attrs(attrs: Seq<AttrView>) -> Result<Option<Level>, TagError>
    decreases attrs.len(),
{
    if attrs.len() == 0 {
        Ok(None)
    } else if spec_is_level_attr(attrs[0]) {
        match attrs[0].args {
            Some(args) => match spec_parse_tag_args(args) {
                Ok(l) => Ok(Some(l)),
                Err(e) => Err(e),
            },
            // a level attribute always has an argument list
            None => Ok(None),
        }
    } else {
        spec_tag_of_attrs(attrs.drop_first())
    }
}

/// Whether some attribute of the list is a `level` tag.
pub open spec fn spec_has_level_attr(attrs: Seq<AttrView>) -> bool {
    exists|i: int| 0 <= i < attrs.len() && spec_is_level_attr(attrs[i])
}

/// The name a field type delegates to, if it has one.
pub open spec fn spec_valid_inner(t: FieldTypeView) -> Option<Seq<char>> {
    match t {
        FieldTypeView::Named(n) => Some(n),
        FieldTypeView::NamedRef(n) => Some(n),
        FieldTypeView::Opaque => None,
    }
}

/// The unnamed field types of a shape, when there are any: only a tuple-style
/// variant with at least one field can try to delegate.
pub open spec fn spec_inner_fields(f: FieldsDescView) -> Option<Seq<FieldTypeView>> {
    match f {
        FieldsDescView::Unnamed(ts) => if ts.len() > 0 {
            Some(ts)
        } else {
            None
        },
        _ => None,
    }
}

/// Whether an untagged variant with this field shape can delegate: it needs
/// exactly one unnamed field of a simple named type. Otherwise the shape
/// decides which diagnostic the variant earns.
pub open spec fn spec_delegate_of(f: FieldsDescView) -> Result<Seq<char>, DiagKind> {
    match spec_inner_fields(f) {
        None => Err(DiagKind::MissingTag),
        Some(ts) => if ts.len() == 1 {
            match spec_valid_inner(ts[0]) {
                Some(n) => Ok(n),
                None => Err(DiagKind::NotDelegatable),
            }
        } else {
            Err(DiagKind::NotDelegatable)
        },
    }
}

/// The unnamed fields a delegation could use, or `None` when the variant
/// carries a `level` tag or has no unnamed fields.
pub open spec fn spec_has_inner(v: VariantDescView) -> Option<Seq<FieldTypeView>> {
    if spec_has_level_attr(v.attrs) {
        None
    } else {
        spec_inner_fields(v.fields)
    }
}

/// The one group a variant belongs to, or the tag error that aborts
/// generation.
pub enum ClassView {
    Leveled(Level),
    Delegating(Seq<char>),
    Invalid(DiagKind),
}

/// Classification of one variant: a valid tag makes it leveled; otherwise a
/// single unnamed field of a named type makes it delegating; otherwise it is
/// invalid. A malformed tag fails classification outright.
pub open spec fn spec_classify(v: VariantDescView) -> Result<ClassView, TagError> {
    match spec_tag_of_attrs(v.attrs) {
        Err(e) => Err(e),
        Ok(Some(l)) => Ok(ClassView::Leveled(l)),
        Ok(None) => match spec_delegate_of(v.fields) {
            Ok(n) => Ok(ClassView::Delegating(n)),
            Err(k) => Ok(ClassView::Invalid(k)),
        },
    }
}

/// The three groups, each in declaration order.
pub struct ExtractView {
    pub marked: Seq<MarkedView>,
    pub w_inner: Seq<WithInnErrorView>,
    pub diags: Seq<DiagView>,
}

pub open spec fn spec_groups(
    marked: Seq<MarkedView>,
    w_inner: Seq<WithInnErrorView>,
    diags: Seq<DiagView>,
) -> ExtractView {
    ExtractView { marked, w_inner, diags }
}

/// The partition of a variant list into the three groups, or the first
/// malformed tag in declaration order. Each group keeps declaration order.
pub open spec fn spec_extract(vs: Seq<VariantDescView>) -> Result<ExtractView, TagFailureView>
    decreases vs.len(),
{
    if vs.len() == 0 {
        Ok(spec_groups(Seq::empty(), Seq::empty(), Seq::empty()))
    } else {
        match spec_extract(vs.drop_last()) {
            Err(e) => Err(e),
            Ok(ex) => match spec_classify(vs.last()) {
                Err(e) => Err(TagFailureView { variant_id: vs.last().ident, error: e }),
                Ok(ClassView::Leveled(l)) => Ok(
                    spec_groups(
                        ex.marked.push(MarkedView { level: l, variant_id: vs.last().ident }),
                        ex.w_inner,
                        ex.diags,
                    ),
                ),
                Ok(ClassView::Delegating(n)) => Ok(
                    spec_groups(
                        ex.marked,
                        ex.w_inner.push(
                            WithInnErrorView { inner_id: n, variant_id: vs.last().ident },
                        ),
                        ex.diags,
                    ),
                ),
                Ok(ClassView::Invalid(k)) => Ok(
                    spec_groups(
                        ex.marked,
                        ex.w_inner,
                        ex.diags.push(DiagView { variant_id: vs.last().ident, kind: k }),
                    ),
                ),
            },
        }
    }
}

/// A malformed tag in a prefix of the variant list aborts the whole
/// extraction with that same failure.
pub proof fn lemma_extract_prefix_err(vs: Seq<VariantDescView>, k: int)
    requires
        0 <= k <= vs.len(),
        spec_extract(vs.subrange(0, k)) is Err,
    ensures
        spec_extract(vs) == spec_extract(vs.subrange(0, k)),
    decreases vs.len() - k,
{
    if k == vs.len() {
        assert(vs.subrange(0, k) =~= vs);
    } else {
        assert(vs.subrange(0, k + 1).drop_last() =~= vs.subrange(0, k));
        lemma_extract_prefix_err(vs, k + 1);
    }
}

/// A tag of `Ok(None)` means no attribute of the list is a `level` tag.
pub proof fn lemma_tag_none_no_level_attr(attrs: Seq<AttrView>)
    requires
        spec_tag_of_attrs(attrs) == Ok::<Option<Level>, TagError>(None),
    ensures
        !spec_has_level_attr(attrs),
    decreases attrs.len(),
{
    if attrs.len() == 0 {
    } else if spec_is_level_attr(attrs[0]) {
    } else {
        lemma_tag_none_no_level_attr(attrs.drop_first());
        assert forall|i: int| 0 <= i < attrs.len() implies !spec_is_level_attr(attrs[i]) by {
            if i > 0 {
                assert(attrs.drop_first()[i - 1] == attrs[i]);
                assert(!spec_is_level_attr(attrs.drop_first()[i - 1]));
            }
        }
    }
}

/// Whether this attribute is a recognized `level` tag.
pub fn has_level_path(a: &Attr) -> (r: bool)
    ensures
        r == spec_is_level_attr(a.deep_view()),
{
    let lv: String = String::from_str("level");
    a.args.is_some() && a.name == lv
}

/// Reads the severity out of a tag's argument list.
pub fn parse_level_args(args: &Vec<ArgToken>) -> (r: Result<Level, TagError>)
    ensures
        r == spec_parse_tag_args(args.deep_view()),
{
    if args.len() == 0 {
        Err(TagError::NoArgument)
    } else {
        match &args[0] {
            ArgToken::Ident(s) => match Level::from_ident(s) {
                Some(l) => Ok(l),
                None => Err(TagError::UnknownSeverity),
            },
            ArgToken::Lit => Err(TagError::NotAnIdent),
            ArgToken::Compound => Err(TagError::NotAnIdent),
        }
    }
}

/// The severity tag of a variant, if any: scans the attributes in order and
/// honors the first `level` tag; all other attributes are ignored.
pub fn with_log_level(v: &VariantDesc) -> (r: Result<Option<Level>, TagError>)
    ensures
        r == spec_tag_of_attrs(v.deep_view().attrs),
{
    let ghost all: Seq<AttrView> = v.deep_view().attrs;
    proof {
        assert(all.skip(0) =~= all);
    }
    let n: usize = v.attrs.len();
    let mut i: usize = 0;
    while i < n
        invariant
            n == v.attrs.len(),
            i <= n,
            all == v.deep_view().attrs,
            spec_tag_of_attrs(all) == spec_tag_of_attrs(all.skip(i as int)),
        decreases n - i,
    {
        let a = &v.attrs[i];
        proof {
            assert(all.skip(i as int)[0] == all[i as int]);
        }
        if has_level_path(a) {
            if let Some(args) = &a.args {
                return match parse_level_args(args) {
                    Ok(l) => Ok(Some(l)),
                    Err(e) => Err(e),
                };
            } else {
                return unreached();
            }
        }
        proof {
            assert(all.skip(i as int).drop_first() =~= all.skip(i as int + 1));
        }
        i = i + 1;
    }
    proof {
        assert(all.skip(n as int) =~= Seq::<AttrView>::empty());
    }
    Ok(None)
}

/// The name a field type could delegate to.
pub fn is_valid_inner(ty: &FieldType) -> (r: Option<&String>)
    ensures
        match r {
            Some(n) => spec_valid_inner(ty.deep_view()) == Some(n@),
            None => spec_valid_inner(ty.deep_view()) is None,
        },
{
    match ty {
        FieldType::Named(n) => Some(n),
        FieldType::NamedRef(n) => Some(n),
        FieldType::Opaque => None,
    }
}

/// The unnamed fields a delegation could use: present only when the variant
/// has no `level` tag and is tuple-style with at least one field.
pub fn has_inner(v: &VariantDesc) -> (r: Option<&Vec<FieldType>>)
    ensures
        match r {
            Some(ts) => spec_has_inner(v.deep_view()) == Some(ts.deep_view()),
            None => spec_has_inner(v.deep_view()) is None,
        },
{
    let n: usize = v.attrs.len();
    let mut i: usize = 0;
    while i < n
        invariant
            n == v.attrs.len(),
            i <= n,
            forall|j: int| 0 <= j < i ==> !spec_is_level_attr(v.deep_view().attrs[j]),
        decreases n - i,
    {
        if has_level_path(&v.attrs[i]) {
            proof {
                assert(spec_is_level_attr(v.deep_view().attrs[i as int]));
            }
            return None;
        }
        i = i + 1;
    }
    match &v.fields {
        FieldsDesc::Unnamed(ts) => if ts.len() > 0 {
            Some(ts)
        } else {
            None
        },
        FieldsDesc::Unit => None,
        FieldsDesc::Named => None,
    }
}

/// Partitions the variants into the three groups, in declaration order, or
/// reports the first malformed tag. Every variant lands in exactly one group.
pub fn extract_variants(variants: &Vec<VariantDesc>) -> (r: Result<
    (Vec<Marked>, Vec<WithInnError>, Vec<Diag>),
    TagFailure,
>)
    ensures
        (r matches Ok(g) ==> spec_extract(variants.deep_view()) == Ok::<
            ExtractView,
            TagFailureView,
        >(spec_groups(g.0.deep_view(), g.1.deep_view(), g.2.deep_view()))),
        (r matches Err(e) ==> spec_extract(variants.deep_view()) == Err::<
            ExtractView,
            TagFailureView,
        >(e.deep_view())),
{
    let ghost views: Seq<VariantDescView> = variants.deep_view();
    let mut marked: Vec<Marked> = Vec::new();
    let mut w_inner: Vec<WithInnError> = Vec::new();
    let mut diags: Vec<Diag> = Vec::new();
    proof {
        assert(views.subrange(0, 0) =~= Seq::<VariantDescView>::empty());
        assert(marked.deep_view() =~= Seq::<MarkedView>::empty());
        assert(w_inner.deep_view() =~= Seq::<WithInnErrorView>::empty());
        assert(diags.deep_view() =~= Seq::<DiagView>::empty());
    }
    let n: usize = variants.len();
    let mut i: usize = 0;
    while i < n
        invariant
            n == variants.len(),
            i <= n,
            views == variants.deep_view(),
            spec_extract(views.subrange(0, i as int)) == Ok::<ExtractView, TagFailureView>(
                spec_groups(marked.deep_view(), w_inner.deep_view(), diags.deep_view()),
            ),
        decreases n - i,
    {
        let v = &variants[i];
        let ghost pre_marked = marked.deep_view();
        let ghost pre_w_inner = w_inner.deep_view();
        let ghost pre_diags = diags.deep_view();
        proof {
            assert(views[i as int] == v.deep_view());
            assert(views.subrange(0, i as int + 1).drop_last() =~= views.subrange(0, i as int));
            assert(views.subrange(0, i as int + 1).last() == views[i as int]);
        }
        match with_log_level(v) {
            Err(e) => {
                let fail = TagFailure { variant_id: v.ident.clone(), error: e };
                proof {
                    assert(spec_extract(views.subrange(0, i as int + 1)) == Err::<
                        ExtractView,
                        TagFailureView,
                    >(fail.deep_view()));
                    lemma_extract_prefix_err(views, i as int + 1);
                }
                return Err(fail);
            },
            Ok(Some(l)) => {
                marked.push(Marked { level: l, variant_id: v.ident.clone() });
                proof {
                    assert(spec_classify(views[i as int]) == Ok::<ClassView, TagError>(
                        ClassView::Leveled(l),
                    ));
                    assert(marked.deep_view() =~= pre_marked.push(
                        MarkedView { level: l, variant_id: views[i as int].ident },
                    ));
                }
            },
            Ok(None) => {
                proof {
                    lemma_tag_none_no_level_attr(views[i as int].attrs);
                }
                let mut delegated: Option<String> = None;
                let mut kind: DiagKind = DiagKind::MissingTag;
                match has_inner(v) {
                    Some(ts) => {
                        if ts.len() == 1 {
                            match is_valid_inner(&ts[0]) {
                                Some(inner_id) => {
                                    delegated = Some(inner_id.clone());
                                },
                                None => {
                                    kind = DiagKind::NotDelegatable;
                                },
                            }
                        } else {
                            kind = DiagKind::NotDelegatable;
                        }
                    },
                    None => {
                        kind = DiagKind::MissingTag;
                    },
                }
                match delegated {
                    Some(inner_id) => {
                        proof {
                            assert(spec_classify(views[i as int]) == Ok::<ClassView, TagError>(
                                ClassView::Delegating(inner_id@),
                            ));
                        }
                        w_inner.push(WithInnError { inner_id, variant_id: v.ident.clone() });
                        proof {
                            assert(w_inner.deep_view() =~= pre_w_inner.push(
                                w_inner.deep_view().last(),
                            ));
                        }
                    },
                    None => {
                        proof {
                            assert(spec_classify(views[i as int]) == Ok::<ClassView, TagError>(
                                ClassView::Invalid(kind),
                            ));
                        }
                        diags.push(Diag { variant_id: v.ident.clone(), kind });
                        proof {
                            assert(diags.deep_view() =~= pre_diags.push(
                                DiagView { variant_id: views[i as int].ident, kind },
                            ));
                        }
                    },
                }
            },
        }
        i = i + 1;
    }
    proof {
        assert(views.subrange(0, n as int) =~= views);
    }
    Ok((marked, w_inner, diags))
}

/// The leveled variants alone, in declaration order: the group of variants
/// that carry a valid severity tag. Fails on the first malformed tag exactly
/// as the full extraction does.
pub fn marked_variants(variants: &Vec<VariantDesc>) -> (r: Result<Vec<Marked>, TagFailure>)
    ensures
        (r matches Ok(m) ==> spec_extract(variants.deep_view()) matches Ok(ex) && ex.marked
            == m.deep_view()),
        (r matches Err(e) ==> spec_extract(variants.deep_view()) == Err::<
            ExtractView,
            TagFailureView,
        >(e.deep_view())),
{
    match extract_variants(variants) {
        Ok(groups) => Ok(groups.0),
        Err(e) => Err(e),
    }
}

impl TagError {
    /// The diagnostic text for this tag failure.
    pub fn message(&self) -> (r: String)
        ensures
            r@ == spec_tag_error_message(*self),
    {
        match self {
            TagError::NoArgument => String::from_str("the level attribute takes one argument"),
            TagError::NotAnIdent => String::from_str(
                "the level argument must be a single simple identifier",
            ),
            TagError::UnknownSeverity => String::from_str(
                "options are only: No, Trace, Debug, Info, Warn or Error",
            ),
        }
    }
}

/// The diagnostic text for each tag failure.
pub open spec fn spec_tag_error_message(e: TagError) -> Seq<char> {
    match e {
        TagError::NoArgument => "the level attribute takes one argument"@,
        TagError::NotAnIdent => "the level argument must be a single simple identifier"@,
        TagError::UnknownSeverity => "options are only: No, Trace, Debug, Info, Warn or Error"@,
    }
}

impl DiagKind {
    /// The diagnostic text for an invalid variant of this kind.
    pub fn message(&self) -> (r: String)
        ensures
            r@ == spec_diag_message(*self),
    {
        match self {
            DiagKind::MissingTag => String::from_str("needs a Severity tag"),
            DiagKind::NotDelegatable => String::from_str(
                "variant content type is not eligible for delegation; add a Severity tag instead",
            ),
        }
    }
}

/// The diagnostic text for each kind of invalid variant.
pub open spec fn spec_diag_message(k: DiagKind) -> Seq<char> {
    match k {
        DiagKind::MissingTag => "needs a Severity tag"@,
        DiagKind::NotDelegatable =>
            "variant content type is not eligible for delegation; add a Severity tag instead"@,
    }
}

} // verus!
