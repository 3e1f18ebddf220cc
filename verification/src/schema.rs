//! The record schema the engine consumes: named fields with declared
//! types and raw annotations, as delivered by the host language's parser.
//!
//! Every exec type here has a spec-level mirror (`...View`) reached
//! through `View`, so that contracts can speak about schemas as plain
//! mathematical values (`Seq<char>` for names, `Seq` for lists).

use vstd::prelude::*;

verus! {

/// Spec mirror of [`TypeDesc`].
#[verifier::ext_equal]
pub struct TypeDescView {
    pub head: Seq<char>,
    pub args: Seq<TypeDescView>,
}

/// A shallow structural descriptor of a declared type: a head name and
/// its generic type arguments. The engine inspects only the head name
/// and the argument count (to recognize the optional-value wrapper);
/// everything else is carried through verbatim.
#[derive(Debug, PartialEq, Eq)]
pub struct TypeDesc {
    pub head: String,
    pub args: Vec<TypeDesc>,
}

/// The spec mirror of one type descriptor.
pub open spec fn view_type_desc(t: TypeDesc) -> TypeDescView
    decreases t,
{
    TypeDescView { head: t.head@, args: view_type_desc_seq(t.args@) }
}

/// The spec mirror of a descriptor list.
pub open spec fn view_type_desc_seq(s: Seq<TypeDesc>) -> Seq<TypeDescView>
    decreases s,
{
    if s.len() == 0 {
        Seq::empty()
    } else {
        view_type_desc_seq(s.subrange(0, s.len() - 1)).push(view_type_desc(s[s.len() - 1]))
    }
}

/// The mirror of a descriptor list is the element-wise mirror.
pub proof fn lemma_view_type_desc_seq(s: Seq<TypeDesc>)
    ensures
        view_type_desc_seq(s).len() == s.len(),
        forall|i: int| 0 <= i < s.len() ==> view_type_desc_seq(s)[i] == view_type_desc(s[i]),
    decreases s.len(),
{
    if s.len() > 0 {
        lemma_view_type_desc_seq(s.subrange(0, s.len() - 1));
        assert forall|i: int| 0 <= i < s.len() implies view_type_desc_seq(s)[i]
            == view_type_desc(s[i]) by {
            if i < s.len() - 1 {
                assert(s.subrange(0, s.len() - 1)[i] == s[i]);
            }
        }
    }
}

impl View for TypeDesc {
    type V = TypeDescView;

    open spec fn view(&self) -> TypeDescView {
        view_type_desc(*self)
    }
}

fn clone_type_desc(t: &TypeDesc) -> (res: TypeDesc)
    ensures
        res@ == t@,
    decreases *t,
{
    let mut args: Vec<TypeDesc> = Vec::new();
    let mut i: usize = 0;
    while i < t.args.len()
        invariant
            i <= t.args.len(),
            args@.len() == i as int,
            forall|j: int| 0 <= j < i as int ==> args@[j]@ == t.args@[j]@,
        decreases t.args.len() - i,
    {
        let a = clone_type_desc(&t.args[i]);
        args.push(a);
        i = i + 1;
    }
    let res = TypeDesc { head: t.head.clone(), args };
    proof {
        lemma_view_type_desc_seq(res.args@);
        lemma_view_type_desc_seq(t.args@);
        assert(res@.args =~= t@.args);
        assert(res@ =~= t@);
    }
    res
}

impl Clone for TypeDesc {
    fn clone(&self) -> (res: Self)
        ensures
            res@ == self@,
    {
        clone_type_desc(self)
    }
}

/// Spec mirror of [`LitValue`].
pub enum LitValueView {
    Str(Seq<char>),
    Bool(bool),
    Other,
}

/// The literal attached to an annotation parameter. Directives accept
/// string and boolean literals; any other literal kind is carried as
/// `Other` and rejected when it reaches a recognized parameter.
#[derive(Debug, PartialEq, Eq)]
pub enum LitValue {
    Str(String),
    Bool(bool),
    Other,
}

impl View for LitValue {
    type V = LitValueView;

    open spec fn view(&self) -> LitValueView {
        match self {
            LitValue::Str(s) => LitValueView::Str(s@),
            LitValue::Bool(b) => LitValueView::Bool(*b),
            LitValue::Other => LitValueView::Other,
        }
    }
}

impl Clone for LitValue {
    fn clone(&self) -> (res: Self)
        ensures
            res@ == self@,
    {
        match self {
            LitValue::Str(s) => LitValue::Str(s.clone()),
            LitValue::Bool(b) => LitValue::Bool(*b),
            LitValue::Other => LitValue::Other,
        }
    }
}

/// Spec mirror of [`AnnotationParam`].
#[verifier::ext_equal]
pub struct AnnotationParamView {
    pub key: Seq<char>,
    pub value: LitValueView,
}

/// One `key = literal` pair inside a parenthesized umbrella annotation.
#[derive(Debug, PartialEq, Eq)]
pub struct AnnotationParam {
    pub key: String,
    pub value: LitValue,
}

impl View for AnnotationParam {
    type V = AnnotationParamView;

    open spec fn view(&self) -> AnnotationParamView {
        AnnotationParamView { key: self.key@, value: self.value@ }
    }
}

impl Clone for AnnotationParam {
    fn clone(&self) -> (res: Self)
        ensures
            res@ == self@,
    {
        AnnotationParam { key: self.key.clone(), value: self.value.clone() }
    }
}

/// Spec mirror of [`AnnotationForm`].
#[verifier::ext_equal]
pub enum AnnotationFormView {
    Bare,
    Value(LitValueView),
    ParamList(Seq<AnnotationParamView>),
    Unparsed,
}

/// The shape of an annotation's content, as the host parser delivered
/// it: a bare tag, a single `tag = literal` pair, a parenthesized
/// `tag(key = literal, ...)` list, or content that could not be parsed
/// as any of these.
#[derive(Debug, PartialEq, Eq)]
pub enum AnnotationForm {
    Bare,
    Value(LitValue),
    ParamList(Vec<AnnotationParam>),
    Unparsed,
}

/// Element-wise spec mirror of a parameter list.
pub open spec fn view_params(s: Seq<AnnotationParam>) -> Seq<AnnotationParamView> {
    s.map(|i: int, p: AnnotationParam| p@)
}

impl View for AnnotationForm {
    type V = AnnotationFormView;

    open spec fn view(&self) -> AnnotationFormView {
        match self {
            AnnotationForm::Bare => AnnotationFormView::Bare,
            AnnotationForm::Value(l) => AnnotationFormView::Value(l@),
            AnnotationForm::ParamList(ps) => AnnotationFormView::ParamList(view_params(ps@)),
            AnnotationForm::Unparsed => AnnotationFormView::Unparsed,
        }
    }
}

fn clone_params(ps: &Vec<AnnotationParam>) -> (res: Vec<AnnotationParam>)
    ensures
        view_params(res@) == view_params(ps@),
{
    let mut out: Vec<AnnotationParam> = Vec::new();
    let mut i: usize = 0;
    while i < ps.len()
        invariant
            i <= ps.len(),
            out@.len() == i as int,
            forall|j: int| 0 <= j < i as int ==> out@[j]@ == ps@[j]@,
        decreases ps.len() - i,
    {
        out.push(ps[i].clone());
        i = i + 1;
    }
    proof {
        assert(view_params(out@) =~= view_params(ps@));
    }
    out
}

impl Clone for AnnotationForm {
    fn clone(&self) -> (res: Self)
        ensures
            res@ == self@,
    {
        match self {
            AnnotationForm::Bare => AnnotationForm::Bare,
            AnnotationForm::Value(l) => AnnotationForm::Value(l.clone()),
            AnnotationForm::ParamList(ps) => AnnotationForm::ParamList(clone_params(ps)),
            AnnotationForm::Unparsed => AnnotationForm::Unparsed,
        }
    }
}

/// Spec mirror of [`Annotation`].
#[verifier::ext_equal]
pub struct AnnotationView {
    pub tag: Seq<char>,
    pub form: AnnotationFormView,
}

/// A raw annotation on a field: a tag plus its content shape. The
/// engine recognizes some tags as directives; all others are carried
/// through to the emitted record untouched.
#[derive(Debug, PartialEq, Eq)]
pub struct Annotation {
    pub tag: String,
    pub form: AnnotationForm,
}

impl View for Annotation {
    type V = AnnotationView;

    open spec fn view(&self) -> AnnotationView {
        AnnotationView { tag: self.tag@, form: self.form@ }
    }
}

impl Clone for Annotation {
    fn clone(&self) -> (res: Self)
        ensures
            res@ == self@,
    {
        Annotation { tag: self.tag.clone(), form: self.form.clone() }
    }
}

/// Spec mirror of [`FieldSchema`].
#[verifier::ext_equal]
pub struct FieldSchemaView {
    pub name: Seq<char>,
    pub ty: TypeDescView,
    pub annotations: Seq<AnnotationView>,
}

/// Element-wise spec mirror of an annotation list.
pub open spec fn view_annotations(s: Seq<Annotation>) -> Seq<AnnotationView> {
    s.map(|i: int, a: Annotation| a@)
}

/// One named field of the record: its name, declared type, and the raw
/// annotations attached to it, in source order.
#[derive(Debug, PartialEq, Eq)]
pub struct FieldSchema {
    pub name: String,
    pub ty: TypeDesc,
    pub annotations: Vec<Annotation>,
}

impl View for FieldSchema {
    type V = FieldSchemaView;

    open spec fn view(&self) -> FieldSchemaView {
        FieldSchemaView {
            name: self.name@,
            ty: self.ty@,
            annotations: view_annotations(self.annotations@),
        }
    }
}

fn clone_annotations(anns: &Vec<Annotation>) -> (res: Vec<Annotation>)
    ensures
        view_annotations(res@) == view_annotations(anns@),
{
    let mut out: Vec<Annotation> = Vec::new();
    let mut i: usize = 0;
    while i < anns.len()
        invariant
            i <= anns.len(),
            out@.len() == i as int,
            forall|j: int| 0 <= j < i as int ==> out@[j]@ == anns@[j]@,
        decreases anns.len() - i,
    {
        out.push(anns[i].clone());
        i = i + 1;
    }
    proof {
        assert(view_annotations(out@) =~= view_annotations(anns@));
    }
    out
}

impl Clone for FieldSchema {
    fn clone(&self) -> (res: Self)
        ensures
            res@ == self@,
    {
        let res = FieldSchema {
            name: self.name.clone(),
            ty: self.ty.clone(),
            annotations: clone_annotations(&self.annotations),
        };
        proof {
            assert(res@ =~= self@);
        }
        res
    }
}

/// Spec mirror of [`RecordFields`].
#[verifier::ext_equal]
pub enum RecordFieldsView {
    Named(Seq<FieldSchemaView>),
    Unnamed,
    Unit,
}

/// Element-wise spec mirror of a field list.
pub open spec fn view_fields(s: Seq<FieldSchema>) -> Seq<FieldSchemaView> {
    s.map(|i: int, f: FieldSchema| f@)
}

/// The record's field block. The engine only supports named fields;
/// tuple-style and unit records are a schema shape error.
#[derive(Debug, PartialEq, Eq)]
pub enum RecordFields {
    Named(Vec<FieldSchema>),
    Unnamed,
    Unit,
}

impl View for RecordFields {
    type V = RecordFieldsView;

    open spec fn view(&self) -> RecordFieldsView {
        match self {
            RecordFields::Named(fs) => RecordFieldsView::Named(view_fields(fs@)),
            RecordFields::Unnamed => RecordFieldsView::Unnamed,
            RecordFields::Unit => RecordFieldsView::Unit,
        }
    }
}

fn clone_fields(fs: &Vec<FieldSchema>) -> (res: Vec<FieldSchema>)
    ensures
        view_fields(res@) == view_fields(fs@),
{
    let mut out: Vec<FieldSchema> = Vec::new();
    let mut i: usize = 0;
    while i < fs.len()
        invariant
            i <= fs.len(),
            out@.len() == i as int,
            forall|j: int| 0 <= j < i as int ==> out@[j]@ == fs@[j]@,
        decreases fs.len() - i,
    {
        out.push(fs[i].clone());
        i = i + 1;
    }
    proof {
        assert(view_fields(out@) =~= view_fields(fs@));
    }
    out
}

impl Clone for RecordFields {
    fn clone(&self) -> (res: Self)
        ensures
            res@ == self@,
    {
        match self {
            RecordFields::Named(fs) => RecordFields::Named(clone_fields(fs)),
            RecordFields::Unnamed => RecordFields::Unnamed,
            RecordFields::Unit => RecordFields::Unit,
        }
    }
}

/// Spec mirror of [`RecordSchema`].
#[verifier::ext_equal]
pub struct RecordSchemaView {
    pub name: Seq<char>,
    pub generics: Seq<char>,
    pub fields: RecordFieldsView,
}

/// The parsed record the engine works on: its name, its generic
/// parameter text (carried verbatim for the emitter), and its fields.
#[derive(Debug, PartialEq, Eq)]
pub struct RecordSchema {
    pub name: String,
    pub generics: String,
    pub fields: RecordFields,
}

impl View for RecordSchema {
    type V = RecordSchemaView;

    open spec fn view(&self) -> RecordSchemaView {
        RecordSchemaView { name: self.name@, generics: self.generics@, fields: self.fields@ }
    }
}


impl Clone for RecordSchema {
    fn clone(&self) -> (res: Self)
        ensures
            res@ == self@,
    {
        let res = RecordSchema {
            name: self.name.clone(),
            generics: self.generics.clone(),
            fields: self.fields.clone(),
        };
        proof {
            assert(res@ =~= self@);
        }
        res
    }
}

} // verus!
