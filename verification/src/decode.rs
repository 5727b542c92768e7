//! The decoding pipeline: for each field of a struct specification, in
//! declaration order, select the target elements, adjust them to the
//! field's shape, extract a raw value from each, and parse each raw
//! value into a typed value — failing fast, with the first failure
//! wrapped into a fully located error path.

use vstd::prelude::*;
use crate::adjust::{
    Adjusted, CardinalityError, Shape, VecToArrayError, VecToOptionError, VecToSingleError,
    spec_adjust,
};
use crate::display::{attribute_not_found_msg, cardinality_msg, from_text_msg};
use crate::error::{ErrorV, ParseError, Position, PositionV};
use crate::extract::{ExtractionType, spec_extract};
use crate::html::{css_valid, node_select};
use crate::text::{spec_parse_bool, spec_parse_i64, spec_parse_u64, FromTextError};

verus! {

/// The built-in leaf target types.
#[derive(Debug, Clone, Copy, PartialEq, Eq, Structural)]
pub enum LeafKind {
    /// The raw string itself.
    Str,
    /// An unsigned 64-bit integer in decimal.
    UInt,
    /// A signed 64-bit integer in decimal.
    Int,
    /// `true` or `false`.
    Bool,
}

/// What a field decodes into: a leaf value parsed from the extracted
/// string, or a nested structure decoded from the node itself.
#[derive(Debug, PartialEq, Eq)]
pub enum TargetKind {
    Leaf(LeafKind),
    Nested(StructSpec),
}

/// The static description of one field: where to look, how many nodes
/// to expect, how to pull a raw value out of each, and what to parse it
/// into. Created once and reused for every decode call. For a `Nested`
/// target the extraction method is not consulted: the node itself is
/// handed to the nested decode.
#[derive(Debug, PartialEq, Eq)]
pub struct FieldSpec {
    pub field_name: String,
    pub selector: Option<String>,
    pub extraction: ExtractionType,
    pub shape: Shape,
    pub target: TargetKind,
}

/// The static description of one struct: its fields, in declaration
/// order.
#[derive(Debug, PartialEq, Eq)]
pub struct StructSpec {
    pub fields: Vec<FieldSpec>,
}

/// A decoded leaf or nested value.
#[derive(Debug, PartialEq, Eq)]
pub enum TypedValue {
    Str(String),
    UInt(u64),
    Int(i64),
    Bool(bool),
    Struct(StructValue),
}

/// A decoded field: one value, an optional value, or a list of values
/// (a fixed-size field is a list whose length the decode guaranteed).
#[derive(Debug, PartialEq, Eq)]
pub enum FieldData {
    One(TypedValue),
    Opt(Option<TypedValue>),
    Many(Vec<TypedValue>),
}

/// A decoded struct: one entry per field, in declaration order.
#[derive(Debug, PartialEq, Eq)]
pub struct StructValue {
    pub fields: Vec<FieldData>,
}

/// The mathematical model of a [`TypedValue`].
pub ghost enum ValueV {
    Str(Seq<char>),
    UInt(u64),
    Int(i64),
    Bool(bool),
    Struct(StructV),
}

/// The mathematical model of a [`FieldData`].
pub ghost enum FieldDataV {
    One(ValueV),
    Opt(Option<ValueV>),
    Many(Seq<ValueV>),
}

/// The mathematical model of a [`StructValue`].
pub ghost struct StructV {
    pub fields: Seq<FieldDataV>,
}

/// The model of a decoded value.
pub open spec fn value_view(v: TypedValue) -> ValueV
    decreases v,
{
    match v {
        TypedValue::Str(s) => ValueV::Str(s@),
        TypedValue::UInt(u) => ValueV::UInt(u),
        TypedValue::Int(i) => ValueV::Int(i),
        TypedValue::Bool(b) => ValueV::Bool(b),
        TypedValue::Struct(sv) => ValueV::Struct(struct_value_view(sv)),
    }
}

/// The models of a sequence of decoded values.
pub open spec fn values_view(vs: Seq<TypedValue>) -> Seq<ValueV>
    decreases vs,
{
    if vs.len() == 0 {
        Seq::empty()
    } else {
        seq![value_view(vs.first())] + values_view(vs.drop_first())
    }
}

/// The model of a decoded field.
pub open spec fn field_data_view(d: FieldData) -> FieldDataV
    decreases d,
{
    match d {
        FieldData::One(v) => FieldDataV::One(value_view(v)),
        FieldData::Opt(o) => FieldDataV::Opt(
            match o {
                Some(v) => Some(value_view(v)),
                None => None,
            },
        ),
        FieldData::Many(vs) => FieldDataV::Many(values_view(vs@)),
    }
}

/// The models of a sequence of decoded fields.
pub open spec fn field_datas_view(ds: Seq<FieldData>) -> Seq<FieldDataV>
    decreases ds,
{
    if ds.len() == 0 {
        Seq::empty()
    } else {
        seq![field_data_view(ds.first())] + field_datas_view(ds.drop_first())
    }
}

/// The model of a decoded struct.
pub open spec fn struct_value_view(sv: StructValue) -> StructV
    decreases sv,
{
    StructV { fields: field_datas_view(sv.fields@) }
}

impl View for TypedValue {
    type V = ValueV;

    open spec fn view(&self) -> ValueV {
        value_view(*self)
    }
}

impl View for FieldData {
    type V = FieldDataV;

    open spec fn view(&self) -> FieldDataV {
        field_data_view(*self)
    }
}

impl View for StructValue {
    type V = StructV;

    open spec fn view(&self) -> StructV {
        struct_value_view(*self)
    }
}

/// A field specification is well-formed when its selector (if any)
/// compiles and any nested specification is well-formed in turn.
pub open spec fn field_wf(f: FieldSpec) -> bool
    decreases f,
{
    &&& match f.selector {
        Some(s) => css_valid(s@),
        None => true,
    }
    &&& match f.target {
        TargetKind::Nested(s) => struct_wf(s),
        TargetKind::Leaf(_) => true,
    }
}

/// Every field of the sequence is well-formed.
pub open spec fn fields_wf(fs: Seq<FieldSpec>) -> bool
    decreases fs,
{
    fs.len() == 0 || (field_wf(fs.first()) && fields_wf(fs.drop_first()))
}

/// A struct specification is well-formed when all its fields are.
pub open spec fn struct_wf(s: StructSpec) -> bool
    decreases s,
{
    fields_wf(s.fields@)
}

/// The locator shown in this field's error frame: its selector when it
/// has one, else the attribute it reads, else nothing.
pub open spec fn frame_selector(f: FieldSpec) -> Option<Seq<char>> {
    match f.selector {
        Some(s) => Some(s@),
        None => match f.extraction {
            ExtractionType::Attribute(a) => Some(a@),
            ExtractionType::Text => None,
        },
    }
}

/// The error frame for a failure inside this field.
pub open spec fn field_position(f: FieldSpec) -> PositionV {
    PositionV::Struct { selector: frame_selector(f), field_name: f.field_name@ }
}

/// Wraps an inner failure with this field's frame.
pub open spec fn wrap_field(f: FieldSpec, e: ErrorV) -> ErrorV {
    ErrorV::Child { position: field_position(f), error: Box::new(e) }
}

/// Wraps an inner failure with a list-index frame.
pub open spec fn wrap_index(i: usize, e: ErrorV) -> ErrorV {
    ErrorV::Child { position: PositionV::Index(i), error: Box::new(e) }
}

/// A leaf failure message as an error path of one frame.
pub open spec fn root_err(m: Seq<char>) -> ErrorV {
    ErrorV::Root { message: m, cause: None }
}

/// The nodes a field works on: what its selector matches, or the source
/// node itself when it has no selector.
pub open spec fn spec_select_field(n: kuchiki::NodeRef, f: FieldSpec) -> Seq<kuchiki::NodeRef> {
    match f.selector {
        Some(s) => node_select(n, s@),
        None => seq![n],
    }
}

/// What parsing a raw string into a leaf value of the given kind
/// returns.
pub open spec fn spec_parse_leaf(kind: LeafKind, raw: Seq<char>) -> Result<ValueV, FromTextError> {
    match kind {
        LeafKind::Str => Ok(ValueV::Str(raw)),
        LeafKind::UInt => match spec_parse_u64(raw) {
            Ok(v) => Ok(ValueV::UInt(v)),
            Err(e) => Err(e),
        },
        LeafKind::Int => match spec_parse_i64(raw) {
            Ok(v) => Ok(ValueV::Int(v)),
            Err(e) => Err(e),
        },
        LeafKind::Bool => match spec_parse_bool(raw) {
            Ok(v) => Ok(ValueV::Bool(v)),
            Err(e) => Err(e),
        },
    }
}

/// What decoding one node into one value returns: extract-then-parse
/// for a leaf target, the nested decode for a nested target.
pub open spec fn spec_decode_one(n: kuchiki::NodeRef, f: FieldSpec) -> Result<ValueV, ErrorV>
    decreases f, 1int, 0int,
{
    match f.target {
        TargetKind::Leaf(kind) => match spec_extract(n, f.extraction@) {
            Ok(raw) => match spec_parse_leaf(kind, raw) {
                Ok(v) => Ok(v),
                Err(e) => Err(root_err(from_text_msg(e))),
            },
            Err(attr) => Err(root_err(attribute_not_found_msg(attr))),
        },
        TargetKind::Nested(s) => match spec_decode_struct(n, s) {
            Ok(sv) => Ok(ValueV::Struct(sv)),
            Err(e) => Err(e),
        },
    }
}

/// What decoding a sequence of nodes element by element returns: the
/// decoded values in order, or the index of the first failing element
/// with its failure — elements after it are not considered.
pub open spec fn spec_decode_list(ns: Seq<kuchiki::NodeRef>, f: FieldSpec) -> Result<
    Seq<ValueV>,
    (int, ErrorV),
>
    decreases f, 2int, ns.len(),
{
    if ns.len() == 0 {
        Ok(Seq::empty())
    } else {
        match spec_decode_one(ns.first(), f) {
            Err(e) => Err((0, e)),
            Ok(v) => match spec_decode_list(ns.drop_first(), f) {
                Ok(vs) => Ok(seq![v] + vs),
                Err((i, e)) => Err((i + 1, e)),
            },
        }
    }
}

/// What decoding one field returns: select, adjust to the field's
/// shape, then decode each element, any failure wrapped with this
/// field's frame (and, inside a list or array, with the index of the
/// first failing element).
pub open spec fn spec_decode_field(n: kuchiki::NodeRef, f: FieldSpec) -> Result<
    FieldDataV,
    ErrorV,
>
    decreases f, 3int, 0int,
{
    let ns = spec_select_field(n, f);
    match spec_adjust(ns, f.shape) {
        Err(ce) => Err(wrap_field(f, root_err(cardinality_msg(ce)))),
        Ok(Adjusted::One(m)) => match spec_decode_one(m, f) {
            Ok(v) => Ok(FieldDataV::One(v)),
            Err(e) => Err(wrap_field(f, e)),
        },
        Ok(Adjusted::Opt(o)) => match o {
            None => Ok(FieldDataV::Opt(None)),
            Some(m) => match spec_decode_one(m, f) {
                Ok(v) => Ok(FieldDataV::Opt(Some(v))),
                Err(e) => Err(wrap_field(f, e)),
            },
        },
        Ok(Adjusted::Many(ms)) => match spec_decode_list(ms, f) {
            Ok(vs) => Ok(FieldDataV::Many(vs)),
            Err((i, e)) => Err(wrap_field(f, wrap_index(i as usize, e))),
        },
    }
}

/// What decoding a sequence of fields returns: each field's data in
/// order, or the first field failure — later fields are not considered.
pub open spec fn spec_decode_fields(n: kuchiki::NodeRef, fs: Seq<FieldSpec>) -> Result<
    Seq<FieldDataV>,
    ErrorV,
>
    decreases fs, 4int, 0int,
{
    if fs.len() == 0 {
        Ok(Seq::empty())
    } else {
        match spec_decode_field(n, fs.first()) {
            Err(e) => Err(e),
            Ok(d) => match spec_decode_fields(n, fs.drop_first()) {
                Ok(ds) => Ok(seq![d] + ds),
                Err(e) => Err(e),
            },
        }
    }
}

/// What decoding a struct from a node returns: all its fields decoded
/// in declaration order, fail-fast on the first failing field.
pub open spec fn spec_decode_struct(n: kuchiki::NodeRef, s: StructSpec) -> Result<StructV, ErrorV>
    decreases s, 0int, 0int,
{
    match spec_decode_fields(n, s.fields@) {
        Ok(ds) => Ok(StructV { fields: ds }),
        Err(e) => Err(e),
    }
}

/// Parses a raw string into a leaf value of the given kind.
pub fn parse_leaf(kind: LeafKind, raw: String) -> (r: Result<TypedValue, FromTextError>)
    ensures
        match r {
            Ok(v) => spec_parse_leaf(kind, raw@) == Ok::<ValueV, FromTextError>(v@),
            Err(e) => spec_parse_leaf(kind, raw@) == Err::<ValueV, FromTextError>(e),
        },
{
    match kind {
        LeafKind::Str => Ok(TypedValue::Str(raw)),
        LeafKind::UInt => match crate::text::parse_u64(raw.as_str()) {
            Ok(v) => Ok(TypedValue::UInt(v)),
            Err(e) => Err(e),
        },
        LeafKind::Int => match crate::text::parse_i64(raw.as_str()) {
            Ok(v) => Ok(TypedValue::Int(v)),
            Err(e) => Err(e),
        },
        LeafKind::Bool => match crate::text::parse_bool(raw.as_str()) {
            Ok(v) => Ok(TypedValue::Bool(v)),
            Err(e) => Err(e),
        },
    }
}

/// Builds the error frame for a failure inside this field.
fn make_field_position(f: &FieldSpec) -> (r: Position)
    ensures
        r@ == field_position(*f),
{
    let selector: Option<String> = match &f.selector {
        Some(s) => Some(s.clone()),
        None => match &f.extraction {
            ExtractionType::Attribute(a) => Some(a.clone()),
            ExtractionType::Text => None,
        },
    };
    Position::Struct { selector, field_name: f.field_name.clone() }
}

/// Decodes one node into one value: extract-then-parse for a leaf
/// target, the nested decode for a nested target.
pub fn decode_one(n: &kuchiki::NodeRef, f: &FieldSpec) -> (r: Result<TypedValue, ParseError>)
    requires
        field_wf(*f),
    ensures
        match r {
            Ok(v) => spec_decode_one(*n, *f) == Ok::<ValueV, ErrorV>(v@),
            Err(e) => spec_decode_one(*n, *f) == Err::<ValueV, ErrorV>(e@),
        },
    decreases *f, 1int, 0int,
{
    match &f.target {
        TargetKind::Leaf(kind) => match f.extraction.extract(n) {
            Ok(raw) => match parse_leaf(*kind, raw) {
                Ok(v) => Ok(v),
                Err(e) => Err(ParseError::Root { message: e.render(), cause: None }),
            },
            Err(a) => Err(ParseError::Root { message: a.render(), cause: None }),
        },
        TargetKind::Nested(s) => match from_html(n, s) {
            Ok(sv) => Ok(TypedValue::Struct(sv)),
            Err(e) => Err(e),
        },
    }
}

/// Decodes the elements of `ns` from position `i` on, left to right,
/// stopping at the first failing element and reporting its index;
/// elements after it are never looked at.
fn decode_list(ns: &Vec<kuchiki::NodeRef>, i: usize, f: &FieldSpec) -> (r: Result<
    Vec<TypedValue>,
    (usize, ParseError),
>)
    requires
        field_wf(*f),
        i <= ns@.len(),
    ensures
        match r {
            Ok(vs) => spec_decode_list(ns@.skip(i as int), *f) == Ok::<Seq<ValueV>, (int, ErrorV)>(
                values_view(vs@),
            ),
            Err((j, e)) => i + j < ns@.len() && spec_decode_list(ns@.skip(i as int), *f) == Err::<
                Seq<ValueV>,
                (int, ErrorV),
            >((j as int, e@)),
        },
    decreases *f, 2int, ns@.len() - i,
{
    if i == ns.len() {
        proof {
            assert(ns@.skip(i as int) =~= Seq::<kuchiki::NodeRef>::empty());
        }
        Ok(Vec::new())
    } else {
        proof {
            assert(ns@.skip(i as int).first() == ns@[i as int]);
            assert(ns@.skip(i as int).drop_first() =~= ns@.skip(i as int + 1));
        }
        match decode_one(&ns[i], f) {
            Err(e) => Err((0, e)),
            Ok(v) => match decode_list(ns, i + 1, f) {
                Ok(vs) => {
                    let ghost gv = v;
                    let ghost gvs = vs@;
                    let mut out = Vec::new();
                    out.push(v);
                    let mut vs = vs;
                    out.append(&mut vs);
                    proof {
                        assert(out@ =~= seq![gv] + gvs);
                        assert(out@.first() == gv);
                        assert(out@.drop_first() =~= gvs);
                        assert(values_view(out@) =~= seq![value_view(gv)] + values_view(gvs));
                    }
                    Ok(out)
                },
                Err((j, e)) => Err((j + 1, e)),
            },
        }
    }
}

/// Wraps an inner failure with this field's frame.
fn wrap_err_field(f: &FieldSpec, e: ParseError) -> (r: ParseError)
    ensures
        r@ == wrap_field(*f, e@),
{
    ParseError::Child { position: make_field_position(f), error: Box::new(e) }
}

/// Selects the nodes this field works on: what its selector matches, or
/// the source node itself when it has no selector.
fn select_field(n: &kuchiki::NodeRef, f: &FieldSpec) -> (r: Vec<kuchiki::NodeRef>)
    requires
        field_wf(*f),
    ensures
        r@ == spec_select_field(*n, *f),
{
    match &f.selector {
        Some(s) => match crate::html::select_nodes(n, s.as_str()) {
            Some(v) => v,
            // a well-formed field's selector always compiles
            None => vstd::pervasive::unreached(),
        },
        None => {
            let mut v = Vec::new();
            v.push(n.clone());
            proof {
                assert(v@ =~= seq![*n]);
            }
            v
        },
    }
}

/// Decodes one field of a struct: select, adjust to the field's shape,
/// extract and parse each element. Any failure comes back wrapped with
/// this field's frame, and — inside a list or array — with the index of
/// the first failing element.
pub fn process_field(n: &kuchiki::NodeRef, f: &FieldSpec) -> (r: Result<FieldData, ParseError>)
    requires
        field_wf(*f),
    ensures
        match r {
            Ok(d) => spec_decode_field(*n, *f) == Ok::<FieldDataV, ErrorV>(d@),
            Err(e) => spec_decode_field(*n, *f) == Err::<FieldDataV, ErrorV>(e@),
        },
    decreases *f, 3int, 0int,
{
    let ns = select_field(n, f);
    match f.shape {
        Shape::Single => {
            if ns.len() == 1 {
                match decode_one(&ns[0], f) {
                    Ok(v) => Ok(FieldData::One(v)),
                    Err(e) => Err(wrap_err_field(f, e)),
                }
            } else {
                let ce = if ns.len() == 0 {
                    VecToSingleError::NoElements
                } else {
                    VecToSingleError::TooManyElements { found: ns.len() }
                };
                let msg = CardinalityError::Single(ce).render();
                Err(wrap_err_field(f, ParseError::Root { message: msg, cause: None }))
            }
        },
        Shape::Optional => {
            if ns.len() == 0 {
                Ok(FieldData::Opt(None))
            } else if ns.len() == 1 {
                match decode_one(&ns[0], f) {
                    Ok(v) => Ok(FieldData::Opt(Some(v))),
                    Err(e) => Err(wrap_err_field(f, e)),
                }
            } else {
                let ce = VecToOptionError::TooManyElements { found: ns.len() };
                let msg = CardinalityError::Optional(ce).render();
                Err(wrap_err_field(f, ParseError::Root { message: msg, cause: None }))
            }
        },
        Shape::Array(expected) => {
            if ns.len() == expected {
                match decode_list(&ns, 0, f) {
                    Ok(vs) => {
                        proof {
                            assert(ns@.skip(0) =~= ns@);
                        }
                        Ok(FieldData::Many(vs))
                    },
                    Err((j, e)) => {
                        proof {
                            assert(ns@.skip(0) =~= ns@);
                        }
                        Err(wrap_err_field(
                            f,
                            ParseError::Child { position: Position::Index(j), error: Box::new(e) },
                        ))
                    },
                }
            } else {
                let ce = VecToArrayError::ElementNumberUnmatched { expected, found: ns.len() };
                let msg = CardinalityError::Array(ce).render();
                Err(wrap_err_field(f, ParseError::Root { message: msg, cause: None }))
            }
        },
        Shape::List => {
            match decode_list(&ns, 0, f) {
                Ok(vs) => {
                    proof {
                        assert(ns@.skip(0) =~= ns@);
                    }
                    Ok(FieldData::Many(vs))
                },
                Err((j, e)) => {
                    proof {
                        assert(ns@.skip(0) =~= ns@);
                    }
                    Err(wrap_err_field(
                        f,
                        ParseError::Child { position: Position::Index(j), error: Box::new(e) },
                    ))
                },
            }
        },
    }
}

/// Decodes the fields from position `i` on, in declaration order,
/// stopping at the first failing field.
fn decode_fields(n: &kuchiki::NodeRef, fs: &Vec<FieldSpec>, i: usize) -> (r: Result<
    Vec<FieldData>,
    ParseError,
>)
    requires
        fields_wf(fs@.skip(i as int)),
        i <= fs@.len(),
    ensures
        match r {
            Ok(ds) => spec_decode_fields(*n, fs@.skip(i as int)) == Ok::<Seq<FieldDataV>, ErrorV>(
                field_datas_view(ds@),
            ),
            Err(e) => spec_decode_fields(*n, fs@.skip(i as int)) == Err::<Seq<FieldDataV>, ErrorV>(
                e@,
            ),
        },
    decreases fs@, 4int, fs@.len() - i,
{
    if i == fs.len() {
        proof {
            assert(fs@.skip(i as int) =~= Seq::<FieldSpec>::empty());
        }
        Ok(Vec::new())
    } else {
        proof {
            assert(fs@.skip(i as int).first() == fs@[i as int]);
            assert(fs@.skip(i as int).drop_first() =~= fs@.skip(i as int + 1));
        }
        match process_field(n, &fs[i]) {
            Err(e) => Err(e),
            Ok(d) => match decode_fields(n, fs, i + 1) {
                Ok(ds) => {
                    let ghost gd = d;
                    let ghost gds = ds@;
                    let mut out = Vec::new();
                    out.push(d);
                    let mut ds = ds;
                    out.append(&mut ds);
                    proof {
                        assert(out@ =~= seq![gd] + gds);
                        assert(out@.first() == gd);
                        assert(out@.drop_first() =~= gds);
                        assert(field_datas_view(out@) =~= seq![field_data_view(gd)]
                            + field_datas_view(gds));
                    }
                    Ok(out)
                },
                Err(e) => Err(e),
            },
        }
    }
}

/// Decodes a whole struct from a node: every field in declaration
/// order, fail-fast across fields; on success all field values are
/// assembled in order.
pub fn from_html(n: &kuchiki::NodeRef, s: &StructSpec) -> (r: Result<StructValue, ParseError>)
    requires
        struct_wf(*s),
    ensures
        match r {
            Ok(v) => spec_decode_struct(*n, *s) == Ok::<StructV, ErrorV>(v@),
            Err(e) => spec_decode_struct(*n, *s) == Err::<StructV, ErrorV>(e@),
        },
    decreases *s, 0int, 0int,
{
    proof {
        assert(s.fields@.skip(0) =~= s.fields@);
    }
    match decode_fields(n, &s.fields, 0) {
        Ok(ds) => Ok(StructValue { fields: ds }),
        Err(e) => Err(e),
    }
}

/// Checks that a field specification is well-formed: its selector (if
/// any) compiles, and any nested specification is well-formed in turn.
pub fn check_field(f: &FieldSpec) -> (r: bool)
    ensures
        r == field_wf(*f),
    decreases *f, 3int, 0int,
{
    let sel_ok = match &f.selector {
        Some(s) => crate::html::selector_compiles(s.as_str()),
        None => true,
    };
    if !sel_ok {
        return false;
    }
    match &f.target {
        TargetKind::Nested(s) => check_struct(s),
        TargetKind::Leaf(_) => true,
    }
}

/// Checks the fields from position `i` on.
fn check_fields(fs: &Vec<FieldSpec>, i: usize) -> (r: bool)
    requires
        i <= fs@.len(),
    ensures
        r == fields_wf(fs@.skip(i as int)),
    decreases fs@, 4int, fs@.len() - i,
{
    if i == fs.len() {
        proof {
            assert(fs@.skip(i as int) =~= Seq::<FieldSpec>::empty());
        }
        true
    } else {
        proof {
            assert(fs@.skip(i as int).first() == fs@[i as int]);
            assert(fs@.skip(i as int).drop_first() =~= fs@.skip(i as int + 1));
        }
        check_field(&fs[i]) && check_fields(fs, i + 1)
    }
}

/// Fail-fast ordering over a node list: the decode fails exactly when
/// some element fails to decode; on success every element's value is in
/// place; and on failure the reported index is the first failing
/// element — every element before it decodes, the element at it fails
/// with the reported error, and nothing at later indices can move it.
pub proof fn lemma_decode_list_first_failure(ns: Seq<kuchiki::NodeRef>, f: FieldSpec)
    ensures
        spec_decode_list(ns, f) is Err <==> exists|i: int|
            0 <= i < ns.len() && spec_decode_one(#[trigger] ns[i], f) is Err,
        spec_decode_list(ns, f) matches Ok(vs) ==> vs.len() == ns.len() && (forall|i: int|
            0 <= i < ns.len() ==> spec_decode_one(#[trigger] ns[i], f) == Ok::<ValueV, ErrorV>(
                vs[i],
            )),
        spec_decode_list(ns, f) matches Err((i, e)) ==> {
            &&& 0 <= i < ns.len()
            &&& spec_decode_one(ns[i], f) == Err::<ValueV, ErrorV>(e)
            &&& forall|j: int| 0 <= j < i ==> spec_decode_one(#[trigger] ns[j], f) is Ok
        },
    decreases ns.len(),
{
    if ns.len() > 0 {
        lemma_decode_list_first_failure(ns.drop_first(), f);
        assert(forall|i: int|
            1 <= i < ns.len() ==> ns.drop_first()[i - 1] == #[trigger] ns[i]);
        if spec_decode_one(ns.first(), f) is Ok {
            match spec_decode_list(ns.drop_first(), f) {
                Ok(vs) => {
                    let vs0 = spec_decode_list(ns, f)->Ok_0;
                    assert(forall|i: int|
                        0 <= i < ns.len() ==> spec_decode_one(#[trigger] ns[i], f)
                            == Ok::<ValueV, ErrorV>(vs0[i]));
                },
                Err((i, e)) => {
                    assert(spec_decode_one(ns[i + 1], f) is Err);
                },
            }
        } else {
            assert(spec_decode_one(ns[0], f) is Err);
        }
    }
}

/// Fail-fast at the field level: a `List` field decodes to exactly what
/// its element traversal yields — all element values in order, or the
/// first failing element's error wrapped with its index and the field's
/// frame.
pub proof fn lemma_field_first_failure(n: kuchiki::NodeRef, f: FieldSpec)
    requires
        f.shape == Shape::List,
    ensures
        match spec_decode_list(spec_select_field(n, f), f) {
            Ok(vs) => spec_decode_field(n, f) == Ok::<FieldDataV, ErrorV>(FieldDataV::Many(vs)),
            Err((i, e)) => spec_decode_field(n, f) == Err::<FieldDataV, ErrorV>(
                wrap_field(f, wrap_index(i as usize, e)),
            ),
        },
{
}

/// Optional semantics: a field whose selector matches nothing decodes
/// to `None` (a success) under the `Optional` shape, and to the
/// no-elements cardinality error under the `Single` shape.
pub proof fn lemma_optional_empty(n: kuchiki::NodeRef, f: FieldSpec)
    requires
        spec_select_field(n, f).len() == 0,
    ensures
        f.shape == Shape::Optional ==> spec_decode_field(n, f) == Ok::<FieldDataV, ErrorV>(
            FieldDataV::Opt(None),
        ),
        f.shape == Shape::Single ==> spec_decode_field(n, f) == Err::<FieldDataV, ErrorV>(
            wrap_field(
                f,
                root_err(crate::display::vec_to_single_msg(VecToSingleError::NoElements)),
            ),
        ),
{
}

/// An extraction method tied to the target it suits, so that call sites
/// that assemble a [`FieldSpec`] pick one deliberately.
#[derive(Debug, PartialEq, Eq)]
pub struct ExtractionMethodWithType {
    pub extraction: ExtractionType,
}

/// Ties an explicitly chosen extraction method to a field's target.
pub fn extraction_method(e: ExtractionType) -> (r: ExtractionMethodWithType)
    ensures
        r.extraction == e,
{
    ExtractionMethodWithType { extraction: e }
}

/// The extraction method a target gets when none is chosen: the node's
/// inner text. (A nested target never consults it: the node itself is
/// handed on.)
pub fn default_extraction_method(target: &TargetKind) -> (r: ExtractionMethodWithType)
    ensures
        r.extraction == ExtractionType::Text,
{
    match target {
        TargetKind::Leaf(_) => ExtractionMethodWithType { extraction: ExtractionType::Text },
        TargetKind::Nested(_) => ExtractionMethodWithType { extraction: ExtractionType::Text },
    }
}

impl FieldSpec {
    /// Assembles a field specification from its parts.
    pub fn new(
        field_name: String,
        selector: Option<String>,
        shape: Shape,
        target: TargetKind,
        em: ExtractionMethodWithType,
    ) -> (r: FieldSpec)
        ensures
            r.field_name == field_name,
            r.selector == selector,
            r.shape == shape,
            r.target == target,
            r.extraction == em.extraction,
    {
        FieldSpec { field_name, selector, extraction: em.extraction, shape, target }
    }
}

/// Checks that a struct specification is well-formed: every selector in
/// it, at every nesting depth, compiles.
pub fn check_struct(s: &StructSpec) -> (r: bool)
    ensures
        r == struct_wf(*s),
    decreases *s, 0int, 0int,
{
    proof {
        assert(s.fields@.skip(0) =~= s.fields@);
    }
    check_fields(&s.fields, 0)
}

} // verus!
