//! The versioned column-layout schema and its backward-compatible reader.
//!
//! The layout is a tagged union with versions `V1`, `V2` and `V3`. Reading a
//! document written by any version yields a value tagged with that same
//! version: nothing is up-converted silently. The one forward-compatible
//! allowance is the third column list of `V3`, which defaults to empty when
//! the document lacks it. The writer below produces exactly the shape the
//! reader accepts, and the round-trip law is proved at the end of the file.

use vstd::prelude::*;
use crate::strutil::str_eq;
use crate::value::{map_get, mapping_entries, mapping_get, Value};
use crate::value::lemma_map_get_found;

verus! {

/// Why a layout document was rejected.
#[derive(Clone, Copy, PartialEq, Eq, Structural, Debug)]
pub enum SchemaError {
    /// The single top-level tag is none of the known versions.
    UnrecognizedTag,
    /// A field the tagged version requires is absent.
    MissingField,
    /// A value has the wrong shape for its place.
    InvalidValue,
}

/// One column record, as introduced by schema version two.
#[derive(Clone, Debug)]
pub struct ColumnConfigV2 {
    pub key: String,
    pub width: Option<u16>,
    pub hidden: bool,
}

/// The mathematical shape of one column record.
pub struct ColumnModel {
    pub key: Seq<char>,
    pub width: Option<u16>,
    pub hidden: bool,
}

impl View for ColumnConfigV2 {
    type V = ColumnModel;

    open spec fn view(&self) -> ColumnModel {
        ColumnModel { key: self.key@, width: self.width, hidden: self.hidden }
    }
}

/// The versioned column layout.
#[derive(Clone, Debug)]
pub enum ColumnConfig {
    V1 { local_version_width: u16, remote_version_width: u16, status_width: u16 },
    V2 { columns: Vec<ColumnConfigV2> },
    V3 {
        my_addons_columns: Vec<ColumnConfigV2>,
        catalog_columns: Vec<ColumnConfigV2>,
        aura_columns: Vec<ColumnConfigV2>,
    },
}

/// The mathematical shape of the versioned column layout.
pub enum LayoutModel {
    V1 { local_version_width: u16, remote_version_width: u16, status_width: u16 },
    V2 { columns: Seq<ColumnModel> },
    V3 {
        my_addons_columns: Seq<ColumnModel>,
        catalog_columns: Seq<ColumnModel>,
        aura_columns: Seq<ColumnModel>,
    },
}

/// The models of a list of column records.
pub open spec fn column_models(cs: Seq<ColumnConfigV2>) -> Seq<ColumnModel> {
    cs.map_values(|c: ColumnConfigV2| c@)
}

impl View for ColumnConfig {
    type V = LayoutModel;

    open spec fn view(&self) -> LayoutModel {
        match self {
            ColumnConfig::V1 { local_version_width, remote_version_width, status_width } => (
            LayoutModel::V1 {
                local_version_width: *local_version_width,
                remote_version_width: *remote_version_width,
                status_width: *status_width,
            }),
            ColumnConfig::V2 { columns } => (LayoutModel::V2 { columns: column_models(columns@) }),
            ColumnConfig::V3 { my_addons_columns, catalog_columns, aura_columns } => (
            LayoutModel::V3 {
                my_addons_columns: column_models(my_addons_columns@),
                catalog_columns: column_models(catalog_columns@),
                aura_columns: column_models(aura_columns@),
            }),
        }
    }
}

impl Default for ColumnConfig {
    /// The fixed default layout: version one with widths 150, 150 and 85.
    fn default() -> (r: ColumnConfig)
        ensures
            r@ == (LayoutModel::V1 {
                local_version_width: 150u16,
                remote_version_width: 150u16,
                status_width: 85u16,
            }),
    {
        ColumnConfig::V1 { local_version_width: 150, remote_version_width: 150, status_width: 85 }
    }
}

// ---------------------------------------------------------------------------
// Reading: what each version requires of its document.
// ---------------------------------------------------------------------------

/// A required string field: absent is missing, non-text is invalid.
pub open spec fn req_str_field_spec(es: Seq<(String, Value)>, k: Seq<char>) -> Result<
    Seq<char>,
    SchemaError,
> {
    match map_get(es, k) {
        None => Err(SchemaError::MissingField),
        Some(v) => match v {
            Value::Str(s) => Ok(s@),
            _ => Err(SchemaError::InvalidValue),
        },
    }
}

/// A required boolean field.
pub open spec fn req_bool_field_spec(es: Seq<(String, Value)>, k: Seq<char>) -> Result<
    bool,
    SchemaError,
> {
    match map_get(es, k) {
        None => Err(SchemaError::MissingField),
        Some(v) => match v {
            Value::Bool(b) => Ok(b),
            _ => Err(SchemaError::InvalidValue),
        },
    }
}

/// A required width field: an integer that fits a sixteen-bit count.
pub open spec fn req_u16_field_spec(es: Seq<(String, Value)>, k: Seq<char>) -> Result<
    u16,
    SchemaError,
> {
    match map_get(es, k) {
        None => Err(SchemaError::MissingField),
        Some(v) => match v {
            Value::Int(i) => if 0 <= i <= u16::MAX {
                Ok(i as u16)
            } else {
                Err(SchemaError::InvalidValue)
            },
            _ => Err(SchemaError::InvalidValue),
        },
    }
}

/// The optional width of a column: absent or null is no width.
pub open spec fn opt_width_spec(es: Seq<(String, Value)>) -> Result<Option<u16>, SchemaError> {
    match map_get(es, "width"@) {
        None => Ok(None),
        Some(v) => match v {
            Value::Null => Ok(None),
            Value::Int(i) => if 0 <= i <= u16::MAX {
                Ok(Some(i as u16))
            } else {
                Err(SchemaError::InvalidValue)
            },
            _ => Err(SchemaError::InvalidValue),
        },
    }
}

/// Reads one column record: `key` and `hidden` are required, `width` is
/// optional.
pub open spec fn parse_column_spec(v: Value) -> Result<ColumnModel, SchemaError> {
    match mapping_entries(v) {
        None => Err(SchemaError::InvalidValue),
        Some(es) => match req_str_field_spec(es, "key"@) {
            Err(e) => Err(e),
            Ok(key) => match opt_width_spec(es) {
                Err(e) => Err(e),
                Ok(width) => match req_bool_field_spec(es, "hidden"@) {
                    Err(e) => Err(e),
                    Ok(hidden) => Ok(ColumnModel { key, width, hidden }),
                },
            },
        },
    }
}

/// Reads a list of column records; the first offending record decides the
/// error.
pub open spec fn parse_columns_spec(s: Seq<Value>) -> Result<Seq<ColumnModel>, SchemaError>
    decreases s.len(),
{
    if s.len() == 0 {
        Ok(Seq::empty())
    } else {
        match parse_column_spec(s[0]) {
            Err(e) => Err(e),
            Ok(m) => match parse_columns_spec(s.drop_first()) {
                Err(e) => Err(e),
                Ok(ms) => Ok(seq![m] + ms),
            },
        }
    }
}

/// A required list-of-columns field.
pub open spec fn req_columns_field_spec(es: Seq<(String, Value)>, k: Seq<char>) -> Result<
    Seq<ColumnModel>,
    SchemaError,
> {
    match map_get(es, k) {
        None => Err(SchemaError::MissingField),
        Some(v) => match v {
            Value::List(vs) => parse_columns_spec(vs@),
            _ => Err(SchemaError::InvalidValue),
        },
    }
}

/// An optional list-of-columns field: absent means empty.
pub open spec fn opt_columns_field_spec(es: Seq<(String, Value)>, k: Seq<char>) -> Result<
    Seq<ColumnModel>,
    SchemaError,
> {
    match map_get(es, k) {
        None => Ok(Seq::empty()),
        Some(v) => match v {
            Value::List(vs) => parse_columns_spec(vs@),
            _ => Err(SchemaError::InvalidValue),
        },
    }
}

/// Reads a version-one body: three fixed named widths.
pub open spec fn parse_v1_spec(body: Value) -> Result<LayoutModel, SchemaError> {
    match mapping_entries(body) {
        None => Err(SchemaError::InvalidValue),
        Some(fs) => match req_u16_field_spec(fs, "local_version_width"@) {
            Err(e) => Err(e),
            Ok(a) => match req_u16_field_spec(fs, "remote_version_width"@) {
                Err(e) => Err(e),
                Ok(b) => match req_u16_field_spec(fs, "status_width"@) {
                    Err(e) => Err(e),
                    Ok(c) => Ok(LayoutModel::V1 {
                        local_version_width: a,
                        remote_version_width: b,
                        status_width: c,
                    }),
                },
            },
        },
    }
}

/// Reads a version-two body: one required ordered list of columns.
pub open spec fn parse_v2_spec(body: Value) -> Result<LayoutModel, SchemaError> {
    match mapping_entries(body) {
        None => Err(SchemaError::InvalidValue),
        Some(fs) => match req_columns_field_spec(fs, "columns"@) {
            Err(e) => Err(e),
            Ok(ms) => Ok(LayoutModel::V2 { columns: ms }),
        },
    }
}

/// Reads a version-three body: two required lists, and a third that
/// defaults to empty when absent.
pub open spec fn parse_v3_spec(body: Value) -> Result<LayoutModel, SchemaError> {
    match mapping_entries(body) {
        None => Err(SchemaError::InvalidValue),
        Some(fs) => match req_columns_field_spec(fs, "my_addons_columns"@) {
            Err(e) => Err(e),
            Ok(ma) => match req_columns_field_spec(fs, "catalog_columns"@) {
                Err(e) => Err(e),
                Ok(ca) => match opt_columns_field_spec(fs, "aura_columns"@) {
                    Err(e) => Err(e),
                    Ok(au) => Ok(LayoutModel::V3 {
                        my_addons_columns: ma,
                        catalog_columns: ca,
                        aura_columns: au,
                    }),
                },
            },
        },
    }
}

/// Reads a layout document: a mapping with a single version tag. An unknown
/// tag is rejected as such; a recognized tag hands its body to that
/// version's reader, and the result keeps the tag it was written with.
pub open spec fn parse_layout_spec(v: Value) -> Result<LayoutModel, SchemaError> {
    match mapping_entries(v) {
        None => Err(SchemaError::InvalidValue),
        Some(top) => if top.len() != 1 {
            Err(SchemaError::InvalidValue)
        } else {
            if top[0].0@ == "V1"@ {
                parse_v1_spec(top[0].1)
            } else if top[0].0@ == "V2"@ {
                parse_v2_spec(top[0].1)
            } else if top[0].0@ == "V3"@ {
                parse_v3_spec(top[0].1)
            } else {
                Err(SchemaError::UnrecognizedTag)
            }
        },
    }
}

// ---------------------------------------------------------------------------
// The executable reader.
// ---------------------------------------------------------------------------

/// Reads one column record from a document value.
fn parse_column(v: &Value) -> (r: Result<ColumnConfigV2, SchemaError>)
    ensures
        match r {
            Ok(c) => parse_column_spec(*v) == Ok::<ColumnModel, SchemaError>(c@),
            Err(e) => parse_column_spec(*v) == Err::<ColumnModel, SchemaError>(e),
        },
{
    match v {
        Value::Mapping(entries) => {
            let key: String = match mapping_get(entries, "key") {
                None => {
                    return Err(SchemaError::MissingField);
                },
                Some(Value::Str(s)) => s.clone(),
                Some(_) => {
                    return Err(SchemaError::InvalidValue);
                },
            };
            let width: Option<u16> = match mapping_get(entries, "width") {
                None => None,
                Some(Value::Null) => None,
                Some(Value::Int(i)) => if 0 <= *i && *i <= 65535 {
                    Some(*i as u16)
                } else {
                    return Err(SchemaError::InvalidValue);
                },
                Some(_) => {
                    return Err(SchemaError::InvalidValue);
                },
            };
            let hidden: bool = match mapping_get(entries, "hidden") {
                None => {
                    return Err(SchemaError::MissingField);
                },
                Some(Value::Bool(b)) => *b,
                Some(_) => {
                    return Err(SchemaError::InvalidValue);
                },
            };
            Ok(ColumnConfigV2 { key, width, hidden })
        },
        _ => Err(SchemaError::InvalidValue),
    }
}

/// When every element up to the end reads cleanly, the whole list does.
proof fn lemma_columns_spec_ok(s: Seq<Value>, ms: Seq<ColumnModel>)
    requires
        s.len() == ms.len(),
        forall|j: int| 0 <= j < s.len() ==> parse_column_spec(s[j]) == Ok::<
            ColumnModel,
            SchemaError,
        >(ms[j]),
    ensures
        parse_columns_spec(s) == Ok::<Seq<ColumnModel>, SchemaError>(ms),
    decreases s.len(),
{
    if s.len() == 0 {
        assert(ms =~= Seq::<ColumnModel>::empty());
    } else {
        lemma_columns_spec_ok(s.drop_first(), ms.drop_first());
        assert(seq![ms[0]] + ms.drop_first() =~= ms);
    }
}

/// The first offending element decides the error of the whole list.
proof fn lemma_columns_spec_err(s: Seq<Value>, i: int, e: SchemaError)
    requires
        0 <= i < s.len(),
        forall|j: int| 0 <= j < i ==> parse_column_spec(s[j]) is Ok,
        parse_column_spec(s[i]) == Err::<ColumnModel, SchemaError>(e),
    ensures
        parse_columns_spec(s) == Err::<Seq<ColumnModel>, SchemaError>(e),
    decreases i,
{
    if i > 0 {
        lemma_columns_spec_err(s.drop_first(), i - 1, e);
    }
}

/// Reads a list of column records.
fn parse_columns(vs: &Vec<Value>) -> (r: Result<Vec<ColumnConfigV2>, SchemaError>)
    ensures
        match r {
            Ok(cs) => parse_columns_spec(vs@) == Ok::<Seq<ColumnModel>, SchemaError>(
                column_models(cs@),
            ),
            Err(e) => parse_columns_spec(vs@) == Err::<Seq<ColumnModel>, SchemaError>(e),
        },
{
    let n = vs.len();
    let mut out: Vec<ColumnConfigV2> = Vec::new();
    let mut i: usize = 0;
    while i < n
        invariant
            i <= n,
            n == vs@.len(),
            out@.len() == i,
            forall|j: int| 0 <= j < i ==> parse_column_spec(vs@[j]) == Ok::<
                ColumnModel,
                SchemaError,
            >(out@[j]@),
        decreases n - i,
    {
        match parse_column(&vs[i]) {
            Ok(c) => {
                out.push(c);
            },
            Err(e) => {
                proof {
                    lemma_columns_spec_err(vs@, i as int, e);
                }
                return Err(e);
            },
        }
        i = i + 1;
    }
    proof {
        assert(column_models(out@).len() == out@.len());
        assert(forall|j: int| 0 <= j < out@.len() ==> column_models(out@)[j] == out@[j]@);
        lemma_columns_spec_ok(vs@, column_models(out@));
    }
    Ok(out)
}

/// Reads a version-one body.
fn parse_v1(body: &Value) -> (r: Result<ColumnConfig, SchemaError>)
    ensures
        match r {
            Ok(c) => parse_v1_spec(*body) == Ok::<LayoutModel, SchemaError>(c@),
            Err(e) => parse_v1_spec(*body) == Err::<LayoutModel, SchemaError>(e),
        },
{
    match body {
        Value::Mapping(fs) => {
            let a = match read_u16_field(fs, "local_version_width") {
                Ok(w) => w,
                Err(e) => {
                    return Err(e);
                },
            };
            let b = match read_u16_field(fs, "remote_version_width") {
                Ok(w) => w,
                Err(e) => {
                    return Err(e);
                },
            };
            let c = match read_u16_field(fs, "status_width") {
                Ok(w) => w,
                Err(e) => {
                    return Err(e);
                },
            };
            Ok(ColumnConfig::V1 {
                local_version_width: a,
                remote_version_width: b,
                status_width: c,
            })
        },
        _ => Err(SchemaError::InvalidValue),
    }
}

/// Reads one required width field of a version-one body.
fn read_u16_field(fs: &Vec<(String, Value)>, key: &str) -> (r: Result<u16, SchemaError>)
    ensures
        match r {
            Ok(w) => req_u16_field_spec(fs@, key@) == Ok::<u16, SchemaError>(w),
            Err(e) => req_u16_field_spec(fs@, key@) == Err::<u16, SchemaError>(e),
        },
{
    match mapping_get(fs, key) {
        None => Err(SchemaError::MissingField),
        Some(Value::Int(i)) => if 0 <= *i && *i <= 65535 {
            Ok(*i as u16)
        } else {
            Err(SchemaError::InvalidValue)
        },
        Some(_) => Err(SchemaError::InvalidValue),
    }
}

/// Reads one required list-of-columns field.
fn read_columns_field(fs: &Vec<(String, Value)>, key: &str) -> (r: Result<
    Vec<ColumnConfigV2>,
    SchemaError,
>)
    ensures
        match r {
            Ok(cs) => req_columns_field_spec(fs@, key@) == Ok::<Seq<ColumnModel>, SchemaError>(
                column_models(cs@),
            ),
            Err(e) => req_columns_field_spec(fs@, key@) == Err::<Seq<ColumnModel>, SchemaError>(e),
        },
{
    match mapping_get(fs, key) {
        None => Err(SchemaError::MissingField),
        Some(Value::List(vs)) => parse_columns(vs),
        Some(_) => Err(SchemaError::InvalidValue),
    }
}

/// Reads a version-two body.
fn parse_v2(body: &Value) -> (r: Result<ColumnConfig, SchemaError>)
    ensures
        match r {
            Ok(c) => parse_v2_spec(*body) == Ok::<LayoutModel, SchemaError>(c@),
            Err(e) => parse_v2_spec(*body) == Err::<LayoutModel, SchemaError>(e),
        },
{
    match body {
        Value::Mapping(fs) => {
            match read_columns_field(fs, "columns") {
                Ok(cs) => Ok(ColumnConfig::V2 { columns: cs }),
                Err(e) => Err(e),
            }
        },
        _ => Err(SchemaError::InvalidValue),
    }
}

/// Reads a version-three body; a missing third list is an empty one.
fn parse_v3(body: &Value) -> (r: Result<ColumnConfig, SchemaError>)
    ensures
        match r {
            Ok(c) => parse_v3_spec(*body) == Ok::<LayoutModel, SchemaError>(c@),
            Err(e) => parse_v3_spec(*body) == Err::<LayoutModel, SchemaError>(e),
        },
{
    match body {
        Value::Mapping(fs) => {
            let ma = match read_columns_field(fs, "my_addons_columns") {
                Ok(cs) => cs,
                Err(e) => {
                    return Err(e);
                },
            };
            let ca = match read_columns_field(fs, "catalog_columns") {
                Ok(cs) => cs,
                Err(e) => {
                    return Err(e);
                },
            };
            let au = match mapping_get(fs, "aura_columns") {
                None => Vec::new(),
                Some(Value::List(vs)) => match parse_columns(vs) {
                    Ok(cs) => cs,
                    Err(e) => {
                        return Err(e);
                    },
                },
                Some(_) => {
                    return Err(SchemaError::InvalidValue);
                },
            };
            proof {
                assert(column_models(Seq::<ColumnConfigV2>::empty()) =~= Seq::<
                    ColumnModel,
                >::empty());
            }
            Ok(ColumnConfig::V3 { my_addons_columns: ma, catalog_columns: ca, aura_columns: au })
        },
        _ => Err(SchemaError::InvalidValue),
    }
}

impl ColumnConfig {
    /// Reads a layout document. The result keeps the version tag the
    /// document was written with; an unknown tag, or a recognized tag whose
    /// required fields are absent or ill-shaped, is rejected with the
    /// matching error.
    pub fn deserialize(v: &Value) -> (r: Result<ColumnConfig, SchemaError>)
        ensures
            match r {
                Ok(c) => parse_layout_spec(*v) == Ok::<LayoutModel, SchemaError>(c@),
                Err(e) => parse_layout_spec(*v) == Err::<LayoutModel, SchemaError>(e),
            },
    {
        match v {
            Value::Mapping(top) => {
                if top.len() != 1 {
                    return Err(SchemaError::InvalidValue);
                }
                let pair = &top[0];
                if str_eq(pair.0.as_str(), "V1") {
                    parse_v1(&pair.1)
                } else if str_eq(pair.0.as_str(), "V2") {
                    parse_v2(&pair.1)
                } else if str_eq(pair.0.as_str(), "V3") {
                    parse_v3(&pair.1)
                } else {
                    Err(SchemaError::UnrecognizedTag)
                }
            },
            _ => Err(SchemaError::InvalidValue),
        }
    }
}

// ---------------------------------------------------------------------------
// Writing: the exact shape the writer produces.
// ---------------------------------------------------------------------------

/// The document value a column width takes: null when absent.
pub open spec fn width_value_rep(v: Value, w: Option<u16>) -> bool {
    match w {
        None => v is Null,
        Some(x) => v matches Value::Int(i) && i == x as i64,
    }
}

/// The document value of one column record.
pub open spec fn column_value_rep(v: Value, m: ColumnModel) -> bool {
    &&& v matches Value::Mapping(es)
    &&& mapping_entries(v) matches Some(es)
    &&& es.len() == 3
    &&& es[0].0@ == "key"@
    &&& es[0].1 matches Value::Str(s) && s@ == m.key
    &&& es[1].0@ == "width"@
    &&& width_value_rep(es[1].1, m.width)
    &&& es[2].0@ == "hidden"@
    &&& es[2].1 == Value::Bool(m.hidden)
}

/// The document value of a list of column records.
pub open spec fn columns_value_rep(s: Seq<Value>, ms: Seq<ColumnModel>) -> bool {
    s.len() == ms.len() && (forall|i: int| 0 <= i < s.len() ==> column_value_rep(s[i], ms[i]))
}

/// The document value of a whole layout: one entry tagged with its version.
pub open spec fn layout_value_rep(v: Value, m: LayoutModel) -> bool {
    &&& mapping_entries(v) matches Some(top)
    &&& top.len() == 1
    &&& match m {
        LayoutModel::V1 { local_version_width, remote_version_width, status_width } => {
            &&& top[0].0@ == "V1"@
            &&& mapping_entries(top[0].1) matches Some(fs)
            &&& fs.len() == 3
            &&& fs[0].0@ == "local_version_width"@ && fs[0].1 == Value::Int(
                local_version_width as i64,
            )
            &&& fs[1].0@ == "remote_version_width"@ && fs[1].1 == Value::Int(
                remote_version_width as i64,
            )
            &&& fs[2].0@ == "status_width"@ && fs[2].1 == Value::Int(status_width as i64)
        },
        LayoutModel::V2 { columns } => {
            &&& top[0].0@ == "V2"@
            &&& mapping_entries(top[0].1) matches Some(fs)
            &&& fs.len() == 1
            &&& fs[0].0@ == "columns"@
            &&& fs[0].1 matches Value::List(vs) && columns_value_rep(vs@, columns)
        },
        LayoutModel::V3 { my_addons_columns, catalog_columns, aura_columns } => {
            &&& top[0].0@ == "V3"@
            &&& mapping_entries(top[0].1) matches Some(fs)
            &&& fs.len() == 3
            &&& fs[0].0@ == "my_addons_columns"@
            &&& fs[0].1 matches Value::List(vs) && columns_value_rep(vs@, my_addons_columns)
            &&& fs[1].0@ == "catalog_columns"@
            &&& fs[1].1 matches Value::List(vs) && columns_value_rep(vs@, catalog_columns)
            &&& fs[2].0@ == "aura_columns"@
            &&& fs[2].1 matches Value::List(vs) && columns_value_rep(vs@, aura_columns)
        },
    }
}

/// Writes one column record.
fn column_to_value(c: &ColumnConfigV2) -> (r: Value)
    ensures
        column_value_rep(r, c@),
{
    let mut es: Vec<(String, Value)> = Vec::new();
    es.push((String::from_str("key"), Value::Str(c.key.clone())));
    let w = match c.width {
        None => Value::Null,
        Some(x) => Value::Int(x as i64),
    };
    es.push((String::from_str("width"), w));
    es.push((String::from_str("hidden"), Value::Bool(c.hidden)));
    Value::Mapping(es)
}

/// Writes a list of column records.
fn columns_to_value(cs: &Vec<ColumnConfigV2>) -> (r: Value)
    ensures
        r matches Value::List(vs) && columns_value_rep(vs@, column_models(cs@)),
{
    let n = cs.len();
    let mut out: Vec<Value> = Vec::new();
    let mut i: usize = 0;
    while i < n
        invariant
            i <= n,
            n == cs@.len(),
            out@.len() == i,
            forall|j: int| 0 <= j < i ==> column_value_rep(out@[j], cs@[j]@),
        decreases n - i,
    {
        out.push(column_to_value(&cs[i]));
        i = i + 1;
    }
    Value::List(out)
}

impl ColumnConfig {
    /// Writes the layout in the exact shape `deserialize` accepts, tag
    /// included.
    pub fn serialize(&self) -> (r: Value)
        ensures
            layout_value_rep(r, self@),
    {
        match self {
            ColumnConfig::V1 { local_version_width, remote_version_width, status_width } => {
                let mut fs: Vec<(String, Value)> = Vec::new();
                fs.push(
                    (String::from_str("local_version_width"), Value::Int(*local_version_width as i64)),
                );
                fs.push(
                    (String::from_str("remote_version_width"), Value::Int(*remote_version_width as i64)),
                );
                fs.push((String::from_str("status_width"), Value::Int(*status_width as i64)));
                let mut top: Vec<(String, Value)> = Vec::new();
                top.push((String::from_str("V1"), Value::Mapping(fs)));
                Value::Mapping(top)
            },
            ColumnConfig::V2 { columns } => {
                let mut fs: Vec<(String, Value)> = Vec::new();
                fs.push((String::from_str("columns"), columns_to_value(columns)));
                let mut top: Vec<(String, Value)> = Vec::new();
                top.push((String::from_str("V2"), Value::Mapping(fs)));
                Value::Mapping(top)
            },
            ColumnConfig::V3 { my_addons_columns, catalog_columns, aura_columns } => {
                let mut fs: Vec<(String, Value)> = Vec::new();
                fs.push((String::from_str("my_addons_columns"), columns_to_value(my_addons_columns)));
                fs.push((String::from_str("catalog_columns"), columns_to_value(catalog_columns)));
                fs.push((String::from_str("aura_columns"), columns_to_value(aura_columns)));
                let mut top: Vec<(String, Value)> = Vec::new();
                top.push((String::from_str("V3"), Value::Mapping(fs)));
                Value::Mapping(top)
            },
        }
    }
}

// ---------------------------------------------------------------------------
// The round-trip law.
// ---------------------------------------------------------------------------

/// Pins the literal facts that tell the writer's keys apart.
proof fn lemma_schema_literals()
    ensures
        "key"@.len() == 3,
        "width"@.len() == 5,
        "hidden"@.len() == 6,
        "V1"@.len() == 2,
        "V2"@.len() == 2,
        "V3"@.len() == 2,
        "V1"@[1] == '1',
        "V2"@[1] == '2',
        "V3"@[1] == '3',
        "local_version_width"@.len() == 19,
        "remote_version_width"@.len() == 20,
        "status_width"@.len() == 12,
        "columns"@.len() == 7,
        "my_addons_columns"@.len() == 17,
        "catalog_columns"@.len() == 15,
        "aura_columns"@.len() == 12,
        "aura_columns"@[0] == 'a',
        "status_width"@[0] == 's',
{
    reveal_strlit("key");
    reveal_strlit("width");
    reveal_strlit("hidden");
    reveal_strlit("V1");
    reveal_strlit("V2");
    reveal_strlit("V3");
    reveal_strlit("local_version_width");
    reveal_strlit("remote_version_width");
    reveal_strlit("status_width");
    reveal_strlit("columns");
    reveal_strlit("my_addons_columns");
    reveal_strlit("catalog_columns");
    reveal_strlit("aura_columns");
}

/// A written column record reads back as itself.
proof fn lemma_column_rep_parses(v: Value, m: ColumnModel)
    requires
        column_value_rep(v, m),
    ensures
        parse_column_spec(v) == Ok::<ColumnModel, SchemaError>(m),
{
    lemma_schema_literals();
    let es = mapping_entries(v)->Some_0;
    lemma_map_get_found(es, "key"@, 0);
    lemma_map_get_found(es, "width"@, 1);
    lemma_map_get_found(es, "hidden"@, 2);
}

/// A written column list reads back as itself.
proof fn lemma_columns_rep_parses(s: Seq<Value>, ms: Seq<ColumnModel>)
    requires
        columns_value_rep(s, ms),
    ensures
        parse_columns_spec(s) == Ok::<Seq<ColumnModel>, SchemaError>(ms),
    decreases s.len(),
{
    if s.len() == 0 {
        assert(ms =~= Seq::<ColumnModel>::empty());
    } else {
        lemma_column_rep_parses(s[0], ms[0]);
        assert(columns_value_rep(s.drop_first(), ms.drop_first()));
        lemma_columns_rep_parses(s.drop_first(), ms.drop_first());
        assert(seq![ms[0]] + ms.drop_first() =~= ms);
    }
}

/// The round-trip law: a document carrying the written shape of any layout
/// value reads back as exactly that value, version tag included. Together
/// with the contract of `serialize`, deserializing a document, writing the
/// result, and reading it again reproduces an equal value for every valid
/// document of versions one, two and three.
pub proof fn lemma_layout_round_trip(v: Value, m: LayoutModel)
    requires
        layout_value_rep(v, m),
    ensures
        parse_layout_spec(v) == Ok::<LayoutModel, SchemaError>(m),
{
    lemma_schema_literals();
    let top = mapping_entries(v)->Some_0;
    match m {
        LayoutModel::V1 { local_version_width, remote_version_width, status_width } => {
            let fs = mapping_entries(top[0].1)->Some_0;
            lemma_map_get_found(fs, "local_version_width"@, 0);
            lemma_map_get_found(fs, "remote_version_width"@, 1);
            lemma_map_get_found(fs, "status_width"@, 2);
        },
        LayoutModel::V2 { columns } => {
            let fs = mapping_entries(top[0].1)->Some_0;
            lemma_map_get_found(fs, "columns"@, 0);
            let vs = match fs[0].1 {
                Value::List(vs) => vs@,
                _ => Seq::empty(),
            };
            lemma_columns_rep_parses(vs, columns);
        },
        LayoutModel::V3 { my_addons_columns, catalog_columns, aura_columns } => {
            let fs = mapping_entries(top[0].1)->Some_0;
            lemma_map_get_found(fs, "my_addons_columns"@, 0);
            lemma_map_get_found(fs, "catalog_columns"@, 1);
            lemma_map_get_found(fs, "aura_columns"@, 2);
            let vs0 = match fs[0].1 {
                Value::List(vs) => vs@,
                _ => Seq::empty(),
            };
            let vs1 = match fs[1].1 {
                Value::List(vs) => vs@,
                _ => Seq::empty(),
            };
            let vs2 = match fs[2].1 {
                Value::List(vs) => vs@,
                _ => Seq::empty(),
            };
            lemma_columns_rep_parses(vs0, my_addons_columns);
            lemma_columns_rep_parses(vs1, catalog_columns);
            lemma_columns_rep_parses(vs2, aura_columns);
        },
    }
}

/// The forward-compatibility law: a version-three document that carries no
/// third column list still reads cleanly, and the third list of the result
/// is empty.
pub proof fn lemma_v3_missing_aura_reads_empty(v: Value, top: Seq<(String, Value)>, fs: Seq<(String, Value)>)
    requires
        mapping_entries(v) == Some(top),
        top.len() == 1,
        top[0].0@ == "V3"@,
        mapping_entries(top[0].1) == Some(fs),
        map_get(fs, "aura_columns"@) is None,
        req_columns_field_spec(fs, "my_addons_columns"@) is Ok,
        req_columns_field_spec(fs, "catalog_columns"@) is Ok,
    ensures
        parse_layout_spec(v) matches Ok(m) && m matches LayoutModel::V3 {
            aura_columns,
            ..
        } && aura_columns == Seq::<ColumnModel>::empty(),
{
    lemma_schema_literals();
}


// ---------------------------------------------------------------------------
// Structural equality, version tag included: a version-one value never
// equals a version-three value, whatever the effective widths.
// ---------------------------------------------------------------------------

impl PartialEq for ColumnConfigV2 {
    fn eq(&self, other: &ColumnConfigV2) -> (r: bool) {
        let same_key = self.key == other.key;
        let same_width = match (self.width, other.width) {
            (None, None) => true,
            (Some(a), Some(b)) => a == b,
            _ => false,
        };
        same_key && same_width && self.hidden == other.hidden
    }
}

impl vstd::std_specs::cmp::PartialEqSpecImpl for ColumnConfigV2 {
    open spec fn obeys_eq_spec() -> bool {
        true
    }

    open spec fn eq_spec(&self, other: &ColumnConfigV2) -> bool {
        self@ == other@
    }
}

/// Element-for-element equality of two column lists.
fn columns_eq(a: &Vec<ColumnConfigV2>, b: &Vec<ColumnConfigV2>) -> (r: bool)
    ensures
        r == (column_models(a@) == column_models(b@)),
{
    let n = a.len();
    if n != b.len() {
        proof {
            assert(column_models(a@).len() != column_models(b@).len());
        }
        return false;
    }
    let mut i: usize = 0;
    while i < n
        invariant
            i <= n,
            n == a@.len(),
            n == b@.len(),
            forall|j: int| 0 <= j < i ==> a@[j]@ == b@[j]@,
        decreases n - i,
    {
        if !(a[i] == b[i]) {
            proof {
                assert(column_models(a@)[i as int] == a@[i as int]@);
                assert(column_models(b@)[i as int] == b@[i as int]@);
            }
            return false;
        }
        i = i + 1;
    }
    proof {
        assert(column_models(a@) =~= column_models(b@));
    }
    true
}

impl PartialEq for ColumnConfig {
    fn eq(&self, other: &ColumnConfig) -> (r: bool) {
        match (self, other) {
            (
                ColumnConfig::V1 {
                    local_version_width: a1,
                    remote_version_width: b1,
                    status_width: c1,
                },
                ColumnConfig::V1 {
                    local_version_width: a2,
                    remote_version_width: b2,
                    status_width: c2,
                },
            ) => *a1 == *a2 && *b1 == *b2 && *c1 == *c2,
            (ColumnConfig::V2 { columns: x }, ColumnConfig::V2 { columns: y }) => columns_eq(
                x,
                y,
            ),
            (
                ColumnConfig::V3 {
                    my_addons_columns: m1,
                    catalog_columns: c1,
                    aura_columns: u1,
                },
                ColumnConfig::V3 {
                    my_addons_columns: m2,
                    catalog_columns: c2,
                    aura_columns: u2,
                },
            ) => columns_eq(m1, m2) && columns_eq(c1, c2) && columns_eq(u1, u2),
            _ => false,
        }
    }
}

impl vstd::std_specs::cmp::PartialEqSpecImpl for ColumnConfig {
    open spec fn obeys_eq_spec() -> bool {
        true
    }

    open spec fn eq_spec(&self, other: &ColumnConfig) -> bool {
        self@ == other@
    }
}

} // verus!
