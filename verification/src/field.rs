//! Fields: the named attributes that records carry values for.
use vstd::prelude::*;
use crate::error::LoadError;
use crate::session::App;

verus! {

/// Builds a new field; the field gets its id when it is inserted.
pub struct FieldBuilder {
    name: Option<String>,
}

impl View for FieldBuilder {
    type V = Option<Seq<char>>;

    closed spec fn view(&self) -> Option<Seq<char>> {
        match self.name {
            Some(n) => Some(n@),
            None => None,
        }
    }
}

/// The row to insert for a new field.
pub struct NewField {
    pub name: String,
}

impl FieldBuilder {
    pub fn new() -> (r: FieldBuilder)
        ensures
            r@ is None,
    {
        FieldBuilder { name: None }
    }

    pub fn name(self, name: String) -> (r: FieldBuilder)
        ensures
            r@ == Some(name@),
    {
        FieldBuilder { name: Some(name) }
    }

    /// Whether a name has been set, which building needs.
    pub fn has_name(&self) -> (r: bool)
        ensures
            r == self@ is Some,
    {
        self.name.is_some()
    }

    /// Checks that someone is logged in and gives the row to insert.
    pub fn build(self, app: &App) -> (r: Result<NewField, LoadError>)
        requires
            app@ is Some ==> self@ is Some,
        ensures
            app@ is None ==> r == Err::<NewField, LoadError>(LoadError::Unauthorized),
            app@ is Some ==> (r matches Ok(row) && row.name@ == self@->0),
    {
        if app.session().is_none() {
            return Err(LoadError::Unauthorized);
        }
        match self.name {
            Some(name) => Ok(NewField { name }),
            None => Err(LoadError::NotFound),
        }
    }
}

impl NewField {
    /// The field that the inserted row became, under the id it was given.
    pub fn into_field(self, id: u128) -> (r: Field)
        ensures
            r@ == (FieldView { id, name: self.name@, is_dirty: false }),
    {
        Field { id, name: self.name, is_dirty: false }
    }
}

/// A field of the data model.
pub struct Field {
    id: u128,
    name: String,
    is_dirty: bool,
}

pub struct FieldView {
    pub id: u128,
    pub name: Seq<char>,
    pub is_dirty: bool,
}

impl View for Field {
    type V = FieldView;

    closed spec fn view(&self) -> FieldView {
        FieldView { id: self.id, name: self.name@, is_dirty: self.is_dirty }
    }
}

/// The change to write for a field: its new name.
pub struct FieldChange {
    pub id: u128,
    pub name: String,
}

impl Field {
    /// A field as loaded from its row; nothing is pending.
    pub fn from_row(id: u128, name: String) -> (r: Field)
        ensures
            r@ == (FieldView { id, name: name@, is_dirty: false }),
    {
        Field { id, name, is_dirty: false }
    }

    pub fn id(&self) -> (r: u128)
        ensures
            r == self@.id,
    {
        self.id
    }

    pub fn name(&self) -> (r: &str)
        ensures
            r@ == self@.name,
    {
        self.name.as_str()
    }

    /// Decides what saving writes: nothing without a session, the new name
    /// when there is a pending change (which is then no longer pending).
    pub fn save(&mut self, app: &App) -> (r: Result<Option<FieldChange>, LoadError>)
        ensures
            app@ is None ==> r == Err::<Option<FieldChange>, LoadError>(LoadError::Unauthorized)
                && final(self)@ == old(self)@,
            app@ is Some && !old(self)@.is_dirty ==> (r matches Ok(None) && final(self)@ == old(
                self,
            )@),
            app@ is Some && old(self)@.is_dirty ==> (r matches Ok(Some(c)) && c.id == old(self)@.id
                && c.name@ == old(self)@.name) && final(self)@ == (FieldView {
                is_dirty: false,
                ..old(self)@
            }),
    {
        if app.session().is_none() {
            return Err(LoadError::Unauthorized);
        }
        if self.is_dirty {
            Ok(Some(self.update()))
        } else {
            Ok(None)
        }
    }

    fn update(&mut self) -> (r: FieldChange)
        ensures
            r.id == old(self)@.id,
            r.name@ == old(self)@.name,
            final(self)@ == (FieldView { is_dirty: false, ..old(self)@ }),
    {
        self.is_dirty = false;
        FieldChange { id: self.id, name: self.name.clone() }
    }

    /// Checks that someone is logged in and gives the id of the row to delete.
    pub fn delete(self, app: &App) -> (r: Result<u128, LoadError>)
        ensures
            app@ is None ==> r == Err::<u128, LoadError>(LoadError::Unauthorized),
            app@ is Some ==> r == Ok::<u128, LoadError>(self@.id),
    {
        if app.session().is_none() {
            return Err(LoadError::Unauthorized);
        }
        Ok(self.id)
    }
}

/// A value that a record holds for a field.
#[derive(Debug, Clone)]
pub enum FieldValue {
    Number(i64),
    Boolean(bool),
    Text(String),
    Empty,
}

pub enum FieldValueView {
    Number(i64),
    Boolean(bool),
    Text(Seq<char>),
    Empty,
}

impl View for FieldValue {
    type V = FieldValueView;

    open spec fn view(&self) -> FieldValueView {
        match self {
            FieldValue::Number(n) => FieldValueView::Number(*n),
            FieldValue::Boolean(b) => FieldValueView::Boolean(*b),
            FieldValue::Text(t) => FieldValueView::Text(t@),
            FieldValue::Empty => FieldValueView::Empty,
        }
    }
}

impl FieldValue {
    /// An equal copy of the value.
    pub fn copy_value(&self) -> (r: FieldValue)
        ensures
            r@ == self@,
    {
        match self {
            FieldValue::Number(n) => FieldValue::Number(*n),
            FieldValue::Boolean(b) => FieldValue::Boolean(*b),
            FieldValue::Text(t) => FieldValue::Text(t.clone()),
            FieldValue::Empty => FieldValue::Empty,
        }
    }
}

impl From<i64> for FieldValue {
    fn from(v: i64) -> (r: FieldValue) {
        FieldValue::Number(v)
    }
}

impl vstd::std_specs::convert::FromSpecImpl<i64> for FieldValue {
    open spec fn obeys_from_spec() -> bool {
        true
    }

    open spec fn from_spec(v: i64) -> FieldValue {
        FieldValue::Number(v)
    }
}

impl From<bool> for FieldValue {
    fn from(v: bool) -> (r: FieldValue) {
        FieldValue::Boolean(v)
    }
}

impl vstd::std_specs::convert::FromSpecImpl<bool> for FieldValue {
    open spec fn obeys_from_spec() -> bool {
        true
    }

    open spec fn from_spec(v: bool) -> FieldValue {
        FieldValue::Boolean(v)
    }
}

impl From<String> for FieldValue {
    fn from(v: String) -> (r: FieldValue) {
        FieldValue::Text(v)
    }
}

impl vstd::std_specs::convert::FromSpecImpl<String> for FieldValue {
    open spec fn obeys_from_spec() -> bool {
        true
    }

    open spec fn from_spec(v: String) -> FieldValue {
        FieldValue::Text(v)
    }
}

impl From<()> for FieldValue {
    fn from(v: ()) -> (r: FieldValue) {
        FieldValue::Empty
    }
}

impl vstd::std_specs::convert::FromSpecImpl<()> for FieldValue {
    open spec fn obeys_from_spec() -> bool {
        true
    }

    open spec fn from_spec(v: ()) -> FieldValue {
        FieldValue::Empty
    }
}

/// The text value of a string slice.
pub fn text_value(v: &str) -> (r: FieldValue)
    ensures
        r@ == FieldValueView::Text(v@),
{
    FieldValue::Text(v.to_string())
}

/// The field that a loaded record gets from its document form: id and
/// name are kept, the value starts out empty and nothing is pending.
pub open spec fn field_from_dto(d: FieldDto) -> RecordFieldView {
    RecordFieldView { id: d.id, name: d.name@, value: FieldValueView::Empty, is_dirty: false }
}

/// A field as it stands in one record, with the record's value for it.
pub struct RecordField {
    id: u128,
    name: String,
    value: FieldValue,
    is_dirty: bool,
}

pub struct RecordFieldView {
    pub id: u128,
    pub name: Seq<char>,
    pub value: FieldValueView,
    pub is_dirty: bool,
}

impl View for RecordField {
    type V = RecordFieldView;

    closed spec fn view(&self) -> RecordFieldView {
        RecordFieldView { id: self.id, name: self.name@, value: self.value@, is_dirty: self.is_dirty }
    }
}

/// The document form of a record's field.
pub struct FieldDto {
    pub id: u128,
    pub name: String,
    pub value: FieldValue,
}

impl RecordField {
    /// The field with no value yet.
    pub fn empty(id: u128, name: String) -> (r: RecordField)
        ensures
            r@ == (RecordFieldView {
                id,
                name: name@,
                value: FieldValueView::Empty,
                is_dirty: false,
            }),
    {
        RecordField { id, name, value: FieldValue::Empty, is_dirty: false }
    }

    pub fn id(&self) -> (r: u128)
        ensures
            r == self@.id,
    {
        self.id
    }

    pub fn value(&self) -> (r: &FieldValue)
        ensures
            r@ == self@.value,
    {
        &self.value
    }

    /// Sets the value; the field then has a pending change.
    pub fn set_value(&mut self, value: FieldValue)
        ensures
            final(self)@ == (RecordFieldView { value: value@, is_dirty: true, ..old(self)@ }),
    {
        self.value = value;
        self.is_dirty = true;
    }

    pub fn to_dto(&self) -> (r: FieldDto)
        ensures
            r.id == self@.id,
            r.name@ == self@.name,
            r.value@ == self@.value,
    {
        FieldDto { id: self.id, name: self.name.clone(), value: self.value.copy_value() }
    }

    /// The field of a loaded record: id and name come from the document,
    /// the value starts out empty.
    pub fn from_dto(dto: FieldDto) -> (r: RecordField)
        ensures
            r@ == field_from_dto(dto),
    {
        RecordField { id: dto.id, name: dto.name, value: FieldValue::Empty, is_dirty: false }
    }
}

} // verus!
