//! Field groups: named sets of fields that classifications bring to records.
use vstd::prelude::*;
use crate::error::LoadError;
use crate::field::Field;
use crate::session::App;

verus! {

/// Builds a new field group; the group gets its id when it is inserted.
pub struct FieldGroupBuilder {
    name: Option<String>,
}

impl View for FieldGroupBuilder {
    type V = Option<Seq<char>>;

    closed spec fn view(&self) -> Option<Seq<char>> {
        match self.name {
            Some(n) => Some(n@),
            None => None,
        }
    }
}

/// The row to insert for a new field group.
pub struct NewFieldGroup {
    pub name: String,
}

/// The row that puts a field into a field group.
pub struct Field2FieldGroup {
    pub field_id: u128,
    pub field_group_id: u128,
}

impl FieldGroupBuilder {
    pub fn new() -> (r: FieldGroupBuilder)
        ensures
            r@ is None,
    {
        FieldGroupBuilder { name: None }
    }

    pub fn name(self, name: String) -> (r: FieldGroupBuilder)
        ensures
            r@ == Some(name@),
    {
        FieldGroupBuilder { name: Some(name) }
    }

    /// Whether a name has been set, which building needs.
    pub fn has_name(&self) -> (r: bool)
        ensures
            r == self@ is Some,
    {
        self.name.is_some()
    }

    /// Checks that someone is logged in and gives the row to insert.
    pub fn build(self, app: &App) -> (r: Result<NewFieldGroup, LoadError>)
        requires
            app@ is Some ==> self@ is Some,
        ensures
            app@ is None ==> r == Err::<NewFieldGroup, LoadError>(LoadError::Unauthorized),
            app@ is Some ==> (r matches Ok(row) && row.name@ == self@->0),
    {
        if app.session().is_none() {
            return Err(LoadError::Unauthorized);
        }
        match self.name {
            Some(name) => Ok(NewFieldGroup { name }),
            None => Err(LoadError::NotFound),
        }
    }
}

impl NewFieldGroup {
    /// The group that the inserted row became, under the id it was given.
    pub fn into_field_group(self, id: u128) -> (r: FieldGroup)
        ensures
            r@ == (FieldGroupView { id, name: self.name@, is_dirty: false }),
    {
        FieldGroup { id, name: self.name, is_dirty: false }
    }
}

/// A group of fields.
pub struct FieldGroup {
    id: u128,
    name: String,
    is_dirty: bool,
}

pub struct FieldGroupView {
    pub id: u128,
    pub name: Seq<char>,
    pub is_dirty: bool,
}

impl View for FieldGroup {
    type V = FieldGroupView;

    closed spec fn view(&self) -> FieldGroupView {
        FieldGroupView { id: self.id, name: self.name@, is_dirty: self.is_dirty }
    }
}

/// The change to write for a field group: its new name.
pub struct FieldGroupChange {
    pub id: u128,
    pub name: String,
}

impl FieldGroup {
    /// A group as loaded from its row; nothing is pending.
    pub fn from_row(id: u128, name: String) -> (r: FieldGroup)
        ensures
            r@ == (FieldGroupView { id, name: name@, is_dirty: false }),
    {
        FieldGroup { id, name, is_dirty: false }
    }

    pub fn id(&self) -> (r: u128)
        ensures
            r == self@.id,
    {
        self.id
    }

    pub fn name(&self) -> (r: &str)
        ensures
            r@ == self@.name,
    {
        self.name.as_str()
    }

    /// Checks that someone is logged in and gives the row that puts
    /// `field` into this group.
    pub fn add_field(&mut self, app: &App, field: &Field) -> (r: Result<Field2FieldGroup, LoadError>)
        ensures
            final(self)@ == old(self)@,
            app@ is None ==> r is Err && r == Err::<Field2FieldGroup, LoadError>(
                LoadError::Unauthorized,
            ),
            app@ is Some ==> (r matches Ok(row) && row.field_group_id == old(self)@.id
                && row.field_id == field@.id),
    {
        if app.session().is_none() {
            return Err(LoadError::Unauthorized);
        }
        Ok(Field2FieldGroup { field_group_id: self.id, field_id: field.id() })
    }

    /// Decides what saving writes: nothing without a session, the new name
    /// when there is a pending change (which is then no longer pending).
    pub fn save(&mut self, app: &App) -> (r: Result<Option<FieldGroupChange>, LoadError>)
        ensures
            app@ is None ==> r == Err::<Option<FieldGroupChange>, LoadError>(
                LoadError::Unauthorized,
            ) && final(self)@ == old(self)@,
            app@ is Some && !old(self)@.is_dirty ==> (r matches Ok(None) && final(self)@ == old(
                self,
            )@),
            app@ is Some && old(self)@.is_dirty ==> (r matches Ok(Some(c)) && c.id == old(self)@.id
                && c.name@ == old(self)@.name) && final(self)@ == (FieldGroupView {
                is_dirty: false,
                ..old(self)@
            }),
    {
        if app.session().is_none() {
            return Err(LoadError::Unauthorized);
        }
        if self.is_dirty {
            Ok(Some(self.update()))
        } else {
            Ok(None)
        }
    }

    fn update(&mut self) -> (r: FieldGroupChange)
        ensures
            r.id == old(self)@.id,
            r.name@ == old(self)@.name,
            final(self)@ == (FieldGroupView { is_dirty: false, ..old(self)@ }),
    {
        self.is_dirty = false;
        FieldGroupChange { id: self.id, name: self.name.clone() }
    }

    /// Checks that someone is logged in and gives the id of the row to delete.
    pub fn delete(self, app: &App) -> (r: Result<u128, LoadError>)
        ensures
            app@ is None ==> r == Err::<u128, LoadError>(LoadError::Unauthorized),
            app@ is Some ==> r == Ok::<u128, LoadError>(self@.id),
    {
        if app.session().is_none() {
            return Err(LoadError::Unauthorized);
        }
        Ok(self.id)
    }
}

} // verus!
