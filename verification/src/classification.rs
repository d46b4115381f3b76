//! Classifications: the tree that records are filed under.
use vstd::prelude::*;
use crate::error::LoadError;
use crate::field::{FieldValueView, RecordField, RecordFieldView};
use crate::field_group::FieldGroup;
use crate::name_path::{ClassificationNamePath, parse_nodes, render};
use crate::session::App;

verus! {

/// Builds a new classification; it gets its id when it is inserted.
pub struct ClassificationBuilder {
    name: Option<String>,
    parent_id: Option<u128>,
    name_path: Option<ClassificationNamePath>,
}

pub struct ClassificationBuilderView {
    pub name: Option<Seq<char>>,
    pub parent_id: Option<u128>,
    pub name_path: Option<Seq<Seq<char>>>,
}

impl View for ClassificationBuilder {
    type V = ClassificationBuilderView;

    closed spec fn view(&self) -> ClassificationBuilderView {
        ClassificationBuilderView {
            name: match self.name {
                Some(n) => Some(n@),
                None => None,
            },
            parent_id: self.parent_id,
            name_path: match self.name_path {
                Some(p) => Some(p@),
                None => None,
            },
        }
    }
}

/// The row to insert for a new classification.
pub struct NewClassification {
    pub parent_id: Option<u128>,
    pub name: String,
}

impl ClassificationBuilder {
    pub fn new() -> (r: ClassificationBuilder)
        ensures
            r@ == (ClassificationBuilderView { name: None, parent_id: None, name_path: None }),
    {
        ClassificationBuilder { name: None, parent_id: None, name_path: None }
    }

    pub fn parent(self, pid: u128) -> (r: ClassificationBuilder)
        ensures
            r@ == (ClassificationBuilderView { parent_id: Some(pid), ..self@ }),
    {
        ClassificationBuilder { parent_id: Some(pid), ..self }
    }

    pub fn name(self, cls_name: String) -> (r: ClassificationBuilder)
        ensures
            r@ == (ClassificationBuilderView { name: Some(cls_name@), ..self@ }),
    {
        ClassificationBuilder { name: Some(cls_name), ..self }
    }

    /// Whether a name has been set, which building needs.
    pub fn has_name(&self) -> (r: bool)
        ensures
            r == self@.name is Some,
    {
        self.name.is_some()
    }

    /// Gives the row to insert: the name and the parent that were set.
    pub fn build(self) -> (r: NewClassification)
        requires
            self@.name is Some,
        ensures
            r.name@ == self@.name->0,
            r.parent_id == self@.parent_id,
    {
        match self.name {
            Some(name) => NewClassification { parent_id: self.parent_id, name },
            None => NewClassification { parent_id: self.parent_id, name: String::new() },
        }
    }
}

/// A field of a classification as it is first shown: no value, no change.
pub open spec fn empty_field(id: u128, name: Seq<char>) -> RecordFieldView {
    RecordFieldView { id, name, value: FieldValueView::Empty, is_dirty: false }
}

/// A classification of the tree.
pub struct Classification {
    id: u128,
    parent_id: Option<u128>,
    name_path: ClassificationNamePath,
    is_dirty: bool,
}

pub struct ClassificationView {
    pub id: u128,
    pub parent_id: Option<u128>,
    pub name_path: Seq<Seq<char>>,
    pub is_dirty: bool,
}

impl View for Classification {
    type V = ClassificationView;

    closed spec fn view(&self) -> ClassificationView {
        ClassificationView {
            id: self.id,
            parent_id: self.parent_id,
            name_path: self.name_path@,
            is_dirty: self.is_dirty,
        }
    }
}

/// What saving a classification writes: its name, and the name of the
/// parent classification by which the new parent is looked up.
pub struct ClassificationUpdate {
    pub id: u128,
    pub parent_name: Option<String>,
    pub name: String,
}

/// The row that files a field group under a classification.
pub struct Classification2FieldGroup {
    pub classification_id: u128,
    pub field_group_id: u128,
}

impl Classification {
    /// A classification as loaded from its row; nothing is pending.
    pub fn from_row(id: u128, parent_id: Option<u128>, name_path: ClassificationNamePath) -> (r:
        Classification)
        ensures
            r@ == (ClassificationView { id, parent_id, name_path: name_path@, is_dirty: false }),
    {
        Classification { id, parent_id, name_path, is_dirty: false }
    }

    /// The fields filed under the classification, from the rows (id and
    /// name) that the store gives for its field groups: each field without
    /// a value, in the order of the rows. Without a session nothing is read.
    pub fn get_fields(&self, app: &App, rows: Vec<(u128, String)>) -> (r: Result<
        Vec<RecordField>,
        LoadError,
    >)
        ensures
            app@ is None ==> r == Err::<Vec<RecordField>, LoadError>(LoadError::Unauthorized),
            app@ is Some ==> (r matches Ok(fs) && fs@.map_values(|f: RecordField| f@)
                == rows@.map_values(|row: (u128, String)| empty_field(row.0, row.1@))),
            app@ is Some ==> (r matches Ok(fs) && fs@.len() == rows@.len() && forall|i: int|
                0 <= i < rows@.len() ==> (#[trigger] fs@[i])@.id == rows@[i].0 && fs@[i]@.name
                    == rows@[i].1@ && fs@[i]@.value == FieldValueView::Empty && !fs@[i]@.is_dirty),
    {
        if app.session().is_none() {
            return Err(LoadError::Unauthorized);
        }
        let ghost d = rows@;
        let mut out: Vec<RecordField> = Vec::new();
        let mut rest = rows;
        let n = rest.len();
        let mut i: usize = 0;
        while i < n
            invariant
                n == d.len(),
                i <= n,
                rest@.len() == n - i,
                forall|j: int| 0 <= j < n - i ==> #[trigger] rest@[j] == d[i + j],
                out@.map_values(|f: RecordField| f@) == d.take(i as int).map_values(
                    |row: (u128, String)| empty_field(row.0, row.1@),
                ),
            decreases n - i,
        {
            let ghost before = out@;
            let row = rest.remove(0);
            assert(row == d[i + 0]);
            out.push(RecordField::empty(row.0, row.1));
            proof {
                let x = |v: RecordField| v@;
                let y = |row: (u128, String)| empty_field(row.0, row.1@);
                assert(d.take(i + 1) =~= d.take(i as int).push(d[i as int]));
                assert(out@.map_values(x) =~= before.map_values(x).push(out@[i as int]@));
                assert(d.take(i + 1).map_values(y) =~= d.take(i as int).map_values(y).push(
                    y(d[i as int]),
                ));
            }
            i = i + 1;
        }
        assert(d.take(n as int) =~= d);
        proof {
            let x = |v: RecordField| v@;
            let y = |row: (u128, String)| empty_field(row.0, row.1@);
            assert(out@.map_values(x).len() == out@.len());
            assert(d.map_values(y).len() == d.len());
            assert(out@.len() == d.len());
            assert forall|i: int| 0 <= i < d.len() implies (#[trigger] out@[i])@.id == d[i].0
                && out@[i]@.name == d[i].1@ && out@[i]@.value == FieldValueView::Empty
                && !out@[i]@.is_dirty by {
                assert(out@.map_values(x)[i] == d.map_values(y)[i]);
            }
        }
        Ok(out)
    }

    pub fn id(&self) -> (r: u128)
        ensures
            r == self@.id,
    {
        self.id
    }

    pub fn parent_id(&self) -> (r: Option<u128>)
        ensures
            r == self@.parent_id,
    {
        self.parent_id
    }

    pub fn name_path(&self) -> (r: &ClassificationNamePath)
        ensures
            r@ == self@.name_path,
    {
        &self.name_path
    }

    /// The classification's own name, the last node of its path.
    pub fn name(&self) -> (r: &str)
        requires
            self@.name_path.len() > 0,
        ensures
            r@ == self@.name_path.last(),
    {
        self.name_path.name()
    }

    /// Decides what saving writes: nothing without a session, the name and
    /// the parent's name when there is a pending change (which is then no
    /// longer pending).
    pub fn save(&mut self, app: &App) -> (r: Result<Option<ClassificationUpdate>, LoadError>)
        requires
            old(self)@.name_path.len() > 0,
        ensures
            app@ is None ==> r == Err::<Option<ClassificationUpdate>, LoadError>(
                LoadError::Unauthorized,
            ) && final(self)@ == old(self)@,
            app@ is Some && !old(self)@.is_dirty ==> (r matches Ok(None) && final(self)@ == old(
                self,
            )@),
            app@ is Some && old(self)@.is_dirty ==> (r matches Ok(Some(u)) && update_of(
                old(self)@,
                u,
            )) && final(self)@ == (ClassificationView { is_dirty: false, ..old(self)@ }),
    {
        if app.session().is_none() {
            return Err(LoadError::Unauthorized);
        }
        if self.is_dirty {
            Ok(Some(self.update()))
        } else {
            Ok(None)
        }
    }

    fn update(&mut self) -> (r: ClassificationUpdate)
        requires
            old(self)@.name_path.len() > 0,
        ensures
            update_of(old(self)@, r),
            final(self)@ == (ClassificationView { is_dirty: false, ..old(self)@ }),
    {
        self.is_dirty = false;
        let parent_name = match self.name_path.parent() {
            Some(p) => Some(p.name().to_string()),
            None => None,
        };
        ClassificationUpdate { id: self.id, parent_name, name: self.name_path.name().to_string() }
    }

    /// Records the parent that the written row holds.
    pub fn updated(&mut self, parent_id: Option<u128>)
        ensures
            final(self)@ == (ClassificationView { parent_id, ..old(self)@ }),
    {
        self.parent_id = parent_id;
    }

    /// Moves the classification under `new_path`. `valid` is the answer to
    /// whether `new_path` names an existing classification. The move happens
    /// when the answer is yes, the classification has a parent, and the new
    /// parent differs from it; otherwise nothing changes.
    pub fn move_to(
        &mut self,
        app: &App,
        new_path: ClassificationNamePath,
        valid: Result<bool, LoadError>,
    ) -> (r: Result<(), LoadError>)
        requires
            old(self)@.name_path.len() > 0,
        ensures
            app@ is None ==> r == Err::<(), LoadError>(LoadError::Unauthorized) && final(self)@
                == old(self)@,
            app@ is Some ==> r is Ok,
            app@ is Some && moves(old(self)@, new_path@, valid) ==> final(self)@ == (
            ClassificationView {
                name_path: new_path@.push(old(self)@.name_path.last()),
                is_dirty: true,
                ..old(self)@
            }),
            app@ is Some && !moves(old(self)@, new_path@, valid) ==> final(self)@ == old(self)@,
    {
        if app.session().is_none() {
            return Err(LoadError::Unauthorized);
        }
        let mut name_path = new_path;
        match valid {
            Ok(true) => {
                match self.name_path.parent() {
                    Some(pnp) => {
                        if !name_path.same_path(&pnp) {
                            name_path.append_node_unchecked(self.name_path.name().to_string());
                            self.name_path = name_path;
                            self.is_dirty = true;
                        }
                        Ok(())
                    },
                    None => Ok(()),
                }
            },
            _ => Ok(()),
        }
    }

    /// Gives the classification a new name; the change is pending.
    pub fn rename(&mut self, new_name: String)
        requires
            old(self)@.name_path.len() > 0,
        ensures
            final(self)@ == (ClassificationView {
                name_path: old(self)@.name_path.update(
                    old(self)@.name_path.len() - 1,
                    new_name@,
                ),
                is_dirty: true,
                ..old(self)@
            }),
    {
        self.name_path.set_name(new_name);
        self.is_dirty = true;
    }

    /// Checks that someone is logged in and gives the row that files
    /// `fgroup` under this classification.
    pub fn add_field_group(&mut self, app: &App, fgroup: &FieldGroup) -> (r: Result<
        Classification2FieldGroup,
        LoadError,
    >)
        ensures
            final(self)@ == old(self)@,
            app@ is None ==> r == Err::<Classification2FieldGroup, LoadError>(
                LoadError::Unauthorized,
            ),
            app@ is Some ==> (r matches Ok(row) && row.classification_id == old(self)@.id
                && row.field_group_id == fgroup@.id),
    {
        if app.session().is_none() {
            return Err(LoadError::Unauthorized);
        }
        Ok(Classification2FieldGroup { classification_id: self.id, field_group_id: fgroup.id() })
    }

    /// Checks that someone is logged in and gives the id of the row to delete.
    pub fn delete(self, app: &App) -> (r: Result<u128, LoadError>)
        ensures
            app@ is None ==> r == Err::<u128, LoadError>(LoadError::Unauthorized),
            app@ is Some ==> r == Ok::<u128, LoadError>(self@.id),
    {
        if app.session().is_none() {
            return Err(LoadError::Unauthorized);
        }
        Ok(self.id)
    }
}

/// `u` is what saving `c` writes: its id, its name and the name of its
/// parent in the path.
pub open spec fn update_of(c: ClassificationView, u: ClassificationUpdate) -> bool {
    &&& u.id == c.id
    &&& u.name@ == c.name_path.last()
    &&& if c.name_path.len() > 1 {
        u.parent_name matches Some(p) && p@ == c.name_path.drop_last().last()
    } else {
        u.parent_name is None
    }
}

/// Whether `move_to` moves a classification to `new_path`.
pub open spec fn moves(c: ClassificationView, new_path: Seq<Seq<char>>, valid: Result<bool, LoadError>) -> bool {
    &&& valid == Ok::<bool, LoadError>(true)
    &&& c.name_path.len() > 1
    &&& new_path != c.name_path.drop_last()
}

/// A move to a parent path other than the current one happens, whatever the
/// names of the nodes: two parent paths that end in the same node but differ
/// elsewhere still lead to a move, and the classification then sits under
/// exactly the new path with its own name. Asking for the current parent
/// path moves nothing.
pub proof fn lemma_move_compares_whole_paths(
    c: ClassificationView,
    new_path: Seq<Seq<char>>,
    valid: Result<bool, LoadError>,
)
    requires
        valid == Ok::<bool, LoadError>(true),
        c.name_path.len() > 1,
    ensures
        new_path != c.name_path.drop_last() ==> moves(c, new_path, valid),
        new_path =~= c.name_path.drop_last() ==> !moves(c, new_path, valid),
        new_path.push(c.name_path.last()).drop_last() == new_path,
        new_path.push(c.name_path.last()).last() == c.name_path.last(),
{
    assert(new_path.push(c.name_path.last()).drop_last() =~= new_path);
}

/// Nothing moves without a yes from the store or without a parent.
pub proof fn lemma_no_move_without_yes_or_parent(
    c: ClassificationView,
    new_path: Seq<Seq<char>>,
    valid: Result<bool, LoadError>,
)
    requires
        valid != Ok::<bool, LoadError>(true) || c.name_path.len() <= 1,
    ensures
        !moves(c, new_path, valid),
{
}

/// Saving writes the name of the immediate parent, the next-to-last node
/// of the path, by which the parent is looked up; a root classification
/// writes none. The written name is the classification's own, the last node.
pub proof fn lemma_update_names_immediate_parent(c: ClassificationView, u: ClassificationUpdate)
    requires
        update_of(c, u),
        c.name_path.len() > 0,
    ensures
        u.id == c.id,
        u.name@ == c.name_path[c.name_path.len() - 1],
        c.name_path.len() >= 2 ==> (u.parent_name matches Some(p) && p@ == c.name_path[c.name_path.len() - 2]),
        c.name_path.len() == 1 ==> u.parent_name is None,
{
}

/// A field that a classification lists keeps the id and the name of its
/// row, and has no value and no pending change.
pub proof fn lemma_listed_field_keeps_row(id: u128, name: Seq<char>)
    ensures
        empty_field(id, name).id == id,
        empty_field(id, name).name == name,
        empty_field(id, name).value == FieldValueView::Empty,
        !empty_field(id, name).is_dirty,
{
}

/// The classification that a loaded record gets from its document form.
pub open spec fn classification_from_dto(d: ClassificationDto) -> RecordClassificationView {
    RecordClassificationView {
        id: d.id,
        parent_id: d.parent_id,
        name_path: parse_nodes(d.name_path@),
    }
}

/// A classification as a record refers to it.
pub struct RecordClassification {
    id: u128,
    parent_id: Option<u128>,
    name_path: ClassificationNamePath,
}

pub struct RecordClassificationView {
    pub id: u128,
    pub parent_id: Option<u128>,
    pub name_path: Seq<Seq<char>>,
}

impl View for RecordClassification {
    type V = RecordClassificationView;

    closed spec fn view(&self) -> RecordClassificationView {
        RecordClassificationView {
            id: self.id,
            parent_id: self.parent_id,
            name_path: self.name_path@,
        }
    }
}

/// The document form of a record's classification.
pub struct ClassificationDto {
    pub id: u128,
    pub parent_id: Option<u128>,
    pub name_path: String,
}

impl RecordClassification {
    /// The record's reference to a classification.
    pub fn from_classification(cls: Classification) -> (r: RecordClassification)
        ensures
            r@ == (RecordClassificationView {
                id: cls@.id,
                parent_id: cls@.parent_id,
                name_path: cls@.name_path,
            }),
    {
        RecordClassification { id: cls.id, parent_id: cls.parent_id, name_path: cls.name_path }
    }

    pub fn id(&self) -> (r: u128)
        ensures
            r == self@.id,
    {
        self.id
    }

    pub fn to_dto(&self) -> (r: ClassificationDto)
        ensures
            r.id == self@.id,
            r.parent_id == self@.parent_id,
            r.name_path@ == render(self@.name_path),
    {
        ClassificationDto {
            id: self.id,
            parent_id: self.parent_id,
            name_path: self.name_path.to_string(),
        }
    }

    /// The classification of a loaded record; its path is parsed from the
    /// document's text.
    pub fn from_dto(dto: ClassificationDto) -> (r: RecordClassification)
        requires
            parse_nodes(dto.name_path@).len() > 0,
        ensures
            r@ == classification_from_dto(dto),
    {
        RecordClassification {
            id: dto.id,
            parent_id: dto.parent_id,
            name_path: ClassificationNamePath::from_str(dto.name_path.as_str()),
        }
    }
}

} // verus!
