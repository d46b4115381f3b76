//! Records: the assets of the store, with their fields, classifications
//! and files, and the document that the search index keeps of them.
use vstd::prelude::*;
use crate::classification::{
    classification_from_dto, ClassificationDto, RecordClassification, RecordClassificationView,
};
use crate::clock::{utc_now, Timestamp};
use crate::collections::{
    classifications_as_dtos, classifications_by_id, fields_as_dtos, fields_by_id, files_as_dtos,
    files_by_id, lemma_classifications_by_id_contents, lemma_fields_by_id_contents,
    lemma_files_by_id_contents, ClassificationCollection, FieldCollection, FileCollection,
};
use crate::error::LoadError;
use crate::field::{field_from_dto, FieldDto, FieldValueView, RecordField, RecordFieldView};
use crate::file::{file_from_dto, File, FileDto, FileView};
use crate::ids::{new_id, uuid_version};
use crate::name_path::{all_nodes, lemma_parse_render, parse_nodes, render};
use crate::session::App;

verus! {

/// Who made a record and when, and who changed it last and when.
pub struct SystemInfo {
    pub id: u128,
    pub created_by: String,
    pub created_on: Timestamp,
    pub modified_by: String,
    pub modified_on: Timestamp,
}

/// The document that the search index keeps of a record.
pub struct RecordDto {
    pub fields: Vec<FieldDto>,
    pub classifications: Vec<ClassificationDto>,
    pub files: Vec<FileDto>,
    pub system: SystemInfo,
}

/// The kind of document that records are indexed as.
pub fn record_doc_type() -> (r: &'static str)
    ensures
        r@ == "records"@,
{
    "records"
}

/// An asset of the store.
pub struct Record {
    id: u128,
    fields: FieldCollection,
    classifications: ClassificationCollection,
    files: FileCollection,
    created_by: String,
    created_on: Timestamp,
    modified_by: String,
    modified_on: Timestamp,
    is_new: bool,
}

pub struct RecordView {
    pub id: u128,
    pub fields: Map<u128, RecordFieldView>,
    pub classifications: Map<u128, RecordClassificationView>,
    pub files: Map<u128, FileView>,
    pub created_by: Seq<char>,
    pub created_on: Timestamp,
    pub modified_by: Seq<char>,
    pub modified_on: Timestamp,
    pub is_new: bool,
}

impl View for Record {
    type V = RecordView;

    closed spec fn view(&self) -> RecordView {
        RecordView {
            id: self.id,
            fields: self.fields@,
            classifications: self.classifications@,
            files: self.files@,
            created_by: self.created_by@,
            created_on: self.created_on,
            modified_by: self.modified_by@,
            modified_on: self.modified_on,
            is_new: self.is_new,
        }
    }
}

/// `d` is the document of the record `r`.
pub open spec fn dto_of(r: RecordView, d: RecordDto) -> bool {
    &&& fields_as_dtos(r.fields, d.fields@)
    &&& classifications_as_dtos(r.classifications, d.classifications@)
    &&& files_as_dtos(r.files, d.files@)
    &&& d.system.id == r.id
    &&& d.system.created_by@ == r.created_by
    &&& d.system.created_on == r.created_on
    &&& d.system.modified_by@ == r.modified_by
    &&& d.system.modified_on == r.modified_on
}

/// The record that a document describes, as a loaded, stored record.
pub open spec fn record_from_dto(d: RecordDto) -> RecordView {
    RecordView {
        id: d.system.id,
        fields: fields_by_id(d.fields@.map_values(|f: FieldDto| field_from_dto(f))),
        classifications: classifications_by_id(
            d.classifications@.map_values(|c: ClassificationDto| classification_from_dto(c)),
        ),
        files: files_by_id(d.files@.map_values(|f: FileDto| file_from_dto(f))),
        created_by: d.system.created_by@,
        created_on: d.system.created_on,
        modified_by: d.system.modified_by@,
        modified_on: d.system.modified_on,
        is_new: false,
    }
}

/// Every classification of the document has a path with at least one node.
pub open spec fn dto_paths_named(d: RecordDto) -> bool {
    forall|i: int|
        0 <= i < d.classifications@.len() ==> parse_nodes(
            #[trigger] d.classifications@[i].name_path@,
        ).len() > 0
}

/// What saving a record does to the search index.
pub enum RecordWrite {
    /// Index the document of a record that is not there yet.
    Index(RecordDto),
    /// Remove the record's document (by the record's id), then index the new one.
    Reindex(u128, RecordDto),
}

impl Record {
    /// A new record made by the logged-in user, not yet indexed.
    pub fn new(app: &App) -> (r: Result<Record, LoadError>)
        ensures
            app@ is None ==> r == Err::<Record, LoadError>(LoadError::Unauthorized),
            app@ is Some ==> (r matches Ok(rec) && rec@.fields.is_empty()
                && rec@.classifications.is_empty() && rec@.files.is_empty() && rec@.created_by
                == app@->0.login && rec@.modified_by == app@->0.login && rec@.is_new
                && uuid_version(rec@.id) == 4 && rec@.created_on.secs >= 0
                && rec@.created_on.nanos < 1_000_000_000 && rec@.modified_on.secs >= 0
                && rec@.modified_on.nanos < 1_000_000_000),
    {
        let login = match app.session() {
            Some(s) => s.login().to_string(),
            None => {
                return Err(LoadError::Unauthorized);
            },
        };
        let id = new_id();
        let created_on = utc_now();
        let modified_on = utc_now();
        let fields = FieldCollection::new();
        let classifications = ClassificationCollection::new();
        let files = FileCollection::new();
        proof {
            assert(fields@.dom() =~= Set::<u128>::empty());
            assert(classifications@.dom() =~= Set::<u128>::empty());
            assert(files@.dom() =~= Set::<u128>::empty());
        }
        Ok(Record {
            id,
            fields,
            classifications,
            files,
            created_on,
            modified_on,
            created_by: login.clone(),
            modified_by: login,
            is_new: true,
        })
    }

    pub fn id(&self) -> (r: u128)
        ensures
            r == self@.id,
    {
        self.id
    }

    pub fn fields(&self) -> (r: &FieldCollection)
        ensures
            r@ == self@.fields,
    {
        &self.fields
    }

    pub fn classifications(&self) -> (r: &ClassificationCollection)
        ensures
            r@ == self@.classifications,
    {
        &self.classifications
    }

    pub fn files(&self) -> (r: &FileCollection)
        ensures
            r@ == self@.files,
    {
        &self.files
    }

    pub fn created_by(&self) -> (r: &str)
        ensures
            r@ == self@.created_by,
    {
        self.created_by.as_str()
    }

    pub fn modified_by(&self) -> (r: &str)
        ensures
            r@ == self@.modified_by,
    {
        self.modified_by.as_str()
    }

    pub fn created_on(&self) -> (r: Timestamp)
        ensures
            r == self@.created_on,
    {
        self.created_on
    }

    pub fn modified_on(&self) -> (r: Timestamp)
        ensures
            r == self@.modified_on,
    {
        self.modified_on
    }

    pub fn is_new(&self) -> (r: bool)
        ensures
            r == self@.is_new,
    {
        self.is_new
    }

    /// Checks that someone is logged in and gives the id of the document to
    /// remove from the index.
    pub fn delete(self, app: &App) -> (r: Result<u128, LoadError>)
        ensures
            app@ is None ==> r == Err::<u128, LoadError>(LoadError::Unauthorized),
            app@ is Some ==> r == Ok::<u128, LoadError>(self@.id),
    {
        if app.session().is_none() {
            return Err(LoadError::Unauthorized);
        }
        Ok(self.id)
    }

    /// Decides what saving writes to the index: nothing without a session;
    /// the record's document for a new record; otherwise the removal of the
    /// old document and the new one. The record itself does not change.
    pub fn save(&mut self, app: &App) -> (r: Result<RecordWrite, LoadError>)
        ensures
            final(self)@ == old(self)@,
            app@ is None ==> r is Err && r == Err::<RecordWrite, LoadError>(
                LoadError::Unauthorized,
            ),
            app@ is Some && old(self)@.is_new ==> (r matches Ok(RecordWrite::Index(d)) && dto_of(
                old(self)@,
                d,
            )),
            app@ is Some && !old(self)@.is_new ==> (r matches Ok(RecordWrite::Reindex(id, d))
                && id == old(self)@.id && dto_of(old(self)@, d)),
    {
        if app.session().is_none() {
            return Err(LoadError::Unauthorized);
        }
        if self.is_new {
            Ok(RecordWrite::Index(self.to_dto()))
        } else {
            self.update(app)
        }
    }

    fn update(&mut self, app: &App) -> (r: Result<RecordWrite, LoadError>)
        ensures
            final(self)@ == old(self)@,
            app@ is None ==> r == Err::<RecordWrite, LoadError>(LoadError::Unauthorized),
            app@ is Some ==> (r matches Ok(RecordWrite::Reindex(id, d)) && id == old(self)@.id
                && dto_of(old(self)@, d)),
    {
        if app.session().is_none() {
            return Err(LoadError::Unauthorized);
        }
        Ok(RecordWrite::Reindex(self.id, self.to_dto()))
    }

    /// The document of the record.
    pub fn to_dto(&self) -> (r: RecordDto)
        ensures
            dto_of(self@, r),
    {
        let classifications = self.classifications.to_dtos();
        let files = self.files.to_dtos();
        RecordDto {
            fields: self.fields.to_dtos(),
            classifications,
            files,
            system: SystemInfo {
                id: self.id,
                created_by: self.created_by.clone(),
                created_on: self.created_on,
                modified_by: self.modified_by.clone(),
                modified_on: self.modified_on,
            },
        }
    }

    /// The stored record that a document describes.
    pub fn from_dto(dto: RecordDto) -> (r: Record)
        requires
            dto_paths_named(dto),
        ensures
            r@ == record_from_dto(dto),
    {
        let RecordDto { fields: field_dtos, classifications: cls_dtos, files: file_dtos, system } =
            dto;
        let fields = fields_from_dtos(field_dtos);
        let classifications = classifications_from_dtos(cls_dtos);
        let files = files_from_dtos(file_dtos);
        Record {
            id: system.id,
            fields: FieldCollection::from_iter(fields),
            classifications: ClassificationCollection::from_iter(classifications),
            files: FileCollection::from_iter(files),
            created_by: system.created_by,
            created_on: system.created_on,
            modified_by: system.modified_by,
            modified_on: system.modified_on,
            is_new: false,
        }
    }
}

/// The fields that documents describe, in their order.
fn fields_from_dtos(dtos: Vec<FieldDto>) -> (r: Vec<RecordField>)
    ensures
        r@.map_values(|f: RecordField| f@) == dtos@.map_values(|f: FieldDto| field_from_dto(f)),
{
    let ghost d = dtos@;
    let mut out: Vec<RecordField> = Vec::new();
    let mut rest = dtos;
    let n = rest.len();
    let mut i: usize = 0;
    while i < n
        invariant
            n == d.len(),
            i <= n,
            rest@.len() == n - i,
            forall|j: int| 0 <= j < n - i ==> #[trigger] rest@[j] == d[i + j],
            out@.map_values(|f: RecordField| f@) == d.take(i as int).map_values(
                |f: FieldDto| field_from_dto(f),
            ),
        decreases n - i,
    {
        let ghost before = out@;
        let f = rest.remove(0);
        assert(f == d[i + 0]);
        out.push(RecordField::from_dto(f));
        proof {
            let x = |v: RecordField| v@;
            let y = |v: FieldDto| field_from_dto(v);
            assert(d.take(i + 1) =~= d.take(i as int).push(d[i as int]));
            assert(out@.map_values(x) =~= before.map_values(x).push(out@[i as int]@));
            assert(d.take(i + 1).map_values(y) =~= d.take(i as int).map_values(y).push(y(d[i as int])));
        }
        i = i + 1;
    }
    assert(d.take(n as int) =~= d);
    out
}

/// The classifications that documents describe, in their order.
fn classifications_from_dtos(dtos: Vec<ClassificationDto>) -> (r: Vec<RecordClassification>)
    requires
        forall|i: int| 0 <= i < dtos@.len() ==> parse_nodes(#[trigger] dtos@[i].name_path@).len() > 0,
    ensures
        r@.map_values(|c: RecordClassification| c@) == dtos@.map_values(
            |c: ClassificationDto| classification_from_dto(c),
        ),
{
    let ghost d = dtos@;
    let mut out: Vec<RecordClassification> = Vec::new();
    let mut rest = dtos;
    let n = rest.len();
    let mut i: usize = 0;
    while i < n
        invariant
            n == d.len(),
            i <= n,
            forall|j: int| 0 <= j < d.len() ==> parse_nodes(#[trigger] d[j].name_path@).len() > 0,
            rest@.len() == n - i,
            forall|j: int| 0 <= j < n - i ==> #[trigger] rest@[j] == d[i + j],
            out@.map_values(|c: RecordClassification| c@) == d.take(i as int).map_values(
                |c: ClassificationDto| classification_from_dto(c),
            ),
        decreases n - i,
    {
        let ghost before = out@;
        let c = rest.remove(0);
        assert(c == d[i + 0]);
        assert(parse_nodes(d[i as int].name_path@).len() > 0);
        out.push(RecordClassification::from_dto(c));
        proof {
            let x = |v: RecordClassification| v@;
            let y = |v: ClassificationDto| classification_from_dto(v);
            assert(d.take(i + 1) =~= d.take(i as int).push(d[i as int]));
            assert(out@.map_values(x) =~= before.map_values(x).push(out@[i as int]@));
            assert(d.take(i + 1).map_values(y) =~= d.take(i as int).map_values(y).push(y(d[i as int])));
        }
        i = i + 1;
    }
    assert(d.take(n as int) =~= d);
    out
}

/// The files that documents describe, in their order.
fn files_from_dtos(dtos: Vec<FileDto>) -> (r: Vec<File>)
    ensures
        r@.map_values(|f: File| f@) == dtos@.map_values(|f: FileDto| file_from_dto(f)),
{
    let ghost d = dtos@;
    let mut out: Vec<File> = Vec::new();
    let mut rest = dtos;
    let n = rest.len();
    let mut i: usize = 0;
    while i < n
        invariant
            n == d.len(),
            i <= n,
            rest@.len() == n - i,
            forall|j: int| 0 <= j < n - i ==> #[trigger] rest@[j] == d[i + j],
            out@.map_values(|f: File| f@) == d.take(i as int).map_values(|f: FileDto| file_from_dto(f)),
        decreases n - i,
    {
        let ghost before = out@;
        let f = rest.remove(0);
        assert(f == d[i + 0]);
        out.push(File::from_dto(f));
        proof {
            let x = |v: File| v@;
            let y = |v: FileDto| file_from_dto(v);
            assert(d.take(i + 1) =~= d.take(i as int).push(d[i as int]));
            assert(out@.map_values(x) =~= before.map_values(x).push(out@[i as int]@));
            assert(d.take(i + 1).map_values(y) =~= d.take(i as int).map_values(y).push(y(d[i as int])));
        }
        i = i + 1;
    }
    assert(d.take(n as int) =~= d);
    out
}

} // verus!

verus! {

/// A field as it comes back from the index: the value is not kept.
pub open spec fn without_value(f: RecordFieldView) -> RecordFieldView {
    RecordFieldView { value: FieldValueView::Empty, is_dirty: false, ..f }
}

/// Every classification of the record has a path of at least one node, and
/// no node is empty or holds `/`.
pub open spec fn paths_printable(r: RecordView) -> bool {
    forall|k: u128|
        #[trigger] r.classifications.contains_key(k) ==> r.classifications[k].name_path.len() > 0
            && all_nodes(r.classifications[k].name_path)
}

/// Reading a record back from its document gives the record that was
/// written, now as a stored record: the same id, authors, times,
/// classifications and files, and the same fields by id and name, which
/// come back without their values. Classification paths must survive
/// printing: at least one node each, none empty or holding `/`.
pub proof fn lemma_record_round_trip(r: RecordView, d: RecordDto)
    requires
        dto_of(r, d),
        paths_printable(r),
    ensures
        dto_paths_named(d),
        record_from_dto(d) == (RecordView {
            fields: r.fields.map_values(|f: RecordFieldView| without_value(f)),
            is_new: false,
            ..r
        }),
{
    // fields
    let fs = d.fields@.map_values(|f: FieldDto| field_from_dto(f));
    lemma_fields_by_id_contents(fs);
    let want_f = r.fields.map_values(|f: RecordFieldView| without_value(f));
    assert forall|k: u128| fields_by_id(fs).contains_key(k) <==> want_f.contains_key(k) by {
        if fields_by_id(fs).contains_key(k) {
            let i = choose|i: int| 0 <= i < fs.len() && fs[i].id == k;
            assert(fs[i].id == d.fields@[i].id);
            assert(r.fields.contains_key(d.fields@[i].id));
        }
        if want_f.contains_key(k) {
            assert(r.fields.contains_key(k));
            let i = choose|i: int| 0 <= i < d.fields@.len() && d.fields@[i].id == k;
            assert(fs[i].id == k);
        }
    }
    assert forall|k: u128| #[trigger] fields_by_id(fs).contains_key(k) implies fields_by_id(fs)[k]
        == want_f[k] by {
        assert(r.fields.contains_key(k));
        let i = choose|i: int| 0 <= i < d.fields@.len() && d.fields@[i].id == k;
        assert(fs[i].id == k);
        assert(fields_by_id(fs)[fs[i].id] == fs[i]);
    }
    assert(fields_by_id(fs) =~= want_f);
    // classifications
    let cs = d.classifications@.map_values(|c: ClassificationDto| classification_from_dto(c));
    assert forall|i: int| 0 <= i < d.classifications@.len() implies #[trigger] cs[i]
        == r.classifications[d.classifications@[i].id] && parse_nodes(
        d.classifications@[i].name_path@,
    ).len() > 0 by {
        let k = d.classifications@[i].id;
        assert(r.classifications.contains_key(k));
        lemma_parse_render(r.classifications[k].name_path);
    }
    assert(dto_paths_named(d)) by {
        assert forall|i: int| 0 <= i < d.classifications@.len() implies parse_nodes(
            #[trigger] d.classifications@[i].name_path@,
        ).len() > 0 by {
            assert(cs[i] == r.classifications[d.classifications@[i].id]);
        }
    }
    lemma_classifications_by_id_contents(cs);
    assert forall|k: u128| classifications_by_id(cs).contains_key(k) <==> r.classifications.contains_key(k) by {
        if classifications_by_id(cs).contains_key(k) {
            let i = choose|i: int| 0 <= i < cs.len() && cs[i].id == k;
            assert(cs[i] == r.classifications[d.classifications@[i].id]);
        }
        if r.classifications.contains_key(k) {
            let i = choose|i: int| 0 <= i < d.classifications@.len() && d.classifications@[i].id == k;
            assert(cs[i] == r.classifications[d.classifications@[i].id]);
        }
    }
    assert forall|k: u128| #[trigger] classifications_by_id(cs).contains_key(k) implies classifications_by_id(cs)[k]
        == r.classifications[k] by {
        assert(r.classifications.contains_key(k));
        let i = choose|i: int| 0 <= i < d.classifications@.len() && d.classifications@[i].id == k;
        assert(cs[i] == r.classifications[d.classifications@[i].id]);
        assert(classifications_by_id(cs)[cs[i].id] == cs[i]);
    }
    assert(classifications_by_id(cs) =~= r.classifications);
    // files
    let ls = d.files@.map_values(|f: FileDto| file_from_dto(f));
    lemma_files_by_id_contents(ls);
    assert forall|k: u128| files_by_id(ls).contains_key(k) <==> r.files.contains_key(k) by {
        if files_by_id(ls).contains_key(k) {
            let i = choose|i: int| 0 <= i < ls.len() && ls[i].id == k;
            assert(ls[i].id == d.files@[i].id);
            assert(r.files.contains_key(d.files@[i].id));
        }
        if r.files.contains_key(k) {
            let i = choose|i: int| 0 <= i < d.files@.len() && d.files@[i].id == k;
            assert(ls[i].id == k);
        }
    }
    assert forall|k: u128| #[trigger] files_by_id(ls).contains_key(k) implies files_by_id(ls)[k]
        == r.files[k] by {
        assert(r.files.contains_key(k));
        let i = choose|i: int| 0 <= i < d.files@.len() && d.files@[i].id == k;
        assert(ls[i].id == k);
        assert(files_by_id(ls)[ls[i].id] == ls[i]);
    }
    assert(files_by_id(ls) =~= r.files);
}

/// The document of a record carries every field's current value, under the
/// field's id and name; the values are lost only when a document is read
/// back.
pub proof fn lemma_document_keeps_values(r: RecordView, d: RecordDto)
    requires
        dto_of(r, d),
    ensures
        forall|i: int|
            0 <= i < d.fields@.len() ==> r.fields.contains_key(#[trigger] d.fields@[i].id)
                && d.fields@[i].name@ == r.fields[d.fields@[i].id].name
                && d.fields@[i].value@ == r.fields[d.fields@[i].id].value,
{
    crate::collections::lemma_field_documents_keep_values(r.fields, d.fields@);
}

} // verus!
