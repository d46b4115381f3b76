//! The fields, classifications and files that a record holds, by id.
use vstd::prelude::*;
use std::collections::HashMap;
use vstd::std_specs::iter::IteratorSpec;
use crate::classification::{ClassificationDto, RecordClassification, RecordClassificationView};
use crate::field::{FieldDto, FieldValue, RecordField, RecordFieldView};
use crate::file::{File, FileDto, FileView};
use crate::name_path::render;

verus! {

broadcast use vstd::std_specs::hash::group_hash_axioms;

/// Every entry is filed under its own id.
pub open spec fn keyed_fields(m: Map<u128, RecordFieldView>) -> bool {
    forall|k: u128| #[trigger] m.contains_key(k) ==> m[k].id == k
}

/// `d` is the document form of the field `f`.
pub open spec fn field_dto_of(f: RecordFieldView, d: FieldDto) -> bool {
    d.id == f.id && d.name@ == f.name && d.value@ == f.value
}

/// `d` holds the document form of every entry of `m`, once each, in some order.
pub open spec fn fields_as_dtos(m: Map<u128, RecordFieldView>, d: Seq<FieldDto>) -> bool {
    &&& d.len() == m.dom().len()
    &&& forall|i: int|
        0 <= i < d.len() ==> m.contains_key(#[trigger] d[i].id) && field_dto_of(m[d[i].id], d[i])
    &&& forall|k: u128| #[trigger] m.contains_key(k) ==> exists|i: int| 0 <= i < d.len() && d[i].id == k
    &&& forall|i: int, j: int| 0 <= i < j < d.len() ==> d[i].id != d[j].id
}

/// The map that inserting the fields one after another gives: a later
/// field with the same id replaces an earlier one.
pub open spec fn fields_by_id(s: Seq<RecordFieldView>) -> Map<u128, RecordFieldView>
    decreases s.len(),
{
    if s.len() == 0 {
        Map::empty()
    } else {
        fields_by_id(s.drop_last()).insert(s.last().id, s.last())
    }
}

/// The fields of a record, by field id.
pub struct FieldCollection {
    fields: HashMap<u128, RecordField>,
}

impl View for FieldCollection {
    type V = Map<u128, RecordFieldView>;

    closed spec fn view(&self) -> Map<u128, RecordFieldView> {
        self.fields@.map_values(|f: RecordField| f@)
    }
}

impl FieldCollection {
    #[verifier::type_invariant]
    closed spec fn inv(&self) -> bool {
        keyed_fields(self@)
    }

    pub fn new() -> (r: FieldCollection)
        ensures
            r@ == Map::<u128, RecordFieldView>::empty(),
    {
        let r = FieldCollection { fields: HashMap::new() };
        assert(r@ =~= Map::<u128, RecordFieldView>::empty());
        r
    }

    /// The collection of the given fields.
    pub fn from_iter(fields: Vec<RecordField>) -> (r: FieldCollection)
        ensures
            r@ == fields_by_id(fields@.map_values(|f: RecordField| f@)),
    {
        let mut m: HashMap<u128, RecordField> = HashMap::new();
        let ghost views = fields@.map_values(|f: RecordField| f@);
        let mut rest = fields;
        proof {
            assert(m@.map_values(|f: RecordField| f@) =~= fields_by_id(views.take(0)));
        }
        let n = rest.len();
        let mut i: usize = 0;
        while i < n
            invariant
                n == views.len(),
                i <= n,
                rest@.len() == n - i,
                forall|j: int| 0 <= j < n - i ==> (#[trigger] rest@[j])@ == views[i + j],
                m@.map_values(|f: RecordField| f@) == fields_by_id(views.take(i as int)),
            decreases n - i,
        {
            let f = rest.remove(0);
            proof {
                assert(f@ == views[i as int]);
                assert(views.take(i + 1).drop_last() =~= views.take(i as int));
                assert(views.take(i + 1).last() == views[i as int]);
            }
            let ghost before = m@;
            m.insert(f.id(), f);
            proof {
                assert(m@.map_values(|f: RecordField| f@) =~= before.map_values(
                    |f: RecordField| f@,
                ).insert(views[i as int].id, views[i as int]));
            }
            i = i + 1;
        }
        proof {
            assert(views.take(n as int) =~= views);
            lemma_fields_by_id_keyed(views);
        }
        FieldCollection { fields: m }
    }

    /// Adds a field unless one with its id is already there.
    pub fn add(&mut self, field: RecordField)
        ensures
            old(self)@.contains_key(field@.id) ==> final(self)@ == old(self)@,
            !old(self)@.contains_key(field@.id) ==> final(self)@ == old(self)@.insert(
                field@.id,
                field@,
            ),
    {
        proof {
            use_type_invariant(&*self);
        }
        let id = field.id();
        if !self.fields.contains_key(&id) {
            let ghost before = self.fields@;
            let mut m: HashMap<u128, RecordField> = HashMap::new();
            std::mem::swap(&mut m, &mut self.fields);
            m.insert(id, field);
            assert(m@.map_values(|f: RecordField| f@) =~= before.map_values(
                |f: RecordField| f@,
            ).insert(id, field@));
            self.fields = m;
        }
    }

    /// Whether a field with this id is there.
    pub fn contains(&self, id: u128) -> (r: bool)
        ensures
            r == self@.contains_key(id),
    {
        self.fields.contains_key(&id)
    }

    /// The field with this id.
    pub fn index(&self, id: u128) -> (r: &RecordField)
        requires
            self@.contains_key(id),
        ensures
            r@ == self@[id],
    {
        self.fields.get(&id).unwrap()
    }

    /// Sets the value of the field with this id; the field then has a
    /// pending change.
    pub fn set_value(&mut self, id: u128, value: FieldValue)
        requires
            old(self)@.contains_key(id),
        ensures
            final(self)@ == old(self)@.insert(
                id,
                RecordFieldView { value: value@, is_dirty: true, ..old(self)@[id] },
            ),
    {
        proof {
            use_type_invariant(&*self);
        }
        let ghost before = self.fields@;
        let mut m: HashMap<u128, RecordField> = HashMap::new();
        std::mem::swap(&mut m, &mut self.fields);
        match m.remove(&id) {
            Some(mut f) => {
                f.set_value(value);
                m.insert(id, f);
                assert(m@.map_values(|f: RecordField| f@) =~= before.map_values(
                    |f: RecordField| f@,
                ).insert(id, f@));
            },
            None => {
                assert(false);
            },
        }
        self.fields = m;
    }

    /// The ids of the fields, each once, in no particular order.
    pub fn ids(&self) -> (r: Vec<u128>)
        ensures
            r@.to_set() == self@.dom(),
            r@.no_duplicates(),
    {
        let mut res: Vec<u128> = Vec::new();
        let ghost ks = vstd::std_specs::hash::spec_keys_iter(&self.fields).remaining();
        for k in it: self.fields.keys()
            invariant
                it.seq() == ks,
                res@.len() == it.index(),
                forall|i: int| 0 <= i < it.index() ==> res@[i] == *ks[i],
        {
            res.push(*k);
        }
        proof {
            assert(res@ =~= ks.unref());
            assert(self@.dom() =~= self.fields@.dom());
        }
        res
    }

    /// The document forms of the fields, one for each, in no particular order.
    pub fn to_dtos(&self) -> (r: Vec<FieldDto>)
        ensures
            fields_as_dtos(self@, r@),
            forall|i: int|
                0 <= i < r@.len() ==> self@.contains_key(#[trigger] r@[i].id) && r@[i].name@
                    == self@[r@[i].id].name && r@[i].value@ == self@[r@[i].id].value,
    {
        proof {
            use_type_invariant(self);
        }
        let mut res: Vec<FieldDto> = Vec::new();
        let ghost ps = vstd::std_specs::hash::spec_hash_map_iter(&self.fields).remaining();
        for p in it: self.fields.iter()
            invariant
                it.seq() == ps,
                res@.len() == it.index(),
                forall|i: int|
                    0 <= i < it.index() ==> field_dto_of((*ps[i].1)@, #[trigger] res@[i]),
        {
            let (_, f) = p;
            res.push(f.to_dto());
        }
        proof {
            assert(self@.dom() =~= self.fields@.dom());
            assert forall|i: int| 0 <= i < res@.len() implies self@.contains_key(
                #[trigger] res@[i].id,
            ) && field_dto_of(self@[res@[i].id], res@[i]) by {
                let k = *ps[i].0;
                assert(self.fields@.contains_key(k) && self.fields@[k] == *ps[i].1);
                assert(self@.contains_key(k));
                assert(self@[k].id == k);
            }
            assert forall|k: u128| #[trigger] self@.contains_key(k) implies exists|i: int|
                0 <= i < res@.len() && res@[i].id == k by {
                assert(self.fields@.contains_key(k));
                assert(ps.contains((&k, &self.fields@[k])));
                let i = choose|i: int| 0 <= i < ps.len() && ps[i] == (&k, &self.fields@[k]);
                assert(self@[k].id == k);
                assert(res@[i].id == k);
            }
            assert forall|i: int, j: int| 0 <= i < j < res@.len() implies res@[i].id != res@[j].id by {
                assert(ps.no_duplicates());
                let ki = *ps[i].0;
                let kj = *ps[j].0;
                assert(self.fields@[ki] == *ps[i].1);
                assert(self.fields@[kj] == *ps[j].1);
                assert(self@[ki].id == ki);
                assert(self@[kj].id == kj);
                if ki == kj {
                    assert(ps[i] == ps[j]);
                }
            }
        }
        res
    }
}

proof fn lemma_fields_by_id_keyed(s: Seq<RecordFieldView>)
    ensures
        keyed_fields(fields_by_id(s)),
    decreases s.len(),
{
    if s.len() > 0 {
        lemma_fields_by_id_keyed(s.drop_last());
    }
}


/// Every classification is filed under its own id.
pub open spec fn keyed_classifications(m: Map<u128, RecordClassificationView>) -> bool {
    forall|k: u128| #[trigger] m.contains_key(k) ==> m[k].id == k
}

/// `d` is the document form of the classification `c`.
pub open spec fn classification_dto_of(c: RecordClassificationView, d: ClassificationDto) -> bool {
    d.id == c.id && d.parent_id == c.parent_id && d.name_path@ == render(c.name_path)
}

/// `d` holds the document form of every entry of `m`, once each, in some order.
pub open spec fn classifications_as_dtos(m: Map<u128, RecordClassificationView>, d: Seq<ClassificationDto>) -> bool {
    &&& d.len() == m.dom().len()
    &&& forall|i: int|
        0 <= i < d.len() ==> m.contains_key(#[trigger] d[i].id) && classification_dto_of(m[d[i].id], d[i])
    &&& forall|k: u128| #[trigger] m.contains_key(k) ==> exists|i: int| 0 <= i < d.len() && d[i].id == k
    &&& forall|i: int, j: int| 0 <= i < j < d.len() ==> d[i].id != d[j].id
}

/// The map that inserting the classifications one after another gives.
pub open spec fn classifications_by_id(s: Seq<RecordClassificationView>) -> Map<
    u128,
    RecordClassificationView,
>
    decreases s.len(),
{
    if s.len() == 0 {
        Map::empty()
    } else {
        classifications_by_id(s.drop_last()).insert(s.last().id, s.last())
    }
}

/// The classifications of a record, by classification id.
pub struct ClassificationCollection {
    classifications: HashMap<u128, RecordClassification>,
}

impl View for ClassificationCollection {
    type V = Map<u128, RecordClassificationView>;

    closed spec fn view(&self) -> Map<u128, RecordClassificationView> {
        self.classifications@.map_values(|c: RecordClassification| c@)
    }
}

impl ClassificationCollection {
    #[verifier::type_invariant]
    closed spec fn inv(&self) -> bool {
        keyed_classifications(self@)
    }

    pub fn new() -> (r: ClassificationCollection)
        ensures
            r@ == Map::<u128, RecordClassificationView>::empty(),
    {
        let r = ClassificationCollection { classifications: HashMap::new() };
        assert(r@ =~= Map::<u128, RecordClassificationView>::empty());
        r
    }

    /// The collection of the given classifications.
    pub fn from_iter(items: Vec<RecordClassification>) -> (r: ClassificationCollection)
        ensures
            r@ == classifications_by_id(items@.map_values(|c: RecordClassification| c@)),
    {
        let mut m: HashMap<u128, RecordClassification> = HashMap::new();
        let ghost views = items@.map_values(|c: RecordClassification| c@);
        let mut rest = items;
        proof {
            assert(m@.map_values(|c: RecordClassification| c@) =~= classifications_by_id(
                views.take(0),
            ));
        }
        let n = rest.len();
        let mut i: usize = 0;
        while i < n
            invariant
                n == views.len(),
                i <= n,
                rest@.len() == n - i,
                forall|j: int| 0 <= j < n - i ==> (#[trigger] rest@[j])@ == views[i + j],
                m@.map_values(|c: RecordClassification| c@) == classifications_by_id(
                    views.take(i as int),
                ),
            decreases n - i,
        {
            let c = rest.remove(0);
            proof {
                assert(c@ == views[i as int]);
                assert(views.take(i + 1).drop_last() =~= views.take(i as int));
                assert(views.take(i + 1).last() == views[i as int]);
            }
            let ghost before = m@;
            m.insert(c.id(), c);
            proof {
                assert(m@.map_values(|c: RecordClassification| c@) =~= before.map_values(
                    |c: RecordClassification| c@,
                ).insert(views[i as int].id, views[i as int]));
            }
            i = i + 1;
        }
        proof {
            assert(views.take(n as int) =~= views);
            lemma_classifications_by_id_keyed(views);
        }
        ClassificationCollection { classifications: m }
    }

    /// Adds a classification; one with the same id is replaced.
    pub fn add(&mut self, cls: RecordClassification)
        ensures
            final(self)@ == old(self)@.insert(cls@.id, cls@),
    {
        let id = cls.id();
        let ghost before = self.classifications@;
        proof {
            use_type_invariant(&*self);
        }
        let mut m: HashMap<u128, RecordClassification> = HashMap::new();
        std::mem::swap(&mut m, &mut self.classifications);
        m.insert(id, cls);
        proof {
            assert(m@.map_values(|c: RecordClassification| c@) =~= before.map_values(
                |c: RecordClassification| c@,
            ).insert(id, cls@));
        }
        self.classifications = m;
    }

    /// The ids of the classifications, each once, in no particular order.
    pub fn ids(&self) -> (r: Vec<u128>)
        ensures
            r@.to_set() == self@.dom(),
            r@.no_duplicates(),
    {
        let mut res: Vec<u128> = Vec::new();
        let ghost ks = vstd::std_specs::hash::spec_keys_iter(&self.classifications).remaining();
        for k in it: self.classifications.keys()
            invariant
                it.seq() == ks,
                res@.len() == it.index(),
                forall|i: int| 0 <= i < it.index() ==> res@[i] == *ks[i],
        {
            res.push(*k);
        }
        proof {
            assert(res@ =~= ks.unref());
            assert(self@.dom() =~= self.classifications@.dom());
        }
        res
    }

    /// The document forms of the classifications, one for each, in no
    /// particular order.
    pub fn to_dtos(&self) -> (r: Vec<ClassificationDto>)
        ensures
            classifications_as_dtos(self@, r@),
    {
        proof {
            use_type_invariant(self);
        }
        let mut res: Vec<ClassificationDto> = Vec::new();
        let ghost ps = vstd::std_specs::hash::spec_hash_map_iter(&self.classifications).remaining();
        for p in it: self.classifications.iter()
            invariant
                it.seq() == ps,
                res@.len() == it.index(),
                forall|i: int|
                    0 <= i < it.index() ==> classification_dto_of((*ps[i].1)@, #[trigger] res@[i]),
        {
            let (_, c) = p;
            res.push(c.to_dto());
        }
        proof {
            assert(self@.dom() =~= self.classifications@.dom());
            assert forall|i: int| 0 <= i < res@.len() implies self@.contains_key(
                #[trigger] res@[i].id,
            ) && classification_dto_of(self@[res@[i].id], res@[i]) by {
                let k = *ps[i].0;
                assert(self.classifications@.contains_key(k) && self.classifications@[k] == *ps[i].1);
                assert(self@.contains_key(k));
                assert(self@[k].id == k);
            }
            assert forall|k: u128| #[trigger] self@.contains_key(k) implies exists|i: int|
                0 <= i < res@.len() && res@[i].id == k by {
                assert(self.classifications@.contains_key(k));
                assert(ps.contains((&k, &self.classifications@[k])));
                let i = choose|i: int| 0 <= i < ps.len() && ps[i] == (&k, &self.classifications@[k]);
                assert(self@[k].id == k);
                assert(res@[i].id == k);
            }
            assert forall|i: int, j: int| 0 <= i < j < res@.len() implies res@[i].id != res@[j].id by {
                assert(ps.no_duplicates());
                let ki = *ps[i].0;
                let kj = *ps[j].0;
                assert(self.classifications@[ki] == *ps[i].1);
                assert(self.classifications@[kj] == *ps[j].1);
                assert(self@[ki].id == ki);
                assert(self@[kj].id == kj);
                if ki == kj {
                    assert(ps[i] == ps[j]);
                }
            }
        }
        res
    }
}

proof fn lemma_classifications_by_id_keyed(s: Seq<RecordClassificationView>)
    ensures
        keyed_classifications(classifications_by_id(s)),
    decreases s.len(),
{
    if s.len() > 0 {
        lemma_classifications_by_id_keyed(s.drop_last());
    }
}

/// Every file is filed under its own id.
pub open spec fn keyed_files(m: Map<u128, FileView>) -> bool {
    forall|k: u128| #[trigger] m.contains_key(k) ==> m[k].id == k
}

/// `d` is the document form of the file `c`.
pub open spec fn file_dto_of(c: FileView, d: FileDto) -> bool {
    d.id == c.id && d.full_file_path@ == c.path
}

/// `d` holds the document form of every entry of `m`, once each, in some order.
pub open spec fn files_as_dtos(m: Map<u128, FileView>, d: Seq<FileDto>) -> bool {
    &&& d.len() == m.dom().len()
    &&& forall|i: int|
        0 <= i < d.len() ==> m.contains_key(#[trigger] d[i].id) && file_dto_of(m[d[i].id], d[i])
    &&& forall|k: u128| #[trigger] m.contains_key(k) ==> exists|i: int| 0 <= i < d.len() && d[i].id == k
    &&& forall|i: int, j: int| 0 <= i < j < d.len() ==> d[i].id != d[j].id
}

/// The map that inserting the files one after another gives.
pub open spec fn files_by_id(s: Seq<FileView>) -> Map<
    u128,
    FileView,
>
    decreases s.len(),
{
    if s.len() == 0 {
        Map::empty()
    } else {
        files_by_id(s.drop_last()).insert(s.last().id, s.last())
    }
}

/// The files of a record, by file id.
pub struct FileCollection {
    files: HashMap<u128, File>,
}

impl View for FileCollection {
    type V = Map<u128, FileView>;

    closed spec fn view(&self) -> Map<u128, FileView> {
        self.files@.map_values(|c: File| c@)
    }
}

impl FileCollection {
    #[verifier::type_invariant]
    closed spec fn inv(&self) -> bool {
        keyed_files(self@)
    }

    pub fn new() -> (r: FileCollection)
        ensures
            r@ == Map::<u128, FileView>::empty(),
    {
        let r = FileCollection { files: HashMap::new() };
        assert(r@ =~= Map::<u128, FileView>::empty());
        r
    }

    /// The collection of the given files.
    pub fn from_iter(items: Vec<File>) -> (r: FileCollection)
        ensures
            r@ == files_by_id(items@.map_values(|c: File| c@)),
    {
        let mut m: HashMap<u128, File> = HashMap::new();
        let ghost views = items@.map_values(|c: File| c@);
        let mut rest = items;
        proof {
            assert(m@.map_values(|c: File| c@) =~= files_by_id(
                views.take(0),
            ));
        }
        let n = rest.len();
        let mut i: usize = 0;
        while i < n
            invariant
                n == views.len(),
                i <= n,
                rest@.len() == n - i,
                forall|j: int| 0 <= j < n - i ==> (#[trigger] rest@[j])@ == views[i + j],
                m@.map_values(|c: File| c@) == files_by_id(
                    views.take(i as int),
                ),
            decreases n - i,
        {
            let c = rest.remove(0);
            proof {
                assert(c@ == views[i as int]);
                assert(views.take(i + 1).drop_last() =~= views.take(i as int));
                assert(views.take(i + 1).last() == views[i as int]);
            }
            let ghost before = m@;
            m.insert(c.id(), c);
            proof {
                assert(m@.map_values(|c: File| c@) =~= before.map_values(
                    |c: File| c@,
                ).insert(views[i as int].id, views[i as int]));
            }
            i = i + 1;
        }
        proof {
            assert(views.take(n as int) =~= views);
            lemma_files_by_id_keyed(views);
        }
        FileCollection { files: m }
    }

    /// The ids of the files, each once, in no particular order.
    pub fn ids(&self) -> (r: Vec<u128>)
        ensures
            r@.to_set() == self@.dom(),
            r@.no_duplicates(),
    {
        let mut res: Vec<u128> = Vec::new();
        let ghost ks = vstd::std_specs::hash::spec_keys_iter(&self.files).remaining();
        for k in it: self.files.keys()
            invariant
                it.seq() == ks,
                res@.len() == it.index(),
                forall|i: int| 0 <= i < it.index() ==> res@[i] == *ks[i],
        {
            res.push(*k);
        }
        proof {
            assert(res@ =~= ks.unref());
            assert(self@.dom() =~= self.files@.dom());
        }
        res
    }

    /// The document forms of the files, one for each, in no
    /// particular order.
    pub fn to_dtos(&self) -> (r: Vec<FileDto>)
        ensures
            files_as_dtos(self@, r@),
    {
        proof {
            use_type_invariant(self);
        }
        let mut res: Vec<FileDto> = Vec::new();
        let ghost ps = vstd::std_specs::hash::spec_hash_map_iter(&self.files).remaining();
        for p in it: self.files.iter()
            invariant
                it.seq() == ps,
                res@.len() == it.index(),
                forall|i: int|
                    0 <= i < it.index() ==> file_dto_of((*ps[i].1)@, #[trigger] res@[i]),
        {
            let (_, c) = p;
            res.push(c.to_dto());
        }
        proof {
            assert(self@.dom() =~= self.files@.dom());
            assert forall|i: int| 0 <= i < res@.len() implies self@.contains_key(
                #[trigger] res@[i].id,
            ) && file_dto_of(self@[res@[i].id], res@[i]) by {
                let k = *ps[i].0;
                assert(self.files@.contains_key(k) && self.files@[k] == *ps[i].1);
                assert(self@.contains_key(k));
                assert(self@[k].id == k);
            }
            assert forall|k: u128| #[trigger] self@.contains_key(k) implies exists|i: int|
                0 <= i < res@.len() && res@[i].id == k by {
                assert(self.files@.contains_key(k));
                assert(ps.contains((&k, &self.files@[k])));
                let i = choose|i: int| 0 <= i < ps.len() && ps[i] == (&k, &self.files@[k]);
                assert(self@[k].id == k);
                assert(res@[i].id == k);
            }
            assert forall|i: int, j: int| 0 <= i < j < res@.len() implies res@[i].id != res@[j].id by {
                assert(ps.no_duplicates());
                let ki = *ps[i].0;
                let kj = *ps[j].0;
                assert(self.files@[ki] == *ps[i].1);
                assert(self.files@[kj] == *ps[j].1);
                assert(self@[ki].id == ki);
                assert(self@[kj].id == kj);
                if ki == kj {
                    assert(ps[i] == ps[j]);
                }
            }
        }
        res
    }
}

proof fn lemma_files_by_id_keyed(s: Seq<FileView>)
    ensures
        keyed_files(files_by_id(s)),
    decreases s.len(),
{
    if s.len() > 0 {
        lemma_files_by_id_keyed(s.drop_last());
    }
}

/// What the map built from `s` holds: the ids that occur in `s`, and for
/// ids that occur once, that element.
pub proof fn lemma_fields_by_id_contents(s: Seq<RecordFieldView>)
    ensures
        forall|k: u128|
            #[trigger] fields_by_id(s).contains_key(k) <==> exists|i: int|
                0 <= i < s.len() && s[i].id == k,
        (forall|i: int, j: int| 0 <= i < j < s.len() ==> s[i].id != s[j].id) ==> forall|i: int|
            0 <= i < s.len() ==> #[trigger] fields_by_id(s)[s[i].id] == s[i],
    decreases s.len(),
{
    if s.len() > 0 {
        let t = s.drop_last();
        lemma_fields_by_id_contents(t);
        assert forall|k: u128| #[trigger] fields_by_id(s).contains_key(k) implies exists|i: int|
            0 <= i < s.len() && s[i].id == k by {
            if k != s.last().id {
                assert(fields_by_id(t).contains_key(k));
                let i = choose|i: int| 0 <= i < t.len() && t[i].id == k;
                assert(s[i] == t[i]);
            } else {
                assert(s[s.len() - 1].id == k);
            }
        }
        assert forall|k: u128| (exists|i: int| 0 <= i < s.len() && s[i].id == k) implies #[trigger] fields_by_id(s).contains_key(k) by {
            let i = choose|i: int| 0 <= i < s.len() && s[i].id == k;
            if i < s.len() - 1 {
                assert(t[i] == s[i]);
                assert(t[i].id == k);
                assert(fields_by_id(t).contains_key(k));
            }
        }
        if forall|i: int, j: int| 0 <= i < j < s.len() ==> s[i].id != s[j].id {
            assert forall|i: int| 0 <= i < s.len() implies #[trigger] fields_by_id(s)[s[i].id] == s[i] by {
                if i < s.len() - 1 {
                    assert(t[i] == s[i]);
                    assert(forall|a: int, b: int| 0 <= a < b < t.len() ==> t[a].id != t[b].id) by {
                        assert forall|a: int, b: int| 0 <= a < b < t.len() implies t[a].id != t[b].id by {
                            assert(t[a] == s[a] && t[b] == s[b]);
                        }
                    }
                    assert(s[i].id != s[s.len() - 1].id);
                    assert(fields_by_id(t)[t[i].id] == t[i]);
                }
            }
        }
    }
}

/// What the map built from `s` holds: the ids that occur in `s`, and for
/// ids that occur once, that element.
pub proof fn lemma_classifications_by_id_contents(s: Seq<RecordClassificationView>)
    ensures
        forall|k: u128|
            #[trigger] classifications_by_id(s).contains_key(k) <==> exists|i: int|
                0 <= i < s.len() && s[i].id == k,
        (forall|i: int, j: int| 0 <= i < j < s.len() ==> s[i].id != s[j].id) ==> forall|i: int|
            0 <= i < s.len() ==> #[trigger] classifications_by_id(s)[s[i].id] == s[i],
    decreases s.len(),
{
    if s.len() > 0 {
        let t = s.drop_last();
        lemma_classifications_by_id_contents(t);
        assert forall|k: u128| #[trigger] classifications_by_id(s).contains_key(k) implies exists|i: int|
            0 <= i < s.len() && s[i].id == k by {
            if k != s.last().id {
                assert(classifications_by_id(t).contains_key(k));
                let i = choose|i: int| 0 <= i < t.len() && t[i].id == k;
                assert(s[i] == t[i]);
            } else {
                assert(s[s.len() - 1].id == k);
            }
        }
        assert forall|k: u128| (exists|i: int| 0 <= i < s.len() && s[i].id == k) implies #[trigger] classifications_by_id(s).contains_key(k) by {
            let i = choose|i: int| 0 <= i < s.len() && s[i].id == k;
            if i < s.len() - 1 {
                assert(t[i] == s[i]);
                assert(t[i].id == k);
                assert(classifications_by_id(t).contains_key(k));
            }
        }
        if forall|i: int, j: int| 0 <= i < j < s.len() ==> s[i].id != s[j].id {
            assert forall|i: int| 0 <= i < s.len() implies #[trigger] classifications_by_id(s)[s[i].id] == s[i] by {
                if i < s.len() - 1 {
                    assert(t[i] == s[i]);
                    assert(forall|a: int, b: int| 0 <= a < b < t.len() ==> t[a].id != t[b].id) by {
                        assert forall|a: int, b: int| 0 <= a < b < t.len() implies t[a].id != t[b].id by {
                            assert(t[a] == s[a] && t[b] == s[b]);
                        }
                    }
                    assert(s[i].id != s[s.len() - 1].id);
                    assert(classifications_by_id(t)[t[i].id] == t[i]);
                }
            }
        }
    }
}

/// What the map built from `s` holds: the ids that occur in `s`, and for
/// ids that occur once, that element.
pub proof fn lemma_files_by_id_contents(s: Seq<FileView>)
    ensures
        forall|k: u128|
            #[trigger] files_by_id(s).contains_key(k) <==> exists|i: int|
                0 <= i < s.len() && s[i].id == k,
        (forall|i: int, j: int| 0 <= i < j < s.len() ==> s[i].id != s[j].id) ==> forall|i: int|
            0 <= i < s.len() ==> #[trigger] files_by_id(s)[s[i].id] == s[i],
    decreases s.len(),
{
    if s.len() > 0 {
        let t = s.drop_last();
        lemma_files_by_id_contents(t);
        assert forall|k: u128| #[trigger] files_by_id(s).contains_key(k) implies exists|i: int|
            0 <= i < s.len() && s[i].id == k by {
            if k != s.last().id {
                assert(files_by_id(t).contains_key(k));
                let i = choose|i: int| 0 <= i < t.len() && t[i].id == k;
                assert(s[i] == t[i]);
            } else {
                assert(s[s.len() - 1].id == k);
            }
        }
        assert forall|k: u128| (exists|i: int| 0 <= i < s.len() && s[i].id == k) implies #[trigger] files_by_id(s).contains_key(k) by {
            let i = choose|i: int| 0 <= i < s.len() && s[i].id == k;
            if i < s.len() - 1 {
                assert(t[i] == s[i]);
                assert(t[i].id == k);
                assert(files_by_id(t).contains_key(k));
            }
        }
        if forall|i: int, j: int| 0 <= i < j < s.len() ==> s[i].id != s[j].id {
            assert forall|i: int| 0 <= i < s.len() implies #[trigger] files_by_id(s)[s[i].id] == s[i] by {
                if i < s.len() - 1 {
                    assert(t[i] == s[i]);
                    assert(forall|a: int, b: int| 0 <= a < b < t.len() ==> t[a].id != t[b].id) by {
                        assert forall|a: int, b: int| 0 <= a < b < t.len() implies t[a].id != t[b].id by {
                            assert(t[a] == s[a] && t[b] == s[b]);
                        }
                    }
                    assert(s[i].id != s[s.len() - 1].id);
                    assert(files_by_id(t)[t[i].id] == t[i]);
                }
            }
        }
    }
}
/// The document form of a collection of fields carries, for each field,
/// its id, its name and its current value.
pub proof fn lemma_field_documents_keep_values(m: Map<u128, RecordFieldView>, d: Seq<FieldDto>)
    requires
        fields_as_dtos(m, d),
    ensures
        forall|i: int|
            0 <= i < d.len() ==> m.contains_key(#[trigger] d[i].id) && d[i].name@ == m[d[i].id].name
                && d[i].value@ == m[d[i].id].value,
{
}

} // verus!
