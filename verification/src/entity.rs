//! The record model: the four kinds of the containment hierarchy and
//! the flat record shape every kind shares.

use vstd::prelude::*;

verus! {

/// The four record kinds, in descending hierarchical order.
#[derive(Clone, Copy, Debug, PartialEq, Eq, Structural)]
pub enum EntityKind {
    Patient,
    Study,
    Series,
    Instance,
}

/// The display name of a kind.
pub open spec fn kind_name(k: EntityKind) -> Seq<char> {
    match k {
        EntityKind::Patient => "Patient"@,
        EntityKind::Study => "Study"@,
        EntityKind::Series => "Series"@,
        EntityKind::Instance => "Instance"@,
    }
}

/// The kind of the immediate ancestor; none for the root kind.
pub open spec fn spec_parent_kind(k: EntityKind) -> Option<EntityKind> {
    match k {
        EntityKind::Patient => None,
        EntityKind::Study => Some(EntityKind::Patient),
        EntityKind::Series => Some(EntityKind::Study),
        EntityKind::Instance => Some(EntityKind::Series),
    }
}

/// The display name of the immediate ancestor's kind.
pub open spec fn spec_parent_kind_name(k: EntityKind) -> Option<Seq<char>> {
    match spec_parent_kind(k) {
        Some(p) => Some(kind_name(p)),
        None => None,
    }
}

/// The pluralized display name of the child kind; none for the leaf kind.
pub open spec fn spec_children_kind_name(k: EntityKind) -> Option<Seq<char>> {
    match k {
        EntityKind::Patient => Some("Studies"@),
        EntityKind::Study => Some("Series"@),
        EntityKind::Series => Some("Instances"@),
        EntityKind::Instance => None,
    }
}

impl EntityKind {
    /// The display name of this kind.
    pub fn name(&self) -> (s: &'static str)
        ensures
            s@ == kind_name(*self),
    {
        match self {
            EntityKind::Patient => "Patient",
            EntityKind::Study => "Study",
            EntityKind::Series => "Series",
            EntityKind::Instance => "Instance",
        }
    }
}

/// The value of the first entry with the given name, if any.
pub open spec fn tag_lookup_from(
    tags: Seq<(Seq<char>, Seq<char>)>,
    name: Seq<char>,
    i: int,
) -> Option<Seq<char>>
    decreases tags.len() - i,
{
    if i < 0 || i >= tags.len() {
        None
    } else if tags[i].0 == name {
        Some(tags[i].1)
    } else {
        tag_lookup_from(tags, name, i + 1)
    }
}

/// The value stored under the given tag name, if any.
pub open spec fn tag_lookup(tags: Seq<(Seq<char>, Seq<char>)>, name: Seq<char>) -> Option<
    Seq<char>,
> {
    tag_lookup_from(tags, name, 0)
}

/// What a modify or anonymize call that created a new record reports
/// back: the new record's identifier, the patient it belongs to, its
/// path on the server, and its kind.
#[derive(Debug)]
pub struct ModificationResult {
    pub id: String,
    pub patient_id: String,
    pub path: String,
    pub entity: EntityKind,
}

/// One record of any kind: the identifier the server assigned, the
/// metadata tags present on it, the link to its immediate ancestor, the
/// identifiers of its children, and the two scalars that only the leaf
/// kind carries.
#[derive(Debug)]
pub struct Entity {
    pub kind: EntityKind,
    pub id: String,
    pub main_dicom_tags: Vec<(String, String)>,
    pub parent_id: Option<String>,
    pub children: Vec<String>,
    pub index_in_series: Option<u32>,
    pub file_size: u64,
}

impl Entity {
    /// Which optional fields are meaningful is fixed by the kind: only
    /// the root kind lacks a parent, only the leaf kind lacks children,
    /// and only the leaf kind carries an ordinal and a byte size.
    pub open spec fn well_formed(&self) -> bool {
        &&& (self.parent_id is Some <==> self.kind != EntityKind::Patient)
        &&& (self.kind == EntityKind::Instance ==> self.children@.len() == 0)
        &&& (self.kind != EntityKind::Instance ==> self.index_in_series is None
            && self.file_size == 0)
    }

    /// The kind of this record.
    pub fn kind(&self) -> (k: EntityKind)
        ensures
            k == self.kind,
    {
        self.kind
    }

    /// The identifier the server assigned to this record.
    pub fn id(&self) -> (r: &String)
        ensures
            r == &self.id,
    {
        &self.id
    }

    /// The identifier of the immediate ancestor, none for the root kind.
    pub fn parent_id(&self) -> (r: Option<&String>)
        ensures
            match r {
                Some(p) => self.parent_id matches Some(q) && p == &q,
                None => self.parent_id is None,
            },
    {
        match &self.parent_id {
            Some(p) => Some(p),
            None => None,
        }
    }

    /// The value of the given metadata tag, if the record carries it.
    pub fn main_dicom_tag<'a>(&'a self, tag: &str) -> (r: Option<&'a String>)
        ensures
            match r {
                Some(v) => tag_lookup(self.main_dicom_tags.deep_view(), tag@) == Some(v@),
                None => tag_lookup(self.main_dicom_tags.deep_view(), tag@) is None,
            },
    {
        let name = tag.to_owned();
        let mut i: usize = 0;
        while i < self.main_dicom_tags.len()
            invariant
                i <= self.main_dicom_tags.len(),
                name@ == tag@,
                tag_lookup(self.main_dicom_tags.deep_view(), tag@) == tag_lookup_from(
                    self.main_dicom_tags.deep_view(),
                    tag@,
                    i as int,
                ),
            decreases self.main_dicom_tags.len() - i,
        {
            if self.main_dicom_tags[i].0 == name {
                return Some(&self.main_dicom_tags[i].1);
            }
            i = i + 1;
        }
        None
    }

    /// How many children the record has; zero for the leaf kind.
    pub fn children_len(&self) -> (n: usize)
        ensures
            n == self.children@.len(),
    {
        self.children.len()
    }

    /// The ordinal of the record within its parent, meaningful only for
    /// the leaf kind.
    pub fn index(&self) -> (r: Option<u32>)
        ensures
            r == self.index_in_series,
    {
        self.index_in_series
    }

    /// The byte size of the stored file, meaningful only for the leaf
    /// kind; zero otherwise.
    pub fn size(&self) -> (n: u64)
        ensures
            n == self.file_size,
    {
        self.file_size
    }

    /// The display name of the immediate ancestor's kind.
    pub fn parent_kind_name(&self) -> (r: Option<&'static str>)
        ensures
            match r {
                Some(s) => spec_parent_kind_name(self.kind) == Some(s@),
                None => spec_parent_kind_name(self.kind) is None,
            },
    {
        match self.kind {
            EntityKind::Patient => None,
            EntityKind::Study => Some("Patient"),
            EntityKind::Series => Some("Study"),
            EntityKind::Instance => Some("Series"),
        }
    }

    /// The pluralized display name of the child kind.
    pub fn children_kind_name(&self) -> (r: Option<&'static str>)
        ensures
            match r {
                Some(s) => spec_children_kind_name(self.kind) == Some(s@),
                None => spec_children_kind_name(self.kind) is None,
            },
    {
        match self.kind {
            EntityKind::Patient => Some("Studies"),
            EntityKind::Study => Some("Series"),
            EntityKind::Series => Some("Instances"),
            EntityKind::Instance => None,
        }
    }
}

} // verus!
