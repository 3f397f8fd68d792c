//! The project data model: sections, blocks, materials and their kinds.

use std::collections::BTreeMap;
use vstd::prelude::*;
use crate::text::text_eq;

verus! {

/// The fields a paper's material is described by.
pub const PAPER_FIELDS: [&'static str; 12] = [
    "概述",
    "心得",
    "核心貢獻",
    "關鍵內容",
    "可放入 Introduction 的角度",
    "可放入 Related Work 的角度",
    "方法摘要",
    "資料集摘要",
    "結果摘要",
    "限制",
    "與本研究的關係",
    "可引用句子",
];

/// The fields an algorithm's material is described by.
pub const ALGORITHM_FIELDS: [&'static str; 9] = [
    "公式",
    "描述",
    "公式與描述",
    "輸入",
    "輸出",
    "使用原因",
    "限制",
    "LaTeX 原始碼",
    "與本研究的關係",
];

/// The kind of a section of a paper project.
#[derive(Clone, Copy, Debug, PartialEq, Eq, Structural)]
pub enum SectionType {
    Literature,
    Method,
    Results,
    Discussion,
    GeneralNote,
    Mixed,
}

impl SectionType {
    /// Every section type, in declaration order.
    pub fn all() -> (r: [Self; 6])
        ensures
            r@ == seq![
                SectionType::Literature,
                SectionType::Method,
                SectionType::Results,
                SectionType::Discussion,
                SectionType::GeneralNote,
                SectionType::Mixed,
            ],
    {
        let r = [
            Self::Literature,
            Self::Method,
            Self::Results,
            Self::Discussion,
            Self::GeneralNote,
            Self::Mixed,
        ];
        assert(r@ =~= seq![
            SectionType::Literature,
            SectionType::Method,
            SectionType::Results,
            SectionType::Discussion,
            SectionType::GeneralNote,
            SectionType::Mixed,
        ]);
        r
    }

    pub open spec fn label_text(self) -> Seq<char> {
        match self {
            SectionType::Literature => "Literature"@,
            SectionType::Method => "Method"@,
            SectionType::Results => "Results"@,
            SectionType::Discussion => "Discussion"@,
            SectionType::GeneralNote => "General Note"@,
            SectionType::Mixed => "Mixed"@,
        }
    }

    /// The name shown for the section type.
    pub fn label(self) -> (r: &'static str)
        ensures
            r@ == self.label_text(),
    {
        match self {
            Self::Literature => "Literature",
            Self::Method => "Method",
            Self::Results => "Results",
            Self::Discussion => "Discussion",
            Self::GeneralNote => "General Note",
            Self::Mixed => "Mixed",
        }
    }
}

/// The kind of a block, which is also the kind of the material it shows.
#[derive(Clone, Copy, Debug, PartialEq, Eq, Structural)]
pub enum BlockType {
    Paper,
    Algorithm,
    Image,
    Table,
    Note,
}

impl BlockType {
    /// Every block type, in declaration order.
    pub fn all() -> (r: [Self; 5])
        ensures
            r@ == seq![
                BlockType::Paper,
                BlockType::Algorithm,
                BlockType::Image,
                BlockType::Table,
                BlockType::Note,
            ],
    {
        let r = [Self::Paper, Self::Algorithm, Self::Image, Self::Table, Self::Note];
        assert(r@ =~= seq![
            BlockType::Paper,
            BlockType::Algorithm,
            BlockType::Image,
            BlockType::Table,
            BlockType::Note,
        ]);
        r
    }

    pub open spec fn label_text(self) -> Seq<char> {
        match self {
            BlockType::Paper => "Paper"@,
            BlockType::Algorithm => "Algorithm"@,
            BlockType::Image => "Image"@,
            BlockType::Table => "Table"@,
            BlockType::Note => "Note"@,
        }
    }

    /// The name shown for the block type.
    pub fn label(self) -> (r: &'static str)
        ensures
            r@ == self.label_text(),
    {
        match self {
            Self::Paper => "Paper",
            Self::Algorithm => "Algorithm",
            Self::Image => "Image",
            Self::Table => "Table",
            Self::Note => "Note",
        }
    }
}

/// One sort key of a section: a display field and a direction.
#[derive(Clone, Debug)]
pub struct SortRule {
    pub field: String,
    pub order: SortOrder,
}

/// A sort direction.
#[derive(Clone, Copy, Debug, PartialEq, Eq, Structural)]
pub enum SortOrder {
    Asc,
    Desc,
}

impl SortOrder {
    pub open spec fn label_text(self) -> Seq<char> {
        match self {
            SortOrder::Asc => "Asc"@,
            SortOrder::Desc => "Desc"@,
        }
    }

    /// The name shown for the direction.
    pub fn label(self) -> (r: &'static str)
        ensures
            r@ == self.label_text(),
    {
        match self {
            Self::Asc => "Asc",
            Self::Desc => "Desc",
        }
    }
}

/// A paper project: its identity, its Drive folder and its sections.
#[derive(Clone, Debug)]
pub struct Project {
    pub project_id: String,
    pub project_name: String,
    pub folder_id: String,
    pub sections: Vec<Section>,
    pub created_at: String,
    pub updated_at: String,
}

/// A section of a project, holding blocks.
#[derive(Clone, Debug)]
pub struct Section {
    pub section_id: String,
    pub idx: i64,
    pub title: String,
    pub section_type: SectionType,
    pub left_display_field: String,
    pub source_folder: String,
    pub display_field: String,
    pub sort_rules: Vec<SortRule>,
    pub blocks: Vec<Block>,
}

/// A block of a section: a reference to a material with the way it is shown.
#[derive(Clone, Debug)]
pub struct Block {
    pub block_id: String,
    pub idx: i64,
    pub block_type: BlockType,
    pub source_id: String,
    pub display_field: String,
    pub display_order: i64,
    pub custom_sentence: String,
    pub note: String,
    pub created_at: String,
    pub updated_at: String,
}

/// A piece of material: a paper, an algorithm, an image, a table or a note.
#[derive(Clone, Debug)]
pub struct Material {
    pub id: String,
    pub kind: BlockType,
    pub name: String,
    pub fields: BTreeMap<String, String>,
    pub metadata: BTreeMap<String, String>,
    pub file_path: String,
    pub created_at: String,
    pub updated_at: String,
}

/// All projects with all material, one list per kind.
#[derive(Debug)]
pub struct Library {
    pub projects: Vec<Project>,
    pub papers: Vec<Material>,
    pub algorithms: Vec<Material>,
    pub images: Vec<Material>,
    pub tables: Vec<Material>,
    pub notes: Vec<Material>,
}

/// One project with its material, as `project.json` holds it.
#[derive(Clone, Debug)]
pub struct ProjectData {
    pub project: Project,
    pub papers: Vec<Material>,
    pub algorithms: Vec<Material>,
    pub images: Vec<Material>,
    pub tables: Vec<Material>,
    pub notes: Vec<Material>,
}

/// Where a project lives: its identity, its Drive folder and its local folder.
#[derive(Clone, Debug)]
pub struct ProjectEntry {
    pub project_id: String,
    pub project_name: String,
    pub folder_id: String,
    pub local_path: String,
}

/// A list of project entries.
#[derive(Debug)]
pub struct ProjectsIndex {
    pub projects: Vec<ProjectEntry>,
}

impl Default for ProjectsIndex {
    /// No projects.
    fn default() -> (r: Self)
        ensures
            r.projects@.len() == 0,
    {
        ProjectsIndex { projects: Vec::new() }
    }
}

impl Library {
    /// The list that holds the material of `kind`.
    pub open spec fn list_of(self, kind: BlockType) -> Vec<Material> {
        match kind {
            BlockType::Paper => self.papers,
            BlockType::Algorithm => self.algorithms,
            BlockType::Image => self.images,
            BlockType::Table => self.tables,
            BlockType::Note => self.notes,
        }
    }

    /// The library with the list of `kind` replaced by `v`.
    pub open spec fn with_list(self, kind: BlockType, v: Vec<Material>) -> Library {
        match kind {
            BlockType::Paper => Library { papers: v, ..self },
            BlockType::Algorithm => Library { algorithms: v, ..self },
            BlockType::Image => Library { images: v, ..self },
            BlockType::Table => Library { tables: v, ..self },
            BlockType::Note => Library { notes: v, ..self },
        }
    }

    /// Changing the list of one kind through `materials_mut` leaves the
    /// lists of every other kind and the projects as they were.
    pub proof fn materials_mut_touches_one_list(self, kind: BlockType, v: Vec<Material>, other: BlockType)
        requires
            other != kind,
        ensures
            self.with_list(kind, v).list_of(kind) == v,
            self.with_list(kind, v).list_of(other) == self.list_of(other),
            self.with_list(kind, v).projects == self.projects,
    {
    }

    /// The material of one kind.
    pub fn materials(&self, kind: BlockType) -> (r: &[Material])
        ensures
            r@ == self.list_of(kind)@,
    {
        match kind {
            BlockType::Paper => self.papers.as_slice(),
            BlockType::Algorithm => self.algorithms.as_slice(),
            BlockType::Image => self.images.as_slice(),
            BlockType::Table => self.tables.as_slice(),
            BlockType::Note => self.notes.as_slice(),
        }
    }

    /// The list of one kind, to change in place.
    pub fn materials_mut(&mut self, kind: BlockType) -> (r: &mut Vec<Material>)
        ensures
            *r == old(self).list_of(kind),
            *final(self) == old(self).with_list(kind, *final(r)),
    {
        match kind {
            BlockType::Paper => &mut self.papers,
            BlockType::Algorithm => &mut self.algorithms,
            BlockType::Image => &mut self.images,
            BlockType::Table => &mut self.tables,
            BlockType::Note => &mut self.notes,
        }
    }

    /// The first material of `kind` whose id is `id`.
    pub fn material(&self, kind: BlockType, id: &str) -> (r: Option<&Material>)
        ensures
            r is None <==> (forall|i: int|
                0 <= i < self.list_of(kind)@.len() ==> #[trigger] self.list_of(kind)@[i].id@
                    != id@),
            r matches Some(m) ==> exists|i: int|
                0 <= i < self.list_of(kind)@.len() && *m == self.list_of(kind)@[i] && m.id@
                    == id@ && forall|j: int|
                    0 <= j < i ==> #[trigger] self.list_of(kind)@[j].id@ != id@,
    {
        let list = self.materials(kind);
        let mut i: usize = 0;
        while i < list.len()
            invariant
                list@ == self.list_of(kind)@,
                i <= list.len(),
                forall|j: int| 0 <= j < i ==> #[trigger] list@[j].id@ != id@,
            decreases list.len() - i,
        {
            if text_eq(list[i].id.as_str(), id) {
                return Some(&list[i]);
            }
            i = i + 1;
        }
        None
    }
}

} // verus!
