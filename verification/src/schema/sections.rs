//! Sections: the summary, the twelve collections of items, and the
//! sections that the subject defines.

use vstd::prelude::*;
use crate::schema::items::{
    Award, Certification, CustomItem, Education, Experience, Interest, Language, Profile, Project,
    Publication, Reference, Skill, Volunteer,
};
use crate::text::{chars_of, owned, same_text, trim, trim_chars};

verus! {

/// A number of columns held to the range 1 to 5.
pub open spec fn clamp_columns(columns: u8) -> u8 {
    if columns < 1 {
        1
    } else if columns > 5 {
        5
    } else {
        columns
    }
}

/// A named, ordered collection of items of one kind.
#[derive(Debug, Clone)]
pub struct Section<T> {
    pub id: String,
    pub name: String,
    /// From 1 to 5.
    pub columns: u8,
    pub separate_links: bool,
    pub visible: bool,
    pub items: Vec<T>,
}

impl<T> Section<T> {
    /// Whether the section's own fields are those of a section just made:
    /// one column, links apart, visible.
    pub open spec fn plain(self) -> bool {
        self.columns == 1 && self.separate_links && self.visible
    }

    /// A visible, empty section of one column.
    pub fn new(id: &str, name: &str) -> (r: Section<T>)
        ensures
            r.id@ == id@,
            r.name@ == name@,
            r.plain(),
            r.items@.len() == 0,
    {
        Section {
            id: owned(id),
            name: owned(name),
            columns: 1,
            separate_links: true,
            visible: true,
            items: Vec::new(),
        }
    }

    /// Puts `item` after the items that the section holds.
    pub fn add_item(&mut self, item: T)
        ensures
            final(self).items@ == old(self).items@.push(item),
            *final(self) == (Section { items: final(self).items, ..*old(self) }),
    {
        self.items.push(item);
    }

    /// Shows or hides the section.
    pub fn set_visible(&mut self, visible: bool)
        ensures
            *final(self) == (Section { visible, ..*old(self) }),
    {
        self.visible = visible;
    }

    /// Sets the number of columns, which is held to the range 1 to 5.
    pub fn set_columns(&mut self, columns: u8)
        ensures
            1 <= final(self).columns <= 5,
            *final(self) == (Section { columns: clamp_columns(columns), ..*old(self) }),
    {
        self.columns = if columns < 1 {
            1
        } else if columns > 5 {
            5
        } else {
            columns
        };
    }

    pub fn is_empty(&self) -> (r: bool)
        ensures
            r == (self.items@.len() == 0),
    {
        self.items.len() == 0
    }

    pub fn len(&self) -> (r: usize)
        ensures
            r == self.items@.len(),
    {
        self.items.len()
    }
}

impl<T> Default for Section<T> {
    /// A visible, empty section of one column, without identifier or name.
    fn default() -> (r: Section<T>)
        ensures
            r.id@.len() == 0,
            r.name@.len() == 0,
            r.plain(),
            r.items@.len() == 0,
    {
        Section {
            id: String::new(),
            name: String::new(),
            columns: 1,
            separate_links: true,
            visible: true,
            items: Vec::new(),
        }
    }
}

/// The summary: one rich text in place of items.
#[derive(Debug, Clone)]
pub struct SummarySection {
    pub id: String,
    pub name: String,
    /// From 1 to 5.
    pub columns: u8,
    pub separate_links: bool,
    pub visible: bool,
    pub content: String,
}

/// The paragraph that an editor leaves behind when the text is deleted.
pub open spec fn empty_paragraph() -> Seq<char> {
    seq!['<', 'p', '>', '<', '/', 'p', '>']
}

impl SummarySection {
    /// Whether two summaries have the same fields.
    pub open spec fn same(self, other: SummarySection) -> bool {
        &&& self.id@ == other.id@
        &&& self.name@ == other.name@
        &&& self.columns == other.columns
        &&& self.separate_links == other.separate_links
        &&& self.visible == other.visible
        &&& self.content@ == other.content@
    }

    /// Whether all but the content is as in a summary just made.
    pub open spec fn plain(self) -> bool {
        &&& self.id@ == "summary"@
        &&& self.name@ == "Summary"@
        &&& self.columns == 1
        &&& self.separate_links
        &&& self.visible
    }

    /// A summary with the given content, shown in one column.
    pub fn new(content: &str) -> (r: SummarySection)
        ensures
            r.plain(),
            r.content@ == content@,
    {
        SummarySection {
            id: owned("summary"),
            name: owned("Summary"),
            columns: 1,
            separate_links: true,
            visible: true,
            content: owned(content),
        }
    }

    /// A summary is empty when its content, trimmed, is nothing or an
    /// empty paragraph.
    pub fn is_empty(&self) -> (r: bool)
        ensures
            r == (trim(self.content@).len() == 0 || trim(self.content@) == empty_paragraph()),
    {
        let v = chars_of(self.content.as_str());
        let t = trim_chars(&v);
        proof {
            reveal_strlit("<p></p>");
            assert("<p></p>"@ =~= empty_paragraph());
        }
        t.len() == 0 || crate::text::same_chars(&t, &chars_of("<p></p>"))
    }

    /// A copy of the summary.
    pub fn copy(&self) -> (r: SummarySection)
        ensures
            r.same(*self),
    {
        SummarySection {
            id: self.id.clone(),
            name: self.name.clone(),
            columns: self.columns,
            separate_links: self.separate_links,
            visible: self.visible,
            content: self.content.clone(),
        }
    }
}

impl Default for SummarySection {
    fn default() -> (r: SummarySection)
        ensures
            r.plain(),
            r.content@.len() == 0,
    {
        SummarySection {
            id: owned("summary"),
            name: owned("Summary"),
            columns: 1,
            separate_links: true,
            visible: true,
            content: String::new(),
        }
    }
}

/// A section that the subject defines, under the key that names it.
#[derive(Debug, Clone)]
pub struct CustomSection {
    pub key: String,
    pub section: Section<CustomItem>,
}

/// The sections that the subject defines, in the order in which they were
/// put in. No key occurs twice.
#[derive(Debug, Clone)]
pub struct CustomSections {
    pub entries: Vec<CustomSection>,
}

impl CustomSections {
    /// No key occurs twice.
    pub open spec fn wf(self) -> bool {
        forall|i: int, j: int|
            0 <= i < j < self.entries@.len() ==> self.entries@[i].key@ != self.entries@[j].key@
    }

    /// Whether some entry has the key.
    pub open spec fn has(self, key: Seq<char>) -> bool {
        exists|i: int| 0 <= i < self.entries@.len() && #[trigger] self.entries@[i].key@ == key
    }

    /// No sections.
    pub fn new() -> (r: CustomSections)
        ensures
            r.entries@.len() == 0,
            r.wf(),
    {
        CustomSections { entries: Vec::new() }
    }

    pub fn len(&self) -> (r: usize)
        ensures
            r == self.entries@.len(),
    {
        self.entries.len()
    }

    pub fn is_empty(&self) -> (r: bool)
        ensures
            r == (self.entries@.len() == 0),
    {
        self.entries.len() == 0
    }

    /// The place of the entry with the key.
    pub fn position(&self, key: &str) -> (r: Option<usize>)
        ensures
            match r {
                Some(i) => i < self.entries@.len() && self.entries@[i as int].key@ == key@
                    && forall|j: int| 0 <= j < i ==> self.entries@[j].key@ != key@,
                None => !self.has(key@),
            },
    {
        let mut i: usize = 0;
        while i < self.entries.len()
            invariant
                i <= self.entries@.len(),
                forall|j: int| 0 <= j < i ==> self.entries@[j].key@ != key@,
            decreases self.entries@.len() - i,
        {
            if same_text(self.entries[i].key.as_str(), key) {
                return Some(i);
            }
            i += 1;
        }
        None
    }

    /// The section under the key.
    pub fn get(&self, key: &str) -> (r: Option<&Section<CustomItem>>)
        ensures
            r is Some <==> self.has(key@),
            r matches Some(s) ==> exists|i: int|
                0 <= i < self.entries@.len() && #[trigger] self.entries@[i].key@ == key@
                    && *s == self.entries@[i].section,
    {
        match self.position(key) {
            Some(i) => Some(&self.entries[i].section),
            None => None,
        }
    }

    /// Puts `section` under `key`: in the place of the section that the key
    /// had, or after all the others where it had none.
    pub fn insert(&mut self, key: &str, section: Section<CustomItem>)
        requires
            old(self).wf(),
        ensures
            final(self).wf(),
            final(self).has(key@),
            old(self).has(key@) ==> final(self).entries@.len() == old(self).entries@.len(),
            !old(self).has(key@) ==> final(self).entries@.len() == old(self).entries@.len() + 1,
            forall|i: int|
                0 <= i < final(self).entries@.len() ==> (#[trigger] final(self).entries@[i]).key@
                    == key@ ==> final(self).entries@[i].section == section,
            forall|i: int|
                0 <= i < old(self).entries@.len() ==> (#[trigger] old(self).entries@[i]).key@
                    != key@ ==> final(self).entries@[i] == old(self).entries@[i],
    {
        match self.position(key) {
            Some(i) => {
                let entry = CustomSection { key: owned(key), section };
                self.entries.set(i, entry);
                assert(final(self).entries@[i as int].key@ == key@);
            },
            None => {
                let entry = CustomSection { key: owned(key), section };
                self.entries.push(entry);
                assert(final(self).entries@[old(self).entries@.len() as int].key@ == key@);
            },
        }
    }
}

/// All the sections of a document.
#[derive(Debug, Clone)]
pub struct Sections {
    pub summary: SummarySection,
    pub experience: Section<Experience>,
    pub education: Section<Education>,
    pub skills: Section<Skill>,
    pub projects: Section<Project>,
    pub profiles: Section<Profile>,
    pub awards: Section<Award>,
    pub certifications: Section<Certification>,
    pub publications: Section<Publication>,
    pub languages: Section<Language>,
    pub interests: Section<Interest>,
    pub volunteer: Section<Volunteer>,
    pub references: Section<Reference>,
    pub custom: CustomSections,
}

impl Sections {
    /// Whether no section holds anything: no summary, no item, no section
    /// of the subject's own.
    pub open spec fn is_blank(self) -> bool {
        &&& self.summary.content@.len() == 0
        &&& self.experience.items@.len() == 0
        &&& self.education.items@.len() == 0
        &&& self.skills.items@.len() == 0
        &&& self.projects.items@.len() == 0
        &&& self.profiles.items@.len() == 0
        &&& self.awards.items@.len() == 0
        &&& self.certifications.items@.len() == 0
        &&& self.publications.items@.len() == 0
        &&& self.languages.items@.len() == 0
        &&& self.interests.items@.len() == 0
        &&& self.volunteer.items@.len() == 0
        &&& self.references.items@.len() == 0
        &&& self.custom.entries@.len() == 0
    }

    /// Whether the sections for awards, publications, interests, voluntary
    /// work and references are as they are made: empty, without identifier
    /// or name.
    pub open spec fn unnamed_rest(self) -> bool {
        &&& self.awards.plain() && self.awards.id@.len() == 0 && self.awards.name@.len() == 0
            && self.awards.items@.len() == 0
        &&& self.publications.plain() && self.publications.id@.len() == 0
            && self.publications.name@.len() == 0 && self.publications.items@.len() == 0
        &&& self.interests.plain() && self.interests.id@.len() == 0 && self.interests.name@.len()
            == 0 && self.interests.items@.len() == 0
        &&& self.volunteer.plain() && self.volunteer.id@.len() == 0 && self.volunteer.name@.len()
            == 0 && self.volunteer.items@.len() == 0
        &&& self.references.plain() && self.references.id@.len() == 0
            && self.references.name@.len() == 0 && self.references.items@.len() == 0
    }

    /// Whether each collection's own fields are those of a section made
    /// without identifier or name.
    pub open spec fn unnamed(self) -> bool {
        &&& self.summary.plain()
        &&& self.experience.plain() && self.experience.id@.len() == 0 && self.experience.name@.len() == 0
        &&& self.education.plain() && self.education.id@.len() == 0 && self.education.name@.len() == 0
        &&& self.skills.plain() && self.skills.id@.len() == 0 && self.skills.name@.len() == 0
        &&& self.projects.plain() && self.projects.id@.len() == 0 && self.projects.name@.len() == 0
        &&& self.profiles.plain() && self.profiles.id@.len() == 0 && self.profiles.name@.len() == 0
        &&& self.awards.plain() && self.awards.id@.len() == 0 && self.awards.name@.len() == 0
        &&& self.certifications.plain() && self.certifications.id@.len() == 0
            && self.certifications.name@.len() == 0
        &&& self.publications.plain() && self.publications.id@.len() == 0
            && self.publications.name@.len() == 0
        &&& self.languages.plain() && self.languages.id@.len() == 0 && self.languages.name@.len() == 0
        &&& self.interests.plain() && self.interests.id@.len() == 0 && self.interests.name@.len() == 0
        &&& self.volunteer.plain() && self.volunteer.id@.len() == 0 && self.volunteer.name@.len() == 0
        &&& self.references.plain() && self.references.id@.len() == 0
            && self.references.name@.len() == 0
    }
}

impl Default for Sections {
    fn default() -> (r: Sections)
        ensures
            r.is_blank(),
            r.unnamed(),
            r.custom.wf(),
    {
        Sections {
            summary: SummarySection::default(),
            experience: Section::default(),
            education: Section::default(),
            skills: Section::default(),
            projects: Section::default(),
            profiles: Section::default(),
            awards: Section::default(),
            certifications: Section::default(),
            publications: Section::default(),
            languages: Section::default(),
            interests: Section::default(),
            volunteer: Section::default(),
            references: Section::default(),
            custom: CustomSections::new(),
        }
    }
}

} // verus!
