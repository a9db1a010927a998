//! Rich text in a document: the fields that carry HTML, and the copy of
//! the document in which each of them is markup for the engine.

use vstd::prelude::*;
use crate::schema::items::{
    Award, Certification, CustomItem, Education, Experience, Interest, Language, Profile, Project,
    Publication, Reference, Skill, Volunteer,
};
use crate::schema::resume::ResumeData;
use crate::schema::sections::{CustomSection, CustomSections, Section, Sections, SummarySection};
use crate::text::texts;
use crate::utils::html_to_typst::{html_to_typst, typst_of};
use crate::utils::sanitize::{sanitize_html, sanitized};

verus! {

/// The markup of a rich text: nothing for an empty one, else the markup
/// that the text, made safe, becomes.
pub open spec fn field_markup(html: Seq<char>) -> Seq<char> {
    if html.len() == 0 {
        Seq::empty()
    } else {
        typst_of(sanitized(html))
    }
}

/// Makes a rich text safe and turns it into markup.
pub fn convert_field(html: &str) -> (r: String)
    ensures
        r@ == field_markup(html@),
{
    if html.is_empty() {
        return String::new();
    }
    let safe = sanitize_html(html);
    html_to_typst(safe.as_str())
}

/// A value that may hold rich text.
pub trait RichText: Sized {
    /// Whether `r` is the value with each rich text as markup and all
    /// else as it is.
    spec fn processed_as(self, r: Self) -> bool;

    /// A copy of the value with each rich text as markup.
    fn preprocess(&self) -> (r: Self)
        ensures
            self.processed_as(r),
    ;
}

impl RichText for Experience {
    /// Only the summary is rich text.
    open spec fn processed_as(self, r: Experience) -> bool {
        &&& r.id@ == self.id@
        &&& r.visible == self.visible
        &&& r.company@ == self.company@
        &&& r.position@ == self.position@
        &&& r.location@ == self.location@
        &&& r.date@ == self.date@
        &&& r.summary@ == field_markup(self.summary@)
        &&& r.url.same(self.url)
    }

    fn preprocess(&self) -> (r: Experience) {
        let mut r = self.copy();
        r.summary = convert_field(self.summary.as_str());
        r
    }
}

impl RichText for Education {
    /// Only the summary is rich text.
    open spec fn processed_as(self, r: Education) -> bool {
        &&& r.id@ == self.id@
        &&& r.visible == self.visible
        &&& r.institution@ == self.institution@
        &&& r.area@ == self.area@
        &&& r.study_type@ == self.study_type@
        &&& r.date@ == self.date@
        &&& r.score@ == self.score@
        &&& r.summary@ == field_markup(self.summary@)
        &&& r.url.same(self.url)
    }

    fn preprocess(&self) -> (r: Education) {
        let mut r = self.copy();
        r.summary = convert_field(self.summary.as_str());
        r
    }
}

impl RichText for Skill {
    /// Only the description is rich text.
    open spec fn processed_as(self, r: Skill) -> bool {
        &&& r.id@ == self.id@
        &&& r.visible == self.visible
        &&& r.name@ == self.name@
        &&& r.description@ == field_markup(self.description@)
        &&& r.level == self.level
        &&& texts(r.keywords@) == texts(self.keywords@)
    }

    fn preprocess(&self) -> (r: Skill) {
        let mut r = self.copy();
        r.description = convert_field(self.description.as_str());
        r
    }
}

impl RichText for Project {
    /// Only the summary and the description are rich text.
    open spec fn processed_as(self, r: Project) -> bool {
        &&& r.id@ == self.id@
        &&& r.visible == self.visible
        &&& r.name@ == self.name@
        &&& r.description@ == field_markup(self.description@)
        &&& r.date@ == self.date@
        &&& r.summary@ == field_markup(self.summary@)
        &&& texts(r.keywords@) == texts(self.keywords@)
        &&& r.url.same(self.url)
    }

    fn preprocess(&self) -> (r: Project) {
        let mut r = self.copy();
        r.summary = convert_field(self.summary.as_str());
        r.description = convert_field(self.description.as_str());
        r
    }
}

impl RichText for Profile {
    /// Nothing in the item is rich text.
    open spec fn processed_as(self, r: Profile) -> bool {
        &&& r.id@ == self.id@
        &&& r.visible == self.visible
        &&& r.network@ == self.network@
        &&& r.username@ == self.username@
        &&& r.icon@ == self.icon@
        &&& r.url.same(self.url)
    }

    fn preprocess(&self) -> (r: Profile) {
        let mut r = self.copy();
        r
    }
}

impl RichText for Award {
    /// Only the summary is rich text.
    open spec fn processed_as(self, r: Award) -> bool {
        &&& r.id@ == self.id@
        &&& r.visible == self.visible
        &&& r.title@ == self.title@
        &&& r.awarder@ == self.awarder@
        &&& r.date@ == self.date@
        &&& r.summary@ == field_markup(self.summary@)
        &&& r.url.same(self.url)
    }

    fn preprocess(&self) -> (r: Award) {
        let mut r = self.copy();
        r.summary = convert_field(self.summary.as_str());
        r
    }
}

impl RichText for Certification {
    /// Only the summary is rich text.
    open spec fn processed_as(self, r: Certification) -> bool {
        &&& r.id@ == self.id@
        &&& r.visible == self.visible
        &&& r.name@ == self.name@
        &&& r.issuer@ == self.issuer@
        &&& r.date@ == self.date@
        &&& r.summary@ == field_markup(self.summary@)
        &&& r.url.same(self.url)
    }

    fn preprocess(&self) -> (r: Certification) {
        let mut r = self.copy();
        r.summary = convert_field(self.summary.as_str());
        r
    }
}

impl RichText for Publication {
    /// Only the summary is rich text.
    open spec fn processed_as(self, r: Publication) -> bool {
        &&& r.id@ == self.id@
        &&& r.visible == self.visible
        &&& r.name@ == self.name@
        &&& r.publisher@ == self.publisher@
        &&& r.date@ == self.date@
        &&& r.summary@ == field_markup(self.summary@)
        &&& r.url.same(self.url)
    }

    fn preprocess(&self) -> (r: Publication) {
        let mut r = self.copy();
        r.summary = convert_field(self.summary.as_str());
        r
    }
}

impl RichText for Language {
    /// Only the description is rich text.
    open spec fn processed_as(self, r: Language) -> bool {
        &&& r.id@ == self.id@
        &&& r.visible == self.visible
        &&& r.name@ == self.name@
        &&& r.description@ == field_markup(self.description@)
        &&& r.level == self.level
    }

    fn preprocess(&self) -> (r: Language) {
        let mut r = self.copy();
        r.description = convert_field(self.description.as_str());
        r
    }
}

impl RichText for Interest {
    /// Nothing in the item is rich text.
    open spec fn processed_as(self, r: Interest) -> bool {
        &&& r.id@ == self.id@
        &&& r.visible == self.visible
        &&& r.name@ == self.name@
        &&& texts(r.keywords@) == texts(self.keywords@)
    }

    fn preprocess(&self) -> (r: Interest) {
        let mut r = self.copy();
        r
    }
}

impl RichText for Volunteer {
    /// Only the summary is rich text.
    open spec fn processed_as(self, r: Volunteer) -> bool {
        &&& r.id@ == self.id@
        &&& r.visible == self.visible
        &&& r.organization@ == self.organization@
        &&& r.position@ == self.position@
        &&& r.location@ == self.location@
        &&& r.date@ == self.date@
        &&& r.summary@ == field_markup(self.summary@)
        &&& r.url.same(self.url)
    }

    fn preprocess(&self) -> (r: Volunteer) {
        let mut r = self.copy();
        r.summary = convert_field(self.summary.as_str());
        r
    }
}

impl RichText for Reference {
    /// Only the summary and the description are rich text.
    open spec fn processed_as(self, r: Reference) -> bool {
        &&& r.id@ == self.id@
        &&& r.visible == self.visible
        &&& r.name@ == self.name@
        &&& r.description@ == field_markup(self.description@)
        &&& r.summary@ == field_markup(self.summary@)
        &&& r.url.same(self.url)
    }

    fn preprocess(&self) -> (r: Reference) {
        let mut r = self.copy();
        r.summary = convert_field(self.summary.as_str());
        r.description = convert_field(self.description.as_str());
        r
    }
}

impl RichText for CustomItem {
    /// Only the summary and the description are rich text.
    open spec fn processed_as(self, r: CustomItem) -> bool {
        &&& r.id@ == self.id@
        &&& r.visible == self.visible
        &&& r.name@ == self.name@
        &&& r.description@ == field_markup(self.description@)
        &&& r.date@ == self.date@
        &&& r.location@ == self.location@
        &&& r.summary@ == field_markup(self.summary@)
        &&& texts(r.keywords@) == texts(self.keywords@)
        &&& r.url.same(self.url)
    }

    fn preprocess(&self) -> (r: CustomItem) {
        let mut r = self.copy();
        r.summary = convert_field(self.summary.as_str());
        r.description = convert_field(self.description.as_str());
        r
    }
}

/// Whether the items are the given ones with each rich text as markup,
/// one for one and in order.
pub open spec fn all_processed<T: RichText>(items: Seq<T>, r: Seq<T>) -> bool {
    &&& r.len() == items.len()
    &&& forall|i: int| 0 <= i < items.len() ==> items[i].processed_as(#[trigger] r[i])
}

impl<T: RichText> RichText for Section<T> {
    /// The section's own fields hold no rich text; its items may.
    open spec fn processed_as(self, r: Section<T>) -> bool {
        &&& r.id@ == self.id@
        &&& r.name@ == self.name@
        &&& r.columns == self.columns
        &&& r.separate_links == self.separate_links
        &&& r.visible == self.visible
        &&& all_processed(self.items@, r.items@)
    }

    fn preprocess(&self) -> (r: Section<T>) {
        let mut items: Vec<T> = Vec::new();
        let mut i: usize = 0;
        while i < self.items.len()
            invariant
                i <= self.items@.len(),
                items@.len() == i,
                forall|k: int| 0 <= k < i ==> self.items@[k].processed_as(#[trigger] items@[k]),
            decreases self.items@.len() - i,
        {
            items.push(self.items[i].preprocess());
            i += 1;
        }
        Section {
            id: self.id.clone(),
            name: self.name.clone(),
            columns: self.columns,
            separate_links: self.separate_links,
            visible: self.visible,
            items,
        }
    }
}

impl RichText for SummarySection {
    /// The content is rich text.
    open spec fn processed_as(self, r: SummarySection) -> bool {
        &&& r.id@ == self.id@
        &&& r.name@ == self.name@
        &&& r.columns == self.columns
        &&& r.separate_links == self.separate_links
        &&& r.visible == self.visible
        &&& r.content@ == field_markup(self.content@)
    }

    fn preprocess(&self) -> (r: SummarySection) {
        let mut r = self.copy();
        r.content = convert_field(self.content.as_str());
        r
    }
}

impl RichText for CustomSection {
    open spec fn processed_as(self, r: CustomSection) -> bool {
        r.key@ == self.key@ && self.section.processed_as(r.section)
    }

    fn preprocess(&self) -> (r: CustomSection) {
        CustomSection { key: self.key.clone(), section: self.section.preprocess() }
    }
}

impl RichText for CustomSections {
    open spec fn processed_as(self, r: CustomSections) -> bool {
        all_processed(self.entries@, r.entries@)
    }

    fn preprocess(&self) -> (r: CustomSections) {
        let mut entries: Vec<CustomSection> = Vec::new();
        let mut i: usize = 0;
        while i < self.entries.len()
            invariant
                i <= self.entries@.len(),
                entries@.len() == i,
                forall|k: int|
                    0 <= k < i ==> self.entries@[k].processed_as(#[trigger] entries@[k]),
            decreases self.entries@.len() - i,
        {
            entries.push(self.entries[i].preprocess());
            i += 1;
        }
        CustomSections { entries }
    }
}

impl RichText for Sections {
    open spec fn processed_as(self, r: Sections) -> bool {
        &&& self.summary.processed_as(r.summary)
        &&& self.experience.processed_as(r.experience)
        &&& self.education.processed_as(r.education)
        &&& self.skills.processed_as(r.skills)
        &&& self.projects.processed_as(r.projects)
        &&& self.profiles.processed_as(r.profiles)
        &&& self.awards.processed_as(r.awards)
        &&& self.certifications.processed_as(r.certifications)
        &&& self.publications.processed_as(r.publications)
        &&& self.languages.processed_as(r.languages)
        &&& self.interests.processed_as(r.interests)
        &&& self.volunteer.processed_as(r.volunteer)
        &&& self.references.processed_as(r.references)
        &&& self.custom.processed_as(r.custom)
    }

    fn preprocess(&self) -> (r: Sections) {
        Sections {
            summary: self.summary.preprocess(),
            experience: self.experience.preprocess(),
            education: self.education.preprocess(),
            skills: self.skills.preprocess(),
            projects: self.projects.preprocess(),
            profiles: self.profiles.preprocess(),
            awards: self.awards.preprocess(),
            certifications: self.certifications.preprocess(),
            publications: self.publications.preprocess(),
            languages: self.languages.preprocess(),
            interests: self.interests.preprocess(),
            volunteer: self.volunteer.preprocess(),
            references: self.references.preprocess(),
            custom: self.custom.preprocess(),
        }
    }
}

impl RichText for ResumeData {
    /// The basics and the metadata hold no rich text; the sections do.
    open spec fn processed_as(self, r: ResumeData) -> bool {
        &&& r.basics.same(self.basics)
        &&& self.sections.processed_as(r.sections)
        &&& r.metadata.same(self.metadata)
    }

    fn preprocess(&self) -> (r: ResumeData) {
        ResumeData {
            basics: self.basics.copy(),
            sections: self.sections.preprocess(),
            metadata: self.metadata.copy(),
        }
    }
}

/// A copy of the document in which every rich text, and nothing else, is
/// markup for the engine.
pub fn preprocess_rich_text(resume: &ResumeData) -> (r: ResumeData)
    ensures
        resume.processed_as(r),
{
    resume.preprocess()
}

} // verus!
