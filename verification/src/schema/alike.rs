//! Documents compared without regard to identifiers.

use vstd::prelude::*;
use crate::schema::basics::Basics;
use crate::schema::items::{all_alike, Content};
use crate::schema::metadata::Metadata;
use crate::schema::resume::ResumeData;
use crate::schema::sections::{CustomSection, CustomSections, Section, Sections, SummarySection};

verus! {

impl<T: Content> Content for Section<T> {
    /// The sections agree in their own fields, and their items in all but
    /// identifiers.
    open spec fn alike(self, other: Section<T>) -> bool {
        &&& self.id@ == other.id@
        &&& self.name@ == other.name@
        &&& self.columns == other.columns
        &&& self.separate_links == other.separate_links
        &&& self.visible == other.visible
        &&& all_alike(self.items@, other.items@)
    }
}

impl Content for SummarySection {
    open spec fn alike(self, other: SummarySection) -> bool {
        self.same(other)
    }
}

impl Content for CustomSection {
    open spec fn alike(self, other: CustomSection) -> bool {
        self.key@ == other.key@ && self.section.alike(other.section)
    }
}

impl Content for CustomSections {
    open spec fn alike(self, other: CustomSections) -> bool {
        all_alike(self.entries@, other.entries@)
    }
}

impl Content for Sections {
    open spec fn alike(self, other: Sections) -> bool {
        &&& self.summary.alike(other.summary)
        &&& self.experience.alike(other.experience)
        &&& self.education.alike(other.education)
        &&& self.skills.alike(other.skills)
        &&& self.projects.alike(other.projects)
        &&& self.profiles.alike(other.profiles)
        &&& self.awards.alike(other.awards)
        &&& self.certifications.alike(other.certifications)
        &&& self.publications.alike(other.publications)
        &&& self.languages.alike(other.languages)
        &&& self.interests.alike(other.interests)
        &&& self.volunteer.alike(other.volunteer)
        &&& self.references.alike(other.references)
        &&& self.custom.alike(other.custom)
    }
}

impl Content for Basics {
    /// The basics agree in every field; their custom fields in all but
    /// identifiers.
    open spec fn alike(self, other: Basics) -> bool {
        &&& self.name@ == other.name@
        &&& self.headline@ == other.headline@
        &&& self.email@ == other.email@
        &&& self.phone@ == other.phone@
        &&& self.location@ == other.location@
        &&& self.url.same(other.url)
        &&& all_alike(self.custom_fields@, other.custom_fields@)
        &&& self.picture.same(other.picture)
    }
}

impl Content for Metadata {
    open spec fn alike(self, other: Metadata) -> bool {
        self.same(other)
    }
}

impl Content for ResumeData {
    /// The documents agree in all but the identifiers of their items and
    /// custom fields.
    open spec fn alike(self, other: ResumeData) -> bool {
        &&& self.basics.alike(other.basics)
        &&& self.sections.alike(other.sections)
        &&& self.metadata.alike(other.metadata)
    }
}

/// Two documents with the presentation that stands where none is set have
/// the same presentation.
pub proof fn lemma_default_metadata_same(a: Metadata, b: Metadata)
    requires
        a.is_default(),
        b.is_default(),
    ensures
        a.same(b),
{
    assert(a.css.value@ =~= b.css.value@);
    assert(a.notes@ =~= b.notes@);
}

} // verus!
