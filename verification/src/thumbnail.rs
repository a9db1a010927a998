//! Thumbnails of the templates: the sample that is rendered, and the cache
//! of what was rendered.

use vstd::prelude::*;
use crate::render::engine::{get_template_theme, has_template, is_template, theme_of};
use crate::schema::items::{Education, Experience, Profile, Skill};
use crate::schema::resume::ResumeData;
use crate::schema::sections::SummarySection;
use crate::schema::shared::Url;
use crate::text::{owned, same_text};
use crate::utils::id::id_shaped;

verus! {

/// Whether the item is the position of the sample at that company.
pub open spec fn sample_position(
    e: Experience,
    company: Seq<char>,
    position: Seq<char>,
    location: Seq<char>,
    date: Seq<char>,
    summary: Seq<char>,
) -> bool {
    &&& id_shaped(e.id@)
    &&& e.visible
    &&& e.company@ == company
    &&& e.position@ == position
    &&& e.location@ == location
    &&& e.date@ == date
    &&& e.summary@ == summary
    &&& e.url.label@.len() == 0
    &&& e.url.href@.len() == 0
}

/// Whether the item is the skill of the sample of that name and level.
pub open spec fn sample_skill(s: Skill, name: Seq<char>, level: u8) -> bool {
    &&& id_shaped(s.id@)
    &&& s.visible
    &&& s.name@ == name
    &&& s.description@.len() == 0
    &&& s.level == level
    &&& s.keywords@.len() == 0
}

/// Whether the item is the profile of the sample on that network.
pub open spec fn sample_profile(p: Profile, network: Seq<char>, url: Seq<char>) -> bool {
    &&& id_shaped(p.id@)
    &&& p.visible
    &&& p.network@ == network
    &&& p.username@ == "johndoe"@
    &&& p.icon@ == crate::text::lowercase(network)
    &&& p.url.label@.len() == 0
    &&& p.url.href@ == url
}

/// Whether the document is the sample that stands for a résumé in a
/// thumbnail: a software engineer by the name of John Doe, with a summary,
/// two positions, a course of study, four skills and two profiles. All of
/// it is fixed but the identifiers of the items.
pub open spec fn is_sample(doc: ResumeData) -> bool {
    let b = doc.basics;
    let s = doc.sections;
    &&& b.name@ == "John Doe"@
    &&& b.headline@ == "Senior Software Engineer"@
    &&& b.email@ == "john@example.com"@
    &&& b.phone@ == "+1 (555) 123-4567"@
    &&& b.location@ == "San Francisco, CA"@
    &&& b.url.label@ == "Portfolio"@
    &&& b.url.href@ == "https://johndoe.dev"@
    &&& b.custom_fields@.len() == 0
    &&& b.picture.url@.len() == 0
    &&& b.picture.plain()
    &&& s.summary.plain()
    &&& s.summary.content@
        == "Experienced software engineer with 8+ years building scalable web applications. Expert in React, TypeScript, and cloud architecture. Led teams of 5-10 engineers."@
    &&& s.experience.items@.len() == 2
    &&& sample_position(
        s.experience.items@[0],
        "TechCorp Inc."@,
        "Senior Software Engineer"@,
        "San Francisco, CA"@,
        "2020 - Present"@,
        "Lead development of core platform serving 2M+ daily active users. Architected microservices reducing latency by 40%."@,
    )
    &&& sample_position(
        s.experience.items@[1],
        "StartupXYZ"@,
        "Software Engineer"@,
        "Remote"@,
        "2017 - 2020"@,
        "Built real-time collaboration features from scratch. Implemented CI/CD pipelines reducing deployment time by 70%."@,
    )
    &&& s.education.items@.len() == 1
    &&& ({
        let e = s.education.items@[0];
        &&& id_shaped(e.id@)
        &&& e.visible
        &&& e.institution@ == "Stanford University"@
        &&& e.area@ == "Computer Science"@
        &&& e.study_type@ == "Bachelor of Science"@
        &&& e.date@ == "2013 - 2017"@
        &&& e.score@ == "GPA: 3.9/4.0"@
        &&& e.summary@.len() == 0
        &&& e.url.label@.len() == 0
        &&& e.url.href@.len() == 0
    })
    &&& s.skills.items@.len() == 4
    &&& sample_skill(s.skills.items@[0], "TypeScript / JavaScript"@, 5)
    &&& sample_skill(s.skills.items@[1], "React / Next.js"@, 5)
    &&& sample_skill(s.skills.items@[2], "Node.js / Python"@, 4)
    &&& sample_skill(s.skills.items@[3], "PostgreSQL / Redis"@, 4)
    &&& s.profiles.items@.len() == 2
    &&& sample_profile(s.profiles.items@[0], "GitHub"@, "https://github.com/johndoe"@)
    &&& sample_profile(s.profiles.items@[1], "LinkedIn"@, "https://linkedin.com/in/johndoe"@)
    &&& s.projects.items@.len() == 0
    &&& s.awards.items@.len() == 0
    &&& s.certifications.items@.len() == 0
    &&& s.publications.items@.len() == 0
    &&& s.languages.items@.len() == 0
    &&& s.interests.items@.len() == 0
    &&& s.volunteer.items@.len() == 0
    &&& s.references.items@.len() == 0
    &&& s.custom.entries@.len() == 0
    &&& s.unnamed()
}

fn held_position(company: &str, title: &str, location: &str, date: &str, summary: &str) -> (r:
    Experience)
    ensures
        sample_position(r, company@, title@, location@, date@, summary@),
{
    let mut e = Experience::new(company, title);
    e.location = owned(location);
    e.date = owned(date);
    e.summary = owned(summary);
    e
}

fn skill(name: &str, level: u8) -> (r: Skill)
    requires
        level <= 5,
    ensures
        sample_skill(r, name@, level),
{
    Skill::new(name).with_level(level)
}

fn profile(network: &str, url: &str) -> (r: Profile)
    ensures
        sample_profile(r, network@, url@),
{
    Profile::new(network, "johndoe").with_url(url)
}

/// The sample that stands for a résumé in a thumbnail, with the
/// presentation that stands where none is set.
pub fn create_sample_resume() -> (doc: ResumeData)
    ensures
        is_sample(doc),
        doc.metadata.is_default(),
{
    let mut doc = ResumeData::new();
    doc.basics.name = owned("John Doe");
    doc.basics.headline = owned("Senior Software Engineer");
    doc.basics.email = owned("john@example.com");
    doc.basics.phone = owned("+1 (555) 123-4567");
    doc.basics.location = owned("San Francisco, CA");
    doc.basics.url = Url::with_label("Portfolio", "https://johndoe.dev");
    doc.sections.summary = SummarySection::new(
        "Experienced software engineer with 8+ years building scalable web applications. Expert in React, TypeScript, and cloud architecture. Led teams of 5-10 engineers.",
    );
    doc.sections.experience.add_item(
        held_position(
            "TechCorp Inc.",
            "Senior Software Engineer",
            "San Francisco, CA",
            "2020 - Present",
            "Lead development of core platform serving 2M+ daily active users. Architected microservices reducing latency by 40%.",
        ),
    );
    doc.sections.experience.add_item(
        held_position(
            "StartupXYZ",
            "Software Engineer",
            "Remote",
            "2017 - 2020",
            "Built real-time collaboration features from scratch. Implemented CI/CD pipelines reducing deployment time by 70%.",
        ),
    );
    let mut study = Education::new("Stanford University", "Computer Science");
    study.study_type = owned("Bachelor of Science");
    study.date = owned("2013 - 2017");
    study.score = owned("GPA: 3.9/4.0");
    doc.sections.education.add_item(study);
    doc.sections.skills.add_item(skill("TypeScript / JavaScript", 5));
    doc.sections.skills.add_item(skill("React / Next.js", 5));
    doc.sections.skills.add_item(skill("Node.js / Python", 4));
    doc.sections.skills.add_item(skill("PostgreSQL / Redis", 4));
    doc.sections.profiles.add_item(profile("GitHub", "https://github.com/johndoe"));
    doc.sections.profiles.add_item(profile("LinkedIn", "https://linkedin.com/in/johndoe"));
    doc
}

/// The document that is rendered for the thumbnail of a template: the
/// sample, with that template and the template's own colours.
pub fn thumbnail_document(slug: &str) -> (doc: ResumeData)
    ensures
        is_sample(doc),
        doc.metadata.template@ == slug@,
        (doc.metadata.theme.background@, doc.metadata.theme.text@, doc.metadata.theme.primary@)
            == theme_of(slug@),
        doc.metadata.page.margin == 18,
        doc.metadata.typography.font.size == 14,
{
    let mut doc = create_sample_resume();
    doc.metadata.template = owned(slug);
    let theme = get_template_theme(slug);
    doc.metadata.theme.primary = theme.primary;
    doc.metadata.theme.text = theme.text;
    doc.metadata.theme.background = theme.background;
    doc
}

/// A thumbnail that was rendered, under the name of its template.
#[derive(Debug, Clone)]
pub struct Thumbnail {
    pub slug: String,
    pub png: Vec<u8>,
}

/// The thumbnails that were rendered. A template has one thumbnail at
/// most: the one that was stored last.
#[derive(Debug, Clone)]
pub struct ThumbnailCache {
    pub entries: Vec<Thumbnail>,
}

/// What is to be done for the thumbnail of a template.
#[derive(Debug, Clone)]
pub enum ThumbnailStep {
    /// The catalogue has no such template.
    NotFound,
    /// The thumbnail was rendered before: here it is.
    Cached(Vec<u8>),
    /// Render the first page of this document, and store what comes of it.
    Render(ResumeData),
}

impl ThumbnailCache {
    /// No template has two thumbnails.
    pub open spec fn wf(self) -> bool {
        forall|i: int, j: int|
            0 <= i < j < self.entries@.len() ==> self.entries@[i].slug@ != self.entries@[j].slug@
    }

    /// The thumbnail that is held for a template.
    pub open spec fn held(self, slug: Seq<char>) -> Option<Seq<u8>> {
        if exists|i: int| 0 <= i < self.entries@.len() && #[trigger] self.entries@[i].slug@ == slug {
            let i = choose|i: int|
                0 <= i < self.entries@.len() && #[trigger] self.entries@[i].slug@ == slug;
            Some(self.entries@[i].png@)
        } else {
            None
        }
    }

    /// A cache that holds nothing.
    pub fn new() -> (r: ThumbnailCache)
        ensures
            r.wf(),
            r.entries@.len() == 0,
    {
        ThumbnailCache { entries: Vec::new() }
    }

    fn position(&self, slug: &str) -> (r: Option<usize>)
        ensures
            match r {
                Some(i) => i < self.entries@.len() && self.entries@[i as int].slug@ == slug@,
                None => forall|i: int|
                    0 <= i < self.entries@.len() ==> (#[trigger] self.entries@[i]).slug@ != slug@,
            },
    {
        let mut i: usize = 0;
        while i < self.entries.len()
            invariant
                i <= self.entries@.len(),
                forall|k: int| 0 <= k < i ==> (#[trigger] self.entries@[k]).slug@ != slug@,
            decreases self.entries@.len() - i,
        {
            if same_text(self.entries[i].slug.as_str(), slug) {
                return Some(i);
            }
            i += 1;
        }
        None
    }

    /// The thumbnail that is held for a template.
    pub fn get(&self, slug: &str) -> (r: Option<&Vec<u8>>)
        requires
            self.wf(),
        ensures
            match r {
                Some(png) => self.held(slug@) == Some(png@),
                None => self.held(slug@) is None,
            },
    {
        match self.position(slug) {
            Some(i) => {
                proof {
                    let k = choose|k: int|
                        0 <= k < self.entries@.len() && #[trigger] self.entries@[k].slug@ == slug@;
                    assert(k == i);
                }
                Some(&self.entries[i].png)
            },
            None => None,
        }
    }

    /// Stores a thumbnail for a template, in the place of the one that was
    /// held for it, if one was. What is held for other templates stays.
    pub fn insert(&mut self, slug: &str, png: Vec<u8>)
        requires
            old(self).wf(),
        ensures
            final(self).wf(),
            final(self).held(slug@) == Some(png@),
            forall|other: Seq<char>|
                other != slug@ ==> final(self).held(other) == old(self).held(other),
    {
        let ghost before = *self;
        match self.position(slug) {
            Some(i) => {
                self.entries.set(i, Thumbnail { slug: owned(slug), png });
                proof {
                    assert(self.entries@[i as int].slug@ == slug@);
                    let k = choose|k: int|
                        0 <= k < self.entries@.len() && #[trigger] self.entries@[k].slug@ == slug@;
                    assert(k == i);
                    assert forall|other: Seq<char>| other != slug@ implies self.held(other)
                        == before.held(other) by {
                        lemma_held_same(before, *self, other, i as int);
                    }
                }
            },
            None => {
                self.entries.push(Thumbnail { slug: owned(slug), png });
                proof {
                    let n = before.entries@.len() as int;
                    assert(self.entries@[n].slug@ == slug@);
                    let k = choose|k: int|
                        0 <= k < self.entries@.len() && #[trigger] self.entries@[k].slug@ == slug@;
                    assert(k == n);
                    assert forall|other: Seq<char>| other != slug@ implies self.held(other)
                        == before.held(other) by {
                        lemma_held_more(before, *self, other);
                    }
                }
            },
        }
    }

    /// What is to be done for the thumbnail of a template: nothing for a
    /// name that the catalogue lacks; the thumbnail that is held, where one
    /// is; else the document to render.
    pub fn step(&self, slug: &str) -> (r: ThumbnailStep)
        requires
            self.wf(),
        ensures
            match r {
                ThumbnailStep::NotFound => !is_template(slug@),
                ThumbnailStep::Cached(png) => is_template(slug@) && self.held(slug@) == Some(png@),
                ThumbnailStep::Render(doc) => is_template(slug@) && self.held(slug@) is None
                    && is_sample(doc) && doc.metadata.template@ == slug@ && (
                    doc.metadata.theme.background@,
                    doc.metadata.theme.text@,
                    doc.metadata.theme.primary@,
                ) == theme_of(slug@),
            },
    {
        if !has_template(slug) {
            return ThumbnailStep::NotFound;
        }
        match self.get(slug) {
            Some(png) => {
                let copy = png.clone();
                assert(copy@ =~= png@);
                ThumbnailStep::Cached(copy)
            },
            None => ThumbnailStep::Render(thumbnail_document(slug)),
        }
    }
}

proof fn lemma_held_same(a: ThumbnailCache, b: ThumbnailCache, other: Seq<char>, at: int)
    requires
        a.wf(),
        b.wf(),
        0 <= at < a.entries@.len(),
        a.entries@.len() == b.entries@.len(),
        a.entries@[at].slug@ != other,
        b.entries@[at].slug@ != other,
        forall|i: int| 0 <= i < a.entries@.len() && i != at ==> a.entries@[i] == b.entries@[i],
    ensures
        a.held(other) == b.held(other),
{
    if exists|i: int| 0 <= i < a.entries@.len() && #[trigger] a.entries@[i].slug@ == other {
        let i = choose|i: int| 0 <= i < a.entries@.len() && #[trigger] a.entries@[i].slug@ == other;
        assert(b.entries@[i].slug@ == other);
        let j = choose|j: int| 0 <= j < b.entries@.len() && #[trigger] b.entries@[j].slug@ == other;
        assert(i == j);
    } else {
        if exists|j: int| 0 <= j < b.entries@.len() && #[trigger] b.entries@[j].slug@ == other {
            let j = choose|j: int|
                0 <= j < b.entries@.len() && #[trigger] b.entries@[j].slug@ == other;
            assert(a.entries@[j].slug@ == other);
        }
    }
}

proof fn lemma_held_more(a: ThumbnailCache, b: ThumbnailCache, other: Seq<char>)
    requires
        a.wf(),
        b.wf(),
        b.entries@.len() == a.entries@.len() + 1,
        b.entries@.last().slug@ != other,
        forall|i: int| 0 <= i < a.entries@.len() ==> a.entries@[i] == b.entries@[i],
    ensures
        a.held(other) == b.held(other),
{
    if exists|i: int| 0 <= i < a.entries@.len() && #[trigger] a.entries@[i].slug@ == other {
        let i = choose|i: int| 0 <= i < a.entries@.len() && #[trigger] a.entries@[i].slug@ == other;
        assert(b.entries@[i].slug@ == other);
        let j = choose|j: int| 0 <= j < b.entries@.len() && #[trigger] b.entries@[j].slug@ == other;
        assert(i == j);
    } else {
        if exists|j: int| 0 <= j < b.entries@.len() && #[trigger] b.entries@[j].slug@ == other {
            let j = choose|j: int|
                0 <= j < b.entries@.len() && #[trigger] b.entries@[j].slug@ == other;
            assert(j < a.entries@.len());
            assert(a.entries@[j].slug@ == other);
        }
    }
}

} // verus!
