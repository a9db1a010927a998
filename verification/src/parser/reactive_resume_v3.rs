//! The adapter for the predecessor format.
//!
//! The format has the sections of a document, so the adapter mostly
//! copies: an identifier that is given is kept, one that is missing is
//! drawn; what is absent takes its default.

use vstd::prelude::*;
use crate::json::{json_reading, read_json, Json};
use crate::parser::json_resume::text_of;
use crate::parser::reactive_resume_v3_shape::{
    V3Award, V3Basics, V3Certification, V3CustomField, V3CustomItem, V3Education, V3Experience,
    V3Interest, V3Language, V3Metadata, V3Picture, V3Profile, V3Project, V3Publication,
    V3Reference, V3Resume, V3Section, V3Sections, V3Skill, V3Url, V3Volunteer,
};
use crate::parser::traits::{convert_all, each_becomes, Entry, ParseError, Parser};
use crate::schema::basics::{Basics, Picture};
use crate::schema::decimal::Decimal;
use crate::schema::items::{
    Content, clamp_level, Award, Certification, CustomItem, Education, Experience, Interest,
    Language, Profile, Project, Publication, Reference, Skill, Volunteer,
};
use crate::schema::metadata::{
    copy_layout, default_variants, layout_names, CustomCss, FontConfig, Metadata, PageConfig,
    PageFormat, PageOptions, Theme, Typography,
};
use crate::schema::resume::ResumeData;
use crate::schema::sections::{CustomSection, CustomSections, Section, Sections, SummarySection};
use crate::schema::validation::Validate;
use crate::schema::shared::{CustomField, Url};
use crate::text::{
    ascii_lower, copy_texts, lowercase, owned, same_text, text_or_empty, texts, to_ascii_lower,
};
use crate::utils::id::{create_id, id_shaped};

verus! {

/// The adapter for the predecessor format.
pub struct ReactiveResumeV3Parser;

// ---------------------------------------------------------------------------
// What is kept and what is defaulted
// ---------------------------------------------------------------------------

/// Whether the identifier is the one that was given, or, where none was
/// given, has the shape of one that was drawn.
pub open spec fn id_kept(given: Option<String>, id: Seq<char>) -> bool {
    match given {
        Some(g) => id == g@,
        None => id_shaped(id),
    }
}

/// Visibility: shown, unless it is said not to be.
pub open spec fn shown(visible: Option<bool>) -> bool {
    match visible {
        Some(v) => v,
        None => true,
    }
}

/// A flag, or its default where it is not given.
pub fn flag_or(flag: Option<bool>, default: bool) -> (r: bool)
    ensures
        r == match flag {
            Some(v) => v,
            None => default,
        },
{
    match flag {
        Some(v) => v,
        None => default,
    }
}

/// An identifier that is given is kept; one that is missing is drawn.
pub fn keep_id(given: &Option<String>) -> (id: String)
    ensures
        id_kept(*given, id@),
{
    match given {
        Some(g) => g.clone(),
        None => create_id(),
    }
}

/// Whether the link is what the link of either form becomes: its address,
/// and its label, for which the address stands in where none is given. No
/// link gives an empty one.
pub open spec fn link_from(u: Option<V3Url>, r: Url) -> bool {
    match u {
        Some(u) => r.href@ == u.href() && r.label@ == u.label(),
        None => r.href@.len() == 0 && r.label@.len() == 0,
    }
}

/// The link made of one that is given as a text or as an object.
pub fn convert_link(u: &Option<V3Url>) -> (r: Url)
    ensures
        link_from(*u, r),
{
    match u {
        Some(u) => Url { label: u.to_label(), href: u.to_href() },
        None => Url::default(),
    }
}

/// A level that is given is held to the range 0 to 5; one that is missing
/// is 1.
pub open spec fn level_from(level: Option<u8>) -> u8 {
    match level {
        Some(l) => clamp_level(l),
        None => 1,
    }
}

/// The level of an item: the one that is given, held to the range 0 to 5,
/// or 1.
pub fn convert_level(level: Option<u8>) -> (r: u8)
    ensures
        r == level_from(level),
        r <= 5,
{
    match level {
        Some(l) => if l > 5 {
            5
        } else {
            l
        },
        None => 1,
    }
}

// ---------------------------------------------------------------------------
// Items
// ---------------------------------------------------------------------------

/// Whether `r` is the profile made of `x`.
pub open spec fn profile_from(x: V3Profile, r: Profile) -> bool {
    &&& id_kept(x.id, r.id@)
    &&& r.visible == shown(x.visible)
    &&& r.network@ == text_or_empty(x.network)
    &&& r.username@ == text_or_empty(x.username)
    &&& r.icon@ == match x.icon {
        Some(i) => i@,
        None => lowercase(text_or_empty(x.network)),
    }
    &&& link_from(x.url, r.url)
}

impl Entry<Profile> for V3Profile {
    open spec fn becomes(self, item: Profile) -> bool {
        profile_from(self, item)
    }

    proof fn lemma_becomes_alike(self, a: Profile, b: Profile) {
        assert(a.network@ =~= b.network@);
        assert(a.username@ =~= b.username@);
        assert(a.icon@ =~= b.icon@);
        assert(a.url.label@ =~= b.url.label@);
        assert(a.url.href@ =~= b.url.href@);
    }

    fn convert(&self) -> (item: Profile) {
        let mut r = Profile::new(text_of(&self.network).as_str(), text_of(&self.username).as_str());
        match &self.id {
            Some(id) => {
                r.id = id.clone();
            },
            None => {},
        }
        r.visible = flag_or(self.visible, true);
        match &self.icon {
            Some(icon) => {
                r.icon = icon.clone();
            },
            None => {},
        }
        r.url = convert_link(&self.url);
        r
    }
}

/// Whether `r` is the position made of `x`.
pub open spec fn experience_from(x: V3Experience, r: Experience) -> bool {
    &&& id_kept(x.id, r.id@)
    &&& r.visible == shown(x.visible)
    &&& r.company@ == text_or_empty(x.company)
    &&& r.position@ == text_or_empty(x.position)
    &&& r.location@ == text_or_empty(x.location)
    &&& r.date@ == text_or_empty(x.date)
    &&& r.summary@ == text_or_empty(x.summary)
    &&& link_from(x.url, r.url)
}

impl Entry<Experience> for V3Experience {
    open spec fn becomes(self, item: Experience) -> bool {
        experience_from(self, item)
    }

    proof fn lemma_becomes_alike(self, a: Experience, b: Experience) {
        assert(a.company@ =~= b.company@);
        assert(a.position@ =~= b.position@);
        assert(a.location@ =~= b.location@);
        assert(a.date@ =~= b.date@);
        assert(a.summary@ =~= b.summary@);
        assert(a.url.label@ =~= b.url.label@);
        assert(a.url.href@ =~= b.url.href@);
    }

    fn convert(&self) -> (item: Experience) {
        let mut r = Experience::new(text_of(&self.company).as_str(), text_of(&self.position).as_str());
        match &self.id {
            Some(id) => {
                r.id = id.clone();
            },
            None => {},
        }
        r.visible = flag_or(self.visible, true);
        r.location = text_of(&self.location);
        r.date = text_of(&self.date);
        r.summary = text_of(&self.summary);
        r.url = convert_link(&self.url);
        r
    }
}

/// Whether `r` is the course of study made of `x`.
pub open spec fn education_from(x: V3Education, r: Education) -> bool {
    &&& id_kept(x.id, r.id@)
    &&& r.visible == shown(x.visible)
    &&& r.institution@ == text_or_empty(x.institution)
    &&& r.area@ == text_or_empty(x.area)
    &&& r.study_type@ == text_or_empty(x.study_type)
    &&& r.score@ == text_or_empty(x.score)
    &&& r.date@ == text_or_empty(x.date)
    &&& r.summary@ == text_or_empty(x.summary)
    &&& r.url.label@.len() == 0
    &&& r.url.href@.len() == 0
}

impl Entry<Education> for V3Education {
    open spec fn becomes(self, item: Education) -> bool {
        education_from(self, item)
    }

    proof fn lemma_becomes_alike(self, a: Education, b: Education) {
        assert(a.institution@ =~= b.institution@);
        assert(a.area@ =~= b.area@);
        assert(a.study_type@ =~= b.study_type@);
        assert(a.date@ =~= b.date@);
        assert(a.score@ =~= b.score@);
        assert(a.summary@ =~= b.summary@);
        assert(a.url.label@ =~= b.url.label@);
        assert(a.url.href@ =~= b.url.href@);
    }

    fn convert(&self) -> (item: Education) {
        let mut r = Education::new(text_of(&self.institution).as_str(), text_of(&self.area).as_str());
        match &self.id {
            Some(id) => {
                r.id = id.clone();
            },
            None => {},
        }
        r.visible = flag_or(self.visible, true);
        r.study_type = text_of(&self.study_type);
        r.score = text_of(&self.score);
        r.date = text_of(&self.date);
        r.summary = text_of(&self.summary);
        r
    }
}

/// Whether `r` is the skill made of `x`.
pub open spec fn skill_from(x: V3Skill, r: Skill) -> bool {
    &&& id_kept(x.id, r.id@)
    &&& r.visible == shown(x.visible)
    &&& r.name@ == text_or_empty(x.name)
    &&& r.level == level_from(x.level)
    &&& r.description@ == text_or_empty(x.description)
    &&& texts(r.keywords@) == texts(x.keywords@)
}

impl Entry<Skill> for V3Skill {
    open spec fn becomes(self, item: Skill) -> bool {
        skill_from(self, item)
    }

    proof fn lemma_becomes_alike(self, a: Skill, b: Skill) {
        assert(a.name@ =~= b.name@);
        assert(a.description@ =~= b.description@);
        assert(texts(a.keywords@) =~= texts(b.keywords@));
    }

    fn convert(&self) -> (item: Skill) {
        let mut r = Skill::new(text_of(&self.name).as_str());
        match &self.id {
            Some(id) => {
                r.id = id.clone();
            },
            None => {},
        }
        r.visible = flag_or(self.visible, true);
        r.level = convert_level(self.level);
        r.description = text_of(&self.description);
        r.keywords = copy_texts(&self.keywords);
        r
    }
}

/// Whether `r` is the language made of `x`.
pub open spec fn language_from(x: V3Language, r: Language) -> bool {
    &&& id_kept(x.id, r.id@)
    &&& r.visible == shown(x.visible)
    &&& r.name@ == text_or_empty(x.name)
    &&& r.level == level_from(x.level)
    &&& r.description@ == text_or_empty(x.description)
}

impl Entry<Language> for V3Language {
    open spec fn becomes(self, item: Language) -> bool {
        language_from(self, item)
    }

    proof fn lemma_becomes_alike(self, a: Language, b: Language) {
        assert(a.name@ =~= b.name@);
        assert(a.description@ =~= b.description@);
    }

    fn convert(&self) -> (item: Language) {
        let mut r = Language::new(text_of(&self.name).as_str());
        match &self.id {
            Some(id) => {
                r.id = id.clone();
            },
            None => {},
        }
        r.visible = flag_or(self.visible, true);
        r.level = convert_level(self.level);
        r.description = text_of(&self.description);
        r
    }
}

/// Whether `r` is the award made of `x`.
pub open spec fn award_from(x: V3Award, r: Award) -> bool {
    &&& id_kept(x.id, r.id@)
    &&& r.visible == shown(x.visible)
    &&& r.title@ == text_or_empty(x.title)
    &&& r.awarder@ == text_or_empty(x.awarder)
    &&& r.date@ == text_or_empty(x.date)
    &&& r.summary@ == text_or_empty(x.summary)
    &&& link_from(x.url, r.url)
}

impl Entry<Award> for V3Award {
    open spec fn becomes(self, item: Award) -> bool {
        award_from(self, item)
    }

    proof fn lemma_becomes_alike(self, a: Award, b: Award) {
        assert(a.title@ =~= b.title@);
        assert(a.awarder@ =~= b.awarder@);
        assert(a.date@ =~= b.date@);
        assert(a.summary@ =~= b.summary@);
        assert(a.url.label@ =~= b.url.label@);
        assert(a.url.href@ =~= b.url.href@);
    }

    fn convert(&self) -> (item: Award) {
        let mut r = Award::new(text_of(&self.title).as_str());
        match &self.id {
            Some(id) => {
                r.id = id.clone();
            },
            None => {},
        }
        r.visible = flag_or(self.visible, true);
        r.awarder = text_of(&self.awarder);
        r.date = text_of(&self.date);
        r.summary = text_of(&self.summary);
        r.url = convert_link(&self.url);
        r
    }
}

/// Whether `r` is the certification made of `x`.
pub open spec fn certification_from(x: V3Certification, r: Certification) -> bool {
    &&& id_kept(x.id, r.id@)
    &&& r.visible == shown(x.visible)
    &&& r.name@ == text_or_empty(x.name)
    &&& r.issuer@ == text_or_empty(x.issuer)
    &&& r.date@ == text_or_empty(x.date)
    &&& link_from(x.url, r.url)
    &&& r.summary@ == text_or_empty(x.summary)
}

impl Entry<Certification> for V3Certification {
    open spec fn becomes(self, item: Certification) -> bool {
        certification_from(self, item)
    }

    proof fn lemma_becomes_alike(self, a: Certification, b: Certification) {
        assert(a.name@ =~= b.name@);
        assert(a.issuer@ =~= b.issuer@);
        assert(a.date@ =~= b.date@);
        assert(a.summary@ =~= b.summary@);
        assert(a.url.label@ =~= b.url.label@);
        assert(a.url.href@ =~= b.url.href@);
    }

    fn convert(&self) -> (item: Certification) {
        let mut r = Certification::new(text_of(&self.name).as_str(), text_of(&self.issuer).as_str());
        match &self.id {
            Some(id) => {
                r.id = id.clone();
            },
            None => {},
        }
        r.visible = flag_or(self.visible, true);
        r.date = text_of(&self.date);
        r.url = convert_link(&self.url);
        r.summary = text_of(&self.summary);
        r
    }
}

/// Whether `r` is the interest made of `x`.
pub open spec fn interest_from(x: V3Interest, r: Interest) -> bool {
    &&& id_kept(x.id, r.id@)
    &&& r.visible == shown(x.visible)
    &&& r.name@ == text_or_empty(x.name)
    &&& texts(r.keywords@) == texts(x.keywords@)
}

impl Entry<Interest> for V3Interest {
    open spec fn becomes(self, item: Interest) -> bool {
        interest_from(self, item)
    }

    proof fn lemma_becomes_alike(self, a: Interest, b: Interest) {
        assert(a.name@ =~= b.name@);
        assert(texts(a.keywords@) =~= texts(b.keywords@));
    }

    fn convert(&self) -> (item: Interest) {
        let mut r = Interest::new(text_of(&self.name).as_str());
        match &self.id {
            Some(id) => {
                r.id = id.clone();
            },
            None => {},
        }
        r.visible = flag_or(self.visible, true);
        r.keywords = copy_texts(&self.keywords);
        r
    }
}

/// Whether `r` is the project made of `x`.
pub open spec fn project_from(x: V3Project, r: Project) -> bool {
    &&& id_kept(x.id, r.id@)
    &&& r.visible == shown(x.visible)
    &&& r.name@ == text_or_empty(x.name)
    &&& r.description@ == text_or_empty(x.description)
    &&& r.date@ == text_or_empty(x.date)
    &&& r.summary@ == text_or_empty(x.summary)
    &&& texts(r.keywords@) == texts(x.keywords@)
    &&& link_from(x.url, r.url)
}

impl Entry<Project> for V3Project {
    open spec fn becomes(self, item: Project) -> bool {
        project_from(self, item)
    }

    proof fn lemma_becomes_alike(self, a: Project, b: Project) {
        assert(a.name@ =~= b.name@);
        assert(a.description@ =~= b.description@);
        assert(a.date@ =~= b.date@);
        assert(a.summary@ =~= b.summary@);
        assert(texts(a.keywords@) =~= texts(b.keywords@));
        assert(a.url.label@ =~= b.url.label@);
        assert(a.url.href@ =~= b.url.href@);
    }

    fn convert(&self) -> (item: Project) {
        let mut r = Project::new(text_of(&self.name).as_str());
        match &self.id {
            Some(id) => {
                r.id = id.clone();
            },
            None => {},
        }
        r.visible = flag_or(self.visible, true);
        r.description = text_of(&self.description);
        r.date = text_of(&self.date);
        r.summary = text_of(&self.summary);
        r.keywords = copy_texts(&self.keywords);
        r.url = convert_link(&self.url);
        r
    }
}

/// Whether `r` is the publication made of `x`.
pub open spec fn publication_from(x: V3Publication, r: Publication) -> bool {
    &&& id_kept(x.id, r.id@)
    &&& r.visible == shown(x.visible)
    &&& r.name@ == text_or_empty(x.name)
    &&& r.publisher@ == text_or_empty(x.publisher)
    &&& r.date@ == text_or_empty(x.date)
    &&& r.summary@ == text_or_empty(x.summary)
    &&& link_from(x.url, r.url)
}

impl Entry<Publication> for V3Publication {
    open spec fn becomes(self, item: Publication) -> bool {
        publication_from(self, item)
    }

    proof fn lemma_becomes_alike(self, a: Publication, b: Publication) {
        assert(a.name@ =~= b.name@);
        assert(a.publisher@ =~= b.publisher@);
        assert(a.date@ =~= b.date@);
        assert(a.summary@ =~= b.summary@);
        assert(a.url.label@ =~= b.url.label@);
        assert(a.url.href@ =~= b.url.href@);
    }

    fn convert(&self) -> (item: Publication) {
        let mut r = Publication::new(text_of(&self.name).as_str());
        match &self.id {
            Some(id) => {
                r.id = id.clone();
            },
            None => {},
        }
        r.visible = flag_or(self.visible, true);
        r.publisher = text_of(&self.publisher);
        r.date = text_of(&self.date);
        r.summary = text_of(&self.summary);
        r.url = convert_link(&self.url);
        r
    }
}

/// Whether `r` is the voluntary work made of `x`.
pub open spec fn volunteer_from(x: V3Volunteer, r: Volunteer) -> bool {
    &&& id_kept(x.id, r.id@)
    &&& r.visible == shown(x.visible)
    &&& r.organization@ == text_or_empty(x.organization)
    &&& r.position@ == text_or_empty(x.position)
    &&& r.location@ == text_or_empty(x.location)
    &&& r.date@ == text_or_empty(x.date)
    &&& r.summary@ == text_or_empty(x.summary)
    &&& link_from(x.url, r.url)
}

impl Entry<Volunteer> for V3Volunteer {
    open spec fn becomes(self, item: Volunteer) -> bool {
        volunteer_from(self, item)
    }

    proof fn lemma_becomes_alike(self, a: Volunteer, b: Volunteer) {
        assert(a.organization@ =~= b.organization@);
        assert(a.position@ =~= b.position@);
        assert(a.location@ =~= b.location@);
        assert(a.date@ =~= b.date@);
        assert(a.summary@ =~= b.summary@);
        assert(a.url.label@ =~= b.url.label@);
        assert(a.url.href@ =~= b.url.href@);
    }

    fn convert(&self) -> (item: Volunteer) {
        let mut r = Volunteer::new(text_of(&self.organization).as_str(), text_of(&self.position).as_str());
        match &self.id {
            Some(id) => {
                r.id = id.clone();
            },
            None => {},
        }
        r.visible = flag_or(self.visible, true);
        r.location = text_of(&self.location);
        r.date = text_of(&self.date);
        r.summary = text_of(&self.summary);
        r.url = convert_link(&self.url);
        r
    }
}

/// Whether `r` is the reference made of `x`.
pub open spec fn reference_from(x: V3Reference, r: Reference) -> bool {
    &&& id_kept(x.id, r.id@)
    &&& r.visible == shown(x.visible)
    &&& r.name@ == text_or_empty(x.name)
    &&& r.description@ == text_or_empty(x.description)
    &&& r.summary@ == text_or_empty(x.summary)
    &&& link_from(x.url, r.url)
}

impl Entry<Reference> for V3Reference {
    open spec fn becomes(self, item: Reference) -> bool {
        reference_from(self, item)
    }

    proof fn lemma_becomes_alike(self, a: Reference, b: Reference) {
        assert(a.name@ =~= b.name@);
        assert(a.description@ =~= b.description@);
        assert(a.summary@ =~= b.summary@);
        assert(a.url.label@ =~= b.url.label@);
        assert(a.url.href@ =~= b.url.href@);
    }

    fn convert(&self) -> (item: Reference) {
        let mut r = Reference::new(text_of(&self.name).as_str());
        match &self.id {
            Some(id) => {
                r.id = id.clone();
            },
            None => {},
        }
        r.visible = flag_or(self.visible, true);
        r.description = text_of(&self.description);
        r.summary = text_of(&self.summary);
        r.url = convert_link(&self.url);
        r
    }
}

/// Whether `r` is the item made of `x`.
pub open spec fn custom_item_from(x: V3CustomItem, r: CustomItem) -> bool {
    &&& id_kept(x.id, r.id@)
    &&& r.visible == shown(x.visible)
    &&& r.name@ == text_or_empty(x.title)
    &&& r.description@ == text_or_empty(x.subtitle)
    &&& r.date@ == text_or_empty(x.date)
    &&& r.location@ == text_or_empty(x.location)
    &&& r.summary@ == text_or_empty(x.summary)
    &&& texts(r.keywords@) == texts(x.keywords@)
    &&& link_from(x.url, r.url)
}

impl Entry<CustomItem> for V3CustomItem {
    open spec fn becomes(self, item: CustomItem) -> bool {
        custom_item_from(self, item)
    }

    proof fn lemma_becomes_alike(self, a: CustomItem, b: CustomItem) {
        assert(a.name@ =~= b.name@);
        assert(a.description@ =~= b.description@);
        assert(a.date@ =~= b.date@);
        assert(a.location@ =~= b.location@);
        assert(a.summary@ =~= b.summary@);
        assert(texts(a.keywords@) =~= texts(b.keywords@));
        assert(a.url.label@ =~= b.url.label@);
        assert(a.url.href@ =~= b.url.href@);
    }

    fn convert(&self) -> (item: CustomItem) {
        let mut r = CustomItem::new(text_of(&self.title).as_str());
        match &self.id {
            Some(id) => {
                r.id = id.clone();
            },
            None => {},
        }
        r.visible = flag_or(self.visible, true);
        r.description = text_of(&self.subtitle);
        r.date = text_of(&self.date);
        r.location = text_of(&self.location);
        r.summary = text_of(&self.summary);
        r.keywords = copy_texts(&self.keywords);
        r.url = convert_link(&self.url);
        r
    }
}

// ---------------------------------------------------------------------------
// Sections
// ---------------------------------------------------------------------------

/// A small count, or its default where it is not given.
pub open spec fn count_or(count: Option<u8>, default: u8) -> u8 {
    match count {
        Some(c) => c,
        None => default,
    }
}

/// A text, or its default where it is not given.
pub open spec fn text_or(text: Option<String>, default: Seq<char>) -> Seq<char> {
    match text {
        Some(t) => t@,
        None => default,
    }
}

/// The text, or the default where none is given.
pub fn text_or_default(text: &Option<String>, default: &str) -> (r: String)
    ensures
        r@ == text_or(*text, default@),
{
    match text {
        Some(t) => t.clone(),
        None => owned(default),
    }
}

/// Whether the section is what a section of the format becomes: its
/// identifier and name, or those it is known by where they are missing;
/// its number of columns as it is given, or one; links apart; shown unless
/// it is said not to be; one item for each of its items.
pub open spec fn section_from<A: Entry<B>, B: Content + Validate>(
    v3: V3Section<A>,
    section: Section<B>,
    id: Seq<char>,
    name: Seq<char>,
) -> bool {
    &&& section.id@ == text_or(v3.id, id)
    &&& section.name@ == text_or(v3.name, name)
    &&& section.columns == count_or(v3.columns, 1)
    &&& section.separate_links
    &&& section.visible == shown(v3.visible)
    &&& each_becomes(v3.items@, section.items@)
}

/// The section made of one of the résumé, item by item.
pub fn convert_section<A: Entry<B>, B: Content + Validate>(v3: &V3Section<A>, id: &str, name: &str) -> (r: Section<B>)
    ensures
        section_from(*v3, r, id@, name@),
{
    Section {
        id: text_or_default(&v3.id, id),
        name: text_or_default(&v3.name, name),
        columns: match v3.columns {
            Some(c) => c,
            None => 1,
        },
        separate_links: true,
        visible: flag_or(v3.visible, true),
        items: convert_all(&v3.items),
    }
}

/// Whether the sections of the subject's own are kept key for key: one for
/// each, in order, under its key, known by its key where it has no
/// identifier or name of its own.
pub open spec fn custom_from(
    v3: Seq<(String, V3Section<V3CustomItem>)>,
    custom: Seq<CustomSection>,
) -> bool {
    &&& custom.len() == v3.len()
    &&& forall|i: int|
        0 <= i < v3.len() ==> (#[trigger] custom[i]).key@ == v3[i].0@ && section_from(
            v3[i].1,
            custom[i].section,
            v3[i].0@,
            v3[i].0@,
        )
}

/// Whether no key occurs twice.
pub open spec fn keys_distinct(v3: Seq<(String, V3Section<V3CustomItem>)>) -> bool {
    forall|i: int, j: int| 0 <= i < j < v3.len() ==> v3[i].0@ != v3[j].0@
}

/// The sections of the subject's own, key for key.
pub fn convert_custom_sections(v3: &Vec<(String, V3Section<V3CustomItem>)>) -> (r: CustomSections)
    ensures
        custom_from(v3@, r.entries@),
        keys_distinct(v3@) ==> r.wf(),
{
    let mut entries: Vec<CustomSection> = Vec::new();
    let mut i: usize = 0;
    while i < v3.len()
        invariant
            i <= v3@.len(),
            entries@.len() == i,
            forall|k: int|
                0 <= k < i ==> (#[trigger] entries@[k]).key@ == v3@[k].0@ && section_from(
                    v3@[k].1,
                    entries@[k].section,
                    v3@[k].0@,
                    v3@[k].0@,
                ),
        decreases v3@.len() - i,
    {
        let key = v3[i].0.as_str();
        entries.push(
            CustomSection { key: owned(key), section: convert_section(&v3[i].1, key, key) },
        );
        i += 1;
    }
    CustomSections { entries }
}

// ---------------------------------------------------------------------------
// Basics
// ---------------------------------------------------------------------------

/// A count, or its default where it is not given.
pub open spec fn size_or(size: Option<u32>, default: u32) -> u32 {
    match size {
        Some(s) => s,
        None => default,
    }
}

/// The text that writes a number, or a default where none is given.
pub open spec fn number_or(number: Option<Decimal>, default: Seq<char>) -> Seq<char> {
    match number {
        Some(n) => n.text@,
        None => default,
    }
}

/// Whether the picture is hidden: it is where the effects say so; where
/// they are silent, it is where the picture is said not to be visible.
pub open spec fn hidden_from(p: V3Picture) -> bool {
    let by_visibility = match p.visible {
        Some(v) => !v,
        None => false,
    };
    match p.effects {
        Some(e) => match e.hidden {
            Some(h) => h,
            None => by_visibility,
        },
        None => by_visibility,
    }
}

/// Whether `r` is the picture made of `p`.
pub open spec fn picture_from(p: Option<V3Picture>, r: Picture) -> bool {
    match p {
        None => r.url@.len() == 0 && r.plain(),
        Some(p) => {
            &&& r.url@ == text_or_empty(p.url)
            &&& r.size == size_or(p.size, 64)
            &&& r.aspect_ratio.text@ == number_or(p.aspect_ratio, "1.0"@)
            &&& r.border_radius == size_or(p.border_radius, 0)
            &&& r.effects.hidden == hidden_from(p)
            &&& r.effects.grayscale == match p.effects {
                Some(e) => e.grayscale == Some(true),
                None => false,
            }
            &&& r.effects.border == match p.effects {
                Some(e) => e.border == Some(true),
                None => false,
            }
        },
    }
}

/// The picture made of the one of the résumé, if it has one.
pub fn convert_picture(p: &Option<V3Picture>) -> (r: Picture)
    ensures
        picture_from(*p, r),
{
    let mut r = Picture::default();
    match p {
        Some(p) => {
            r.url = text_of(&p.url);
            r.size = match p.size {
                Some(s) => s,
                None => 64,
            };
            match &p.aspect_ratio {
                Some(a) => {
                    r.aspect_ratio = a.copy();
                },
                None => {},
            }
            r.border_radius = match p.border_radius {
                Some(b) => b,
                None => 0,
            };
            match p.visible {
                Some(v) => {
                    r.effects.hidden = !v;
                },
                None => {},
            }
            match &p.effects {
                Some(e) => {
                    r.effects.hidden = flag_or(e.hidden, r.effects.hidden);
                    r.effects.grayscale = flag_or(e.grayscale, false);
                    r.effects.border = flag_or(e.border, false);
                },
                None => {},
            }
        },
        None => {},
    }
    r
}

/// Whether `r` is the field made of `x`.
pub open spec fn field_from(x: V3CustomField, r: CustomField) -> bool {
    &&& id_kept(x.id, r.id@)
    &&& r.icon@ == text_or_empty(x.icon)
    &&& r.name@ == text_or_empty(x.name)
    &&& r.value@ == text_or_empty(x.value)
}

impl Entry<CustomField> for V3CustomField {
    open spec fn becomes(self, item: CustomField) -> bool {
        field_from(self, item)
    }

    proof fn lemma_becomes_alike(self, a: CustomField, b: CustomField) {
        assert(a.icon@ =~= b.icon@);
        assert(a.name@ =~= b.name@);
        assert(a.value@ =~= b.value@);
    }

    fn convert(&self) -> (item: CustomField) {
        CustomField {
            id: keep_id(&self.id),
            icon: text_of(&self.icon),
            name: text_of(&self.name),
            value: text_of(&self.value),
        }
    }
}

/// Whether `r` is the subject made of `v3`.
pub open spec fn basics_from(v3: V3Basics, r: Basics) -> bool {
    &&& r.name@ == text_or_empty(v3.name)
    &&& r.headline@ == text_or_empty(v3.headline)
    &&& r.email@ == text_or_empty(v3.email)
    &&& r.phone@ == text_or_empty(v3.phone)
    &&& r.location@ == text_or_empty(v3.location)
    &&& link_from(v3.url, r.url)
    &&& each_becomes(v3.custom_fields@, r.custom_fields@)
    &&& picture_from(v3.picture, r.picture)
}

/// The subject made of the one of the résumé.
pub fn convert_basics(v3: &V3Basics) -> (r: Basics)
    ensures
        basics_from(*v3, r),
{
    Basics {
        name: text_of(&v3.name),
        headline: text_of(&v3.headline),
        email: text_of(&v3.email),
        phone: text_of(&v3.phone),
        location: text_of(&v3.location),
        url: convert_link(&v3.url),
        custom_fields: convert_all(&v3.custom_fields),
        picture: convert_picture(&v3.picture),
    }
}

// ---------------------------------------------------------------------------
// Metadata
// ---------------------------------------------------------------------------

/// The paper that a name stands for, whatever its case: Letter for
/// `letter` and `us-letter`, A4 for every other name and for none.
pub open spec fn format_named(name: Option<String>) -> PageFormat {
    match name {
        Some(n) => if ascii_lower(n@) == "letter"@ || ascii_lower(n@) == "us-letter"@ {
            PageFormat::Letter
        } else {
            PageFormat::A4
        },
        None => PageFormat::A4,
    }
}

/// The paper that a name stands for.
pub fn page_format(name: &Option<String>) -> (r: PageFormat)
    ensures
        r == format_named(*name),
{
    match name {
        Some(n) => {
            let lower = to_ascii_lower(n.as_str());
            if same_text(lower.as_str(), "letter") || same_text(lower.as_str(), "us-letter") {
                PageFormat::Letter
            } else {
                PageFormat::A4
            }
        },
        None => PageFormat::A4,
    }
}

/// Whether the metadata are what the metadata of the format become. A
/// template that the catalogue lacks is kept as it is. What is missing
/// takes its default: the template `rhyhorn`, no layout, no style sheet, A4
/// with a margin of 18 points, the line and the page numbers drawn, the
/// colours `#dc2626`, `#ffffff` and `#000000`, IBM Plex Serif at 14 points
/// with a line height of 1.5, icons shown, links underlined.
pub open spec fn metadata_from(v3: V3Metadata, r: Metadata) -> bool {
    &&& r.template@ == text_or(v3.template, "rhyhorn"@)
    &&& layout_names(r.layout@) == match v3.layout {
        Some(l) => layout_names(l@),
        None => Seq::empty(),
    }
    &&& r.css.value@ == match v3.css {
        Some(c) => text_or_empty(c.value),
        None => Seq::empty(),
    }
    &&& r.css.visible == match v3.css {
        Some(c) => c.visible == Some(true),
        None => false,
    }
    &&& r.page.format == format_named(v3.page.format)
    &&& r.page.margin == size_or(v3.page.margin, 18)
    &&& r.page.options.break_line == match v3.page.options {
        Some(o) => shown(o.break_line),
        None => true,
    }
    &&& r.page.options.page_numbers == match v3.page.options {
        Some(o) => shown(o.page_numbers),
        None => true,
    }
    &&& r.theme.primary@ == text_or(v3.theme.primary, "#dc2626"@)
    &&& r.theme.background@ == text_or(v3.theme.background, "#ffffff"@)
    &&& r.theme.text@ == text_or(v3.theme.text, "#000000"@)
    &&& match v3.typography.font {
        Some(f) => {
            &&& r.typography.font.family@ == text_or(f.family, "IBM Plex Serif"@)
            &&& r.typography.font.subset@ == text_or(f.subset, "latin"@)
            &&& texts(r.typography.font.variants@) == match f.variants {
                Some(v) => texts(v@),
                None => seq!["regular"@],
            }
            &&& r.typography.font.size == size_or(f.size, 14)
        },
        None => r.typography.font.is_default(),
    }
    &&& r.typography.line_height.text@ == number_or(v3.typography.line_height, "1.5"@)
    &&& r.typography.hide_icons == (v3.typography.hide_icons == Some(true))
    &&& r.typography.underline_links == shown(v3.typography.underline_links)
    &&& r.notes@.len() == 0
}

/// The presentation made of the one of the résumé, with a default for
/// what it leaves out.
pub fn convert_metadata(v3: &V3Metadata) -> (r: Metadata)
    ensures
        metadata_from(*v3, r),
{
    let layout = match &v3.layout {
        Some(l) => copy_layout(l),
        None => {
            let none: Vec<Vec<Vec<String>>> = Vec::new();
            assert(layout_names(none@) =~= Seq::<Seq<Seq<Seq<char>>>>::empty());
            none
        },
    };
    let css = match &v3.css {
        Some(c) => CustomCss { value: text_of(&c.value), visible: flag_or(c.visible, false) },
        None => CustomCss::default(),
    };
    assert(v3.css is None ==> css.value@ =~= Seq::<char>::empty());
    let options = match &v3.page.options {
        Some(o) => PageOptions {
            break_line: flag_or(o.break_line, true),
            page_numbers: flag_or(o.page_numbers, true),
        },
        None => PageOptions::default(),
    };
    let font = match &v3.typography.font {
        Some(f) => FontConfig {
            family: text_or_default(&f.family, "IBM Plex Serif"),
            subset: text_or_default(&f.subset, "latin"),
            variants: match &f.variants {
                Some(v) => copy_texts(v),
                None => default_variants(),
            },
            size: match f.size {
                Some(s) => s,
                None => 14,
            },
        },
        None => FontConfig::default(),
    };
    let line_height = match &v3.typography.line_height {
        Some(h) => h.copy(),
        None => Decimal::one_and_a_half(),
    };
    Metadata {
        template: text_or_default(&v3.template, "rhyhorn"),
        layout,
        css,
        page: PageConfig {
            format: page_format(&v3.page.format),
            margin: match v3.page.margin {
                Some(m) => m,
                None => 18,
            },
            options,
        },
        theme: Theme {
            primary: text_or_default(&v3.theme.primary, "#dc2626"),
            background: text_or_default(&v3.theme.background, "#ffffff"),
            text: text_or_default(&v3.theme.text, "#000000"),
        },
        typography: Typography {
            font,
            line_height,
            hide_icons: flag_or(v3.typography.hide_icons, false),
            underline_links: flag_or(v3.typography.underline_links, true),
        },
        notes: String::new(),
    }
}

// ---------------------------------------------------------------------------
// The document
// ---------------------------------------------------------------------------

/// Whether the summary is what the summary of either form becomes.
pub open spec fn summary_from(v3: V3Basics, r: SummarySection) -> bool {
    &&& r.id@ == "summary"@
    &&& r.name@ == "Summary"@
    &&& r.columns == 1
    &&& r.separate_links
    &&& r.visible == v3.summary.shown()
    &&& r.content@ == v3.summary.content()
}

/// Whether `r` holds the sections made of those of `v3`.
pub open spec fn sections_from(v3: V3Sections, r: Sections) -> bool {
    &&& section_from(v3.profiles, r.profiles, "profiles"@, "Profiles"@)
    &&& section_from(v3.experience, r.experience, "experience"@, "Experience"@)
    &&& section_from(v3.education, r.education, "education"@, "Education"@)
    &&& section_from(v3.skills, r.skills, "skills"@, "Skills"@)
    &&& section_from(v3.languages, r.languages, "languages"@, "Languages"@)
    &&& section_from(v3.awards, r.awards, "awards"@, "Awards"@)
    &&& section_from(v3.certifications, r.certifications, "certifications"@, "Certifications"@)
    &&& section_from(v3.interests, r.interests, "interests"@, "Interests"@)
    &&& section_from(v3.projects, r.projects, "projects"@, "Projects"@)
    &&& section_from(v3.publications, r.publications, "publications"@, "Publications"@)
    &&& section_from(v3.volunteer, r.volunteer, "volunteer"@, "Volunteer"@)
    &&& section_from(v3.references, r.references, "references"@, "References"@)
    &&& custom_from(v3.custom@, r.custom.entries@)
}

/// Whether `doc` is the document that the résumé becomes. Every field of
/// the document is fixed by the résumé, but the identifiers that are drawn
/// where the résumé gives none.
pub open spec fn document_from(data: V3Resume, doc: ResumeData) -> bool {
    &&& basics_from(data.basics, doc.basics)
    &&& summary_from(data.basics, doc.sections.summary)
    &&& sections_from(data.sections, doc.sections)
    &&& metadata_from(data.metadata, doc.metadata)
}

/// The document that a résumé in the predecessor format becomes.
pub fn convert_resume(data: &V3Resume) -> (doc: ResumeData)
    ensures
        document_from(*data, doc),
{
    let summary = SummarySection {
        id: owned("summary"),
        name: owned("Summary"),
        columns: 1,
        separate_links: true,
        visible: data.basics.summary.is_visible(),
        content: data.basics.summary.to_content(),
    };
    let v3 = &data.sections;
    let sections = Sections {
        summary,
        experience: convert_section(&v3.experience, "experience", "Experience"),
        education: convert_section(&v3.education, "education", "Education"),
        skills: convert_section(&v3.skills, "skills", "Skills"),
        projects: convert_section(&v3.projects, "projects", "Projects"),
        profiles: convert_section(&v3.profiles, "profiles", "Profiles"),
        awards: convert_section(&v3.awards, "awards", "Awards"),
        certifications: convert_section(&v3.certifications, "certifications", "Certifications"),
        publications: convert_section(&v3.publications, "publications", "Publications"),
        languages: convert_section(&v3.languages, "languages", "Languages"),
        interests: convert_section(&v3.interests, "interests", "Interests"),
        volunteer: convert_section(&v3.volunteer, "volunteer", "Volunteer"),
        references: convert_section(&v3.references, "references", "References"),
        custom: convert_custom_sections(&v3.custom),
    };
    ResumeData {
        basics: convert_basics(&data.basics),
        sections,
        metadata: convert_metadata(&data.metadata),
    }
}

/// Whether `doc` is a document that the adapter gives for the bytes: the
/// bytes are one JSON text with the structure of a résumé, and the
/// document is what a reading of it becomes.
pub open spec fn parse_gives(input: Seq<u8>, doc: ResumeData) -> bool {
    json_reading(input) matches Some(j) && exists|data: V3Resume|
        data.reads(j) && document_from(data, doc)
}

impl Parser for ReactiveResumeV3Parser {
    type RawData = Json;

    type ValidatedData = V3Resume;

    /// The bytes can be read when they are one JSON text.
    open spec fn readable(input: Seq<u8>) -> bool {
        json_reading(input) is Some
    }

    open spec fn read_as(input: Seq<u8>, raw: Json) -> bool {
        json_reading(input) == Some(raw)
    }

    open spec fn valid(raw: Json) -> bool {
        V3Resume::admits(raw)
    }

    open spec fn validated_as(raw: Json, data: V3Resume) -> bool {
        data.reads(raw)
    }

    /// Every résumé of the right structure can be mapped.
    open spec fn convertible(data: V3Resume) -> bool {
        true
    }

    open spec fn converted_as(data: V3Resume, doc: ResumeData) -> bool {
        document_from(data, doc)
    }

    fn read(&self, input: &[u8]) -> (r: Result<Json, ParseError>)
        ensures
            r matches Err(e) ==> e is ReadError,
    {
        read_json(input)
    }

    fn validate(&self, data: Json) -> (r: Result<V3Resume, ParseError>)
        ensures
            r matches Err(e) ==> e is ValidationError,
    {
        V3Resume::decode(&data)
    }

    fn convert(&self, data: V3Resume) -> (r: Result<ResumeData, ParseError>) {
        Ok(convert_resume(&data))
    }

    /// The three stages in turn: a read error where the bytes are not one
    /// JSON text, a validation error where the text has not the structure
    /// of a résumé, else the document that the résumé becomes.
    fn parse(&self, input: &[u8]) -> (r: Result<ResumeData, ParseError>)
        ensures
            r matches Ok(doc) ==> parse_gives(input@, doc),
            match json_reading(input@) {
                None => r matches Err(e) && e is ReadError,
                Some(j) => if V3Resume::admits(j) {
                    r matches Ok(doc) && exists|data: V3Resume|
                        data.reads(j) && document_from(data, doc)
                } else {
                    r matches Err(e) && e is ValidationError
                },
            },
    {
        let raw = match self.read(input) {
            Ok(raw) => raw,
            Err(e) => return Err(e),
        };
        let data = match self.validate(raw) {
            Ok(data) => data,
            Err(e) => return Err(e),
        };
        let ghost checked = data;
        let r = self.convert(data);
        assert(r matches Ok(doc) && checked.reads(raw) && document_from(checked, doc));
        r
    }
}

} // verus!
