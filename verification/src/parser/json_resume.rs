//! The adapter for the standard JSON résumé format.

use vstd::prelude::*;
use crate::json::{json_reading, opt_texts, read_json, Json};
use crate::parser::json_resume_shape::{
    JsonResume, JsonResumeAward, JsonResumeBasics, JsonResumeCertificate, JsonResumeEducation,
    JsonResumeInterest, JsonResumeLanguage, JsonResumeLocation, JsonResumeProfile,
    JsonResumeProject, JsonResumePublication, JsonResumeReference, JsonResumeSkill,
    JsonResumeVolunteer, JsonResumeWork,
};
use crate::parser::traits::{convert_all, each_becomes, Entry, ParseError, Parser};
use crate::schema::items::{
    Content, Award, Certification, Education, Experience, Interest, Language, Profile, Project,
    Publication, Reference, Skill, Volunteer,
};
use crate::schema::resume::ResumeData;
use crate::schema::sections::{Section, SummarySection};
use crate::schema::validation::Validate;
use crate::schema::shared::Url;
use crate::search::{contains, contains_text};
use crate::text::{
    copy_texts, join, join_text, lowercase, opt_text, owned, push_str, string_of, text_or_empty,
    texts, to_lowercase,
};
use crate::utils::date::{date_range, format_date_range, opt_str};
use crate::utils::id::id_shaped;

verus! {

/// The adapter for the standard JSON résumé format.
pub struct JsonResumeParser;

/// The text of a string that may be absent: a copy, or nothing.
pub fn text_of(o: &Option<String>) -> (r: String)
    ensures
        r@ == text_or_empty(*o),
{
    match o {
        Some(s) => s.clone(),
        None => String::new(),
    }
}

/// A string that may be absent, as a slice.
pub fn slice_of(o: &Option<String>) -> (r: Option<&str>)
    ensures
        opt_str(r) == opt_text(*o),
{
    match o {
        Some(s) => Some(s.as_str()),
        None => None,
    }
}

// ---------------------------------------------------------------------------
// Texts that the adapter composes
// ---------------------------------------------------------------------------

/// The text as a list of one, or of none where it is empty.
pub open spec fn one_if_filled(s: Seq<char>) -> Seq<Seq<char>> {
    if s.len() > 0 {
        seq![s]
    } else {
        Seq::empty()
    }
}

impl JsonResumeLocation {
    /// City, region and country code, those of them that are not empty.
    pub open spec fn parts(self) -> Seq<Seq<char>> {
        one_if_filled(text_or_empty(self.city)) + one_if_filled(text_or_empty(self.region))
            + one_if_filled(text_or_empty(self.country_code))
    }

    /// The location on one line: its parts with `, ` between them.
    pub open spec fn text(self) -> Seq<char> {
        join(self.parts(), ", "@)
    }

    /// The place as one line: city, region and country, with a comma and a
    /// space between those that are given.
    pub fn to_string(&self) -> (r: String)
        ensures
            r@ == self.text(),
    {
        let mut parts: Vec<String> = Vec::new();
        let city = text_of(&self.city);
        if !city.as_str().is_empty() {
            parts.push(city);
        }
        assert(texts(parts@) =~= one_if_filled(text_or_empty(self.city)));
        let region = text_of(&self.region);
        if !region.as_str().is_empty() {
            parts.push(region);
        }
        assert(texts(parts@) =~= one_if_filled(text_or_empty(self.city)) + one_if_filled(
            text_or_empty(self.region),
        ));
        let country = text_of(&self.country_code);
        if !country.as_str().is_empty() {
            parts.push(country);
        }
        assert(texts(parts@) =~= self.parts());
        join_text(&parts, ", ")
    }
}

/// Each highlight as a line that starts with a bullet.
pub open spec fn bullet_lines(h: Seq<Seq<char>>) -> Seq<Seq<char>> {
    Seq::new(h.len(), |i: int| "\u{2022} "@ + h[i])
}

/// A summary and highlights as one text: the summary, a blank line, then
/// one bulleted line for each highlight. A part that is absent or empty is
/// left out, and the blank line with it.
pub open spec fn summary_text(summary: Option<Seq<char>>, highlights: Option<Seq<Seq<char>>>) -> Seq<
    char,
> {
    let first = match summary {
        Some(s) => one_if_filled(s),
        None => Seq::empty(),
    };
    let second = match highlights {
        Some(h) => if h.len() > 0 {
            seq![join(bullet_lines(h), "\n"@)]
        } else {
            Seq::empty()
        },
        None => Seq::empty(),
    };
    join(first + second, "\n\n"@)
}

/// The summary of a position: its own summary, then a blank line, then
/// one line for each highlight.
pub fn build_summary(summary: Option<&str>, highlights: Option<&Vec<String>>) -> (r: String)
    ensures
        r@ == summary_text(
            opt_str(summary),
            match highlights {
                Some(h) => Some(texts(h@)),
                None => None,
            },
        ),
{
    let mut parts: Vec<String> = Vec::new();
    match summary {
        Some(s) => {
            if !s.is_empty() {
                parts.push(owned(s));
            }
            assert(texts(parts@) =~= one_if_filled(s@));
        },
        None => {
            assert(texts(parts@) =~= Seq::<Seq<char>>::empty());
        },
    }
    let ghost first = texts(parts@);
    match highlights {
        Some(h) => {
            if h.len() > 0 {
                let mut lines: Vec<String> = Vec::new();
                let mut i: usize = 0;
                while i < h.len()
                    invariant
                        i <= h@.len(),
                        lines@.len() == i,
                        forall|k: int| 0 <= k < i ==> lines@[k]@ == "\u{2022} "@ + h@[k]@,
                    decreases h@.len() - i,
                {
                    let mut line: Vec<char> = Vec::new();
                    push_str(&mut line, "\u{2022} ");
                    push_str(&mut line, h[i].as_str());
                    assert(line@ =~= "\u{2022} "@ + h@[i as int]@);
                    lines.push(string_of(&line));
                    i += 1;
                }
                assert(texts(lines@) =~= bullet_lines(texts(h@)));
                parts.push(join_text(&lines, "\n"));
                assert(texts(parts@) =~= first + seq![join(bullet_lines(texts(h@)), "\n"@)]);
            } else {
                assert(texts(parts@) =~= first + Seq::<Seq<char>>::empty());
            }
        },
        None => {
            assert(texts(parts@) =~= first + Seq::<Seq<char>>::empty());
        },
    }
    join_text(&parts, "\n\n")
}

/// The level, from 0 to 5, that a description of fluency in lower case
/// stands for. The first of these that the description contains decides:
/// native or bilingual, 5; fluent or professional, 4; advanced, 3;
/// intermediate or working, 2; elementary, basic or beginner, 1. A
/// description with none of them gives 0.
pub open spec fn fluency_level(lower: Seq<char>) -> u8 {
    if contains(lower, "native"@) || contains(lower, "bilingual"@) {
        5
    } else if contains(lower, "fluent"@) || contains(lower, "professional"@) {
        4
    } else if contains(lower, "advanced"@) {
        3
    } else if contains(lower, "intermediate"@) || contains(lower, "working"@) {
        2
    } else if contains(lower, "elementary"@) || contains(lower, "basic"@) || contains(
        lower,
        "beginner"@,
    ) {
        1
    } else {
        0
    }
}

/// The level that a description of fluency, already in lower case, stands
/// for.
pub fn level_of_lowered_fluency(lower: &str) -> (r: u8)
    ensures
        r == fluency_level(lower@),
        r <= 5,
{
    if contains_text(lower, "native") || contains_text(lower, "bilingual") {
        5
    } else if contains_text(lower, "fluent") || contains_text(lower, "professional") {
        4
    } else if contains_text(lower, "advanced") {
        3
    } else if contains_text(lower, "intermediate") || contains_text(lower, "working") {
        2
    } else if contains_text(lower, "elementary") || contains_text(lower, "basic")
        || contains_text(lower, "beginner") {
        1
    } else {
        0
    }
}

/// The level that a description of fluency stands for, whatever its case.
pub fn fluency_to_level(fluency: &str) -> (r: u8)
    ensures
        r == fluency_level(lowercase(fluency@)),
        r <= 5,
{
    let lower = to_lowercase(fluency);
    level_of_lowered_fluency(lower.as_str())
}

// ---------------------------------------------------------------------------
// What each item becomes
// ---------------------------------------------------------------------------

/// Whether the section is what a list of entries becomes: where the list is
/// absent, a section without identifier, name or items; where it is there,
/// the section of that identifier and name with one item for each entry.
pub open spec fn section_from<A: Entry<B>, B: Content + Validate>(
    src: Option<Vec<A>>,
    section: Section<B>,
    id: Seq<char>,
    name: Seq<char>,
) -> bool {
    &&& section.plain()
    &&& match src {
        None => section.id@.len() == 0 && section.name@.len() == 0 && section.items@.len() == 0,
        Some(v) => section.id@ == id && section.name@ == name && each_becomes(
            v@,
            section.items@,
        ),
    }
}

/// The section that a list of entries becomes.
pub fn convert_section<A: Entry<B>, B: Content + Validate>(src: &Option<Vec<A>>, id: &str, name: &str) -> (r: Section<B>)
    ensures
        section_from(*src, r, id@, name@),
{
    match src {
        Some(v) => {
            let mut section: Section<B> = Section::new(id, name);
            section.items = convert_all(v);
            section
        },
        None => Section::default(),
    }
}

/// Whether `r` is the profile made of `p`, whatever its identifier.
pub open spec fn profile_from(p: JsonResumeProfile, r: Profile) -> bool {
    &&& id_shaped(r.id@)
    &&& r.visible
    &&& r.network@ == text_or_empty(p.network)
    &&& r.username@ == text_or_empty(p.username)
    &&& r.icon@ == lowercase(text_or_empty(p.network))
    &&& r.url.label@.len() == 0
    &&& r.url.href@ == text_or_empty(p.url)
}

/// Whether `r` is the position made of `w`, whatever its identifier.
pub open spec fn experience_from(w: JsonResumeWork, r: Experience) -> bool {
    &&& id_shaped(r.id@)
    &&& r.visible
    &&& r.company@ == text_or_empty(w.name)
    &&& r.position@ == text_or_empty(w.position)
    &&& r.location@ == text_or_empty(w.location)
    &&& r.date@ == date_range(opt_text(w.start_date), opt_text(w.end_date))
    &&& r.summary@ == summary_text(opt_text(w.summary), opt_texts(w.highlights))
    &&& r.url.label@.len() == 0
    &&& r.url.href@ == text_or_empty(w.url)
}

/// The courses of a course of study as a summary: `Courses: ` and their
/// names with `, ` between them, or nothing where there are none.
pub open spec fn courses_text(courses: Option<Seq<Seq<char>>>) -> Seq<char> {
    match courses {
        Some(c) => if c.len() > 0 {
            "Courses: "@ + join(c, ", "@)
        } else {
            Seq::empty()
        },
        None => Seq::empty(),
    }
}

/// Whether `r` is the course of study made of `e`, whatever its identifier.
pub open spec fn education_from(e: JsonResumeEducation, r: Education) -> bool {
    &&& id_shaped(r.id@)
    &&& r.visible
    &&& r.institution@ == text_or_empty(e.institution)
    &&& r.area@ == text_or_empty(e.area)
    &&& r.study_type@ == text_or_empty(e.study_type)
    &&& r.date@ == date_range(opt_text(e.start_date), opt_text(e.end_date))
    &&& r.score@ == text_or_empty(e.score)
    &&& r.summary@ == courses_text(opt_texts(e.courses))
    &&& r.url.label@.len() == 0
    &&& r.url.href@.len() == 0
}

/// The texts of a list that may be absent, or none.
pub open spec fn texts_or_none(o: Option<Vec<String>>) -> Seq<Seq<char>> {
    match o {
        Some(v) => texts(v@),
        None => Seq::empty(),
    }
}

/// The level as text is kept as the description; the numeric level stays
/// at its default of 1.
pub open spec fn skill_from(s: JsonResumeSkill, r: Skill) -> bool {
    &&& id_shaped(r.id@)
    &&& r.visible
    &&& r.name@ == text_or_empty(s.name)
    &&& r.description@ == text_or_empty(s.level)
    &&& r.level == 1
    &&& texts(r.keywords@) == texts_or_none(s.keywords)
}

/// Whether `r` is the project made of `p`, whatever its identifier.
pub open spec fn project_from(p: JsonResumeProject, r: Project) -> bool {
    &&& id_shaped(r.id@)
    &&& r.visible
    &&& r.name@ == text_or_empty(p.name)
    &&& r.description@ == text_or_empty(p.description)
    &&& r.date@.len() == 0
    &&& r.summary@ == summary_text(None, opt_texts(p.highlights))
    &&& texts(r.keywords@) == texts_or_none(p.keywords)
    &&& r.url.label@.len() == 0
    &&& r.url.href@ == text_or_empty(p.url)
}

/// Whether `r` is the voluntary work made of `v`, whatever its identifier.
pub open spec fn volunteer_from(v: JsonResumeVolunteer, r: Volunteer) -> bool {
    &&& id_shaped(r.id@)
    &&& r.bare()
    &&& r.organization@ == text_or_empty(v.organization)
    &&& r.position@ == text_or_empty(v.position)
}

/// Whether `r` is the award made of `a`, whatever its identifier.
pub open spec fn award_from(a: JsonResumeAward, r: Award) -> bool {
    &&& id_shaped(r.id@)
    &&& r.visible
    &&& r.title@ == text_or_empty(a.title)
    &&& r.awarder@ == text_or_empty(a.awarder)
    &&& r.date@ == text_or_empty(a.date)
    &&& r.summary@.len() == 0
    &&& r.url.label@.len() == 0
    &&& r.url.href@.len() == 0
}

/// Whether `r` is the certification made of `c`, whatever its identifier.
pub open spec fn certification_from(c: JsonResumeCertificate, r: Certification) -> bool {
    &&& id_shaped(r.id@)
    &&& r.visible
    &&& r.name@ == text_or_empty(c.name)
    &&& r.issuer@ == text_or_empty(c.issuer)
    &&& r.date@ == text_or_empty(c.date)
    &&& r.summary@.len() == 0
    &&& r.url.label@.len() == 0
    &&& r.url.href@ == text_or_empty(c.url)
}

/// Whether `r` is the publication made of `p`, whatever its identifier.
pub open spec fn publication_from(p: JsonResumePublication, r: Publication) -> bool {
    &&& id_shaped(r.id@)
    &&& r.bare()
    &&& r.name@ == text_or_empty(p.name)
}

/// The fluency, where one is given, is kept as the description and decides
/// the level; where none is given the level stays at its default of 1.
pub open spec fn language_from(l: JsonResumeLanguage, r: Language) -> bool {
    &&& id_shaped(r.id@)
    &&& r.visible
    &&& r.name@ == text_or_empty(l.language)
    &&& r.description@ == text_or_empty(l.fluency)
    &&& r.level == match l.fluency {
        Some(f) => fluency_level(lowercase(f@)),
        None => 1,
    }
}

/// Whether `r` is the interest made of `i`, whatever its identifier.
pub open spec fn interest_from(i: JsonResumeInterest, r: Interest) -> bool {
    &&& id_shaped(r.id@)
    &&& r.visible
    &&& r.name@ == text_or_empty(i.name)
    &&& texts(r.keywords@) == texts_or_none(i.keywords)
}

/// Whether `r` is the reference made of `x`, whatever its identifier.
pub open spec fn reference_from(x: JsonResumeReference, r: Reference) -> bool {
    &&& id_shaped(r.id@)
    &&& r.bare()
    &&& r.name@ == text_or_empty(x.name)
}

/// A copy of the texts of a list that may be absent.
pub fn texts_of(o: &Option<Vec<String>>) -> (r: Vec<String>)
    ensures
        texts(r@) == texts_or_none(*o),
{
    match o {
        Some(v) => copy_texts(v),
        None => {
            let r: Vec<String> = Vec::new();
            assert(texts(r@) =~= Seq::<Seq<char>>::empty());
            r
        },
    }
}

/// A list of strings that may be absent, by reference.
pub fn list_of(o: &Option<Vec<String>>) -> (r: Option<&Vec<String>>)
    ensures
        match r {
            Some(v) => *o == Some(*v),
            None => *o is None,
        },
{
    match o {
        Some(v) => Some(v),
        None => None,
    }
}

/// The profile made of one of the résumé.
pub fn convert_profile(p: &JsonResumeProfile) -> (r: Profile)
    ensures
        profile_from(*p, r),
{
    let network = text_of(&p.network);
    let username = text_of(&p.username);
    let mut profile = Profile::new(network.as_str(), username.as_str());
    profile.url = Url::new(text_of(&p.url).as_str());
    profile
}

/// The position made of one of the résumé.
pub fn convert_work(w: &JsonResumeWork) -> (r: Experience)
    ensures
        experience_from(*w, r),
{
    let mut e = Experience::new(text_of(&w.name).as_str(), text_of(&w.position).as_str());
    e.location = text_of(&w.location);
    e.date = format_date_range(slice_of(&w.start_date), slice_of(&w.end_date));
    e.summary = build_summary(slice_of(&w.summary), list_of(&w.highlights));
    e.url = Url::new(text_of(&w.url).as_str());
    e
}

/// The course of study made of one of the résumé.
pub fn convert_education(e: &JsonResumeEducation) -> (r: Education)
    ensures
        education_from(*e, r),
{
    let mut r = Education::new(text_of(&e.institution).as_str(), text_of(&e.area).as_str());
    r.study_type = text_of(&e.study_type);
    r.date = format_date_range(slice_of(&e.start_date), slice_of(&e.end_date));
    r.score = text_of(&e.score);
    match &e.courses {
        Some(courses) => {
            assert(texts(courses@).len() == courses@.len());
            if courses.len() > 0 {
                let mut out: Vec<char> = Vec::new();
                push_str(&mut out, "Courses: ");
                push_str(&mut out, join_text(courses, ", ").as_str());
                assert(out@ =~= "Courses: "@ + join(texts(courses@), ", "@));
                r.summary = string_of(&out);
            } else {
                assert(r.summary@ =~= Seq::<char>::empty());
            }
        },
        None => {
            assert(r.summary@ =~= Seq::<char>::empty());
        },
    }
    r
}

/// The skill made of one of the résumé.
pub fn convert_skill(s: &JsonResumeSkill) -> (r: Skill)
    ensures
        skill_from(*s, r),
{
    let mut r = Skill::new(text_of(&s.name).as_str());
    r.description = text_of(&s.level);
    r.keywords = texts_of(&s.keywords);
    r
}

/// The project made of one of the résumé.
pub fn convert_project(p: &JsonResumeProject) -> (r: Project)
    ensures
        project_from(*p, r),
{
    let mut r = Project::new(text_of(&p.name).as_str());
    r.description = text_of(&p.description);
    r.summary = build_summary(None, list_of(&p.highlights));
    r.keywords = texts_of(&p.keywords);
    r.url = Url::new(text_of(&p.url).as_str());
    r
}

/// The voluntary work made of one of the résumé.
pub fn convert_volunteer(v: &JsonResumeVolunteer) -> (r: Volunteer)
    ensures
        volunteer_from(*v, r),
{
    Volunteer::new(text_of(&v.organization).as_str(), text_of(&v.position).as_str())
}

/// The award made of one of the résumé.
pub fn convert_award(a: &JsonResumeAward) -> (r: Award)
    ensures
        award_from(*a, r),
{
    let mut r = Award::new(text_of(&a.title).as_str());
    r.awarder = text_of(&a.awarder);
    r.date = text_of(&a.date);
    r
}

/// The certification made of a certificate of the résumé.
pub fn convert_certificate(c: &JsonResumeCertificate) -> (r: Certification)
    ensures
        certification_from(*c, r),
{
    let mut r = Certification::new(text_of(&c.name).as_str(), text_of(&c.issuer).as_str());
    r.date = text_of(&c.date);
    r.url = Url::new(text_of(&c.url).as_str());
    r
}

/// The publication made of one of the résumé.
pub fn convert_publication(p: &JsonResumePublication) -> (r: Publication)
    ensures
        publication_from(*p, r),
{
    Publication::new(text_of(&p.name).as_str())
}

/// The language made of one of the résumé.
pub fn convert_language(l: &JsonResumeLanguage) -> (r: Language)
    ensures
        language_from(*l, r),
        r.level <= 5,
{
    let mut r = Language::new(text_of(&l.language).as_str());
    match &l.fluency {
        Some(f) => {
            r.level = fluency_to_level(f.as_str());
            r.description = f.clone();
            assert(r.description@ == text_or_empty(l.fluency));
            assert(r.level == fluency_level(lowercase(f@)));
        },
        None => {
            assert(r.level == 1);
            assert(r.description@ == text_or_empty(l.fluency));
        },
    }
    assert(r.name@ == text_or_empty(l.language));
    r
}

/// The interest made of one of the résumé.
pub fn convert_interest(i: &JsonResumeInterest) -> (r: Interest)
    ensures
        interest_from(*i, r),
{
    let mut r = Interest::new(text_of(&i.name).as_str());
    r.keywords = texts_of(&i.keywords);
    r
}

/// The reference made of one of the résumé.
pub fn convert_reference(x: &JsonResumeReference) -> (r: Reference)
    ensures
        reference_from(*x, r),
{
    Reference::new(text_of(&x.name).as_str())
}

impl Entry<Profile> for JsonResumeProfile {
    open spec fn becomes(self, item: Profile) -> bool {
        profile_from(self, item)
    }

    proof fn lemma_becomes_alike(self, a: Profile, b: Profile) {
        assert(a.network@ =~= b.network@);
        assert(a.username@ =~= b.username@);
        assert(a.icon@ =~= b.icon@);
        assert(a.url.label@ =~= b.url.label@);
        assert(a.url.href@ =~= b.url.href@);
    }

    fn convert(&self) -> (item: Profile) {
        convert_profile(self)
    }
}

impl Entry<Experience> for JsonResumeWork {
    open spec fn becomes(self, item: Experience) -> bool {
        experience_from(self, item)
    }

    proof fn lemma_becomes_alike(self, a: Experience, b: Experience) {
        assert(a.company@ =~= b.company@);
        assert(a.position@ =~= b.position@);
        assert(a.location@ =~= b.location@);
        assert(a.date@ =~= b.date@);
        assert(a.summary@ =~= b.summary@);
        assert(a.url.label@ =~= b.url.label@);
        assert(a.url.href@ =~= b.url.href@);
    }

    fn convert(&self) -> (item: Experience) {
        convert_work(self)
    }
}

impl Entry<Education> for JsonResumeEducation {
    open spec fn becomes(self, item: Education) -> bool {
        education_from(self, item)
    }

    proof fn lemma_becomes_alike(self, a: Education, b: Education) {
        assert(a.institution@ =~= b.institution@);
        assert(a.area@ =~= b.area@);
        assert(a.study_type@ =~= b.study_type@);
        assert(a.date@ =~= b.date@);
        assert(a.score@ =~= b.score@);
        assert(a.summary@ =~= b.summary@);
        assert(a.url.label@ =~= b.url.label@);
        assert(a.url.href@ =~= b.url.href@);
    }

    fn convert(&self) -> (item: Education) {
        convert_education(self)
    }
}

impl Entry<Skill> for JsonResumeSkill {
    open spec fn becomes(self, item: Skill) -> bool {
        skill_from(self, item)
    }

    proof fn lemma_becomes_alike(self, a: Skill, b: Skill) {
        assert(a.name@ =~= b.name@);
        assert(a.description@ =~= b.description@);
        assert(texts(a.keywords@) =~= texts(b.keywords@));
    }

    fn convert(&self) -> (item: Skill) {
        convert_skill(self)
    }
}

impl Entry<Project> for JsonResumeProject {
    open spec fn becomes(self, item: Project) -> bool {
        project_from(self, item)
    }

    proof fn lemma_becomes_alike(self, a: Project, b: Project) {
        assert(a.name@ =~= b.name@);
        assert(a.description@ =~= b.description@);
        assert(a.date@ =~= b.date@);
        assert(a.summary@ =~= b.summary@);
        assert(texts(a.keywords@) =~= texts(b.keywords@));
        assert(a.url.label@ =~= b.url.label@);
        assert(a.url.href@ =~= b.url.href@);
    }

    fn convert(&self) -> (item: Project) {
        convert_project(self)
    }
}

impl Entry<Volunteer> for JsonResumeVolunteer {
    open spec fn becomes(self, item: Volunteer) -> bool {
        volunteer_from(self, item)
    }

    proof fn lemma_becomes_alike(self, a: Volunteer, b: Volunteer) {
        assert(a.organization@ =~= b.organization@);
        assert(a.position@ =~= b.position@);
        assert(a.location@ =~= b.location@);
        assert(a.date@ =~= b.date@);
        assert(a.summary@ =~= b.summary@);
        assert(a.url.label@ =~= b.url.label@);
        assert(a.url.href@ =~= b.url.href@);
    }

    fn convert(&self) -> (item: Volunteer) {
        convert_volunteer(self)
    }
}

impl Entry<Award> for JsonResumeAward {
    open spec fn becomes(self, item: Award) -> bool {
        award_from(self, item)
    }

    proof fn lemma_becomes_alike(self, a: Award, b: Award) {
        assert(a.title@ =~= b.title@);
        assert(a.awarder@ =~= b.awarder@);
        assert(a.date@ =~= b.date@);
        assert(a.summary@ =~= b.summary@);
        assert(a.url.label@ =~= b.url.label@);
        assert(a.url.href@ =~= b.url.href@);
    }

    fn convert(&self) -> (item: Award) {
        convert_award(self)
    }
}

impl Entry<Certification> for JsonResumeCertificate {
    open spec fn becomes(self, item: Certification) -> bool {
        certification_from(self, item)
    }

    proof fn lemma_becomes_alike(self, a: Certification, b: Certification) {
        assert(a.name@ =~= b.name@);
        assert(a.issuer@ =~= b.issuer@);
        assert(a.date@ =~= b.date@);
        assert(a.summary@ =~= b.summary@);
        assert(a.url.label@ =~= b.url.label@);
        assert(a.url.href@ =~= b.url.href@);
    }

    fn convert(&self) -> (item: Certification) {
        convert_certificate(self)
    }
}

impl Entry<Publication> for JsonResumePublication {
    open spec fn becomes(self, item: Publication) -> bool {
        publication_from(self, item)
    }

    proof fn lemma_becomes_alike(self, a: Publication, b: Publication) {
        assert(a.name@ =~= b.name@);
        assert(a.publisher@ =~= b.publisher@);
        assert(a.date@ =~= b.date@);
        assert(a.summary@ =~= b.summary@);
        assert(a.url.label@ =~= b.url.label@);
        assert(a.url.href@ =~= b.url.href@);
    }

    fn convert(&self) -> (item: Publication) {
        convert_publication(self)
    }
}

impl Entry<Language> for JsonResumeLanguage {
    open spec fn becomes(self, item: Language) -> bool {
        language_from(self, item)
    }

    proof fn lemma_becomes_alike(self, a: Language, b: Language) {
        assert(a.name@ =~= b.name@);
        assert(a.description@ =~= b.description@);
    }

    fn convert(&self) -> (item: Language) {
        convert_language(self)
    }
}

impl Entry<Interest> for JsonResumeInterest {
    open spec fn becomes(self, item: Interest) -> bool {
        interest_from(self, item)
    }

    proof fn lemma_becomes_alike(self, a: Interest, b: Interest) {
        assert(a.name@ =~= b.name@);
        assert(texts(a.keywords@) =~= texts(b.keywords@));
    }

    fn convert(&self) -> (item: Interest) {
        convert_interest(self)
    }
}

impl Entry<Reference> for JsonResumeReference {
    open spec fn becomes(self, item: Reference) -> bool {
        reference_from(self, item)
    }

    proof fn lemma_becomes_alike(self, a: Reference, b: Reference) {
        assert(a.name@ =~= b.name@);
        assert(a.description@ =~= b.description@);
        assert(a.summary@ =~= b.summary@);
        assert(a.url.label@ =~= b.url.label@);
        assert(a.url.href@ =~= b.url.href@);
    }

    fn convert(&self) -> (item: Reference) {
        convert_reference(self)
    }
}

// ---------------------------------------------------------------------------
// The document
// ---------------------------------------------------------------------------

/// Whether the basics of the document are what the basics of the résumé
/// become: the label as the headline, the image as the picture's address,
/// the location on one line.
pub open spec fn basics_from(b: Option<JsonResumeBasics>, doc: ResumeData) -> bool {
    match b {
        None => doc.basics.name@.len() == 0 && doc.basics.bare()
            && doc.sections.summary.content@.len() == 0 && doc.sections.summary.plain(),
        Some(b) => {
            &&& doc.basics.name@ == text_or_empty(b.name)
            &&& doc.basics.headline@ == text_or_empty(b.label)
            &&& doc.basics.email@ == text_or_empty(b.email)
            &&& doc.basics.phone@ == text_or_empty(b.phone)
            &&& doc.basics.location@ == match b.location {
                Some(l) => l.text(),
                None => Seq::empty(),
            }
            &&& doc.basics.url.label@.len() == 0
            &&& doc.basics.url.href@ == text_or_empty(b.url)
            &&& doc.basics.custom_fields@.len() == 0
            &&& doc.basics.picture.url@ == text_or_empty(b.image)
            &&& doc.basics.picture.plain()
            &&& doc.sections.summary.plain()
            &&& doc.sections.summary.content@ == text_or_empty(b.summary)
        },
    }
}

/// The profiles of the basics, where there are basics.
pub open spec fn profiles_of(b: Option<JsonResumeBasics>) -> Option<Vec<JsonResumeProfile>> {
    match b {
        Some(b) => b.profiles,
        None => None,
    }
}

/// Whether `doc` is the document that the résumé becomes. Every field of
/// the document is fixed by the résumé, but the identifiers of the items.
pub open spec fn document_from(data: JsonResume, doc: ResumeData) -> bool {
    &&& basics_from(data.basics, doc)
    &&& section_from(profiles_of(data.basics), doc.sections.profiles, "profiles"@, "Profiles"@)
    &&& section_from(data.work, doc.sections.experience, "experience"@, "Experience"@)
    &&& section_from(data.education, doc.sections.education, "education"@, "Education"@)
    &&& section_from(data.skills, doc.sections.skills, "skills"@, "Skills"@)
    &&& section_from(data.projects, doc.sections.projects, "projects"@, "Projects"@)
    &&& section_from(data.volunteer, doc.sections.volunteer, "volunteer"@, "Volunteer"@)
    &&& section_from(data.awards, doc.sections.awards, "awards"@, "Awards"@)
    &&& section_from(
        data.certificates,
        doc.sections.certifications,
        "certifications"@,
        "Certifications"@,
    )
    &&& section_from(
        data.publications,
        doc.sections.publications,
        "publications"@,
        "Publications"@,
    )
    &&& section_from(data.languages, doc.sections.languages, "languages"@, "Languages"@)
    &&& section_from(data.interests, doc.sections.interests, "interests"@, "Interests"@)
    &&& section_from(data.references, doc.sections.references, "references"@, "References"@)
    &&& doc.sections.custom.entries@.len() == 0
    &&& doc.metadata.is_default()
}

/// The document that a résumé in the standard format becomes.
pub fn convert_resume(data: &JsonResume) -> (doc: ResumeData)
    ensures
        document_from(*data, doc),
{
    let mut doc = ResumeData::new();
    match &data.basics {
        Some(b) => {
            doc.basics.name = text_of(&b.name);
            doc.basics.headline = text_of(&b.label);
            doc.basics.picture.url = text_of(&b.image);
            doc.basics.email = text_of(&b.email);
            doc.basics.phone = text_of(&b.phone);
            doc.basics.url = Url::new(text_of(&b.url).as_str());
            match &b.location {
                Some(l) => {
                    doc.basics.location = l.to_string();
                },
                None => {
                    assert(doc.basics.location@ =~= Seq::<char>::empty());
                },
            }
            match &b.summary {
                Some(s) => {
                    doc.sections.summary = SummarySection::new(s.as_str());
                },
                None => {
                    assert(doc.sections.summary.content@ =~= Seq::<char>::empty());
                },
            }
            doc.sections.profiles = convert_section(&b.profiles, "profiles", "Profiles");
        },
        None => {},
    }
    doc.sections.experience = convert_section(&data.work, "experience", "Experience");
    doc.sections.education = convert_section(&data.education, "education", "Education");
    doc.sections.skills = convert_section(&data.skills, "skills", "Skills");
    doc.sections.projects = convert_section(&data.projects, "projects", "Projects");
    doc.sections.volunteer = convert_section(&data.volunteer, "volunteer", "Volunteer");
    doc.sections.awards = convert_section(&data.awards, "awards", "Awards");
    doc.sections.certifications = convert_section(
        &data.certificates,
        "certifications",
        "Certifications",
    );
    doc.sections.publications = convert_section(
        &data.publications,
        "publications",
        "Publications",
    );
    doc.sections.languages = convert_section(&data.languages, "languages", "Languages");
    doc.sections.interests = convert_section(&data.interests, "interests", "Interests");
    doc.sections.references = convert_section(&data.references, "references", "References");
    doc
}

/// Whether `doc` is a document that the adapter gives for the bytes: the
/// bytes are one JSON text with the structure of a résumé, and the
/// document is what a reading of it becomes.
pub open spec fn parse_gives(input: Seq<u8>, doc: ResumeData) -> bool {
    json_reading(input) matches Some(j) && exists|data: JsonResume|
        data.reads(j) && document_from(data, doc)
}

impl Parser for JsonResumeParser {
    type RawData = Json;

    type ValidatedData = JsonResume;

    /// The bytes can be read when they are one JSON text.
    open spec fn readable(input: Seq<u8>) -> bool {
        json_reading(input) is Some
    }

    open spec fn read_as(input: Seq<u8>, raw: Json) -> bool {
        json_reading(input) == Some(raw)
    }

    open spec fn valid(raw: Json) -> bool {
        JsonResume::admits(raw)
    }

    open spec fn validated_as(raw: Json, data: JsonResume) -> bool {
        data.reads(raw)
    }

    /// Every résumé of the right structure can be mapped.
    open spec fn convertible(data: JsonResume) -> bool {
        true
    }

    open spec fn converted_as(data: JsonResume, doc: ResumeData) -> bool {
        document_from(data, doc)
    }

    fn read(&self, input: &[u8]) -> (r: Result<Json, ParseError>)
        ensures
            r matches Err(e) ==> e is ReadError,
    {
        read_json(input)
    }

    fn validate(&self, data: Json) -> (r: Result<JsonResume, ParseError>)
        ensures
            r matches Err(e) ==> e is ValidationError,
    {
        JsonResume::decode(&data)
    }

    fn convert(&self, data: JsonResume) -> (r: Result<ResumeData, ParseError>) {
        Ok(convert_resume(&data))
    }

    /// The three stages in turn: a read error where the bytes are not one
    /// JSON text, a validation error where the text has not the structure
    /// of a résumé, else the document that the résumé becomes.
    fn parse(&self, input: &[u8]) -> (r: Result<ResumeData, ParseError>)
        ensures
            r matches Ok(doc) ==> parse_gives(input@, doc),
            match json_reading(input@) {
                None => r matches Err(e) && e is ReadError,
                Some(j) => if JsonResume::admits(j) {
                    r matches Ok(doc) && exists|data: JsonResume|
                        data.reads(j) && document_from(data, doc)
                } else {
                    r matches Err(e) && e is ValidationError
                },
            },
    {
        let raw = match self.read(input) {
            Ok(raw) => raw,
            Err(e) => return Err(e),
        };
        let data = match self.validate(raw) {
            Ok(data) => data,
            Err(e) => return Err(e),
        };
        let ghost checked = data;
        let r = self.convert(data);
        assert(r matches Ok(doc) && checked.reads(raw) && document_from(checked, doc));
        r
    }
}

} // verus!
