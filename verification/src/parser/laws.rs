//! What holds of the adapters, whatever the input.

use vstd::prelude::*;
use crate::parser::json_resume;
use crate::parser::json_resume_shape::JsonResume;
use crate::parser::linkedin;
use crate::parser::linkedin_shape::LinkedInData;
use crate::parser::reactive_resume_v3;
use crate::parser::reactive_resume_v3_shape::{V3CustomItem, V3Resume, V3Section};
use crate::parser::json_resume_shape::{
    JsonResumeAward, JsonResumeCertificate, JsonResumeEducation, JsonResumeInterest,
    JsonResumeLanguage, JsonResumeProfile, JsonResumeProject, JsonResumePublication,
    JsonResumeReference, JsonResumeSkill, JsonResumeVolunteer, JsonResumeWork,
};
use crate::parser::linkedin_shape::{
    LinkedInCertification, LinkedInEducation, LinkedInLanguage, LinkedInPosition, LinkedInProject,
};
use crate::parser::reactive_resume_v3_shape::{
    V3Award, V3Certification, V3Education, V3Experience, V3Interest, V3Language, V3Profile,
    V3Project, V3Publication, V3Reference, V3Skill, V3Volunteer,
};
use crate::parser::traits::{each_becomes, lemma_each_alike, Entry};
use crate::schema::items::{Education, Experience, Volunteer};
use crate::schema::metadata::Metadata;
use crate::schema::validation::{
    all_in_order, color_in_order, email_in_order, is_six_hex, url_in_order,
};
use crate::text::text_or_empty;
use crate::schema::alike::lemma_default_metadata_same;
use crate::schema::items::Content;
use crate::schema::resume::ResumeData;
use crate::schema::sections::Section;
use crate::schema::validation::Validate;
use crate::text::texts;

verus! {

/// A list of entries of the standard format becomes the same section every
/// time, but for identifiers.
pub proof fn lemma_standard_section_alike<A: Entry<B>, B: Content + Validate>(
    src: Option<Vec<A>>,
    a: Section<B>,
    b: Section<B>,
    id: Seq<char>,
    name: Seq<char>,
)
    requires
        json_resume::section_from(src, a, id, name),
        json_resume::section_from(src, b, id, name),
    ensures
        a.alike(b),
{
    match src {
        Some(v) => {
            lemma_each_alike(v@, a.items@, b.items@);
        },
        None => {
            assert(a.id@ =~= b.id@);
            assert(a.name@ =~= b.name@);
        },
    }
}

/// The standard format's adapter gives the same document for the same
/// résumé every time, but for the identifiers that it draws.
pub proof fn lemma_standard_deterministic(data: JsonResume, a: ResumeData, b: ResumeData)
    requires
        json_resume::document_from(data, a),
        json_resume::document_from(data, b),
    ensures
        a.alike(b),
{
    let x = a.sections;
    let y = b.sections;
    lemma_standard_section_alike(
        json_resume::profiles_of(data.basics),
        x.profiles,
        y.profiles,
        "profiles"@,
        "Profiles"@,
    );
    lemma_standard_section_alike(data.work, x.experience, y.experience, "experience"@, "Experience"@);
    lemma_standard_section_alike(data.education, x.education, y.education, "education"@, "Education"@);
    lemma_standard_section_alike(data.skills, x.skills, y.skills, "skills"@, "Skills"@);
    lemma_standard_section_alike(data.projects, x.projects, y.projects, "projects"@, "Projects"@);
    lemma_standard_section_alike(data.volunteer, x.volunteer, y.volunteer, "volunteer"@, "Volunteer"@);
    lemma_standard_section_alike(data.awards, x.awards, y.awards, "awards"@, "Awards"@);
    lemma_standard_section_alike(
        data.certificates,
        x.certifications,
        y.certifications,
        "certifications"@,
        "Certifications"@,
    );
    lemma_standard_section_alike(
        data.publications,
        x.publications,
        y.publications,
        "publications"@,
        "Publications"@,
    );
    lemma_standard_section_alike(data.languages, x.languages, y.languages, "languages"@, "Languages"@);
    lemma_standard_section_alike(data.interests, x.interests, y.interests, "interests"@, "Interests"@);
    lemma_standard_section_alike(
        data.references,
        x.references,
        y.references,
        "references"@,
        "References"@,
    );
    lemma_default_metadata_same(a.metadata, b.metadata);
    assert(a.basics.name@ =~= b.basics.name@);
    assert(a.basics.headline@ =~= b.basics.headline@);
    assert(a.basics.email@ =~= b.basics.email@);
    assert(a.basics.phone@ =~= b.basics.phone@);
    assert(a.basics.location@ =~= b.basics.location@);
    assert(a.basics.url.label@ =~= b.basics.url.label@);
    assert(a.basics.url.href@ =~= b.basics.url.href@);
    assert(a.basics.picture.url@ =~= b.basics.picture.url@);
    assert(x.summary.content@ =~= y.summary.content@);
}

/// The records of an export become the same section every time, but for
/// identifiers.
pub proof fn lemma_export_section_alike<A: Entry<B>, B: Content + Validate>(
    src: Seq<A>,
    a: Section<B>,
    b: Section<B>,
    id: Seq<char>,
    name: Seq<char>,
)
    requires
        linkedin::section_if_any(src, a, id, name),
        linkedin::section_if_any(src, b, id, name),
    ensures
        a.alike(b),
{
    if src.len() == 0 {
        assert(a.id@ =~= b.id@);
        assert(a.name@ =~= b.name@);
    } else {
        lemma_each_alike(src, a.items@, b.items@);
    }
}

/// A section without items is like any other without items that has the
/// same fields of its own.
pub proof fn lemma_empty_sections_alike<B: Content>(a: Section<B>, b: Section<B>)
    requires
        a.items@.len() == 0,
        b.items@.len() == 0,
        a.plain(),
        b.plain(),
        a.id@.len() == 0,
        b.id@.len() == 0,
        a.name@.len() == 0,
        b.name@.len() == 0,
    ensures
        a.alike(b),
{
    assert(a.id@ =~= b.id@);
    assert(a.name@ =~= b.name@);
}

/// The adapter for exports gives the same document for the same data every
/// time, but for the identifiers that it draws.
pub proof fn lemma_export_deterministic(data: LinkedInData, a: ResumeData, b: ResumeData)
    requires
        linkedin::document_from(data, a),
        linkedin::document_from(data, b),
    ensures
        a.alike(b),
{
    let x = a.sections;
    let y = b.sections;
    lemma_export_section_alike(data.positions@, x.experience, y.experience, "experience"@, "Experience"@);
    lemma_export_section_alike(data.education@, x.education, y.education, "education"@, "Education"@);
    lemma_export_section_alike(data.languages@, x.languages, y.languages, "languages"@, "Languages"@);
    lemma_export_section_alike(
        data.certifications@,
        x.certifications,
        y.certifications,
        "certifications"@,
        "Certifications"@,
    );
    lemma_export_section_alike(data.projects@, x.projects, y.projects, "projects"@, "Projects"@);
    lemma_default_metadata_same(a.metadata, b.metadata);
    assert(a.basics.name@ =~= b.basics.name@);
    assert(a.basics.headline@ =~= b.basics.headline@);
    assert(a.basics.email@ =~= b.basics.email@);
    assert(a.basics.phone@ =~= b.basics.phone@);
    assert(a.basics.location@ =~= b.basics.location@);
    assert(a.basics.url.label@ =~= b.basics.url.label@);
    assert(a.basics.url.href@ =~= b.basics.url.href@);
    assert(a.basics.picture.url@ =~= b.basics.picture.url@);
    assert(x.summary.content@ =~= y.summary.content@);
    assert(x.profiles.items@[0].username@ =~= y.profiles.items@[0].username@);
    assert(x.profiles.items@[0].url.label@ =~= y.profiles.items@[0].url.label@);
    assert(x.profiles.alike(y.profiles));
    assert(x.skills.alike(y.skills)) by {
        if data.skills@.len() == 0 {
            assert(x.skills.id@ =~= y.skills.id@);
            assert(x.skills.name@ =~= y.skills.name@);
        } else {
            assert forall|k: int| 0 <= k < x.skills.items@.len() implies (
            #[trigger] x.skills.items@[k]).alike(y.skills.items@[k]) by {
                let p = x.skills.items@[k];
                let q = y.skills.items@[k];
                assert(p.description@ =~= q.description@);
                assert(texts(p.keywords@) == texts(q.keywords@));
            }
        }
    }
    lemma_empty_sections_alike(x.awards, y.awards);
    lemma_empty_sections_alike(x.publications, y.publications);
    lemma_empty_sections_alike(x.interests, y.interests);
    lemma_empty_sections_alike(x.volunteer, y.volunteer);
    lemma_empty_sections_alike(x.references, y.references);
}

/// A section of the predecessor format becomes the same section every
/// time, but for identifiers.
pub proof fn lemma_predecessor_section_alike<A: Entry<B>, B: Content + Validate>(
    v3: V3Section<A>,
    a: Section<B>,
    b: Section<B>,
    id: Seq<char>,
    name: Seq<char>,
)
    requires
        reactive_resume_v3::section_from(v3, a, id, name),
        reactive_resume_v3::section_from(v3, b, id, name),
    ensures
        a.alike(b),
{
    lemma_each_alike(v3.items@, a.items@, b.items@);
}

/// The predecessor format's adapter gives the same document for the same
/// résumé every time, but for the identifiers that it draws where the
/// résumé gives none.
pub proof fn lemma_predecessor_deterministic(data: V3Resume, a: ResumeData, b: ResumeData)
    requires
        reactive_resume_v3::document_from(data, a),
        reactive_resume_v3::document_from(data, b),
    ensures
        a.alike(b),
{
    let v3 = data.sections;
    let x = a.sections;
    let y = b.sections;
    lemma_predecessor_section_alike(v3.profiles, x.profiles, y.profiles, "profiles"@, "Profiles"@);
    lemma_predecessor_section_alike(v3.experience, x.experience, y.experience, "experience"@, "Experience"@);
    lemma_predecessor_section_alike(v3.education, x.education, y.education, "education"@, "Education"@);
    lemma_predecessor_section_alike(v3.skills, x.skills, y.skills, "skills"@, "Skills"@);
    lemma_predecessor_section_alike(v3.languages, x.languages, y.languages, "languages"@, "Languages"@);
    lemma_predecessor_section_alike(v3.awards, x.awards, y.awards, "awards"@, "Awards"@);
    lemma_predecessor_section_alike(
        v3.certifications,
        x.certifications,
        y.certifications,
        "certifications"@,
        "Certifications"@,
    );
    lemma_predecessor_section_alike(v3.interests, x.interests, y.interests, "interests"@, "Interests"@);
    lemma_predecessor_section_alike(v3.projects, x.projects, y.projects, "projects"@, "Projects"@);
    lemma_predecessor_section_alike(
        v3.publications,
        x.publications,
        y.publications,
        "publications"@,
        "Publications"@,
    );
    lemma_predecessor_section_alike(v3.volunteer, x.volunteer, y.volunteer, "volunteer"@, "Volunteer"@);
    lemma_predecessor_section_alike(
        v3.references,
        x.references,
        y.references,
        "references"@,
        "References"@,
    );
    assert forall|i: int| 0 <= i < x.custom.entries@.len() implies (
    #[trigger] x.custom.entries@[i]).alike(y.custom.entries@[i]) by {
        lemma_predecessor_section_alike(
            v3.custom@[i].1,
            x.custom.entries@[i].section,
            y.custom.entries@[i].section,
            v3.custom@[i].0@,
            v3.custom@[i].0@,
        );
    }
    lemma_each_alike(data.basics.custom_fields@, a.basics.custom_fields@, b.basics.custom_fields@);
    assert(a.basics.url.label@ =~= b.basics.url.label@);
    assert(a.basics.url.href@ =~= b.basics.url.href@);
    assert(a.basics.picture.url@ =~= b.basics.picture.url@);
    assert(a.metadata.css.value@ =~= b.metadata.css.value@);
    assert(a.metadata.notes@ =~= b.metadata.notes@);
}

// ---------------------------------------------------------------------------
// Which documents of the adapters meet the rules
// ---------------------------------------------------------------------------

/// The colours that stand where none is set are in order.
pub proof fn lemma_default_colors_in_order()
    ensures
        color_in_order("#ffffff"@),
        color_in_order("#000000"@),
        color_in_order("#dc2626"@),
{
    reveal_strlit("#ffffff");
    reveal_strlit("#000000");
    reveal_strlit("#dc2626");
    assert(is_six_hex("#ffffff"@.skip(1)));
    assert(is_six_hex("#000000"@.skip(1)));
    assert(is_six_hex("#dc2626"@.skip(1)));
}

/// The presentation that stands where none is set meets every rule.
pub proof fn lemma_default_metadata_in_order(m: Metadata)
    requires
        m.is_default(),
    ensures
        m.in_order(),
{
    lemma_default_colors_in_order();
}

/// Whether each entry is in order, by a measure of its kind.
pub open spec fn each_sound<A>(src: Seq<A>, sound: spec_fn(A) -> bool) -> bool {
    forall|i: int| 0 <= i < src.len() ==> sound(#[trigger] src[i])
}

/// Where an item meets every rule exactly when the entry that it comes
/// from is in order, the items of a list meet every rule exactly when each
/// entry is in order.
pub proof fn lemma_items_in_order<A: Entry<B>, B: Content + Validate>(
    src: Seq<A>,
    items: Seq<B>,
    sound: spec_fn(A) -> bool,
)
    requires
        each_becomes(src, items),
        forall|a: A, b: B| #[trigger] a.becomes(b) ==> (b.in_order() <==> sound(a)),
    ensures
        all_in_order(items) <==> each_sound(src, sound),
{
    if all_in_order(items) {
        assert forall|i: int| 0 <= i < src.len() implies sound(#[trigger] src[i]) by {
            assert(src[i].becomes(items[i]));
            assert(items[i].in_order());
        }
    }
    if each_sound(src, sound) {
        assert forall|i: int| 0 <= i < items.len() implies (#[trigger] items[i]).in_order() by {
            assert(src[i].becomes(items[i]));
            assert(sound(src[i]));
        }
    }
}

/// Whether the link that an entry gives is in order. No link is in order.
pub open spec fn link_sound(url: Option<String>) -> bool {
    url_in_order(text_or_empty(url))
}

/// Whether each entry of a list that may be absent is in order.
pub open spec fn list_sound<A>(src: Option<Vec<A>>, sound: spec_fn(A) -> bool) -> bool {
    match src {
        Some(v) => each_sound(v@, sound),
        None => true,
    }
}

/// Whether the e-mail address and every link of a résumé in the standard
/// format are in order.
pub open spec fn standard_addresses_in_order(data: JsonResume) -> bool {
    &&& match data.basics {
        Some(b) => email_in_order(text_or_empty(b.email)) && link_sound(b.url) && list_sound(
            b.profiles,
            |p: JsonResumeProfile| link_sound(p.url),
        ),
        None => true,
    }
    &&& list_sound(data.work, |w: JsonResumeWork| link_sound(w.url))
    &&& list_sound(data.projects, |p: JsonResumeProject| link_sound(p.url))
    &&& list_sound(data.certificates, |c: JsonResumeCertificate| link_sound(c.url))
}

/// The section that a list of the standard format becomes meets every
/// rule exactly when each entry of the list is in order.
pub proof fn lemma_standard_section_in_order<A: Entry<B>, B: Content + Validate>(
    src: Option<Vec<A>>,
    section: Section<B>,
    id: Seq<char>,
    name: Seq<char>,
    sound: spec_fn(A) -> bool,
)
    requires
        json_resume::section_from(src, section, id, name),
        forall|a: A, b: B| #[trigger] a.becomes(b) ==> (b.in_order() <==> sound(a)),
    ensures
        section.in_order() <==> list_sound(src, sound),
{
    match src {
        Some(v) => {
            lemma_items_in_order(v@, section.items@, sound);
        },
        None => {},
    }
}

/// The document that the standard format's adapter gives meets every rule
/// exactly when the e-mail address and the links of the résumé are in
/// order: the adapter itself brings in nothing that breaks a rule.
pub proof fn lemma_standard_valid(data: JsonResume, doc: ResumeData)
    requires
        json_resume::document_from(data, doc),
    ensures
        doc.in_order() <==> standard_addresses_in_order(data),
{
    let x = doc.sections;
    lemma_standard_section_in_order(
        json_resume::profiles_of(data.basics),
        x.profiles,
        "profiles"@,
        "Profiles"@,
        |p: JsonResumeProfile| link_sound(p.url),
    );
    lemma_standard_section_in_order(
        data.work,
        x.experience,
        "experience"@,
        "Experience"@,
        |w: JsonResumeWork| link_sound(w.url),
    );
    lemma_standard_section_in_order(
        data.education,
        x.education,
        "education"@,
        "Education"@,
        |e: JsonResumeEducation| true,
    );
    lemma_standard_section_in_order(
        data.skills,
        x.skills,
        "skills"@,
        "Skills"@,
        |e: JsonResumeSkill| true,
    );
    lemma_standard_section_in_order(
        data.projects,
        x.projects,
        "projects"@,
        "Projects"@,
        |p: JsonResumeProject| link_sound(p.url),
    );
    lemma_standard_section_in_order(
        data.volunteer,
        x.volunteer,
        "volunteer"@,
        "Volunteer"@,
        |e: JsonResumeVolunteer| true,
    );
    lemma_standard_section_in_order(
        data.awards,
        x.awards,
        "awards"@,
        "Awards"@,
        |e: JsonResumeAward| true,
    );
    lemma_standard_section_in_order(
        data.certificates,
        x.certifications,
        "certifications"@,
        "Certifications"@,
        |c: JsonResumeCertificate| link_sound(c.url),
    );
    lemma_standard_section_in_order(
        data.publications,
        x.publications,
        "publications"@,
        "Publications"@,
        |e: JsonResumePublication| true,
    );
    lemma_standard_section_in_order(
        data.languages,
        x.languages,
        "languages"@,
        "Languages"@,
        |e: JsonResumeLanguage| true,
    );
    lemma_standard_section_in_order(
        data.interests,
        x.interests,
        "interests"@,
        "Interests"@,
        |e: JsonResumeInterest| true,
    );
    lemma_standard_section_in_order(
        data.references,
        x.references,
        "references"@,
        "References"@,
        |e: JsonResumeReference| true,
    );
    lemma_default_metadata_in_order(doc.metadata);
}

/// The section that the records of an export become meets every rule
/// exactly when each record is in order.
pub proof fn lemma_export_section_in_order<A: Entry<B>, B: Content + Validate>(
    src: Seq<A>,
    section: Section<B>,
    id: Seq<char>,
    name: Seq<char>,
    sound: spec_fn(A) -> bool,
)
    requires
        linkedin::section_if_any(src, section, id, name),
        forall|a: A, b: B| #[trigger] a.becomes(b) ==> (b.in_order() <==> sound(a)),
    ensures
        section.in_order() <==> each_sound(src, sound),
{
    if src.len() > 0 {
        lemma_items_in_order(src, section.items@, sound);
    }
}

/// Whether the addresses of an export are in order: the first e-mail
/// address, the first web site, the links of certificates and projects,
/// and the address under which the network keeps its members.
pub open spec fn export_addresses_in_order(data: LinkedInData) -> bool {
    &&& email_in_order(linkedin::first_or_empty(data.emails@))
    &&& match data.profile {
        Some(p) => url_in_order(linkedin::first_or_empty(p.websites@)),
        None => true,
    }
    &&& url_in_order("https://linkedin.com/in/"@)
    &&& each_sound(data.certifications@, |c: LinkedInCertification| link_sound(c.url))
    &&& each_sound(data.projects@, |p: LinkedInProject| link_sound(p.url))
}

/// The document that the adapter for exports gives meets every rule
/// exactly when the addresses of the export are in order.
pub proof fn lemma_export_valid(data: LinkedInData, doc: ResumeData)
    requires
        linkedin::document_from(data, doc),
    ensures
        doc.in_order() <==> export_addresses_in_order(data),
{
    let x = doc.sections;
    lemma_export_section_in_order(
        data.positions@,
        x.experience,
        "experience"@,
        "Experience"@,
        |e: LinkedInPosition| true,
    );
    lemma_export_section_in_order(
        data.education@,
        x.education,
        "education"@,
        "Education"@,
        |e: LinkedInEducation| true,
    );
    lemma_export_section_in_order(
        data.languages@,
        x.languages,
        "languages"@,
        "Languages"@,
        |e: LinkedInLanguage| true,
    );
    lemma_export_section_in_order(
        data.certifications@,
        x.certifications,
        "certifications"@,
        "Certifications"@,
        |c: LinkedInCertification| link_sound(c.url),
    );
    lemma_export_section_in_order(
        data.projects@,
        x.projects,
        "projects"@,
        "Projects"@,
        |p: LinkedInProject| link_sound(p.url),
    );
    lemma_default_metadata_in_order(doc.metadata);
    assert(x.profiles.in_order() <==> url_in_order("https://linkedin.com/in/"@)) by {
        assert(x.profiles.items@[0].in_order() <==> url_in_order("https://linkedin.com/in/"@));
        if x.profiles.items@[0].in_order() {
            assert forall|i: int| 0 <= i < x.profiles.items@.len() implies (
            #[trigger] x.profiles.items@[i]).in_order() by {}
        }
    }
}

/// Whether a link of either form is in order. No link is in order.
pub open spec fn either_link_sound(url: Option<crate::parser::reactive_resume_v3_shape::V3Url>) -> bool {
    match url {
        Some(u) => url_in_order(u.href()),
        None => true,
    }
}

/// Whether a number of columns that may be absent is in range: from 1 to
/// 5, where it is given.
pub open spec fn columns_sound(columns: Option<u8>) -> bool {
    match columns {
        Some(c) => 1 <= c <= 5,
        None => true,
    }
}

/// Whether a section of the predecessor format is in order: its number of
/// columns and each of its items.
pub open spec fn section_sound<A>(v3: V3Section<A>, sound: spec_fn(A) -> bool) -> bool {
    columns_sound(v3.columns) && each_sound(v3.items@, sound)
}

/// The section that a section of the predecessor format becomes meets
/// every rule exactly when that section is in order.
pub proof fn lemma_predecessor_section_in_order<A: Entry<B>, B: Content + Validate>(
    v3: V3Section<A>,
    section: Section<B>,
    id: Seq<char>,
    name: Seq<char>,
    sound: spec_fn(A) -> bool,
)
    requires
        reactive_resume_v3::section_from(v3, section, id, name),
        forall|a: A, b: B| #[trigger] a.becomes(b) ==> (b.in_order() <==> sound(a)),
    ensures
        section.in_order() <==> section_sound(v3, sound),
{
    lemma_items_in_order(v3.items@, section.items@, sound);
}

/// Whether each of the subject's own sections is in order.
pub open spec fn custom_sound(v3: Seq<(String, V3Section<V3CustomItem>)>) -> bool {
    forall|i: int|
        0 <= i < v3.len() ==> section_sound(
            (#[trigger] v3[i]).1,
            |x: V3CustomItem| either_link_sound(x.url),
        )
}

/// Whether a résumé in the predecessor format is in order: its e-mail
/// address and links, the number of columns of each section, and the
/// colours that it sets.
pub open spec fn predecessor_in_order(data: V3Resume) -> bool {
    let s = data.sections;
    &&& email_in_order(text_or_empty(data.basics.email))
    &&& either_link_sound(data.basics.url)
    &&& section_sound(s.profiles, |x: V3Profile| either_link_sound(x.url))
    &&& section_sound(s.experience, |x: V3Experience| either_link_sound(x.url))
    &&& section_sound(s.education, |x: V3Education| true)
    &&& section_sound(s.skills, |x: V3Skill| true)
    &&& section_sound(s.languages, |x: V3Language| true)
    &&& section_sound(s.awards, |x: V3Award| either_link_sound(x.url))
    &&& section_sound(s.certifications, |x: V3Certification| either_link_sound(x.url))
    &&& section_sound(s.interests, |x: V3Interest| true)
    &&& section_sound(s.projects, |x: V3Project| either_link_sound(x.url))
    &&& section_sound(s.publications, |x: V3Publication| either_link_sound(x.url))
    &&& section_sound(s.volunteer, |x: V3Volunteer| either_link_sound(x.url))
    &&& section_sound(s.references, |x: V3Reference| either_link_sound(x.url))
    &&& custom_sound(s.custom@)
    &&& color_in_order(reactive_resume_v3::text_or(data.metadata.theme.background, "#ffffff"@))
    &&& color_in_order(reactive_resume_v3::text_or(data.metadata.theme.text, "#000000"@))
    &&& color_in_order(reactive_resume_v3::text_or(data.metadata.theme.primary, "#dc2626"@))
}

/// The document that the predecessor format's adapter gives meets every
/// rule exactly when the résumé is in order.
pub proof fn lemma_predecessor_valid(data: V3Resume, doc: ResumeData)
    requires
        reactive_resume_v3::document_from(data, doc),
    ensures
        doc.in_order() <==> predecessor_in_order(data),
{
    let v3 = data.sections;
    let x = doc.sections;
    lemma_predecessor_section_in_order(
        v3.profiles,
        x.profiles,
        "profiles"@,
        "Profiles"@,
        |x: V3Profile| either_link_sound(x.url),
    );
    lemma_predecessor_section_in_order(
        v3.experience,
        x.experience,
        "experience"@,
        "Experience"@,
        |x: V3Experience| either_link_sound(x.url),
    );
    lemma_predecessor_section_in_order(
        v3.education,
        x.education,
        "education"@,
        "Education"@,
        |x: V3Education| true,
    );
    lemma_predecessor_section_in_order(v3.skills, x.skills, "skills"@, "Skills"@, |x: V3Skill| true);
    lemma_predecessor_section_in_order(
        v3.languages,
        x.languages,
        "languages"@,
        "Languages"@,
        |x: V3Language| true,
    );
    lemma_predecessor_section_in_order(
        v3.awards,
        x.awards,
        "awards"@,
        "Awards"@,
        |x: V3Award| either_link_sound(x.url),
    );
    lemma_predecessor_section_in_order(
        v3.certifications,
        x.certifications,
        "certifications"@,
        "Certifications"@,
        |x: V3Certification| either_link_sound(x.url),
    );
    lemma_predecessor_section_in_order(
        v3.interests,
        x.interests,
        "interests"@,
        "Interests"@,
        |x: V3Interest| true,
    );
    lemma_predecessor_section_in_order(
        v3.projects,
        x.projects,
        "projects"@,
        "Projects"@,
        |x: V3Project| either_link_sound(x.url),
    );
    lemma_predecessor_section_in_order(
        v3.publications,
        x.publications,
        "publications"@,
        "Publications"@,
        |x: V3Publication| either_link_sound(x.url),
    );
    lemma_predecessor_section_in_order(
        v3.volunteer,
        x.volunteer,
        "volunteer"@,
        "Volunteer"@,
        |x: V3Volunteer| either_link_sound(x.url),
    );
    lemma_predecessor_section_in_order(
        v3.references,
        x.references,
        "references"@,
        "References"@,
        |x: V3Reference| either_link_sound(x.url),
    );
    assert(x.custom.in_order() <==> custom_sound(v3.custom@)) by {
        let entries = x.custom.entries@;
        let sound = |x: V3CustomItem| either_link_sound(x.url);
        assert forall|i: int| 0 <= i < entries.len() implies ((#[trigger] entries[i]).in_order()
            <==> section_sound(v3.custom@[i].1, sound)) by {
            lemma_predecessor_section_in_order(
                v3.custom@[i].1,
                entries[i].section,
                v3.custom@[i].0@,
                v3.custom@[i].0@,
                sound,
            );
        }
        if all_in_order(entries) {
            assert forall|i: int| 0 <= i < v3.custom@.len() implies section_sound(
                (#[trigger] v3.custom@[i]).1,
                sound,
            ) by {
                assert(entries[i].in_order());
            }
        }
        if custom_sound(v3.custom@) {
            assert forall|i: int| 0 <= i < entries.len() implies (#[trigger] entries[i]).in_order() by {
                assert(section_sound(v3.custom@[i].1, sound));
            }
        }
    }
}

} // verus!
