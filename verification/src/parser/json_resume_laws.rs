//! The standard format's adapter, from bytes to document: the same bytes
//! give the same document every time, but for the identifiers that are
//! drawn.

use vstd::prelude::*;
use crate::json::{given, json_reading, Json};
use crate::parser::json_resume::{parse_gives, document_from};
use crate::parser::json_resume_shape::{
    JsonResume, JsonResumeAward, JsonResumeCertificate, JsonResumeEducation, JsonResumeInterest,
    JsonResumeLanguage, JsonResumeProfile, JsonResumeProject, JsonResumePublication,
    JsonResumeReference, JsonResumeSkill, JsonResumeVolunteer, JsonResumeWork,
};
use crate::parser::traits::{each_becomes, Entry};
use crate::schema::alike::lemma_default_metadata_same;
use crate::schema::items::{
    all_alike, Award, Certification, Content, Education, Experience, Interest, Language, Profile,
    Project, Publication, Reference, Skill, Volunteer,
};
use crate::schema::resume::ResumeData;
use crate::text::texts;

verus! {

/// Two readings of one value become items that agree in all but their
/// identifiers.
pub proof fn lemma_profile_read_alike(j: Json, x: JsonResumeProfile, y: JsonResumeProfile, a: Profile, b: Profile)
    requires
        x.reads(j),
        y.reads(j),
        x.becomes(a),
        y.becomes(b),
    ensures
        a.alike(b),
{
    assert(a.network@ =~= b.network@);
    assert(a.username@ =~= b.username@);
    assert(a.icon@ =~= b.icon@);
    assert(a.url.label@ =~= b.url.label@);
    assert(a.url.href@ =~= b.url.href@);
}

/// Two readings of one array become items that agree, one for one, in all
/// but their identifiers.
pub proof fn lemma_profile_list_read_alike(j: Json, xs: Seq<JsonResumeProfile>, ys: Seq<JsonResumeProfile>, a: Seq<Profile>, b: Seq<Profile>)
    requires
        JsonResumeProfile::reads_list(xs, j),
        JsonResumeProfile::reads_list(ys, j),
        each_becomes(xs, a),
        each_becomes(ys, b),
    ensures
        all_alike(a, b),
{
    match j {
        Json::Array(v) => {
            assert forall|i: int| 0 <= i < a.len() implies (#[trigger] a[i]).alike(b[i]) by {
                lemma_profile_read_alike(v@[i], xs[i], ys[i], a[i], b[i]);
            }
        },
        _ => {},
    }
}

/// Two readings of one value become items that agree in all but their
/// identifiers.
pub proof fn lemma_work_read_alike(j: Json, x: JsonResumeWork, y: JsonResumeWork, a: Experience, b: Experience)
    requires
        x.reads(j),
        y.reads(j),
        x.becomes(a),
        y.becomes(b),
    ensures
        a.alike(b),
{
    assert(a.company@ =~= b.company@);
    assert(a.position@ =~= b.position@);
    assert(a.location@ =~= b.location@);
    assert(a.date@ =~= b.date@);
    assert(a.summary@ =~= b.summary@);
    assert(a.url.label@ =~= b.url.label@);
    assert(a.url.href@ =~= b.url.href@);
}

/// Two readings of one array become items that agree, one for one, in all
/// but their identifiers.
pub proof fn lemma_work_list_read_alike(j: Json, xs: Seq<JsonResumeWork>, ys: Seq<JsonResumeWork>, a: Seq<Experience>, b: Seq<Experience>)
    requires
        JsonResumeWork::reads_list(xs, j),
        JsonResumeWork::reads_list(ys, j),
        each_becomes(xs, a),
        each_becomes(ys, b),
    ensures
        all_alike(a, b),
{
    match j {
        Json::Array(v) => {
            assert forall|i: int| 0 <= i < a.len() implies (#[trigger] a[i]).alike(b[i]) by {
                lemma_work_read_alike(v@[i], xs[i], ys[i], a[i], b[i]);
            }
        },
        _ => {},
    }
}

/// Two readings of one value become items that agree in all but their
/// identifiers.
pub proof fn lemma_education_read_alike(j: Json, x: JsonResumeEducation, y: JsonResumeEducation, a: Education, b: Education)
    requires
        x.reads(j),
        y.reads(j),
        x.becomes(a),
        y.becomes(b),
    ensures
        a.alike(b),
{
    assert(a.institution@ =~= b.institution@);
    assert(a.area@ =~= b.area@);
    assert(a.study_type@ =~= b.study_type@);
    assert(a.date@ =~= b.date@);
    assert(a.score@ =~= b.score@);
    assert(a.summary@ =~= b.summary@);
    assert(a.url.label@ =~= b.url.label@);
    assert(a.url.href@ =~= b.url.href@);
}

/// Two readings of one array become items that agree, one for one, in all
/// but their identifiers.
pub proof fn lemma_education_list_read_alike(j: Json, xs: Seq<JsonResumeEducation>, ys: Seq<JsonResumeEducation>, a: Seq<Education>, b: Seq<Education>)
    requires
        JsonResumeEducation::reads_list(xs, j),
        JsonResumeEducation::reads_list(ys, j),
        each_becomes(xs, a),
        each_becomes(ys, b),
    ensures
        all_alike(a, b),
{
    match j {
        Json::Array(v) => {
            assert forall|i: int| 0 <= i < a.len() implies (#[trigger] a[i]).alike(b[i]) by {
                lemma_education_read_alike(v@[i], xs[i], ys[i], a[i], b[i]);
            }
        },
        _ => {},
    }
}

/// Two readings of one value become items that agree in all but their
/// identifiers.
pub proof fn lemma_skill_read_alike(j: Json, x: JsonResumeSkill, y: JsonResumeSkill, a: Skill, b: Skill)
    requires
        x.reads(j),
        y.reads(j),
        x.becomes(a),
        y.becomes(b),
    ensures
        a.alike(b),
{
    assert(a.name@ =~= b.name@);
    assert(a.description@ =~= b.description@);
    assert(texts(a.keywords@) =~= texts(b.keywords@));
}

/// Two readings of one array become items that agree, one for one, in all
/// but their identifiers.
pub proof fn lemma_skill_list_read_alike(j: Json, xs: Seq<JsonResumeSkill>, ys: Seq<JsonResumeSkill>, a: Seq<Skill>, b: Seq<Skill>)
    requires
        JsonResumeSkill::reads_list(xs, j),
        JsonResumeSkill::reads_list(ys, j),
        each_becomes(xs, a),
        each_becomes(ys, b),
    ensures
        all_alike(a, b),
{
    match j {
        Json::Array(v) => {
            assert forall|i: int| 0 <= i < a.len() implies (#[trigger] a[i]).alike(b[i]) by {
                lemma_skill_read_alike(v@[i], xs[i], ys[i], a[i], b[i]);
            }
        },
        _ => {},
    }
}

/// Two readings of one value become items that agree in all but their
/// identifiers.
pub proof fn lemma_project_read_alike(j: Json, x: JsonResumeProject, y: JsonResumeProject, a: Project, b: Project)
    requires
        x.reads(j),
        y.reads(j),
        x.becomes(a),
        y.becomes(b),
    ensures
        a.alike(b),
{
    assert(a.name@ =~= b.name@);
    assert(a.description@ =~= b.description@);
    assert(a.date@ =~= b.date@);
    assert(a.summary@ =~= b.summary@);
    assert(texts(a.keywords@) =~= texts(b.keywords@));
    assert(a.url.label@ =~= b.url.label@);
    assert(a.url.href@ =~= b.url.href@);
}

/// Two readings of one array become items that agree, one for one, in all
/// but their identifiers.
pub proof fn lemma_project_list_read_alike(j: Json, xs: Seq<JsonResumeProject>, ys: Seq<JsonResumeProject>, a: Seq<Project>, b: Seq<Project>)
    requires
        JsonResumeProject::reads_list(xs, j),
        JsonResumeProject::reads_list(ys, j),
        each_becomes(xs, a),
        each_becomes(ys, b),
    ensures
        all_alike(a, b),
{
    match j {
        Json::Array(v) => {
            assert forall|i: int| 0 <= i < a.len() implies (#[trigger] a[i]).alike(b[i]) by {
                lemma_project_read_alike(v@[i], xs[i], ys[i], a[i], b[i]);
            }
        },
        _ => {},
    }
}

/// Two readings of one value become items that agree in all but their
/// identifiers.
pub proof fn lemma_volunteer_read_alike(j: Json, x: JsonResumeVolunteer, y: JsonResumeVolunteer, a: Volunteer, b: Volunteer)
    requires
        x.reads(j),
        y.reads(j),
        x.becomes(a),
        y.becomes(b),
    ensures
        a.alike(b),
{
    assert(a.organization@ =~= b.organization@);
    assert(a.position@ =~= b.position@);
    assert(a.location@ =~= b.location@);
    assert(a.date@ =~= b.date@);
    assert(a.summary@ =~= b.summary@);
    assert(a.url.label@ =~= b.url.label@);
    assert(a.url.href@ =~= b.url.href@);
}

/// Two readings of one array become items that agree, one for one, in all
/// but their identifiers.
pub proof fn lemma_volunteer_list_read_alike(j: Json, xs: Seq<JsonResumeVolunteer>, ys: Seq<JsonResumeVolunteer>, a: Seq<Volunteer>, b: Seq<Volunteer>)
    requires
        JsonResumeVolunteer::reads_list(xs, j),
        JsonResumeVolunteer::reads_list(ys, j),
        each_becomes(xs, a),
        each_becomes(ys, b),
    ensures
        all_alike(a, b),
{
    match j {
        Json::Array(v) => {
            assert forall|i: int| 0 <= i < a.len() implies (#[trigger] a[i]).alike(b[i]) by {
                lemma_volunteer_read_alike(v@[i], xs[i], ys[i], a[i], b[i]);
            }
        },
        _ => {},
    }
}

/// Two readings of one value become items that agree in all but their
/// identifiers.
pub proof fn lemma_award_read_alike(j: Json, x: JsonResumeAward, y: JsonResumeAward, a: Award, b: Award)
    requires
        x.reads(j),
        y.reads(j),
        x.becomes(a),
        y.becomes(b),
    ensures
        a.alike(b),
{
    assert(a.title@ =~= b.title@);
    assert(a.awarder@ =~= b.awarder@);
    assert(a.date@ =~= b.date@);
    assert(a.summary@ =~= b.summary@);
    assert(a.url.label@ =~= b.url.label@);
    assert(a.url.href@ =~= b.url.href@);
}

/// Two readings of one array become items that agree, one for one, in all
/// but their identifiers.
pub proof fn lemma_award_list_read_alike(j: Json, xs: Seq<JsonResumeAward>, ys: Seq<JsonResumeAward>, a: Seq<Award>, b: Seq<Award>)
    requires
        JsonResumeAward::reads_list(xs, j),
        JsonResumeAward::reads_list(ys, j),
        each_becomes(xs, a),
        each_becomes(ys, b),
    ensures
        all_alike(a, b),
{
    match j {
        Json::Array(v) => {
            assert forall|i: int| 0 <= i < a.len() implies (#[trigger] a[i]).alike(b[i]) by {
                lemma_award_read_alike(v@[i], xs[i], ys[i], a[i], b[i]);
            }
        },
        _ => {},
    }
}

/// Two readings of one value become items that agree in all but their
/// identifiers.
pub proof fn lemma_certificate_read_alike(j: Json, x: JsonResumeCertificate, y: JsonResumeCertificate, a: Certification, b: Certification)
    requires
        x.reads(j),
        y.reads(j),
        x.becomes(a),
        y.becomes(b),
    ensures
        a.alike(b),
{
    assert(a.name@ =~= b.name@);
    assert(a.issuer@ =~= b.issuer@);
    assert(a.date@ =~= b.date@);
    assert(a.summary@ =~= b.summary@);
    assert(a.url.label@ =~= b.url.label@);
    assert(a.url.href@ =~= b.url.href@);
}

/// Two readings of one array become items that agree, one for one, in all
/// but their identifiers.
pub proof fn lemma_certificate_list_read_alike(j: Json, xs: Seq<JsonResumeCertificate>, ys: Seq<JsonResumeCertificate>, a: Seq<Certification>, b: Seq<Certification>)
    requires
        JsonResumeCertificate::reads_list(xs, j),
        JsonResumeCertificate::reads_list(ys, j),
        each_becomes(xs, a),
        each_becomes(ys, b),
    ensures
        all_alike(a, b),
{
    match j {
        Json::Array(v) => {
            assert forall|i: int| 0 <= i < a.len() implies (#[trigger] a[i]).alike(b[i]) by {
                lemma_certificate_read_alike(v@[i], xs[i], ys[i], a[i], b[i]);
            }
        },
        _ => {},
    }
}

/// Two readings of one value become items that agree in all but their
/// identifiers.
pub proof fn lemma_publication_read_alike(j: Json, x: JsonResumePublication, y: JsonResumePublication, a: Publication, b: Publication)
    requires
        x.reads(j),
        y.reads(j),
        x.becomes(a),
        y.becomes(b),
    ensures
        a.alike(b),
{
    assert(a.name@ =~= b.name@);
    assert(a.publisher@ =~= b.publisher@);
    assert(a.date@ =~= b.date@);
    assert(a.summary@ =~= b.summary@);
    assert(a.url.label@ =~= b.url.label@);
    assert(a.url.href@ =~= b.url.href@);
}

/// Two readings of one array become items that agree, one for one, in all
/// but their identifiers.
pub proof fn lemma_publication_list_read_alike(j: Json, xs: Seq<JsonResumePublication>, ys: Seq<JsonResumePublication>, a: Seq<Publication>, b: Seq<Publication>)
    requires
        JsonResumePublication::reads_list(xs, j),
        JsonResumePublication::reads_list(ys, j),
        each_becomes(xs, a),
        each_becomes(ys, b),
    ensures
        all_alike(a, b),
{
    match j {
        Json::Array(v) => {
            assert forall|i: int| 0 <= i < a.len() implies (#[trigger] a[i]).alike(b[i]) by {
                lemma_publication_read_alike(v@[i], xs[i], ys[i], a[i], b[i]);
            }
        },
        _ => {},
    }
}

/// Two readings of one value become items that agree in all but their
/// identifiers.
pub proof fn lemma_language_read_alike(j: Json, x: JsonResumeLanguage, y: JsonResumeLanguage, a: Language, b: Language)
    requires
        x.reads(j),
        y.reads(j),
        x.becomes(a),
        y.becomes(b),
    ensures
        a.alike(b),
{
    assert(a.name@ =~= b.name@);
    assert(a.description@ =~= b.description@);
}

/// Two readings of one array become items that agree, one for one, in all
/// but their identifiers.
pub proof fn lemma_language_list_read_alike(j: Json, xs: Seq<JsonResumeLanguage>, ys: Seq<JsonResumeLanguage>, a: Seq<Language>, b: Seq<Language>)
    requires
        JsonResumeLanguage::reads_list(xs, j),
        JsonResumeLanguage::reads_list(ys, j),
        each_becomes(xs, a),
        each_becomes(ys, b),
    ensures
        all_alike(a, b),
{
    match j {
        Json::Array(v) => {
            assert forall|i: int| 0 <= i < a.len() implies (#[trigger] a[i]).alike(b[i]) by {
                lemma_language_read_alike(v@[i], xs[i], ys[i], a[i], b[i]);
            }
        },
        _ => {},
    }
}

/// Two readings of one value become items that agree in all but their
/// identifiers.
pub proof fn lemma_interest_read_alike(j: Json, x: JsonResumeInterest, y: JsonResumeInterest, a: Interest, b: Interest)
    requires
        x.reads(j),
        y.reads(j),
        x.becomes(a),
        y.becomes(b),
    ensures
        a.alike(b),
{
    assert(a.name@ =~= b.name@);
    assert(texts(a.keywords@) =~= texts(b.keywords@));
}

/// Two readings of one array become items that agree, one for one, in all
/// but their identifiers.
pub proof fn lemma_interest_list_read_alike(j: Json, xs: Seq<JsonResumeInterest>, ys: Seq<JsonResumeInterest>, a: Seq<Interest>, b: Seq<Interest>)
    requires
        JsonResumeInterest::reads_list(xs, j),
        JsonResumeInterest::reads_list(ys, j),
        each_becomes(xs, a),
        each_becomes(ys, b),
    ensures
        all_alike(a, b),
{
    match j {
        Json::Array(v) => {
            assert forall|i: int| 0 <= i < a.len() implies (#[trigger] a[i]).alike(b[i]) by {
                lemma_interest_read_alike(v@[i], xs[i], ys[i], a[i], b[i]);
            }
        },
        _ => {},
    }
}

/// Two readings of one value become items that agree in all but their
/// identifiers.
pub proof fn lemma_reference_read_alike(j: Json, x: JsonResumeReference, y: JsonResumeReference, a: Reference, b: Reference)
    requires
        x.reads(j),
        y.reads(j),
        x.becomes(a),
        y.becomes(b),
    ensures
        a.alike(b),
{
    assert(a.name@ =~= b.name@);
    assert(a.description@ =~= b.description@);
    assert(a.summary@ =~= b.summary@);
    assert(a.url.label@ =~= b.url.label@);
    assert(a.url.href@ =~= b.url.href@);
}

/// Two readings of one array become items that agree, one for one, in all
/// but their identifiers.
pub proof fn lemma_reference_list_read_alike(j: Json, xs: Seq<JsonResumeReference>, ys: Seq<JsonResumeReference>, a: Seq<Reference>, b: Seq<Reference>)
    requires
        JsonResumeReference::reads_list(xs, j),
        JsonResumeReference::reads_list(ys, j),
        each_becomes(xs, a),
        each_becomes(ys, b),
    ensures
        all_alike(a, b),
{
    match j {
        Json::Array(v) => {
            assert forall|i: int| 0 <= i < a.len() implies (#[trigger] a[i]).alike(b[i]) by {
                lemma_reference_read_alike(v@[i], xs[i], ys[i], a[i], b[i]);
            }
        },
        _ => {},
    }
}

/// Two readings of one value become documents that agree in all but the
/// identifiers of their items.
pub proof fn lemma_read_deterministic(
    j: Json,
    s: JsonResume,
    t: JsonResume,
    a: ResumeData,
    b: ResumeData,
)
    requires
        s.reads(j),
        t.reads(j),
        document_from(s, a),
        document_from(t, b),
    ensures
        a.alike(b),
{
    let x = a.sections;
    let y = b.sections;
    lemma_default_metadata_same(a.metadata, b.metadata);
    match given(j, "basics"@) {
        Some(v) => {
            let p = s.basics->0;
            let q = t.basics->0;
            match given(v, "profiles"@) {
                Some(w) => {
                    lemma_profile_list_read_alike(
                        w,
                        p.profiles->0@,
                        q.profiles->0@,
                        x.profiles.items@,
                        y.profiles.items@,
                    );
                },
                None => {
                    assert(x.profiles.id@ =~= y.profiles.id@);
                    assert(x.profiles.name@ =~= y.profiles.name@);
                },
            }
            match given(v, "location"@) {
                Some(w) => {
                    assert(p.location->0.parts() =~= q.location->0.parts());
                },
                None => {},
            }
            assert(a.basics.location@ =~= b.basics.location@);
        },
        None => {
            assert(x.profiles.id@ =~= y.profiles.id@);
            assert(x.profiles.name@ =~= y.profiles.name@);
            assert(a.basics.location@ =~= b.basics.location@);
        },
    }
    assert(a.basics.name@ =~= b.basics.name@);
    assert(a.basics.headline@ =~= b.basics.headline@);
    assert(a.basics.email@ =~= b.basics.email@);
    assert(a.basics.phone@ =~= b.basics.phone@);
    assert(a.basics.url.label@ =~= b.basics.url.label@);
    assert(a.basics.url.href@ =~= b.basics.url.href@);
    assert(a.basics.picture.url@ =~= b.basics.picture.url@);
    assert(x.summary.content@ =~= y.summary.content@);
    match given(j, "work"@) {
        Some(v) => {
            lemma_work_list_read_alike(
                v,
                s.work->0@,
                t.work->0@,
                x.experience.items@,
                y.experience.items@,
            );
        },
        None => {
            assert(x.experience.id@ =~= y.experience.id@);
            assert(x.experience.name@ =~= y.experience.name@);
        },
    }
    match given(j, "education"@) {
        Some(v) => {
            lemma_education_list_read_alike(
                v,
                s.education->0@,
                t.education->0@,
                x.education.items@,
                y.education.items@,
            );
        },
        None => {
            assert(x.education.id@ =~= y.education.id@);
            assert(x.education.name@ =~= y.education.name@);
        },
    }
    match given(j, "skills"@) {
        Some(v) => {
            lemma_skill_list_read_alike(
                v,
                s.skills->0@,
                t.skills->0@,
                x.skills.items@,
                y.skills.items@,
            );
        },
        None => {
            assert(x.skills.id@ =~= y.skills.id@);
            assert(x.skills.name@ =~= y.skills.name@);
        },
    }
    match given(j, "projects"@) {
        Some(v) => {
            lemma_project_list_read_alike(
                v,
                s.projects->0@,
                t.projects->0@,
                x.projects.items@,
                y.projects.items@,
            );
        },
        None => {
            assert(x.projects.id@ =~= y.projects.id@);
            assert(x.projects.name@ =~= y.projects.name@);
        },
    }
    match given(j, "volunteer"@) {
        Some(v) => {
            lemma_volunteer_list_read_alike(
                v,
                s.volunteer->0@,
                t.volunteer->0@,
                x.volunteer.items@,
                y.volunteer.items@,
            );
        },
        None => {
            assert(x.volunteer.id@ =~= y.volunteer.id@);
            assert(x.volunteer.name@ =~= y.volunteer.name@);
        },
    }
    match given(j, "awards"@) {
        Some(v) => {
            lemma_award_list_read_alike(
                v,
                s.awards->0@,
                t.awards->0@,
                x.awards.items@,
                y.awards.items@,
            );
        },
        None => {
            assert(x.awards.id@ =~= y.awards.id@);
            assert(x.awards.name@ =~= y.awards.name@);
        },
    }
    match given(j, "certificates"@) {
        Some(v) => {
            lemma_certificate_list_read_alike(
                v,
                s.certificates->0@,
                t.certificates->0@,
                x.certifications.items@,
                y.certifications.items@,
            );
        },
        None => {
            assert(x.certifications.id@ =~= y.certifications.id@);
            assert(x.certifications.name@ =~= y.certifications.name@);
        },
    }
    match given(j, "publications"@) {
        Some(v) => {
            lemma_publication_list_read_alike(
                v,
                s.publications->0@,
                t.publications->0@,
                x.publications.items@,
                y.publications.items@,
            );
        },
        None => {
            assert(x.publications.id@ =~= y.publications.id@);
            assert(x.publications.name@ =~= y.publications.name@);
        },
    }
    match given(j, "languages"@) {
        Some(v) => {
            lemma_language_list_read_alike(
                v,
                s.languages->0@,
                t.languages->0@,
                x.languages.items@,
                y.languages.items@,
            );
        },
        None => {
            assert(x.languages.id@ =~= y.languages.id@);
            assert(x.languages.name@ =~= y.languages.name@);
        },
    }
    match given(j, "interests"@) {
        Some(v) => {
            lemma_interest_list_read_alike(
                v,
                s.interests->0@,
                t.interests->0@,
                x.interests.items@,
                y.interests.items@,
            );
        },
        None => {
            assert(x.interests.id@ =~= y.interests.id@);
            assert(x.interests.name@ =~= y.interests.name@);
        },
    }
    match given(j, "references"@) {
        Some(v) => {
            lemma_reference_list_read_alike(
                v,
                s.references->0@,
                t.references->0@,
                x.references.items@,
                y.references.items@,
            );
        },
        None => {
            assert(x.references.id@ =~= y.references.id@);
            assert(x.references.name@ =~= y.references.name@);
        },
    }
}

/// The same bytes, given to the adapter twice, give documents that agree
/// in all but the identifiers of their items.
pub proof fn lemma_parse_deterministic(input: Seq<u8>, a: ResumeData, b: ResumeData)
    requires
        parse_gives(input, a),
        parse_gives(input, b),
    ensures
        a.alike(b),
{
    let j = json_reading(input)->0;
    let s = choose|s: JsonResume| s.reads(j) && document_from(s, a);
    let t = choose|t: JsonResume| t.reads(j) && document_from(t, b);
    lemma_read_deterministic(j, s, t, a, b);
}

} // verus!
