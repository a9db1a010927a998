//! The predecessor format's adapter, from bytes to document: the same
//! bytes give the same document every time, but for the identifiers that
//! are drawn where the résumé gives none.

use vstd::prelude::*;
use crate::json::{given, json_reading, member, Json};
use crate::parser::reactive_resume_v3::{
    parse_gives, basics_from, document_from, metadata_from, picture_from, section_from,
};
use crate::parser::reactive_resume_v3_shape::{
    V3Award, V3Basics, V3Certification, V3CustomField, V3CustomItem, V3Education, V3Experience,
    V3Interest, V3Language, V3Metadata, V3Picture, V3Profile, V3Project, V3Publication,
    V3Reference, V3Resume, V3Section, V3Skill, V3Summary, V3Url, V3Volunteer,
};
use crate::parser::traits::{each_becomes, Entry};
use crate::schema::basics::{Basics, Picture};
use crate::schema::items::{
    all_alike, Award, Certification, Content, CustomItem, Education, Experience, Interest,
    Language, Profile, Project, Publication, Reference, Skill, Volunteer,
};
use crate::schema::metadata::Metadata;
use crate::schema::resume::ResumeData;
use crate::schema::sections::Section;
use crate::schema::shared::CustomField;
use crate::text::texts;

verus! {

/// Two readings of one link have the same address and the same label.
pub proof fn lemma_link_read_alike(j: Json, x: V3Url, y: V3Url)
    requires
        x.reads(j),
        y.reads(j),
    ensures
        x.href() == y.href(),
        x.label() == y.label(),
{
}

/// Two readings of one summary have the same text and the same
/// visibility.
pub proof fn lemma_summary_read_alike(j: Json, x: V3Summary, y: V3Summary)
    requires
        x.reads(j),
        y.reads(j),
    ensures
        x.content() == y.content(),
        x.shown() == y.shown(),
{
}

/// Two readings of one value become items that agree in all but their
/// identifiers.
pub proof fn lemma_profile_read_alike(j: Json, x: V3Profile, y: V3Profile, a: Profile, b: Profile)
    requires
        x.reads(j),
        y.reads(j),
        x.becomes(a),
        y.becomes(b),
    ensures
        a.alike(b),
{
    match given(j, "url"@) {
        Some(v) => {
            lemma_link_read_alike(v, x.url->0, y.url->0);
        },
        None => {},
    }
    assert(a.network@ =~= b.network@);
    assert(a.username@ =~= b.username@);
    assert(a.icon@ =~= b.icon@);
    assert(a.url.label@ =~= b.url.label@);
    assert(a.url.href@ =~= b.url.href@);
}

/// Two readings of one array become items that agree, one for one, in all
/// but their identifiers.
pub proof fn lemma_profile_list_read_alike(j: Json, xs: Seq<V3Profile>, ys: Seq<V3Profile>, a: Seq<Profile>, b: Seq<Profile>)
    requires
        V3Profile::reads_list(xs, j),
        V3Profile::reads_list(ys, j),
        each_becomes(xs, a),
        each_becomes(ys, b),
    ensures
        all_alike(a, b),
{
    match j {
        Json::Array(v) => {
            assert forall|i: int| 0 <= i < a.len() implies (#[trigger] a[i]).alike(b[i]) by {
                lemma_profile_read_alike(v@[i], xs[i], ys[i], a[i], b[i]);
            }
        },
        _ => {},
    }
}

/// Two readings of one value become items that agree in all but their
/// identifiers.
pub proof fn lemma_experience_read_alike(j: Json, x: V3Experience, y: V3Experience, a: Experience, b: Experience)
    requires
        x.reads(j),
        y.reads(j),
        x.becomes(a),
        y.becomes(b),
    ensures
        a.alike(b),
{
    match given(j, "url"@) {
        Some(v) => {
            lemma_link_read_alike(v, x.url->0, y.url->0);
        },
        None => {},
    }
    assert(a.company@ =~= b.company@);
    assert(a.position@ =~= b.position@);
    assert(a.location@ =~= b.location@);
    assert(a.date@ =~= b.date@);
    assert(a.summary@ =~= b.summary@);
    assert(a.url.label@ =~= b.url.label@);
    assert(a.url.href@ =~= b.url.href@);
}

/// Two readings of one array become items that agree, one for one, in all
/// but their identifiers.
pub proof fn lemma_experience_list_read_alike(j: Json, xs: Seq<V3Experience>, ys: Seq<V3Experience>, a: Seq<Experience>, b: Seq<Experience>)
    requires
        V3Experience::reads_list(xs, j),
        V3Experience::reads_list(ys, j),
        each_becomes(xs, a),
        each_becomes(ys, b),
    ensures
        all_alike(a, b),
{
    match j {
        Json::Array(v) => {
            assert forall|i: int| 0 <= i < a.len() implies (#[trigger] a[i]).alike(b[i]) by {
                lemma_experience_read_alike(v@[i], xs[i], ys[i], a[i], b[i]);
            }
        },
        _ => {},
    }
}

/// Two readings of one value become items that agree in all but their
/// identifiers.
pub proof fn lemma_education_read_alike(j: Json, x: V3Education, y: V3Education, a: Education, b: Education)
    requires
        x.reads(j),
        y.reads(j),
        x.becomes(a),
        y.becomes(b),
    ensures
        a.alike(b),
{
    assert(a.institution@ =~= b.institution@);
    assert(a.area@ =~= b.area@);
    assert(a.study_type@ =~= b.study_type@);
    assert(a.date@ =~= b.date@);
    assert(a.score@ =~= b.score@);
    assert(a.summary@ =~= b.summary@);
    assert(a.url.label@ =~= b.url.label@);
    assert(a.url.href@ =~= b.url.href@);
}

/// Two readings of one array become items that agree, one for one, in all
/// but their identifiers.
pub proof fn lemma_education_list_read_alike(j: Json, xs: Seq<V3Education>, ys: Seq<V3Education>, a: Seq<Education>, b: Seq<Education>)
    requires
        V3Education::reads_list(xs, j),
        V3Education::reads_list(ys, j),
        each_becomes(xs, a),
        each_becomes(ys, b),
    ensures
        all_alike(a, b),
{
    match j {
        Json::Array(v) => {
            assert forall|i: int| 0 <= i < a.len() implies (#[trigger] a[i]).alike(b[i]) by {
                lemma_education_read_alike(v@[i], xs[i], ys[i], a[i], b[i]);
            }
        },
        _ => {},
    }
}

/// Two readings of one value become items that agree in all but their
/// identifiers.
pub proof fn lemma_skill_read_alike(j: Json, x: V3Skill, y: V3Skill, a: Skill, b: Skill)
    requires
        x.reads(j),
        y.reads(j),
        x.becomes(a),
        y.becomes(b),
    ensures
        a.alike(b),
{
    assert(a.name@ =~= b.name@);
    assert(a.description@ =~= b.description@);
    assert(texts(a.keywords@) =~= texts(b.keywords@));
}

/// Two readings of one array become items that agree, one for one, in all
/// but their identifiers.
pub proof fn lemma_skill_list_read_alike(j: Json, xs: Seq<V3Skill>, ys: Seq<V3Skill>, a: Seq<Skill>, b: Seq<Skill>)
    requires
        V3Skill::reads_list(xs, j),
        V3Skill::reads_list(ys, j),
        each_becomes(xs, a),
        each_becomes(ys, b),
    ensures
        all_alike(a, b),
{
    match j {
        Json::Array(v) => {
            assert forall|i: int| 0 <= i < a.len() implies (#[trigger] a[i]).alike(b[i]) by {
                lemma_skill_read_alike(v@[i], xs[i], ys[i], a[i], b[i]);
            }
        },
        _ => {},
    }
}

/// Two readings of one value become items that agree in all but their
/// identifiers.
pub proof fn lemma_language_read_alike(j: Json, x: V3Language, y: V3Language, a: Language, b: Language)
    requires
        x.reads(j),
        y.reads(j),
        x.becomes(a),
        y.becomes(b),
    ensures
        a.alike(b),
{
    assert(a.name@ =~= b.name@);
    assert(a.description@ =~= b.description@);
}

/// Two readings of one array become items that agree, one for one, in all
/// but their identifiers.
pub proof fn lemma_language_list_read_alike(j: Json, xs: Seq<V3Language>, ys: Seq<V3Language>, a: Seq<Language>, b: Seq<Language>)
    requires
        V3Language::reads_list(xs, j),
        V3Language::reads_list(ys, j),
        each_becomes(xs, a),
        each_becomes(ys, b),
    ensures
        all_alike(a, b),
{
    match j {
        Json::Array(v) => {
            assert forall|i: int| 0 <= i < a.len() implies (#[trigger] a[i]).alike(b[i]) by {
                lemma_language_read_alike(v@[i], xs[i], ys[i], a[i], b[i]);
            }
        },
        _ => {},
    }
}

/// Two readings of one value become items that agree in all but their
/// identifiers.
pub proof fn lemma_award_read_alike(j: Json, x: V3Award, y: V3Award, a: Award, b: Award)
    requires
        x.reads(j),
        y.reads(j),
        x.becomes(a),
        y.becomes(b),
    ensures
        a.alike(b),
{
    match given(j, "url"@) {
        Some(v) => {
            lemma_link_read_alike(v, x.url->0, y.url->0);
        },
        None => {},
    }
    assert(a.title@ =~= b.title@);
    assert(a.awarder@ =~= b.awarder@);
    assert(a.date@ =~= b.date@);
    assert(a.summary@ =~= b.summary@);
    assert(a.url.label@ =~= b.url.label@);
    assert(a.url.href@ =~= b.url.href@);
}

/// Two readings of one array become items that agree, one for one, in all
/// but their identifiers.
pub proof fn lemma_award_list_read_alike(j: Json, xs: Seq<V3Award>, ys: Seq<V3Award>, a: Seq<Award>, b: Seq<Award>)
    requires
        V3Award::reads_list(xs, j),
        V3Award::reads_list(ys, j),
        each_becomes(xs, a),
        each_becomes(ys, b),
    ensures
        all_alike(a, b),
{
    match j {
        Json::Array(v) => {
            assert forall|i: int| 0 <= i < a.len() implies (#[trigger] a[i]).alike(b[i]) by {
                lemma_award_read_alike(v@[i], xs[i], ys[i], a[i], b[i]);
            }
        },
        _ => {},
    }
}

/// Two readings of one value become items that agree in all but their
/// identifiers.
pub proof fn lemma_certification_read_alike(j: Json, x: V3Certification, y: V3Certification, a: Certification, b: Certification)
    requires
        x.reads(j),
        y.reads(j),
        x.becomes(a),
        y.becomes(b),
    ensures
        a.alike(b),
{
    match given(j, "url"@) {
        Some(v) => {
            lemma_link_read_alike(v, x.url->0, y.url->0);
        },
        None => {},
    }
    assert(a.name@ =~= b.name@);
    assert(a.issuer@ =~= b.issuer@);
    assert(a.date@ =~= b.date@);
    assert(a.summary@ =~= b.summary@);
    assert(a.url.label@ =~= b.url.label@);
    assert(a.url.href@ =~= b.url.href@);
}

/// Two readings of one array become items that agree, one for one, in all
/// but their identifiers.
pub proof fn lemma_certification_list_read_alike(j: Json, xs: Seq<V3Certification>, ys: Seq<V3Certification>, a: Seq<Certification>, b: Seq<Certification>)
    requires
        V3Certification::reads_list(xs, j),
        V3Certification::reads_list(ys, j),
        each_becomes(xs, a),
        each_becomes(ys, b),
    ensures
        all_alike(a, b),
{
    match j {
        Json::Array(v) => {
            assert forall|i: int| 0 <= i < a.len() implies (#[trigger] a[i]).alike(b[i]) by {
                lemma_certification_read_alike(v@[i], xs[i], ys[i], a[i], b[i]);
            }
        },
        _ => {},
    }
}

/// Two readings of one value become items that agree in all but their
/// identifiers.
pub proof fn lemma_interest_read_alike(j: Json, x: V3Interest, y: V3Interest, a: Interest, b: Interest)
    requires
        x.reads(j),
        y.reads(j),
        x.becomes(a),
        y.becomes(b),
    ensures
        a.alike(b),
{
    assert(a.name@ =~= b.name@);
    assert(texts(a.keywords@) =~= texts(b.keywords@));
}

/// Two readings of one array become items that agree, one for one, in all
/// but their identifiers.
pub proof fn lemma_interest_list_read_alike(j: Json, xs: Seq<V3Interest>, ys: Seq<V3Interest>, a: Seq<Interest>, b: Seq<Interest>)
    requires
        V3Interest::reads_list(xs, j),
        V3Interest::reads_list(ys, j),
        each_becomes(xs, a),
        each_becomes(ys, b),
    ensures
        all_alike(a, b),
{
    match j {
        Json::Array(v) => {
            assert forall|i: int| 0 <= i < a.len() implies (#[trigger] a[i]).alike(b[i]) by {
                lemma_interest_read_alike(v@[i], xs[i], ys[i], a[i], b[i]);
            }
        },
        _ => {},
    }
}

/// Two readings of one value become items that agree in all but their
/// identifiers.
pub proof fn lemma_project_read_alike(j: Json, x: V3Project, y: V3Project, a: Project, b: Project)
    requires
        x.reads(j),
        y.reads(j),
        x.becomes(a),
        y.becomes(b),
    ensures
        a.alike(b),
{
    match given(j, "url"@) {
        Some(v) => {
            lemma_link_read_alike(v, x.url->0, y.url->0);
        },
        None => {},
    }
    assert(a.name@ =~= b.name@);
    assert(a.description@ =~= b.description@);
    assert(a.date@ =~= b.date@);
    assert(a.summary@ =~= b.summary@);
    assert(texts(a.keywords@) =~= texts(b.keywords@));
    assert(a.url.label@ =~= b.url.label@);
    assert(a.url.href@ =~= b.url.href@);
}

/// Two readings of one array become items that agree, one for one, in all
/// but their identifiers.
pub proof fn lemma_project_list_read_alike(j: Json, xs: Seq<V3Project>, ys: Seq<V3Project>, a: Seq<Project>, b: Seq<Project>)
    requires
        V3Project::reads_list(xs, j),
        V3Project::reads_list(ys, j),
        each_becomes(xs, a),
        each_becomes(ys, b),
    ensures
        all_alike(a, b),
{
    match j {
        Json::Array(v) => {
            assert forall|i: int| 0 <= i < a.len() implies (#[trigger] a[i]).alike(b[i]) by {
                lemma_project_read_alike(v@[i], xs[i], ys[i], a[i], b[i]);
            }
        },
        _ => {},
    }
}

/// Two readings of one value become items that agree in all but their
/// identifiers.
pub proof fn lemma_publication_read_alike(j: Json, x: V3Publication, y: V3Publication, a: Publication, b: Publication)
    requires
        x.reads(j),
        y.reads(j),
        x.becomes(a),
        y.becomes(b),
    ensures
        a.alike(b),
{
    match given(j, "url"@) {
        Some(v) => {
            lemma_link_read_alike(v, x.url->0, y.url->0);
        },
        None => {},
    }
    assert(a.name@ =~= b.name@);
    assert(a.publisher@ =~= b.publisher@);
    assert(a.date@ =~= b.date@);
    assert(a.summary@ =~= b.summary@);
    assert(a.url.label@ =~= b.url.label@);
    assert(a.url.href@ =~= b.url.href@);
}

/// Two readings of one array become items that agree, one for one, in all
/// but their identifiers.
pub proof fn lemma_publication_list_read_alike(j: Json, xs: Seq<V3Publication>, ys: Seq<V3Publication>, a: Seq<Publication>, b: Seq<Publication>)
    requires
        V3Publication::reads_list(xs, j),
        V3Publication::reads_list(ys, j),
        each_becomes(xs, a),
        each_becomes(ys, b),
    ensures
        all_alike(a, b),
{
    match j {
        Json::Array(v) => {
            assert forall|i: int| 0 <= i < a.len() implies (#[trigger] a[i]).alike(b[i]) by {
                lemma_publication_read_alike(v@[i], xs[i], ys[i], a[i], b[i]);
            }
        },
        _ => {},
    }
}

/// Two readings of one value become items that agree in all but their
/// identifiers.
pub proof fn lemma_volunteer_read_alike(j: Json, x: V3Volunteer, y: V3Volunteer, a: Volunteer, b: Volunteer)
    requires
        x.reads(j),
        y.reads(j),
        x.becomes(a),
        y.becomes(b),
    ensures
        a.alike(b),
{
    match given(j, "url"@) {
        Some(v) => {
            lemma_link_read_alike(v, x.url->0, y.url->0);
        },
        None => {},
    }
    assert(a.organization@ =~= b.organization@);
    assert(a.position@ =~= b.position@);
    assert(a.location@ =~= b.location@);
    assert(a.date@ =~= b.date@);
    assert(a.summary@ =~= b.summary@);
    assert(a.url.label@ =~= b.url.label@);
    assert(a.url.href@ =~= b.url.href@);
}

/// Two readings of one array become items that agree, one for one, in all
/// but their identifiers.
pub proof fn lemma_volunteer_list_read_alike(j: Json, xs: Seq<V3Volunteer>, ys: Seq<V3Volunteer>, a: Seq<Volunteer>, b: Seq<Volunteer>)
    requires
        V3Volunteer::reads_list(xs, j),
        V3Volunteer::reads_list(ys, j),
        each_becomes(xs, a),
        each_becomes(ys, b),
    ensures
        all_alike(a, b),
{
    match j {
        Json::Array(v) => {
            assert forall|i: int| 0 <= i < a.len() implies (#[trigger] a[i]).alike(b[i]) by {
                lemma_volunteer_read_alike(v@[i], xs[i], ys[i], a[i], b[i]);
            }
        },
        _ => {},
    }
}

/// Two readings of one value become items that agree in all but their
/// identifiers.
pub proof fn lemma_reference_read_alike(j: Json, x: V3Reference, y: V3Reference, a: Reference, b: Reference)
    requires
        x.reads(j),
        y.reads(j),
        x.becomes(a),
        y.becomes(b),
    ensures
        a.alike(b),
{
    match given(j, "url"@) {
        Some(v) => {
            lemma_link_read_alike(v, x.url->0, y.url->0);
        },
        None => {},
    }
    assert(a.name@ =~= b.name@);
    assert(a.description@ =~= b.description@);
    assert(a.summary@ =~= b.summary@);
    assert(a.url.label@ =~= b.url.label@);
    assert(a.url.href@ =~= b.url.href@);
}

/// Two readings of one array become items that agree, one for one, in all
/// but their identifiers.
pub proof fn lemma_reference_list_read_alike(j: Json, xs: Seq<V3Reference>, ys: Seq<V3Reference>, a: Seq<Reference>, b: Seq<Reference>)
    requires
        V3Reference::reads_list(xs, j),
        V3Reference::reads_list(ys, j),
        each_becomes(xs, a),
        each_becomes(ys, b),
    ensures
        all_alike(a, b),
{
    match j {
        Json::Array(v) => {
            assert forall|i: int| 0 <= i < a.len() implies (#[trigger] a[i]).alike(b[i]) by {
                lemma_reference_read_alike(v@[i], xs[i], ys[i], a[i], b[i]);
            }
        },
        _ => {},
    }
}

/// Two readings of one value become items that agree in all but their
/// identifiers.
pub proof fn lemma_custom_item_read_alike(j: Json, x: V3CustomItem, y: V3CustomItem, a: CustomItem, b: CustomItem)
    requires
        x.reads(j),
        y.reads(j),
        x.becomes(a),
        y.becomes(b),
    ensures
        a.alike(b),
{
    match given(j, "url"@) {
        Some(v) => {
            lemma_link_read_alike(v, x.url->0, y.url->0);
        },
        None => {},
    }
    assert(a.name@ =~= b.name@);
    assert(a.description@ =~= b.description@);
    assert(a.date@ =~= b.date@);
    assert(a.location@ =~= b.location@);
    assert(a.summary@ =~= b.summary@);
    assert(texts(a.keywords@) =~= texts(b.keywords@));
    assert(a.url.label@ =~= b.url.label@);
    assert(a.url.href@ =~= b.url.href@);
}

/// Two readings of one array become items that agree, one for one, in all
/// but their identifiers.
pub proof fn lemma_custom_item_list_read_alike(j: Json, xs: Seq<V3CustomItem>, ys: Seq<V3CustomItem>, a: Seq<CustomItem>, b: Seq<CustomItem>)
    requires
        V3CustomItem::reads_list(xs, j),
        V3CustomItem::reads_list(ys, j),
        each_becomes(xs, a),
        each_becomes(ys, b),
    ensures
        all_alike(a, b),
{
    match j {
        Json::Array(v) => {
            assert forall|i: int| 0 <= i < a.len() implies (#[trigger] a[i]).alike(b[i]) by {
                lemma_custom_item_read_alike(v@[i], xs[i], ys[i], a[i], b[i]);
            }
        },
        _ => {},
    }
}

/// Two readings of one value become items that agree in all but their
/// identifiers.
pub proof fn lemma_custom_field_read_alike(j: Json, x: V3CustomField, y: V3CustomField, a: CustomField, b: CustomField)
    requires
        x.reads(j),
        y.reads(j),
        x.becomes(a),
        y.becomes(b),
    ensures
        a.alike(b),
{
    assert(a.icon@ =~= b.icon@);
    assert(a.name@ =~= b.name@);
    assert(a.value@ =~= b.value@);
}

/// Two readings of one array become items that agree, one for one, in all
/// but their identifiers.
pub proof fn lemma_custom_field_list_read_alike(j: Json, xs: Seq<V3CustomField>, ys: Seq<V3CustomField>, a: Seq<CustomField>, b: Seq<CustomField>)
    requires
        V3CustomField::reads_list(xs, j),
        V3CustomField::reads_list(ys, j),
        each_becomes(xs, a),
        each_becomes(ys, b),
    ensures
        all_alike(a, b),
{
    match j {
        Json::Array(v) => {
            assert forall|i: int| 0 <= i < a.len() implies (#[trigger] a[i]).alike(b[i]) by {
                lemma_custom_field_read_alike(v@[i], xs[i], ys[i], a[i], b[i]);
            }
        },
        _ => {},
    }
}

/// Two readings of one section become sections that agree in all but the
/// identifiers of their items.
pub proof fn lemma_profile_section_read_alike(
    j: Option<Json>,
    s: V3Section<V3Profile>,
    t: V3Section<V3Profile>,
    a: Section<Profile>,
    b: Section<Profile>,
    id: Seq<char>,
    name: Seq<char>,
)
    requires
        match j {
            Some(v) => V3Profile::reads_section(s, v) && V3Profile::reads_section(t, v),
            None => s.blank() && t.blank(),
        },
        section_from(s, a, id, name),
        section_from(t, b, id, name),
    ensures
        a.alike(b),
{
    assert(a.id@ =~= b.id@);
    assert(a.name@ =~= b.name@);
    match j {
        Some(v) => {
            match member(v, "items"@) {
                Some(w) => {
                    lemma_profile_list_read_alike(w, s.items@, t.items@, a.items@, b.items@);
                },
                None => {},
            }
        },
        None => {},
    }
}

/// Two readings of one section become sections that agree in all but the
/// identifiers of their items.
pub proof fn lemma_experience_section_read_alike(
    j: Option<Json>,
    s: V3Section<V3Experience>,
    t: V3Section<V3Experience>,
    a: Section<Experience>,
    b: Section<Experience>,
    id: Seq<char>,
    name: Seq<char>,
)
    requires
        match j {
            Some(v) => V3Experience::reads_section(s, v) && V3Experience::reads_section(t, v),
            None => s.blank() && t.blank(),
        },
        section_from(s, a, id, name),
        section_from(t, b, id, name),
    ensures
        a.alike(b),
{
    assert(a.id@ =~= b.id@);
    assert(a.name@ =~= b.name@);
    match j {
        Some(v) => {
            match member(v, "items"@) {
                Some(w) => {
                    lemma_experience_list_read_alike(w, s.items@, t.items@, a.items@, b.items@);
                },
                None => {},
            }
        },
        None => {},
    }
}

/// Two readings of one section become sections that agree in all but the
/// identifiers of their items.
pub proof fn lemma_education_section_read_alike(
    j: Option<Json>,
    s: V3Section<V3Education>,
    t: V3Section<V3Education>,
    a: Section<Education>,
    b: Section<Education>,
    id: Seq<char>,
    name: Seq<char>,
)
    requires
        match j {
            Some(v) => V3Education::reads_section(s, v) && V3Education::reads_section(t, v),
            None => s.blank() && t.blank(),
        },
        section_from(s, a, id, name),
        section_from(t, b, id, name),
    ensures
        a.alike(b),
{
    assert(a.id@ =~= b.id@);
    assert(a.name@ =~= b.name@);
    match j {
        Some(v) => {
            match member(v, "items"@) {
                Some(w) => {
                    lemma_education_list_read_alike(w, s.items@, t.items@, a.items@, b.items@);
                },
                None => {},
            }
        },
        None => {},
    }
}

/// Two readings of one section become sections that agree in all but the
/// identifiers of their items.
pub proof fn lemma_skill_section_read_alike(
    j: Option<Json>,
    s: V3Section<V3Skill>,
    t: V3Section<V3Skill>,
    a: Section<Skill>,
    b: Section<Skill>,
    id: Seq<char>,
    name: Seq<char>,
)
    requires
        match j {
            Some(v) => V3Skill::reads_section(s, v) && V3Skill::reads_section(t, v),
            None => s.blank() && t.blank(),
        },
        section_from(s, a, id, name),
        section_from(t, b, id, name),
    ensures
        a.alike(b),
{
    assert(a.id@ =~= b.id@);
    assert(a.name@ =~= b.name@);
    match j {
        Some(v) => {
            match member(v, "items"@) {
                Some(w) => {
                    lemma_skill_list_read_alike(w, s.items@, t.items@, a.items@, b.items@);
                },
                None => {},
            }
        },
        None => {},
    }
}

/// Two readings of one section become sections that agree in all but the
/// identifiers of their items.
pub proof fn lemma_language_section_read_alike(
    j: Option<Json>,
    s: V3Section<V3Language>,
    t: V3Section<V3Language>,
    a: Section<Language>,
    b: Section<Language>,
    id: Seq<char>,
    name: Seq<char>,
)
    requires
        match j {
            Some(v) => V3Language::reads_section(s, v) && V3Language::reads_section(t, v),
            None => s.blank() && t.blank(),
        },
        section_from(s, a, id, name),
        section_from(t, b, id, name),
    ensures
        a.alike(b),
{
    assert(a.id@ =~= b.id@);
    assert(a.name@ =~= b.name@);
    match j {
        Some(v) => {
            match member(v, "items"@) {
                Some(w) => {
                    lemma_language_list_read_alike(w, s.items@, t.items@, a.items@, b.items@);
                },
                None => {},
            }
        },
        None => {},
    }
}

/// Two readings of one section become sections that agree in all but the
/// identifiers of their items.
pub proof fn lemma_award_section_read_alike(
    j: Option<Json>,
    s: V3Section<V3Award>,
    t: V3Section<V3Award>,
    a: Section<Award>,
    b: Section<Award>,
    id: Seq<char>,
    name: Seq<char>,
)
    requires
        match j {
            Some(v) => V3Award::reads_section(s, v) && V3Award::reads_section(t, v),
            None => s.blank() && t.blank(),
        },
        section_from(s, a, id, name),
        section_from(t, b, id, name),
    ensures
        a.alike(b),
{
    assert(a.id@ =~= b.id@);
    assert(a.name@ =~= b.name@);
    match j {
        Some(v) => {
            match member(v, "items"@) {
                Some(w) => {
                    lemma_award_list_read_alike(w, s.items@, t.items@, a.items@, b.items@);
                },
                None => {},
            }
        },
        None => {},
    }
}

/// Two readings of one section become sections that agree in all but the
/// identifiers of their items.
pub proof fn lemma_certification_section_read_alike(
    j: Option<Json>,
    s: V3Section<V3Certification>,
    t: V3Section<V3Certification>,
    a: Section<Certification>,
    b: Section<Certification>,
    id: Seq<char>,
    name: Seq<char>,
)
    requires
        match j {
            Some(v) => V3Certification::reads_section(s, v) && V3Certification::reads_section(t, v),
            None => s.blank() && t.blank(),
        },
        section_from(s, a, id, name),
        section_from(t, b, id, name),
    ensures
        a.alike(b),
{
    assert(a.id@ =~= b.id@);
    assert(a.name@ =~= b.name@);
    match j {
        Some(v) => {
            match member(v, "items"@) {
                Some(w) => {
                    lemma_certification_list_read_alike(w, s.items@, t.items@, a.items@, b.items@);
                },
                None => {},
            }
        },
        None => {},
    }
}

/// Two readings of one section become sections that agree in all but the
/// identifiers of their items.
pub proof fn lemma_interest_section_read_alike(
    j: Option<Json>,
    s: V3Section<V3Interest>,
    t: V3Section<V3Interest>,
    a: Section<Interest>,
    b: Section<Interest>,
    id: Seq<char>,
    name: Seq<char>,
)
    requires
        match j {
            Some(v) => V3Interest::reads_section(s, v) && V3Interest::reads_section(t, v),
            None => s.blank() && t.blank(),
        },
        section_from(s, a, id, name),
        section_from(t, b, id, name),
    ensures
        a.alike(b),
{
    assert(a.id@ =~= b.id@);
    assert(a.name@ =~= b.name@);
    match j {
        Some(v) => {
            match member(v, "items"@) {
                Some(w) => {
                    lemma_interest_list_read_alike(w, s.items@, t.items@, a.items@, b.items@);
                },
                None => {},
            }
        },
        None => {},
    }
}

/// Two readings of one section become sections that agree in all but the
/// identifiers of their items.
pub proof fn lemma_project_section_read_alike(
    j: Option<Json>,
    s: V3Section<V3Project>,
    t: V3Section<V3Project>,
    a: Section<Project>,
    b: Section<Project>,
    id: Seq<char>,
    name: Seq<char>,
)
    requires
        match j {
            Some(v) => V3Project::reads_section(s, v) && V3Project::reads_section(t, v),
            None => s.blank() && t.blank(),
        },
        section_from(s, a, id, name),
        section_from(t, b, id, name),
    ensures
        a.alike(b),
{
    assert(a.id@ =~= b.id@);
    assert(a.name@ =~= b.name@);
    match j {
        Some(v) => {
            match member(v, "items"@) {
                Some(w) => {
                    lemma_project_list_read_alike(w, s.items@, t.items@, a.items@, b.items@);
                },
                None => {},
            }
        },
        None => {},
    }
}

/// Two readings of one section become sections that agree in all but the
/// identifiers of their items.
pub proof fn lemma_publication_section_read_alike(
    j: Option<Json>,
    s: V3Section<V3Publication>,
    t: V3Section<V3Publication>,
    a: Section<Publication>,
    b: Section<Publication>,
    id: Seq<char>,
    name: Seq<char>,
)
    requires
        match j {
            Some(v) => V3Publication::reads_section(s, v) && V3Publication::reads_section(t, v),
            None => s.blank() && t.blank(),
        },
        section_from(s, a, id, name),
        section_from(t, b, id, name),
    ensures
        a.alike(b),
{
    assert(a.id@ =~= b.id@);
    assert(a.name@ =~= b.name@);
    match j {
        Some(v) => {
            match member(v, "items"@) {
                Some(w) => {
                    lemma_publication_list_read_alike(w, s.items@, t.items@, a.items@, b.items@);
                },
                None => {},
            }
        },
        None => {},
    }
}

/// Two readings of one section become sections that agree in all but the
/// identifiers of their items.
pub proof fn lemma_volunteer_section_read_alike(
    j: Option<Json>,
    s: V3Section<V3Volunteer>,
    t: V3Section<V3Volunteer>,
    a: Section<Volunteer>,
    b: Section<Volunteer>,
    id: Seq<char>,
    name: Seq<char>,
)
    requires
        match j {
            Some(v) => V3Volunteer::reads_section(s, v) && V3Volunteer::reads_section(t, v),
            None => s.blank() && t.blank(),
        },
        section_from(s, a, id, name),
        section_from(t, b, id, name),
    ensures
        a.alike(b),
{
    assert(a.id@ =~= b.id@);
    assert(a.name@ =~= b.name@);
    match j {
        Some(v) => {
            match member(v, "items"@) {
                Some(w) => {
                    lemma_volunteer_list_read_alike(w, s.items@, t.items@, a.items@, b.items@);
                },
                None => {},
            }
        },
        None => {},
    }
}

/// Two readings of one section become sections that agree in all but the
/// identifiers of their items.
pub proof fn lemma_reference_section_read_alike(
    j: Option<Json>,
    s: V3Section<V3Reference>,
    t: V3Section<V3Reference>,
    a: Section<Reference>,
    b: Section<Reference>,
    id: Seq<char>,
    name: Seq<char>,
)
    requires
        match j {
            Some(v) => V3Reference::reads_section(s, v) && V3Reference::reads_section(t, v),
            None => s.blank() && t.blank(),
        },
        section_from(s, a, id, name),
        section_from(t, b, id, name),
    ensures
        a.alike(b),
{
    assert(a.id@ =~= b.id@);
    assert(a.name@ =~= b.name@);
    match j {
        Some(v) => {
            match member(v, "items"@) {
                Some(w) => {
                    lemma_reference_list_read_alike(w, s.items@, t.items@, a.items@, b.items@);
                },
                None => {},
            }
        },
        None => {},
    }
}

/// Two readings of one section become sections that agree in all but the
/// identifiers of their items.
pub proof fn lemma_custom_item_section_read_alike(
    j: Option<Json>,
    s: V3Section<V3CustomItem>,
    t: V3Section<V3CustomItem>,
    a: Section<CustomItem>,
    b: Section<CustomItem>,
    id: Seq<char>,
    name: Seq<char>,
)
    requires
        match j {
            Some(v) => V3CustomItem::reads_section(s, v) && V3CustomItem::reads_section(t, v),
            None => s.blank() && t.blank(),
        },
        section_from(s, a, id, name),
        section_from(t, b, id, name),
    ensures
        a.alike(b),
{
    assert(a.id@ =~= b.id@);
    assert(a.name@ =~= b.name@);
    match j {
        Some(v) => {
            match member(v, "items"@) {
                Some(w) => {
                    lemma_custom_item_list_read_alike(w, s.items@, t.items@, a.items@, b.items@);
                },
                None => {},
            }
        },
        None => {},
    }
}
/// Two readings of one picture become the same picture.
pub proof fn lemma_picture_read_alike(
    j: Option<Json>,
    s: Option<V3Picture>,
    t: Option<V3Picture>,
    a: Picture,
    b: Picture,
)
    requires
        match j {
            Some(v) => s matches Some(x) && t matches Some(y) && x.reads(v) && y.reads(v),
            None => s is None && t is None,
        },
        picture_from(s, a),
        picture_from(t, b),
    ensures
        a.same(b),
{
    assert(a.url@ =~= b.url@);
    assert(a.aspect_ratio.text@ =~= b.aspect_ratio.text@);
}

/// Two readings of the basics become basics that agree in all but the
/// identifiers of their custom fields.
pub proof fn lemma_basics_read_alike(j: Option<Json>, s: V3Basics, t: V3Basics, a: Basics, b: Basics)
    requires
        match j {
            Some(v) => s.reads(v) && t.reads(v),
            None => s.blank() && t.blank(),
        },
        basics_from(s, a),
        basics_from(t, b),
    ensures
        a.alike(b),
        s.summary.content() == t.summary.content(),
        s.summary.shown() == t.summary.shown(),
{
    match j {
        Some(v) => {
            match given(v, "url"@) {
                Some(w) => {
                    lemma_link_read_alike(w, s.url->0, t.url->0);
                },
                None => {},
            }
            match given(v, "summary"@) {
                Some(w) => {
                    lemma_summary_read_alike(w, s.summary, t.summary);
                },
                None => {},
            }
            match member(v, "customFields"@) {
                Some(w) => {
                    lemma_custom_field_list_read_alike(
                        w,
                        s.custom_fields@,
                        t.custom_fields@,
                        a.custom_fields@,
                        b.custom_fields@,
                    );
                },
                None => {},
            }
            lemma_picture_read_alike(given(v, "picture"@), s.picture, t.picture, a.picture, b.picture);
        },
        None => {
            lemma_picture_read_alike(None, s.picture, t.picture, a.picture, b.picture);
        },
    }
    assert(a.name@ =~= b.name@);
    assert(a.headline@ =~= b.headline@);
    assert(a.email@ =~= b.email@);
    assert(a.phone@ =~= b.phone@);
    assert(a.location@ =~= b.location@);
    assert(a.url.label@ =~= b.url.label@);
    assert(a.url.href@ =~= b.url.href@);
}

/// Two readings of the metadata become the same metadata.
pub proof fn lemma_metadata_read_alike(
    j: Option<Json>,
    s: V3Metadata,
    t: V3Metadata,
    a: Metadata,
    b: Metadata,
)
    requires
        match j {
            Some(v) => s.reads(v) && t.reads(v),
            None => s.blank() && t.blank(),
        },
        metadata_from(s, a),
        metadata_from(t, b),
    ensures
        a.same(b),
{
    assert(a.template@ =~= b.template@);
    assert(a.css.value@ =~= b.css.value@);
    assert(a.notes@ =~= b.notes@);
    assert(a.theme.background@ =~= b.theme.background@);
    assert(a.theme.text@ =~= b.theme.text@);
    assert(a.theme.primary@ =~= b.theme.primary@);
    assert(a.typography.font.family@ =~= b.typography.font.family@);
    assert(a.typography.font.subset@ =~= b.typography.font.subset@);
    assert(a.typography.line_height.text@ =~= b.typography.line_height.text@);
}

/// The value of a section under its key, where the sections are given.
pub open spec fn section_value(sections: Option<Json>, key: Seq<char>) -> Option<Json> {
    match sections {
        Some(v) => member(v, key),
        None => None,
    }
}

/// Two readings of one value become documents that agree in all but the
/// identifiers that are drawn.
pub proof fn lemma_read_deterministic(j: Json, s: V3Resume, t: V3Resume, a: ResumeData, b: ResumeData)
    requires
        s.reads(j),
        t.reads(j),
        document_from(s, a),
        document_from(t, b),
    ensures
        a.alike(b),
{
    let x = a.sections;
    let y = b.sections;
    let sj = member(j, "sections"@);
    lemma_basics_read_alike(member(j, "basics"@), s.basics, t.basics, a.basics, b.basics);
    lemma_metadata_read_alike(member(j, "metadata"@), s.metadata, t.metadata, a.metadata, b.metadata);
    assert(x.summary.content@ =~= y.summary.content@);
    lemma_profile_section_read_alike(
        section_value(sj, "profiles"@),
        s.sections.profiles,
        t.sections.profiles,
        x.profiles,
        y.profiles,
        "profiles"@,
        "Profiles"@,
    );
    lemma_experience_section_read_alike(
        section_value(sj, "experience"@),
        s.sections.experience,
        t.sections.experience,
        x.experience,
        y.experience,
        "experience"@,
        "Experience"@,
    );
    lemma_education_section_read_alike(
        section_value(sj, "education"@),
        s.sections.education,
        t.sections.education,
        x.education,
        y.education,
        "education"@,
        "Education"@,
    );
    lemma_skill_section_read_alike(
        section_value(sj, "skills"@),
        s.sections.skills,
        t.sections.skills,
        x.skills,
        y.skills,
        "skills"@,
        "Skills"@,
    );
    lemma_language_section_read_alike(
        section_value(sj, "languages"@),
        s.sections.languages,
        t.sections.languages,
        x.languages,
        y.languages,
        "languages"@,
        "Languages"@,
    );
    lemma_award_section_read_alike(
        section_value(sj, "awards"@),
        s.sections.awards,
        t.sections.awards,
        x.awards,
        y.awards,
        "awards"@,
        "Awards"@,
    );
    lemma_certification_section_read_alike(
        section_value(sj, "certifications"@),
        s.sections.certifications,
        t.sections.certifications,
        x.certifications,
        y.certifications,
        "certifications"@,
        "Certifications"@,
    );
    lemma_interest_section_read_alike(
        section_value(sj, "interests"@),
        s.sections.interests,
        t.sections.interests,
        x.interests,
        y.interests,
        "interests"@,
        "Interests"@,
    );
    lemma_project_section_read_alike(
        section_value(sj, "projects"@),
        s.sections.projects,
        t.sections.projects,
        x.projects,
        y.projects,
        "projects"@,
        "Projects"@,
    );
    lemma_publication_section_read_alike(
        section_value(sj, "publications"@),
        s.sections.publications,
        t.sections.publications,
        x.publications,
        y.publications,
        "publications"@,
        "Publications"@,
    );
    lemma_volunteer_section_read_alike(
        section_value(sj, "volunteer"@),
        s.sections.volunteer,
        t.sections.volunteer,
        x.volunteer,
        y.volunteer,
        "volunteer"@,
        "Volunteer"@,
    );
    lemma_reference_section_read_alike(
        section_value(sj, "references"@),
        s.sections.references,
        t.sections.references,
        x.references,
        y.references,
        "references"@,
        "References"@,
    );    let p = s.sections.custom@;
    let q = t.sections.custom@;
    assert(all_alike(x.custom.entries@, y.custom.entries@)) by {
        match section_value(sj, "custom"@) {
            Some(Json::Object(m)) => {
                assert forall|i: int| 0 <= i < x.custom.entries@.len() implies (
                #[trigger] x.custom.entries@[i]).alike(y.custom.entries@[i]) by {
                    lemma_custom_item_section_read_alike(
                        Some(m@[i].1),
                        p[i].1,
                        q[i].1,
                        x.custom.entries@[i].section,
                        y.custom.entries@[i].section,
                        p[i].0@,
                        p[i].0@,
                    );
                }
            },
            _ => {},
        }
    }
}

/// The same bytes, given to the adapter twice, give documents that agree
/// in all but the identifiers that are drawn.
pub proof fn lemma_parse_deterministic(input: Seq<u8>, a: ResumeData, b: ResumeData)
    requires
        parse_gives(input, a),
        parse_gives(input, b),
    ensures
        a.alike(b),
{
    let j = json_reading(input)->0;
    let s = choose|s: V3Resume| s.reads(j) && document_from(s, a);
    let t = choose|t: V3Resume| t.reads(j) && document_from(t, b);
    lemma_read_deterministic(j, s, t, a, b);
}

} // verus!
