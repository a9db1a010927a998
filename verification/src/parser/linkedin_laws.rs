//! The adapter for exports, from bytes to document: the same bytes give
//! the same document every time, but for the identifiers that are drawn.

use vstd::prelude::*;
use crate::parser::archive::zip_count;
use crate::parser::csv_table::{
    csv_header, csv_rows, kept_rows, normal_headers, table_gives, Record,
};
use crate::parser::linkedin::{
    parse_gives, data_read, document_from, export_read, last_text, skill_names, Table,
};
use crate::parser::linkedin_shape::{
    LinkedInCertification, LinkedInData, LinkedInEducation, LinkedInLanguage, LinkedInPosition,
    LinkedInProject, LinkedInSkill,
};
use crate::parser::traits::{each_becomes, Entry};
use crate::schema::alike::lemma_default_metadata_same;
use crate::schema::items::{
    all_alike, Certification, Content, Education, Experience, Language, Project,
};
use crate::schema::resume::ResumeData;
use crate::text::texts;

verus! {

/// Two readings of one row become items that agree in all but their
/// identifiers.
pub proof fn lemma_position_row_alike(
    headers: Seq<Seq<char>>,
    row: Seq<Seq<char>>,
    x: LinkedInPosition,
    y: LinkedInPosition,
    a: Experience,
    b: Experience,
)
    requires
        x.reads(headers, row),
        y.reads(headers, row),
        x.becomes(a),
        y.becomes(b),
    ensures
        a.alike(b),
{
    assert(a.company@ =~= b.company@);
    assert(a.position@ =~= b.position@);
    assert(a.location@ =~= b.location@);
    assert(a.date@ =~= b.date@);
    assert(a.summary@ =~= b.summary@);
    assert(a.url.label@ =~= b.url.label@);
    assert(a.url.href@ =~= b.url.href@);
}

/// Two readings of one table become items that agree, one for one, in all
/// but their identifiers.
pub proof fn lemma_position_table_alike(text: Seq<char>, xs: Seq<LinkedInPosition>, ys: Seq<LinkedInPosition>, a: Seq<Experience>, b: Seq<Experience>)
    requires
        table_gives(text, xs),
        table_gives(text, ys),
        each_becomes(xs, a),
        each_becomes(ys, b),
    ensures
        all_alike(a, b),
{
    let h = normal_headers(csv_header(text, true)->0);
    let rows = kept_rows::<LinkedInPosition>(h, csv_rows(text, true), csv_rows(text, true).len());
    assert forall|i: int| 0 <= i < a.len() implies (#[trigger] a[i]).alike(b[i]) by {
        lemma_position_row_alike(h, rows[i], xs[i], ys[i], a[i], b[i]);
    }
}

/// Two readings of one row become items that agree in all but their
/// identifiers.
pub proof fn lemma_education_row_alike(
    headers: Seq<Seq<char>>,
    row: Seq<Seq<char>>,
    x: LinkedInEducation,
    y: LinkedInEducation,
    a: Education,
    b: Education,
)
    requires
        x.reads(headers, row),
        y.reads(headers, row),
        x.becomes(a),
        y.becomes(b),
    ensures
        a.alike(b),
{
    assert(a.institution@ =~= b.institution@);
    assert(a.area@ =~= b.area@);
    assert(a.study_type@ =~= b.study_type@);
    assert(a.date@ =~= b.date@);
    assert(a.score@ =~= b.score@);
    assert(a.summary@ =~= b.summary@);
    assert(a.url.label@ =~= b.url.label@);
    assert(a.url.href@ =~= b.url.href@);
}

/// Two readings of one table become items that agree, one for one, in all
/// but their identifiers.
pub proof fn lemma_education_table_alike(text: Seq<char>, xs: Seq<LinkedInEducation>, ys: Seq<LinkedInEducation>, a: Seq<Education>, b: Seq<Education>)
    requires
        table_gives(text, xs),
        table_gives(text, ys),
        each_becomes(xs, a),
        each_becomes(ys, b),
    ensures
        all_alike(a, b),
{
    let h = normal_headers(csv_header(text, true)->0);
    let rows = kept_rows::<LinkedInEducation>(h, csv_rows(text, true), csv_rows(text, true).len());
    assert forall|i: int| 0 <= i < a.len() implies (#[trigger] a[i]).alike(b[i]) by {
        lemma_education_row_alike(h, rows[i], xs[i], ys[i], a[i], b[i]);
    }
}

/// Two readings of one row become items that agree in all but their
/// identifiers.
pub proof fn lemma_language_row_alike(
    headers: Seq<Seq<char>>,
    row: Seq<Seq<char>>,
    x: LinkedInLanguage,
    y: LinkedInLanguage,
    a: Language,
    b: Language,
)
    requires
        x.reads(headers, row),
        y.reads(headers, row),
        x.becomes(a),
        y.becomes(b),
    ensures
        a.alike(b),
{
    assert(a.name@ =~= b.name@);
    assert(a.description@ =~= b.description@);
}

/// Two readings of one table become items that agree, one for one, in all
/// but their identifiers.
pub proof fn lemma_language_table_alike(text: Seq<char>, xs: Seq<LinkedInLanguage>, ys: Seq<LinkedInLanguage>, a: Seq<Language>, b: Seq<Language>)
    requires
        table_gives(text, xs),
        table_gives(text, ys),
        each_becomes(xs, a),
        each_becomes(ys, b),
    ensures
        all_alike(a, b),
{
    let h = normal_headers(csv_header(text, true)->0);
    let rows = kept_rows::<LinkedInLanguage>(h, csv_rows(text, true), csv_rows(text, true).len());
    assert forall|i: int| 0 <= i < a.len() implies (#[trigger] a[i]).alike(b[i]) by {
        lemma_language_row_alike(h, rows[i], xs[i], ys[i], a[i], b[i]);
    }
}

/// Two readings of one row become items that agree in all but their
/// identifiers.
pub proof fn lemma_certification_row_alike(
    headers: Seq<Seq<char>>,
    row: Seq<Seq<char>>,
    x: LinkedInCertification,
    y: LinkedInCertification,
    a: Certification,
    b: Certification,
)
    requires
        x.reads(headers, row),
        y.reads(headers, row),
        x.becomes(a),
        y.becomes(b),
    ensures
        a.alike(b),
{
    assert(a.name@ =~= b.name@);
    assert(a.issuer@ =~= b.issuer@);
    assert(a.date@ =~= b.date@);
    assert(a.summary@ =~= b.summary@);
    assert(a.url.label@ =~= b.url.label@);
    assert(a.url.href@ =~= b.url.href@);
}

/// Two readings of one table become items that agree, one for one, in all
/// but their identifiers.
pub proof fn lemma_certification_table_alike(text: Seq<char>, xs: Seq<LinkedInCertification>, ys: Seq<LinkedInCertification>, a: Seq<Certification>, b: Seq<Certification>)
    requires
        table_gives(text, xs),
        table_gives(text, ys),
        each_becomes(xs, a),
        each_becomes(ys, b),
    ensures
        all_alike(a, b),
{
    let h = normal_headers(csv_header(text, true)->0);
    let rows = kept_rows::<LinkedInCertification>(h, csv_rows(text, true), csv_rows(text, true).len());
    assert forall|i: int| 0 <= i < a.len() implies (#[trigger] a[i]).alike(b[i]) by {
        lemma_certification_row_alike(h, rows[i], xs[i], ys[i], a[i], b[i]);
    }
}

/// Two readings of one row become items that agree in all but their
/// identifiers.
pub proof fn lemma_project_row_alike(
    headers: Seq<Seq<char>>,
    row: Seq<Seq<char>>,
    x: LinkedInProject,
    y: LinkedInProject,
    a: Project,
    b: Project,
)
    requires
        x.reads(headers, row),
        y.reads(headers, row),
        x.becomes(a),
        y.becomes(b),
    ensures
        a.alike(b),
{
    assert(a.name@ =~= b.name@);
    assert(a.description@ =~= b.description@);
    assert(a.date@ =~= b.date@);
    assert(a.summary@ =~= b.summary@);
    assert(texts(a.keywords@) =~= texts(b.keywords@));
    assert(a.url.label@ =~= b.url.label@);
    assert(a.url.href@ =~= b.url.href@);
}

/// Two readings of one table become items that agree, one for one, in all
/// but their identifiers.
pub proof fn lemma_project_table_alike(text: Seq<char>, xs: Seq<LinkedInProject>, ys: Seq<LinkedInProject>, a: Seq<Project>, b: Seq<Project>)
    requires
        table_gives(text, xs),
        table_gives(text, ys),
        each_becomes(xs, a),
        each_becomes(ys, b),
    ensures
        all_alike(a, b),
{
    let h = normal_headers(csv_header(text, true)->0);
    let rows = kept_rows::<LinkedInProject>(h, csv_rows(text, true), csv_rows(text, true).len());
    assert forall|i: int| 0 <= i < a.len() implies (#[trigger] a[i]).alike(b[i]) by {
        lemma_project_row_alike(h, rows[i], xs[i], ys[i], a[i], b[i]);
    }
}

/// Two readings of one archive become documents that agree in all but the
/// identifiers of their items.
pub proof fn lemma_read_deterministic(
    bytes: Seq<u8>,
    n: nat,
    s: LinkedInData,
    t: LinkedInData,
    a: ResumeData,
    b: ResumeData,
)
    requires
        data_read(bytes, n, s),
        data_read(bytes, n, t),
        document_from(s, a),
        document_from(t, b),
    ensures
        a.alike(b),
{
    let x = a.sections;
    let y = b.sections;
    lemma_default_metadata_same(a.metadata, b.metadata);
    match last_text(bytes, n, Table::Profile) {
        Some(text) => {
            match (s.profile, t.profile) {
                (Some(p), Some(q)) => {
                    assert(texts(p.websites@) == texts(q.websites@));
                    if p.websites@.len() > 0 {
                        assert(texts(p.websites@)[0] == p.websites@[0]@);
                        assert(texts(q.websites@)[0] == q.websites@[0]@);
                    } else {
                        assert(texts(q.websites@).len() == 0);
                    }
                },
                _ => {},
            }
        },
        None => {},
    }
    match last_text(bytes, n, Table::Emails) {
        Some(text) => {
            let h = normal_headers(csv_header(text, true)->0);
            let rows = kept_rows::<String>(h, csv_rows(text, true), csv_rows(text, true).len());
            if rows.len() > 0 {
                assert(s.emails@[0].reads(h, rows[0]));
                assert(t.emails@[0].reads(h, rows[0]));
            }
        },
        None => {},
    }
    assert(a.basics.name@ =~= b.basics.name@);
    assert(a.basics.headline@ =~= b.basics.headline@);
    assert(a.basics.email@ =~= b.basics.email@);
    assert(a.basics.phone@ =~= b.basics.phone@);
    assert(a.basics.location@ =~= b.basics.location@);
    assert(a.basics.url.label@ =~= b.basics.url.label@);
    assert(a.basics.url.href@ =~= b.basics.url.href@);
    assert(a.basics.picture.url@ =~= b.basics.picture.url@);
    assert(x.summary.content@ =~= y.summary.content@);
    assert(x.profiles.alike(y.profiles)) by {
        assert(x.profiles.items@[0].username@ =~= y.profiles.items@[0].username@);
        assert(x.profiles.items@[0].url.label@ =~= y.profiles.items@[0].url.label@);
    }
    assert(x.experience.alike(y.experience)) by {
        assert(x.experience.id@ =~= y.experience.id@);
        assert(x.experience.name@ =~= y.experience.name@);
        match last_text(bytes, n, Table::Positions) {
            Some(text) => {
                lemma_position_table_alike(
                    text,
                    s.positions@,
                    t.positions@,
                    x.experience.items@,
                    y.experience.items@,
                );
            },
            None => {},
        }
    }
    assert(x.education.alike(y.education)) by {
        assert(x.education.id@ =~= y.education.id@);
        assert(x.education.name@ =~= y.education.name@);
        match last_text(bytes, n, Table::Education) {
            Some(text) => {
                lemma_education_table_alike(
                    text,
                    s.education@,
                    t.education@,
                    x.education.items@,
                    y.education.items@,
                );
            },
            None => {},
        }
    }
    assert(x.languages.alike(y.languages)) by {
        assert(x.languages.id@ =~= y.languages.id@);
        assert(x.languages.name@ =~= y.languages.name@);
        match last_text(bytes, n, Table::Languages) {
            Some(text) => {
                lemma_language_table_alike(
                    text,
                    s.languages@,
                    t.languages@,
                    x.languages.items@,
                    y.languages.items@,
                );
            },
            None => {},
        }
    }
    assert(x.certifications.alike(y.certifications)) by {
        assert(x.certifications.id@ =~= y.certifications.id@);
        assert(x.certifications.name@ =~= y.certifications.name@);
        match last_text(bytes, n, Table::Certifications) {
            Some(text) => {
                lemma_certification_table_alike(
                    text,
                    s.certifications@,
                    t.certifications@,
                    x.certifications.items@,
                    y.certifications.items@,
                );
            },
            None => {},
        }
    }
    assert(x.projects.alike(y.projects)) by {
        assert(x.projects.id@ =~= y.projects.id@);
        assert(x.projects.name@ =~= y.projects.name@);
        match last_text(bytes, n, Table::Projects) {
            Some(text) => {
                lemma_project_table_alike(
                    text,
                    s.projects@,
                    t.projects@,
                    x.projects.items@,
                    y.projects.items@,
                );
            },
            None => {},
        }
    }
    assert(x.skills.alike(y.skills)) by {
        assert(x.skills.id@ =~= y.skills.id@);
        assert(x.skills.name@ =~= y.skills.name@);
        match last_text(bytes, n, Table::Skills) {
            Some(text) => {
                let h = normal_headers(csv_header(text, true)->0);
                let rows = kept_rows::<LinkedInSkill>(
                    h,
                    csv_rows(text, true),
                    csv_rows(text, true).len(),
                );
                assert forall|i: int| 0 <= i < s.skills@.len() implies skill_names(s.skills@)[i]
                    == skill_names(t.skills@)[i] by {
                    assert(s.skills@[i].reads(h, rows[i]));
                    assert(t.skills@[i].reads(h, rows[i]));
                }
                assert(skill_names(s.skills@) =~= skill_names(t.skills@));
                assert forall|k: int| 0 <= k < x.skills.items@.len() implies (
                #[trigger] x.skills.items@[k]).alike(y.skills.items@[k]) by {
                    let p = x.skills.items@[k];
                    let q = y.skills.items@[k];
                    assert(p.description@ =~= q.description@);
                    assert(texts(p.keywords@) == texts(q.keywords@));
                }
            },
            None => {},
        }
    }
    assert(x.awards.alike(y.awards)) by {
        assert(x.awards.id@ =~= y.awards.id@);
        assert(x.awards.name@ =~= y.awards.name@);
    }
    assert(x.publications.alike(y.publications)) by {
        assert(x.publications.id@ =~= y.publications.id@);
        assert(x.publications.name@ =~= y.publications.name@);
    }
    assert(x.interests.alike(y.interests)) by {
        assert(x.interests.id@ =~= y.interests.id@);
        assert(x.interests.name@ =~= y.interests.name@);
    }
    assert(x.volunteer.alike(y.volunteer)) by {
        assert(x.volunteer.id@ =~= y.volunteer.id@);
        assert(x.volunteer.name@ =~= y.volunteer.name@);
    }
    assert(x.references.alike(y.references)) by {
        assert(x.references.id@ =~= y.references.id@);
        assert(x.references.name@ =~= y.references.name@);
    }
}

/// The same bytes, given to the adapter twice, give documents that agree
/// in all but the identifiers of their items.
pub proof fn lemma_parse_deterministic(input: Seq<u8>, a: ResumeData, b: ResumeData)
    requires
        parse_gives(input, a),
        parse_gives(input, b),
    ensures
        a.alike(b),
{
    let s = choose|s: LinkedInData| export_read(input, Ok(s)) && document_from(s, a);
    let t = choose|t: LinkedInData| export_read(input, Ok(t)) && document_from(t, b);
    let n = zip_count(input)->0;
    lemma_read_deterministic(input, n, s, t, a, b);
}

} // verus!
