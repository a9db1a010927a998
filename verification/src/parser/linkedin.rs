//! The adapter for a social-network export: a ZIP archive of CSV tables.

use vstd::prelude::*;
use crate::parser::archive::{
    archive_entry, archive_len, archive_text, zip_count, zip_entry, zip_text,
};
use crate::parser::csv_table::{
    first_gives, first_readable, read_first, read_table, rows_readable, table_gives,
};
use crate::parser::linkedin_shape::{
    LinkedInCertification, LinkedInData, LinkedInEducation, LinkedInLanguage, LinkedInPosition,
    LinkedInProfile, LinkedInProject, LinkedInSkill,
};
use crate::parser::json_resume::{slice_of, text_of};
use crate::parser::traits::{convert_all, each_becomes, Entry, ParseError, Parser};
use crate::schema::items::{
    Content, Certification, Education, Experience, Language, Profile, Project, Skill,
};
use crate::schema::resume::ResumeData;
use crate::schema::sections::Section;
use crate::schema::validation::Validate;
use crate::schema::shared::Url;
use crate::search::{contains, contains_text, ends_with, ends_with_text};
use crate::text::{
    lowercase, opt_text, push_str, string_of, text_or_empty, texts, to_lowercase, trim, trim_chars,
    trimmed,
};
use crate::utils::date::{date_range, format_date_range, opt_str};
use crate::utils::id::id_shaped;

verus! {

/// The adapter for a social-network export.
pub struct LinkedInParser;

/// The tables of an export.
#[derive(Debug, Clone, Copy, PartialEq, Eq, Structural)]
pub enum Table {
    Profile,
    Positions,
    Education,
    Skills,
    Languages,
    Certifications,
    Projects,
    Emails,
}

/// The table that a file is, by its name in lower case. The first of
/// these words that the name contains decides: profile, position,
/// education, skill, language, certification, project, email.
pub open spec fn table_named(lower: Seq<char>) -> Option<Table> {
    if contains(lower, "profile"@) {
        Some(Table::Profile)
    } else if contains(lower, "position"@) {
        Some(Table::Positions)
    } else if contains(lower, "education"@) {
        Some(Table::Education)
    } else if contains(lower, "skill"@) {
        Some(Table::Skills)
    } else if contains(lower, "language"@) {
        Some(Table::Languages)
    } else if contains(lower, "certification"@) {
        Some(Table::Certifications)
    } else if contains(lower, "project"@) {
        Some(Table::Projects)
    } else if contains(lower, "email"@) {
        Some(Table::Emails)
    } else {
        None
    }
}

/// The table that a file is, by its name in lower case.
pub fn table_of_name(lower: &str) -> (r: Option<Table>)
    ensures
        r == table_named(lower@),
{
    if contains_text(lower, "profile") {
        Some(Table::Profile)
    } else if contains_text(lower, "position") {
        Some(Table::Positions)
    } else if contains_text(lower, "education") {
        Some(Table::Education)
    } else if contains_text(lower, "skill") {
        Some(Table::Skills)
    } else if contains_text(lower, "language") {
        Some(Table::Languages)
    } else if contains_text(lower, "certification") {
        Some(Table::Certifications)
    } else if contains_text(lower, "project") {
        Some(Table::Projects)
    } else if contains_text(lower, "email") {
        Some(Table::Emails)
    } else {
        None
    }
}

/// Whether an entry is looked at: a file, not a directory, whose name in
/// lower case ends in `.csv`.
pub open spec fn is_csv_file(name: Seq<char>, is_dir: bool) -> bool {
    !is_dir && ends_with(lowercase(name), ".csv"@)
}

/// Whether the text can be read as the table it is taken for. A text that
/// is taken for no table is not read as one.
pub open spec fn table_ok(table: Option<Table>, text: Seq<char>) -> bool {
    match table {
        None => true,
        Some(Table::Profile) => first_readable(text),
        Some(_) => rows_readable(text),
    }
}

/// Whether an entry of the archive goes through: the archive gets at it,
/// and, where it is looked at, its text is read and the table it is taken
/// for is read from the text.
pub open spec fn entry_ok(bytes: Seq<u8>, index: nat) -> bool {
    match zip_entry(bytes, index) {
        None => false,
        Some((name, is_dir)) => !is_csv_file(name, is_dir) || match zip_text(bytes, index) {
            None => false,
            Some(text) => table_ok(table_named(lowercase(name)), text),
        },
    }
}

/// Whether the entry is a file that is looked at and taken for the table.
pub open spec fn entry_is(bytes: Seq<u8>, index: nat, table: Table) -> bool {
    match zip_entry(bytes, index) {
        None => false,
        Some((name, is_dir)) => is_csv_file(name, is_dir) && table_named(lowercase(name)) == Some(
            table,
        ),
    }
}

/// The text of the last entry, among the first `n`, that is taken for the
/// table.
pub open spec fn last_text(bytes: Seq<u8>, n: nat, table: Table) -> Option<Seq<char>>
    decreases n,
{
    if n == 0 {
        None
    } else if entry_is(bytes, (n - 1) as nat, table) {
        zip_text(bytes, (n - 1) as nat)
    } else {
        last_text(bytes, (n - 1) as nat, table)
    }
}

/// Whether `data` is what the first `n` entries of the archive give: each
/// part read from the last entry that is taken for its table, and empty
/// where no entry is.
pub open spec fn data_read(bytes: Seq<u8>, n: nat, data: LinkedInData) -> bool {
    &&& match last_text(bytes, n, Table::Profile) {
        None => data.profile is None,
        Some(t) => first_gives(t, data.profile),
    }
    &&& match last_text(bytes, n, Table::Positions) {
        None => data.positions@.len() == 0,
        Some(t) => table_gives(t, data.positions@),
    }
    &&& match last_text(bytes, n, Table::Education) {
        None => data.education@.len() == 0,
        Some(t) => table_gives(t, data.education@),
    }
    &&& match last_text(bytes, n, Table::Skills) {
        None => data.skills@.len() == 0,
        Some(t) => table_gives(t, data.skills@),
    }
    &&& match last_text(bytes, n, Table::Languages) {
        None => data.languages@.len() == 0,
        Some(t) => table_gives(t, data.languages@),
    }
    &&& match last_text(bytes, n, Table::Certifications) {
        None => data.certifications@.len() == 0,
        Some(t) => table_gives(t, data.certifications@),
    }
    &&& match last_text(bytes, n, Table::Projects) {
        None => data.projects@.len() == 0,
        Some(t) => table_gives(t, data.projects@),
    }
    &&& match last_text(bytes, n, Table::Emails) {
        None => data.emails@.len() == 0,
        Some(t) => table_gives(t, data.emails@),
    }
}

/// Whether each of the first `n` entries goes through.
pub open spec fn entries_ok(bytes: Seq<u8>, n: nat) -> bool {
    forall|i: nat| i < n ==> #[trigger] entry_ok(bytes, i)
}

/// Whether `r` is what reading an export gives: a read error where the
/// bytes are no archive or an entry does not go through, else the data of
/// all the entries.
pub open spec fn export_read(bytes: Seq<u8>, r: Result<LinkedInData, ParseError>) -> bool {
    match zip_count(bytes) {
        None => r matches Err(e) && e is ReadError,
        Some(n) => if entries_ok(bytes, n) {
            r matches Ok(data) && data_read(bytes, n, data)
        } else {
            r matches Err(e) && e is ReadError
        },
    }
}

impl LinkedInParser {
    /// Reads the tables out of the archive.
    pub fn parse_zip(&self, data: &[u8]) -> (r: Result<LinkedInData, ParseError>)
        ensures
            export_read(data@, r),
    {
        let n = match archive_len(data) {
            Ok(n) => n,
            Err(e) => return Err(e),
        };
        let mut out = LinkedInData::default();
        let mut i: usize = 0;
        while i < n
            invariant
                i <= n,
                zip_count(data@) == Some(n as nat),
                entries_ok(data@, i as nat),
                data_read(data@, i as nat, out),
            decreases n - i,
        {
            let (name, is_dir) = match archive_entry(data, i) {
                Ok(h) => h,
                Err(e) => {
                    assert(!entry_ok(data@, i as nat));
                    return Err(e);
                },
            };
            let lower = to_lowercase(name.as_str());
            if is_dir || !ends_with_text(lower.as_str(), ".csv") {
                assert(entry_ok(data@, i as nat));
                i += 1;
                continue;
            }
            let text = match archive_text(data, i) {
                Ok(t) => t,
                Err(e) => {
                    assert(!entry_ok(data@, i as nat));
                    return Err(e);
                },
            };
            let table = table_of_name(lower.as_str());
            match table {
                Some(Table::Profile) => {
                    match read_first::<LinkedInProfile>(text.as_str()) {
                        Ok(p) => {
                            out.profile = p;
                        },
                        Err(e) => {
                            assert(!entry_ok(data@, i as nat));
                            return Err(e);
                        },
                    }
                },
                Some(Table::Positions) => {
                    match read_table::<LinkedInPosition>(text.as_str()) {
                        Ok(v) => {
                            out.positions = v;
                        },
                        Err(e) => {
                            assert(!entry_ok(data@, i as nat));
                            return Err(e);
                        },
                    }
                },
                Some(Table::Education) => {
                    match read_table::<LinkedInEducation>(text.as_str()) {
                        Ok(v) => {
                            out.education = v;
                        },
                        Err(e) => {
                            assert(!entry_ok(data@, i as nat));
                            return Err(e);
                        },
                    }
                },
                Some(Table::Skills) => {
                    match read_table::<LinkedInSkill>(text.as_str()) {
                        Ok(v) => {
                            out.skills = v;
                        },
                        Err(e) => {
                            assert(!entry_ok(data@, i as nat));
                            return Err(e);
                        },
                    }
                },
                Some(Table::Languages) => {
                    match read_table::<LinkedInLanguage>(text.as_str()) {
                        Ok(v) => {
                            out.languages = v;
                        },
                        Err(e) => {
                            assert(!entry_ok(data@, i as nat));
                            return Err(e);
                        },
                    }
                },
                Some(Table::Certifications) => {
                    match read_table::<LinkedInCertification>(text.as_str()) {
                        Ok(v) => {
                            out.certifications = v;
                        },
                        Err(e) => {
                            assert(!entry_ok(data@, i as nat));
                            return Err(e);
                        },
                    }
                },
                Some(Table::Projects) => {
                    match read_table::<LinkedInProject>(text.as_str()) {
                        Ok(v) => {
                            out.projects = v;
                        },
                        Err(e) => {
                            assert(!entry_ok(data@, i as nat));
                            return Err(e);
                        },
                    }
                },
                Some(Table::Emails) => {
                    match read_table::<String>(text.as_str()) {
                        Ok(v) => {
                            out.emails = v;
                        },
                        Err(e) => {
                            assert(!entry_ok(data@, i as nat));
                            return Err(e);
                        },
                    }
                },
                None => {},
            }
            assert(entry_ok(data@, i as nat));
            i += 1;
        }
        Ok(out)
    }
}

// ---------------------------------------------------------------------------
// Texts that the adapter composes
// ---------------------------------------------------------------------------

/// A date of the export as it is kept: trimmed, or nothing where none is
/// given.
pub open spec fn export_date(date: Option<Seq<char>>) -> Seq<char> {
    match date {
        Some(d) => trim(d),
        None => Seq::empty(),
    }
}

/// A date of the export as it is shown: trimmed, or empty where none is
/// given.
pub fn format_linkedin_date(date: Option<&str>) -> (r: String)
    ensures
        r@ == export_date(opt_str(date)),
{
    match date {
        Some(d) => trimmed(d),
        None => String::new(),
    }
}

/// A range of dates of the export, written as any range of dates is.
pub fn format_linkedin_date_range(start: Option<&str>, end: Option<&str>) -> (r: String)
    ensures
        r@ == date_range(opt_str(start), opt_str(end)),
{
    format_date_range(start, end)
}

/// The level, from 2 to 5, that a proficiency in lower case stands for.
/// The first of these that it contains decides: native, bilingual or full
/// professional, 5; professional working or fluent, 4; limited working or
/// intermediate, 3; elementary or basic, 2. A proficiency with none of
/// them gives 3.
pub open spec fn proficiency_level(lower: Seq<char>) -> u8 {
    if contains(lower, "native"@) || contains(lower, "bilingual"@) || contains(
        lower,
        "full professional"@,
    ) {
        5
    } else if contains(lower, "professional working"@) || contains(lower, "fluent"@) {
        4
    } else if contains(lower, "limited working"@) || contains(lower, "intermediate"@) {
        3
    } else if contains(lower, "elementary"@) || contains(lower, "basic"@) {
        2
    } else {
        3
    }
}

/// The level that a proficiency, already in lower case, stands for.
pub fn level_of_lowered_proficiency(lower: &str) -> (r: u8)
    ensures
        r == proficiency_level(lower@),
        2 <= r <= 5,
{
    if contains_text(lower, "native") || contains_text(lower, "bilingual") || contains_text(
        lower,
        "full professional",
    ) {
        5
    } else if contains_text(lower, "professional working") || contains_text(lower, "fluent") {
        4
    } else if contains_text(lower, "limited working") || contains_text(lower, "intermediate") {
        3
    } else if contains_text(lower, "elementary") || contains_text(lower, "basic") {
        2
    } else {
        3
    }
}

/// The level that a proficiency stands for, whatever its case.
pub fn proficiency_to_level(proficiency: &str) -> (r: u8)
    ensures
        r == proficiency_level(lowercase(proficiency@)),
        2 <= r <= 5,
{
    let lower = to_lowercase(proficiency);
    level_of_lowered_proficiency(lower.as_str())
}

// ---------------------------------------------------------------------------
// What each record becomes
// ---------------------------------------------------------------------------

/// Whether `r` is the position made of `p`, whatever its identifier.
pub open spec fn experience_from(p: LinkedInPosition, r: Experience) -> bool {
    &&& id_shaped(r.id@)
    &&& r.visible
    &&& r.company@ == p.company_name@
    &&& r.position@ == p.title@
    &&& r.location@ == text_or_empty(p.location)
    &&& r.date@ == date_range(opt_text(p.started_on), opt_text(p.finished_on))
    &&& r.summary@ == text_or_empty(p.description)
    &&& r.url.label@.len() == 0
    &&& r.url.href@.len() == 0
}

/// Whether `r` is the course of study made of `e`, whatever its identifier.
pub open spec fn education_from(e: LinkedInEducation, r: Education) -> bool {
    &&& id_shaped(r.id@)
    &&& r.visible
    &&& r.institution@ == e.school_name@
    &&& r.area@ == text_or_empty(e.field_of_study)
    &&& r.study_type@ == text_or_empty(e.degree_name)
    &&& r.date@ == date_range(opt_text(e.started_on), opt_text(e.finished_on))
    &&& r.score@.len() == 0
    &&& r.summary@.len() == 0
    &&& r.url.label@.len() == 0
    &&& r.url.href@.len() == 0
}

/// The proficiency, where one is given, is kept as the description and
/// decides the level; where none is given the level stays at its default
/// of 1.
pub open spec fn language_from(l: LinkedInLanguage, r: Language) -> bool {
    &&& id_shaped(r.id@)
    &&& r.visible
    &&& r.name@ == l.name@
    &&& r.description@ == text_or_empty(l.proficiency)
    &&& r.level == match l.proficiency {
        Some(p) => proficiency_level(lowercase(p@)),
        None => 1,
    }
}

/// The date is the one on which the certificate started to hold.
pub open spec fn certification_from(c: LinkedInCertification, r: Certification) -> bool {
    &&& id_shaped(r.id@)
    &&& r.visible
    &&& r.name@ == c.name@
    &&& r.issuer@ == text_or_empty(c.authority)
    &&& r.date@ == export_date(opt_text(c.started_on))
    &&& r.summary@.len() == 0
    &&& r.url.label@.len() == 0
    &&& r.url.href@ == text_or_empty(c.url)
}

/// Whether `r` is the project made of `p`, whatever its identifier.
pub open spec fn project_from(p: LinkedInProject, r: Project) -> bool {
    &&& id_shaped(r.id@)
    &&& r.visible
    &&& r.name@ == p.title@
    &&& r.description@ == text_or_empty(p.description)
    &&& r.date@ == date_range(opt_text(p.started_on), opt_text(p.finished_on))
    &&& r.summary@.len() == 0
    &&& r.keywords@.len() == 0
    &&& r.url.label@.len() == 0
    &&& r.url.href@ == text_or_empty(p.url)
}

impl Entry<Experience> for LinkedInPosition {
    open spec fn becomes(self, item: Experience) -> bool {
        experience_from(self, item)
    }

    proof fn lemma_becomes_alike(self, a: Experience, b: Experience) {
        assert(a.company@ =~= b.company@);
        assert(a.position@ =~= b.position@);
        assert(a.location@ =~= b.location@);
        assert(a.date@ =~= b.date@);
        assert(a.summary@ =~= b.summary@);
        assert(a.url.label@ =~= b.url.label@);
        assert(a.url.href@ =~= b.url.href@);
    }

    fn convert(&self) -> (item: Experience) {
        let mut e = Experience::new(self.company_name.as_str(), self.title.as_str());
        e.date = format_linkedin_date_range(slice_of(&self.started_on), slice_of(&self.finished_on));
        e.location = text_of(&self.location);
        e.summary = text_of(&self.description);
        e
    }
}

impl Entry<Education> for LinkedInEducation {
    open spec fn becomes(self, item: Education) -> bool {
        education_from(self, item)
    }

    proof fn lemma_becomes_alike(self, a: Education, b: Education) {
        assert(a.institution@ =~= b.institution@);
        assert(a.area@ =~= b.area@);
        assert(a.study_type@ =~= b.study_type@);
        assert(a.date@ =~= b.date@);
        assert(a.score@ =~= b.score@);
        assert(a.summary@ =~= b.summary@);
        assert(a.url.label@ =~= b.url.label@);
        assert(a.url.href@ =~= b.url.href@);
    }

    fn convert(&self) -> (item: Education) {
        let area = text_of(&self.field_of_study);
        let mut e = Education::new(self.school_name.as_str(), area.as_str());
        e.study_type = text_of(&self.degree_name);
        e.date = format_linkedin_date_range(slice_of(&self.started_on), slice_of(&self.finished_on));
        e
    }
}

impl Entry<Language> for LinkedInLanguage {
    open spec fn becomes(self, item: Language) -> bool {
        language_from(self, item)
    }

    proof fn lemma_becomes_alike(self, a: Language, b: Language) {
        assert(a.name@ =~= b.name@);
        assert(a.description@ =~= b.description@);
    }

    fn convert(&self) -> (item: Language) {
        let mut l = Language::new(self.name.as_str());
        match &self.proficiency {
            Some(p) => {
                l.level = proficiency_to_level(p.as_str());
                l.description = p.clone();
                assert(l.description@ == text_or_empty(self.proficiency));
                assert(l.level == proficiency_level(lowercase(p@)));
            },
            None => {
                assert(l.level == 1);
                assert(l.description@ =~= text_or_empty(self.proficiency));
            },
        }
        l
    }
}

impl Entry<Certification> for LinkedInCertification {
    open spec fn becomes(self, item: Certification) -> bool {
        certification_from(self, item)
    }

    proof fn lemma_becomes_alike(self, a: Certification, b: Certification) {
        assert(a.name@ =~= b.name@);
        assert(a.issuer@ =~= b.issuer@);
        assert(a.date@ =~= b.date@);
        assert(a.summary@ =~= b.summary@);
        assert(a.url.label@ =~= b.url.label@);
        assert(a.url.href@ =~= b.url.href@);
    }

    fn convert(&self) -> (item: Certification) {
        let issuer = text_of(&self.authority);
        let mut c = Certification::new(self.name.as_str(), issuer.as_str());
        c.url = Url::new(text_of(&self.url).as_str());
        c.date = format_linkedin_date(slice_of(&self.started_on));
        c
    }
}

impl Entry<Project> for LinkedInProject {
    open spec fn becomes(self, item: Project) -> bool {
        project_from(self, item)
    }

    proof fn lemma_becomes_alike(self, a: Project, b: Project) {
        assert(a.name@ =~= b.name@);
        assert(a.description@ =~= b.description@);
        assert(a.date@ =~= b.date@);
        assert(a.summary@ =~= b.summary@);
        assert(texts(a.keywords@) =~= texts(b.keywords@));
        assert(a.url.label@ =~= b.url.label@);
        assert(a.url.href@ =~= b.url.href@);
    }

    fn convert(&self) -> (item: Project) {
        let mut p = Project::new(self.title.as_str());
        p.description = text_of(&self.description);
        p.url = Url::new(text_of(&self.url).as_str());
        p.date = format_linkedin_date_range(slice_of(&self.started_on), slice_of(&self.finished_on));
        p
    }
}

/// Whether the section is what the records become: a section without
/// identifier, name or items where there are no records; else the section
/// of that identifier and name with one item for each record.
pub open spec fn section_if_any<A: Entry<B>, B: Content + Validate>(
    src: Seq<A>,
    section: Section<B>,
    id: Seq<char>,
    name: Seq<char>,
) -> bool {
    &&& section.plain()
    &&& if src.len() == 0 {
        section.id@.len() == 0 && section.name@.len() == 0 && section.items@.len() == 0
    } else {
        section.id@ == id && section.name@ == name && each_becomes(src, section.items@)
    }
}

/// The section made of the records of one table.
pub fn convert_records<A: Entry<B>, B: Content + Validate>(src: &Vec<A>, id: &str, name: &str) -> (r: Section<B>)
    ensures
        section_if_any(src@, r, id@, name@),
{
    if src.len() == 0 {
        Section::default()
    } else {
        let mut section: Section<B> = Section::new(id, name);
        section.items = convert_all(src);
        section
    }
}

/// The names of the skills, in order.
pub open spec fn skill_names(skills: Seq<LinkedInSkill>) -> Seq<Seq<char>> {
    Seq::new(skills.len(), |i: int| skills[i].name@)
}

/// The end of the group of ten that starts at `start`.
pub open spec fn group_end(start: int, len: int) -> int {
    if start + 10 <= len {
        start + 10
    } else {
        len
    }
}

/// Whether the items are the skills in groups of up to ten: one item for
/// each group, named `Technical Skills` for the first group and
/// `Additional Skills` for the others, with the names of the group's
/// skills as its keywords.
pub open spec fn skill_groups(names: Seq<Seq<char>>, items: Seq<Skill>) -> bool {
    &&& items.len() == (names.len() + 9) / 10
    &&& forall|k: int|
        0 <= k < items.len() ==> {
            let item = #[trigger] items[k];
            &&& id_shaped(item.id@)
            &&& item.visible
            &&& item.name@ == if k == 0 {
                "Technical Skills"@
            } else {
                "Additional Skills"@
            }
            &&& item.description@.len() == 0
            &&& item.level == 1
            &&& texts(item.keywords@) == names.subrange(10 * k, group_end(10 * k, names.len() as int))
        }
}

/// The skills of the export in groups of ten, each group one skill with
/// the names as its keywords.
pub fn group_skills(skills: &Vec<LinkedInSkill>) -> (items: Vec<Skill>)
    ensures
        skill_groups(skill_names(skills@), items@),
{
    let ghost names = skill_names(skills@);
    let n = skills.len();
    let mut items: Vec<Skill> = Vec::new();
    let mut start: usize = 0;
    while start < n
        invariant
            n == skills@.len(),
            names == skill_names(skills@),
            start <= n || start == 10 * items@.len(),
            start == 10 * items@.len() || start == n,
            start >= n ==> items@.len() == (n + 9) / 10,
            start < n ==> start == 10 * items@.len(),
            10 * items@.len() < n + 10,
            forall|k: int|
                0 <= k < items@.len() ==> {
                    let item = #[trigger] items@[k];
                    &&& id_shaped(item.id@)
                    &&& item.visible
                    &&& item.name@ == if k == 0 {
                        "Technical Skills"@
                    } else {
                        "Additional Skills"@
                    }
                    &&& item.description@.len() == 0
                    &&& item.level == 1
                    &&& texts(item.keywords@) == names.subrange(
                        10 * k,
                        group_end(10 * k, names.len() as int),
                    )
                },
        decreases n - start,
    {
        let end: usize = if n - start >= 10 {
            start + 10
        } else {
            n
        };
        let mut keywords: Vec<String> = Vec::new();
        let mut i: usize = start;
        while i < end
            invariant
                start <= i <= end <= n,
                n == skills@.len(),
                keywords@.len() == i - start,
                forall|k: int| 0 <= k < i - start ==> keywords@[k]@ == skills@[start + k].name@,
            decreases end - i,
        {
            keywords.push(skills[i].name.clone());
            i += 1;
        }
        assert(texts(keywords@) =~= names.subrange(start as int, end as int));
        let mut item = Skill::new(
            if start == 0 {
                "Technical Skills"
            } else {
                "Additional Skills"
            },
        );
        item.keywords = keywords;
        items.push(item);
        start = end;
    }
    items
}

// ---------------------------------------------------------------------------
// The document
// ---------------------------------------------------------------------------

/// The first of some texts, or nothing where there is none.
pub open spec fn first_or_empty(v: Seq<String>) -> Seq<char> {
    if v.len() > 0 {
        v[0]@
    } else {
        Seq::empty()
    }
}

/// Whether the basics and the summary are what the profile becomes: the
/// full name is the first and the last name with a space between them,
/// trimmed; the link is the first web site.
pub open spec fn basics_from(profile: Option<LinkedInProfile>, doc: ResumeData) -> bool {
    match profile {
        None => doc.basics.name@.len() == 0 && doc.basics.headline@.len() == 0
            && doc.basics.location@.len() == 0 && doc.basics.url.href@.len() == 0
            && doc.sections.summary.content@.len() == 0,
        Some(p) => {
            &&& doc.basics.name@ == trim(p.first_name@ + " "@ + p.last_name@)
            &&& doc.basics.headline@ == text_or_empty(p.headline)
            &&& doc.basics.location@ == text_or_empty(p.location)
            &&& doc.basics.url.href@ == first_or_empty(p.websites@)
            &&& doc.sections.summary.content@ == text_or_empty(p.summary)
        },
    }
}

/// Whether the item is the profile that every document of an export
/// carries: the network's name, no user name, and the address under which
/// the network keeps its members.
pub open spec fn is_network_profile(p: Profile) -> bool {
    &&& id_shaped(p.id@)
    &&& p.visible
    &&& p.network@ == "LinkedIn"@
    &&& p.username@.len() == 0
    &&& p.icon@ == lowercase("LinkedIn"@)
    &&& p.url.label@.len() == 0
    &&& p.url.href@ == "https://linkedin.com/in/"@
}

/// Whether `doc` is the document that the export becomes. Every field of
/// the document is fixed by the data, but the identifiers of the items.
pub open spec fn document_from(data: LinkedInData, doc: ResumeData) -> bool {
    &&& basics_from(data.profile, doc)
    &&& doc.basics.email@ == first_or_empty(data.emails@)
    &&& doc.basics.phone@.len() == 0
    &&& doc.basics.url.label@.len() == 0
    &&& doc.basics.custom_fields@.len() == 0
    &&& doc.basics.picture.url@.len() == 0
    &&& doc.basics.picture.plain()
    &&& doc.sections.summary.plain()
    &&& doc.sections.profiles.plain()
    &&& doc.sections.profiles.id@ == "profiles"@
    &&& doc.sections.profiles.name@ == "Profiles"@
    &&& doc.sections.profiles.items@.len() == 1
    &&& is_network_profile(doc.sections.profiles.items@[0])
    &&& section_if_any(data.positions@, doc.sections.experience, "experience"@, "Experience"@)
    &&& section_if_any(data.education@, doc.sections.education, "education"@, "Education"@)
    &&& doc.sections.skills.plain()
    &&& if data.skills@.len() == 0 {
        doc.sections.skills.id@.len() == 0 && doc.sections.skills.name@.len() == 0
            && doc.sections.skills.items@.len() == 0
    } else {
        doc.sections.skills.id@ == "skills"@ && doc.sections.skills.name@ == "Skills"@
            && skill_groups(skill_names(data.skills@), doc.sections.skills.items@)
    }
    &&& section_if_any(data.languages@, doc.sections.languages, "languages"@, "Languages"@)
    &&& section_if_any(
        data.certifications@,
        doc.sections.certifications,
        "certifications"@,
        "Certifications"@,
    )
    &&& section_if_any(data.projects@, doc.sections.projects, "projects"@, "Projects"@)
    &&& doc.sections.unnamed_rest()
    &&& doc.sections.custom.entries@.len() == 0
    &&& doc.metadata.is_default()
}

/// The document that an export becomes.
pub fn convert_export(data: &LinkedInData) -> (doc: ResumeData)
    ensures
        document_from(*data, doc),
{
    let mut doc = ResumeData::new();
    match &data.profile {
        Some(p) => {
            let mut full: Vec<char> = Vec::new();
            push_str(&mut full, p.first_name.as_str());
            push_str(&mut full, " ");
            push_str(&mut full, p.last_name.as_str());
            assert(full@ =~= p.first_name@ + " "@ + p.last_name@);
            doc.basics.name = string_of(&trim_chars(&full));
            doc.basics.headline = text_of(&p.headline);
            doc.basics.location = text_of(&p.location);
            if p.websites.len() > 0 {
                doc.basics.url = Url::new(p.websites[0].as_str());
            } else {
                assert(doc.basics.url.href@ =~= Seq::<char>::empty());
            }
            doc.sections.summary.content = text_of(&p.summary);
        },
        None => {},
    }
    if data.emails.len() > 0 {
        doc.basics.email = data.emails[0].clone();
    } else {
        assert(doc.basics.email@ =~= Seq::<char>::empty());
    }
    let mut profiles: Section<Profile> = Section::new("profiles", "Profiles");
    proof {
        reveal_strlit("");
    }
    let mut network = Profile::new("LinkedIn", "");
    network.url = Url::new("https://linkedin.com/in/");
    profiles.add_item(network);
    doc.sections.profiles = profiles;
    doc.sections.experience = convert_records(&data.positions, "experience", "Experience");
    doc.sections.education = convert_records(&data.education, "education", "Education");
    if data.skills.len() > 0 {
        let mut skills: Section<Skill> = Section::new("skills", "Skills");
        skills.items = group_skills(&data.skills);
        doc.sections.skills = skills;
    }
    doc.sections.languages = convert_records(&data.languages, "languages", "Languages");
    doc.sections.certifications = convert_records(
        &data.certifications,
        "certifications",
        "Certifications",
    );
    doc.sections.projects = convert_records(&data.projects, "projects", "Projects");
    doc
}

/// Whether `doc` is a document that the adapter gives for the bytes: the
/// bytes are an archive of which every entry goes through, and the
/// document is what a reading of it becomes.
pub open spec fn parse_gives(input: Seq<u8>, doc: ResumeData) -> bool {
    exists|data: LinkedInData| export_read(input, Ok(data)) && document_from(data, doc)
}

impl Parser for LinkedInParser {
    type RawData = Vec<u8>;

    type ValidatedData = LinkedInData;

    /// Every input is read: the bytes are handed on as they are.
    open spec fn readable(input: Seq<u8>) -> bool {
        true
    }

    open spec fn read_as(input: Seq<u8>, raw: Vec<u8>) -> bool {
        raw@ == input
    }

    /// The bytes are an archive of which every entry goes through.
    open spec fn valid(raw: Vec<u8>) -> bool {
        match zip_count(raw@) {
            None => false,
            Some(n) => entries_ok(raw@, n),
        }
    }

    open spec fn validated_as(raw: Vec<u8>, data: LinkedInData) -> bool {
        export_read(raw@, Ok(data))
    }

    /// Every export that was read can be mapped.
    open spec fn convertible(data: LinkedInData) -> bool {
        true
    }

    open spec fn converted_as(data: LinkedInData, doc: ResumeData) -> bool {
        document_from(data, doc)
    }

    fn read(&self, input: &[u8]) -> (r: Result<Vec<u8>, ParseError>) {
        Ok(vstd::slice::slice_to_vec(input))
    }

    /// An archive that cannot be read is reported as a read error, though
    /// this is the second stage.
    fn validate(&self, data: Vec<u8>) -> (r: Result<LinkedInData, ParseError>)
        ensures
            r matches Err(e) ==> e is ReadError,
    {
        self.parse_zip(data.as_slice())
    }

    fn convert(&self, data: LinkedInData) -> (r: Result<ResumeData, ParseError>) {
        Ok(convert_export(&data))
    }

    /// The three stages in turn: a read error where the bytes are no
    /// archive or an entry of it does not go through, else the document
    /// that the export becomes.
    fn parse(&self, input: &[u8]) -> (r: Result<ResumeData, ParseError>)
        ensures
            r matches Ok(doc) ==> parse_gives(input@, doc),
            r is Ok <==> (zip_count(input@) matches Some(n) && entries_ok(input@, n)),
            r matches Err(e) ==> e is ReadError,
            r matches Ok(doc) ==> exists|data: LinkedInData|
                export_read(input@, Ok(data)) && document_from(data, doc),
    {
        let raw = match self.read(input) {
            Ok(raw) => raw,
            Err(e) => return Err(e),
        };
        let data = match self.validate(raw) {
            Ok(data) => data,
            Err(e) => return Err(e),
        };
        let ghost checked = data;
        let r = self.convert(data);
        assert(r matches Ok(doc) && export_read(input@, Ok(checked)) && document_from(
            checked,
            doc,
        ));
        r
    }
}

} // verus!
