//! The tables of a social-network export, as they are read row by row.

use vstd::prelude::*;
use crate::parser::csv_table::{
    field, field_or_empty, filled_field, get_field, get_filled, get_or_empty, Record,
};
use crate::text::{chars_of, opt_text, string_of, texts, trim, trim_chars};

verus! {

/// A position held, as a row of the positions table.
#[derive(Debug, Clone, Default)]
pub struct LinkedInPosition {
    pub company_name: String,
    pub title: String,
    pub description: Option<String>,
    pub location: Option<String>,
    pub started_on: Option<String>,
    pub finished_on: Option<String>,
}

impl Record for LinkedInPosition {
    /// Every row gives a record.
    open spec fn kept(headers: Seq<Seq<char>>, row: Seq<Seq<char>>) -> bool {
        true
    }

    /// A column that the table lacks reads as empty; an optional field
    /// that is empty reads as absent.
    open spec fn reads(self, headers: Seq<Seq<char>>, row: Seq<Seq<char>>) -> bool {
        &&& self.company_name@ == field_or_empty(headers, row, "company_name"@)
        &&& self.title@ == field_or_empty(headers, row, "title"@)
        &&& opt_text(self.description) == filled_field(headers, row, "description"@)
        &&& opt_text(self.location) == filled_field(headers, row, "location"@)
        &&& opt_text(self.started_on) == filled_field(headers, row, "started_on"@)
        &&& opt_text(self.finished_on) == filled_field(headers, row, "finished_on"@)
    }

    fn from_row(headers: &Vec<String>, row: &Vec<String>) -> (r: Option<LinkedInPosition>) {
        let company_name = get_or_empty(headers, row, "company_name");
        let title = get_or_empty(headers, row, "title");
        let description = get_filled(headers, row, "description");
        let location = get_filled(headers, row, "location");
        let started_on = get_filled(headers, row, "started_on");
        let finished_on = get_filled(headers, row, "finished_on");
        Some(LinkedInPosition { company_name, title, description, location, started_on, finished_on })
    }
}

/// A course of study, as a row of the education table.
#[derive(Debug, Clone, Default)]
pub struct LinkedInEducation {
    pub school_name: String,
    pub degree_name: Option<String>,
    pub field_of_study: Option<String>,
    pub started_on: Option<String>,
    pub finished_on: Option<String>,
    pub notes: Option<String>,
    pub activities: Option<String>,
}

impl Record for LinkedInEducation {
    /// Every row gives a record.
    open spec fn kept(headers: Seq<Seq<char>>, row: Seq<Seq<char>>) -> bool {
        true
    }

    /// A column that the table lacks reads as empty; an optional field
    /// that is empty reads as absent.
    open spec fn reads(self, headers: Seq<Seq<char>>, row: Seq<Seq<char>>) -> bool {
        &&& self.school_name@ == field_or_empty(headers, row, "school_name"@)
        &&& opt_text(self.degree_name) == filled_field(headers, row, "degree_name"@)
        &&& opt_text(self.field_of_study) == filled_field(headers, row, "field_of_study"@)
        &&& opt_text(self.started_on) == filled_field(headers, row, "start_date"@)
        &&& opt_text(self.finished_on) == filled_field(headers, row, "end_date"@)
        &&& opt_text(self.notes) == filled_field(headers, row, "notes"@)
        &&& opt_text(self.activities) == filled_field(headers, row, "activities_and_societies"@)
    }

    fn from_row(headers: &Vec<String>, row: &Vec<String>) -> (r: Option<LinkedInEducation>) {
        let school_name = get_or_empty(headers, row, "school_name");
        let degree_name = get_filled(headers, row, "degree_name");
        let field_of_study = get_filled(headers, row, "field_of_study");
        let started_on = get_filled(headers, row, "start_date");
        let finished_on = get_filled(headers, row, "end_date");
        let notes = get_filled(headers, row, "notes");
        let activities = get_filled(headers, row, "activities_and_societies");
        Some(LinkedInEducation { school_name, degree_name, field_of_study, started_on, finished_on, notes, activities })
    }
}

/// A skill, as a row of the skills table.
#[derive(Debug, Clone, Default)]
pub struct LinkedInSkill {
    pub name: String,
}

impl Record for LinkedInSkill {
    /// A row without a name gives nothing.
    open spec fn kept(headers: Seq<Seq<char>>, row: Seq<Seq<char>>) -> bool {
        field_or_empty(headers, row, "name"@).len() > 0
    }

    /// A column that the table lacks reads as empty; an optional field
    /// that is empty reads as absent.
    open spec fn reads(self, headers: Seq<Seq<char>>, row: Seq<Seq<char>>) -> bool {
        &&& self.name@ == field_or_empty(headers, row, "name"@)
    }

    fn from_row(headers: &Vec<String>, row: &Vec<String>) -> (r: Option<LinkedInSkill>) {
        let name = get_or_empty(headers, row, "name");
        if name.as_str().is_empty() {
            return None;
        }
        Some(LinkedInSkill { name })
    }
}

/// A language, as a row of the languages table.
#[derive(Debug, Clone, Default)]
pub struct LinkedInLanguage {
    pub name: String,
    pub proficiency: Option<String>,
}

impl Record for LinkedInLanguage {
    /// A row without a name gives nothing.
    open spec fn kept(headers: Seq<Seq<char>>, row: Seq<Seq<char>>) -> bool {
        field_or_empty(headers, row, "name"@).len() > 0
    }

    /// A column that the table lacks reads as empty; an optional field
    /// that is empty reads as absent.
    open spec fn reads(self, headers: Seq<Seq<char>>, row: Seq<Seq<char>>) -> bool {
        &&& self.name@ == field_or_empty(headers, row, "name"@)
        &&& opt_text(self.proficiency) == filled_field(headers, row, "proficiency"@)
    }

    fn from_row(headers: &Vec<String>, row: &Vec<String>) -> (r: Option<LinkedInLanguage>) {
        let name = get_or_empty(headers, row, "name");
        if name.as_str().is_empty() {
            return None;
        }
        let proficiency = get_filled(headers, row, "proficiency");
        Some(LinkedInLanguage { name, proficiency })
    }
}

/// A certificate, as a row of the certifications table.
#[derive(Debug, Clone, Default)]
pub struct LinkedInCertification {
    pub name: String,
    pub authority: Option<String>,
    pub license_number: Option<String>,
    pub url: Option<String>,
    pub started_on: Option<String>,
    pub finished_on: Option<String>,
}

impl Record for LinkedInCertification {
    /// A row without a name gives nothing.
    open spec fn kept(headers: Seq<Seq<char>>, row: Seq<Seq<char>>) -> bool {
        field_or_empty(headers, row, "name"@).len() > 0
    }

    /// A column that the table lacks reads as empty; an optional field
    /// that is empty reads as absent.
    open spec fn reads(self, headers: Seq<Seq<char>>, row: Seq<Seq<char>>) -> bool {
        &&& self.name@ == field_or_empty(headers, row, "name"@)
        &&& opt_text(self.authority) == filled_field(headers, row, "authority"@)
        &&& opt_text(self.license_number) == filled_field(headers, row, "license_number"@)
        &&& opt_text(self.url) == filled_field(headers, row, "url"@)
        &&& opt_text(self.started_on) == filled_field(headers, row, "started_on"@)
        &&& opt_text(self.finished_on) == filled_field(headers, row, "finished_on"@)
    }

    fn from_row(headers: &Vec<String>, row: &Vec<String>) -> (r: Option<LinkedInCertification>) {
        let name = get_or_empty(headers, row, "name");
        if name.as_str().is_empty() {
            return None;
        }
        let authority = get_filled(headers, row, "authority");
        let license_number = get_filled(headers, row, "license_number");
        let url = get_filled(headers, row, "url");
        let started_on = get_filled(headers, row, "started_on");
        let finished_on = get_filled(headers, row, "finished_on");
        Some(LinkedInCertification { name, authority, license_number, url, started_on, finished_on })
    }
}

/// A project, as a row of the projects table.
#[derive(Debug, Clone, Default)]
pub struct LinkedInProject {
    pub title: String,
    pub description: Option<String>,
    pub url: Option<String>,
    pub started_on: Option<String>,
    pub finished_on: Option<String>,
}

impl Record for LinkedInProject {
    /// A row without a title gives nothing.
    open spec fn kept(headers: Seq<Seq<char>>, row: Seq<Seq<char>>) -> bool {
        field_or_empty(headers, row, "title"@).len() > 0
    }

    /// A column that the table lacks reads as empty; an optional field
    /// that is empty reads as absent.
    open spec fn reads(self, headers: Seq<Seq<char>>, row: Seq<Seq<char>>) -> bool {
        &&& self.title@ == field_or_empty(headers, row, "title"@)
        &&& opt_text(self.description) == filled_field(headers, row, "description"@)
        &&& opt_text(self.url) == filled_field(headers, row, "url"@)
        &&& opt_text(self.started_on) == filled_field(headers, row, "started_on"@)
        &&& opt_text(self.finished_on) == filled_field(headers, row, "finished_on"@)
    }

    fn from_row(headers: &Vec<String>, row: &Vec<String>) -> (r: Option<LinkedInProject>) {
        let title = get_or_empty(headers, row, "title");
        if title.as_str().is_empty() {
            return None;
        }
        let description = get_filled(headers, row, "description");
        let url = get_filled(headers, row, "url");
        let started_on = get_filled(headers, row, "started_on");
        let finished_on = get_filled(headers, row, "finished_on");
        Some(LinkedInProject { title, description, url, started_on, finished_on })
    }
}

/// An e-mail address is read from the column `email_address`, or from the
/// column `email` where the table lacks the first. A row with an empty
/// address gives nothing.
pub open spec fn address_field(headers: Seq<Seq<char>>, row: Seq<Seq<char>>) -> Seq<char> {
    match field(headers, row, "email_address"@) {
        Some(s) => s,
        None => field_or_empty(headers, row, "email"@),
    }
}

impl Record for String {
    open spec fn kept(headers: Seq<Seq<char>>, row: Seq<Seq<char>>) -> bool {
        address_field(headers, row).len() > 0
    }

    open spec fn reads(self, headers: Seq<Seq<char>>, row: Seq<Seq<char>>) -> bool {
        self@ == address_field(headers, row)
    }

    fn from_row(headers: &Vec<String>, row: &Vec<String>) -> (r: Option<String>) {
        let address = match get_field(headers, row, "email_address") {
            Some(s) => s.clone(),
            None => get_or_empty(headers, row, "email"),
        };
        if address.as_str().is_empty() {
            None
        } else {
            Some(address)
        }
    }
}

/// The lines that are complete after the first `n` characters of a text,
/// trimmed, those of them that are not empty.
pub open spec fn sites_done(s: Seq<char>, n: nat) -> Seq<Seq<char>>
    decreases n,
{
    if n == 0 || n > s.len() {
        Seq::empty()
    } else if s[n - 1] == '\n' {
        with_site(sites_done(s, (n - 1) as nat), site_open(s, (n - 1) as nat))
    } else {
        sites_done(s, (n - 1) as nat)
    }
}

/// The line that is not yet complete after the first `n` characters.
pub open spec fn site_open(s: Seq<char>, n: nat) -> Seq<char>
    decreases n,
{
    if n == 0 || n > s.len() || s[n - 1] == '\n' {
        Seq::empty()
    } else {
        site_open(s, (n - 1) as nat).push(s[n - 1])
    }
}

/// The sites with one more line, trimmed, unless the line is blank.
pub open spec fn with_site(sites: Seq<Seq<char>>, line: Seq<char>) -> Seq<Seq<char>> {
    if trim(line).len() > 0 {
        sites.push(trim(line))
    } else {
        sites
    }
}

/// The web sites of a field that holds one to a line: each line trimmed,
/// blank lines left out.
pub open spec fn sites_of(s: Seq<char>) -> Seq<Seq<char>> {
    with_site(sites_done(s, s.len()), site_open(s, s.len()))
}

/// The addresses that a field of web sites holds.
pub fn split_sites(s: &str) -> (r: Vec<String>)
    ensures
        texts(r@) == sites_of(s@),
{
    let v = chars_of(s);
    let mut sites: Vec<String> = Vec::new();
    let mut line: Vec<char> = Vec::new();
    let mut i: usize = 0;
    assert(texts(sites@) =~= sites_done(v@, 0));
    while i < v.len()
        invariant
            i <= v@.len(),
            texts(sites@) == sites_done(v@, i as nat),
            line@ == site_open(v@, i as nat),
        decreases v@.len() - i,
    {
        if v[i] == '\n' {
            let t = trim_chars(&line);
            if t.len() > 0 {
                let ghost before = texts(sites@);
                sites.push(string_of(&t));
                assert(texts(sites@) =~= before.push(t@));
            }
            line = Vec::new();
        } else {
            line.push(v[i]);
        }
        i += 1;
    }
    let t = trim_chars(&line);
    if t.len() > 0 {
        let ghost before = texts(sites@);
        sites.push(string_of(&t));
        assert(texts(sites@) =~= before.push(t@));
    }
    sites
}

/// The subject, as the first row of the profile table.
#[derive(Debug, Clone, Default)]
pub struct LinkedInProfile {
    pub first_name: String,
    pub last_name: String,
    pub maiden_name: Option<String>,
    pub headline: Option<String>,
    pub summary: Option<String>,
    pub industry: Option<String>,
    /// The geographic location where the table has that column, else the
    /// location.
    pub location: Option<String>,
    pub geo_location: Option<String>,
    pub websites: Vec<String>,
}

/// The location of the subject: from the column `geo_location` where the
/// table has it, else from the column `location`.
pub open spec fn location_field(headers: Seq<Seq<char>>, row: Seq<Seq<char>>) -> Option<Seq<char>> {
    match field(headers, row, "geo_location"@) {
        Some(s) => if s.len() > 0 {
            Some(s)
        } else {
            None
        },
        None => filled_field(headers, row, "location"@),
    }
}

impl Record for LinkedInProfile {
    /// Every row gives a record.
    open spec fn kept(headers: Seq<Seq<char>>, row: Seq<Seq<char>>) -> bool {
        true
    }

    open spec fn reads(self, headers: Seq<Seq<char>>, row: Seq<Seq<char>>) -> bool {
        &&& self.first_name@ == field_or_empty(headers, row, "first_name"@)
        &&& self.last_name@ == field_or_empty(headers, row, "last_name"@)
        &&& opt_text(self.maiden_name) == filled_field(headers, row, "maiden_name"@)
        &&& opt_text(self.headline) == filled_field(headers, row, "headline"@)
        &&& opt_text(self.summary) == filled_field(headers, row, "summary"@)
        &&& opt_text(self.industry) == filled_field(headers, row, "industry"@)
        &&& opt_text(self.location) == location_field(headers, row)
        &&& opt_text(self.geo_location) == filled_field(headers, row, "geo_location"@)
        &&& texts(self.websites@) == match field(headers, row, "websites"@) {
            Some(s) => sites_of(s),
            None => Seq::empty(),
        }
    }

    fn from_row(headers: &Vec<String>, row: &Vec<String>) -> (r: Option<LinkedInProfile>) {
        let location = match get_field(headers, row, "geo_location") {
            Some(s) => if s.as_str().is_empty() {
                None
            } else {
                Some(s.clone())
            },
            None => get_filled(headers, row, "location"),
        };
        let websites = match get_field(headers, row, "websites") {
            Some(s) => split_sites(s.as_str()),
            None => {
                let none: Vec<String> = Vec::new();
                assert(texts(none@) =~= Seq::<Seq<char>>::empty());
                none
            },
        };
        Some(
            LinkedInProfile {
                first_name: get_or_empty(headers, row, "first_name"),
                last_name: get_or_empty(headers, row, "last_name"),
                maiden_name: get_filled(headers, row, "maiden_name"),
                headline: get_filled(headers, row, "headline"),
                summary: get_filled(headers, row, "summary"),
                industry: get_filled(headers, row, "industry"),
                location,
                geo_location: get_filled(headers, row, "geo_location"),
                websites,
            },
        )
    }
}

/// What is read from the tables of an export. A table that the export
/// lacks leaves its part empty.
#[derive(Debug, Clone)]
pub struct LinkedInData {
    pub profile: Option<LinkedInProfile>,
    pub positions: Vec<LinkedInPosition>,
    pub education: Vec<LinkedInEducation>,
    pub skills: Vec<LinkedInSkill>,
    pub languages: Vec<LinkedInLanguage>,
    pub certifications: Vec<LinkedInCertification>,
    pub projects: Vec<LinkedInProject>,
    pub emails: Vec<String>,
}

impl LinkedInData {
    /// Whether nothing was read.
    pub open spec fn blank(self) -> bool {
        &&& self.profile is None
        &&& self.positions@.len() == 0
        &&& self.education@.len() == 0
        &&& self.skills@.len() == 0
        &&& self.languages@.len() == 0
        &&& self.certifications@.len() == 0
        &&& self.projects@.len() == 0
        &&& self.emails@.len() == 0
    }
}

impl Default for LinkedInData {
    fn default() -> (r: LinkedInData)
        ensures
            r.blank(),
    {
        LinkedInData {
            profile: None,
            positions: Vec::new(),
            education: Vec::new(),
            skills: Vec::new(),
            languages: Vec::new(),
            certifications: Vec::new(),
            projects: Vec::new(),
            emails: Vec::new(),
        }
    }
}

} // verus!
