//! The rules of each part of a document.

use vstd::prelude::*;
use crate::schema::basics::Basics;
use crate::schema::items::{
    Award, Certification, CustomItem, Education, Experience, Interest, Language, Profile, Project,
    Publication, Reference, Skill, Volunteer,
};
use crate::schema::metadata::Metadata;
use crate::schema::resume::ResumeData;
use crate::schema::sections::{CustomSection, CustomSections, Section, Sections, SummarySection};
use crate::schema::validation::{
    all_in_order, color_in_order, lemma_list_in_order, all_said, check_color, check_columns,
    check_level, check_list, color_violations, columns_violations, email_in_order, field_path,
    join_path, level_violations, list_violations, report, validate_optional_email, violation_if,
    FieldError, Rule, Validate, Violation,
};

verus! {

impl Validate for Experience {
    /// The link's address is in order.
    open spec fn violations(&self, path: Seq<char>) -> Seq<Violation> {
        self.url.violations(field_path(path, "url"@))
    }

    open spec fn in_order(&self) -> bool {
        self.url.in_order()
    }

    proof fn lemma_in_order(&self, path: Seq<char>) {
        self.url.lemma_in_order(field_path(path, "url"@));
    }

    fn check(&self, path: &str, errors: &mut Vec<FieldError>) {
        self.url.check(join_path(path, "url").as_str(), errors);
    }
}

impl Validate for Education {
    /// The link's address is in order.
    open spec fn violations(&self, path: Seq<char>) -> Seq<Violation> {
        self.url.violations(field_path(path, "url"@))
    }

    open spec fn in_order(&self) -> bool {
        self.url.in_order()
    }

    proof fn lemma_in_order(&self, path: Seq<char>) {
        self.url.lemma_in_order(field_path(path, "url"@));
    }

    fn check(&self, path: &str, errors: &mut Vec<FieldError>) {
        self.url.check(join_path(path, "url").as_str(), errors);
    }
}

impl Validate for Skill {
    /// The level is from 0 to 5.
    open spec fn violations(&self, path: Seq<char>) -> Seq<Violation> {
        level_violations(self.level, path)
    }

    open spec fn in_order(&self) -> bool {
        self.level <= 5
    }

    proof fn lemma_in_order(&self, path: Seq<char>) {

    }

    fn check(&self, path: &str, errors: &mut Vec<FieldError>) {
        check_level(self.level, path, errors);
    }
}

impl Validate for Project {
    /// The link's address is in order.
    open spec fn violations(&self, path: Seq<char>) -> Seq<Violation> {
        self.url.violations(field_path(path, "url"@))
    }

    open spec fn in_order(&self) -> bool {
        self.url.in_order()
    }

    proof fn lemma_in_order(&self, path: Seq<char>) {
        self.url.lemma_in_order(field_path(path, "url"@));
    }

    fn check(&self, path: &str, errors: &mut Vec<FieldError>) {
        self.url.check(join_path(path, "url").as_str(), errors);
    }
}

impl Validate for Profile {
    /// The link's address is in order.
    open spec fn violations(&self, path: Seq<char>) -> Seq<Violation> {
        self.url.violations(field_path(path, "url"@))
    }

    open spec fn in_order(&self) -> bool {
        self.url.in_order()
    }

    proof fn lemma_in_order(&self, path: Seq<char>) {
        self.url.lemma_in_order(field_path(path, "url"@));
    }

    fn check(&self, path: &str, errors: &mut Vec<FieldError>) {
        self.url.check(join_path(path, "url").as_str(), errors);
    }
}

impl Validate for Award {
    /// The link's address is in order.
    open spec fn violations(&self, path: Seq<char>) -> Seq<Violation> {
        self.url.violations(field_path(path, "url"@))
    }

    open spec fn in_order(&self) -> bool {
        self.url.in_order()
    }

    proof fn lemma_in_order(&self, path: Seq<char>) {
        self.url.lemma_in_order(field_path(path, "url"@));
    }

    fn check(&self, path: &str, errors: &mut Vec<FieldError>) {
        self.url.check(join_path(path, "url").as_str(), errors);
    }
}

impl Validate for Certification {
    /// The link's address is in order.
    open spec fn violations(&self, path: Seq<char>) -> Seq<Violation> {
        self.url.violations(field_path(path, "url"@))
    }

    open spec fn in_order(&self) -> bool {
        self.url.in_order()
    }

    proof fn lemma_in_order(&self, path: Seq<char>) {
        self.url.lemma_in_order(field_path(path, "url"@));
    }

    fn check(&self, path: &str, errors: &mut Vec<FieldError>) {
        self.url.check(join_path(path, "url").as_str(), errors);
    }
}

impl Validate for Publication {
    /// The link's address is in order.
    open spec fn violations(&self, path: Seq<char>) -> Seq<Violation> {
        self.url.violations(field_path(path, "url"@))
    }

    open spec fn in_order(&self) -> bool {
        self.url.in_order()
    }

    proof fn lemma_in_order(&self, path: Seq<char>) {
        self.url.lemma_in_order(field_path(path, "url"@));
    }

    fn check(&self, path: &str, errors: &mut Vec<FieldError>) {
        self.url.check(join_path(path, "url").as_str(), errors);
    }
}

impl Validate for Language {
    /// The level is from 0 to 5.
    open spec fn violations(&self, path: Seq<char>) -> Seq<Violation> {
        level_violations(self.level, path)
    }

    open spec fn in_order(&self) -> bool {
        self.level <= 5
    }

    proof fn lemma_in_order(&self, path: Seq<char>) {

    }

    fn check(&self, path: &str, errors: &mut Vec<FieldError>) {
        check_level(self.level, path, errors);
    }
}

impl Validate for Interest {
    /// No rule bears on the item.
    open spec fn violations(&self, path: Seq<char>) -> Seq<Violation> {
        Seq::empty()
    }

    open spec fn in_order(&self) -> bool {
        true
    }

    proof fn lemma_in_order(&self, path: Seq<char>) {

    }

    fn check(&self, path: &str, errors: &mut Vec<FieldError>) {
        assert(all_said(errors@) =~= all_said(old(errors)@) + Seq::<Violation>::empty());
    }
}

impl Validate for Volunteer {
    /// The link's address is in order.
    open spec fn violations(&self, path: Seq<char>) -> Seq<Violation> {
        self.url.violations(field_path(path, "url"@))
    }

    open spec fn in_order(&self) -> bool {
        self.url.in_order()
    }

    proof fn lemma_in_order(&self, path: Seq<char>) {
        self.url.lemma_in_order(field_path(path, "url"@));
    }

    fn check(&self, path: &str, errors: &mut Vec<FieldError>) {
        self.url.check(join_path(path, "url").as_str(), errors);
    }
}

impl Validate for Reference {
    /// The link's address is in order.
    open spec fn violations(&self, path: Seq<char>) -> Seq<Violation> {
        self.url.violations(field_path(path, "url"@))
    }

    open spec fn in_order(&self) -> bool {
        self.url.in_order()
    }

    proof fn lemma_in_order(&self, path: Seq<char>) {
        self.url.lemma_in_order(field_path(path, "url"@));
    }

    fn check(&self, path: &str, errors: &mut Vec<FieldError>) {
        self.url.check(join_path(path, "url").as_str(), errors);
    }
}

impl Validate for CustomItem {
    /// The link's address is in order.
    open spec fn violations(&self, path: Seq<char>) -> Seq<Violation> {
        self.url.violations(field_path(path, "url"@))
    }

    open spec fn in_order(&self) -> bool {
        self.url.in_order()
    }

    proof fn lemma_in_order(&self, path: Seq<char>) {
        self.url.lemma_in_order(field_path(path, "url"@));
    }

    fn check(&self, path: &str, errors: &mut Vec<FieldError>) {
        self.url.check(join_path(path, "url").as_str(), errors);
    }
}

impl Validate for crate::schema::shared::CustomField {
    /// No rule bears on a custom field.
    open spec fn violations(&self, path: Seq<char>) -> Seq<Violation> {
        Seq::empty()
    }

    open spec fn in_order(&self) -> bool {
        true
    }

    proof fn lemma_in_order(&self, path: Seq<char>) {
    }

    fn check(&self, path: &str, errors: &mut Vec<FieldError>) {
        assert(all_said(errors@) =~= all_said(old(errors)@) + Seq::<Violation>::empty());
    }
}

impl<T: Validate> Validate for Section<T> {
    /// The number of columns is from 1 to 5, and every item meets its
    /// rules.
    open spec fn violations(&self, path: Seq<char>) -> Seq<Violation> {
        columns_violations(self.columns, path) + list_violations(
            self.items@,
            field_path(path, "items"@),
            self.items@.len() as nat,
        )
    }

    open spec fn in_order(&self) -> bool {
        1 <= self.columns <= 5 && all_in_order(self.items@)
    }

    proof fn lemma_in_order(&self, path: Seq<char>) {
        lemma_list_in_order(self.items@, field_path(path, "items"@), self.items@.len() as nat);
        assert(self.items@.take(self.items@.len() as int) =~= self.items@);
    }

    fn check(&self, path: &str, errors: &mut Vec<FieldError>) {
        check_columns(self.columns, path, errors);
        let ghost first = all_said(errors@);
        check_list(&self.items, join_path(path, "items").as_str(), errors);
        assert(all_said(errors@) =~= all_said(old(errors)@) + self.violations(path@));
    }
}

impl Validate for SummarySection {
    /// The number of columns is from 1 to 5.
    open spec fn violations(&self, path: Seq<char>) -> Seq<Violation> {
        columns_violations(self.columns, path)
    }

    open spec fn in_order(&self) -> bool {
        1 <= self.columns <= 5
    }

    proof fn lemma_in_order(&self, path: Seq<char>) {

    }

    fn check(&self, path: &str, errors: &mut Vec<FieldError>) {
        check_columns(self.columns, path, errors);
    }
}

impl Validate for CustomSection {
    /// The section meets its rules, at the path of its key.
    open spec fn violations(&self, path: Seq<char>) -> Seq<Violation> {
        self.section.violations(field_path(path, self.key@))
    }

    open spec fn in_order(&self) -> bool {
        self.section.in_order()
    }

    proof fn lemma_in_order(&self, path: Seq<char>) {
        self.section.lemma_in_order(field_path(path, self.key@));
    }

    fn check(&self, path: &str, errors: &mut Vec<FieldError>) {
        self.section.check(join_path(path, self.key.as_str()).as_str(), errors);
    }
}

/// The violations of the first `n` sections of the subject's own, each at
/// the path of its key.
pub open spec fn custom_violations(entries: Seq<CustomSection>, path: Seq<char>, n: nat) -> Seq<
    Violation,
>
    decreases n,
{
    if n == 0 || n > entries.len() {
        Seq::empty()
    } else {
        custom_violations(entries, path, (n - 1) as nat) + entries[n - 1].violations(path)
    }
}

/// The first sections of the subject's own have no violation exactly when
/// each of them meets every rule.
pub proof fn lemma_custom_in_order(entries: Seq<CustomSection>, path: Seq<char>, n: nat)
    requires
        n <= entries.len(),
    ensures
        custom_violations(entries, path, n).len() == 0 <==> all_in_order(entries.take(n as int)),
    decreases n,
{
    if n > 0 {
        lemma_custom_in_order(entries, path, (n - 1) as nat);
        entries[n - 1].lemma_in_order(path);
        let now = entries.take(n as int);
        let before = entries.take(n - 1);
        if all_in_order(now) {
            assert forall|i: int| 0 <= i < before.len() implies (#[trigger] before[i]).in_order() by {
                assert(before[i] == now[i]);
            }
            assert(now[n - 1].in_order());
        }
        if all_in_order(before) && entries[n - 1].in_order() {
            assert forall|i: int| 0 <= i < now.len() implies (#[trigger] now[i]).in_order() by {
                if i < n - 1 {
                    assert(now[i] == before[i]);
                }
            }
        }
        if !entries[n - 1].in_order() {
            assert(now[n - 1] == entries[n - 1]);
        }
    }
}

impl Validate for CustomSections {
    open spec fn violations(&self, path: Seq<char>) -> Seq<Violation> {
        custom_violations(self.entries@, path, self.entries@.len() as nat)
    }

    open spec fn in_order(&self) -> bool {
        all_in_order(self.entries@)
    }

    proof fn lemma_in_order(&self, path: Seq<char>) {
        lemma_custom_in_order(self.entries@, path, self.entries@.len() as nat);
        assert(self.entries@.take(self.entries@.len() as int) =~= self.entries@);
    }

    fn check(&self, path: &str, errors: &mut Vec<FieldError>) {
        let mut i: usize = 0;
        assert(all_said(errors@) =~= all_said(old(errors)@) + custom_violations(
            self.entries@,
            path@,
            0,
        ));
        while i < self.entries.len()
            invariant
                i <= self.entries@.len(),
                all_said(errors@) == all_said(old(errors)@) + custom_violations(
                    self.entries@,
                    path@,
                    i as nat,
                ),
            decreases self.entries@.len() - i,
        {
            self.entries[i].check(path, errors);
            assert(all_said(errors@) =~= all_said(old(errors)@) + custom_violations(
                self.entries@,
                path@,
                (i + 1) as nat,
            ));
            i += 1;
        }
    }
}

impl Validate for Sections {
    /// Every section meets its rules, in the order of the sections.
    open spec fn violations(&self, path: Seq<char>) -> Seq<Violation> {
        self.summary.violations(field_path(path, "summary"@)) + self.experience.violations(
            field_path(path, "experience"@),
        ) + self.education.violations(field_path(path, "education"@)) + self.skills.violations(
            field_path(path, "skills"@),
        ) + self.projects.violations(field_path(path, "projects"@)) + self.profiles.violations(
            field_path(path, "profiles"@),
        ) + self.awards.violations(field_path(path, "awards"@))
            + self.certifications.violations(field_path(path, "certifications"@))
            + self.publications.violations(field_path(path, "publications"@))
            + self.languages.violations(field_path(path, "languages"@))
            + self.interests.violations(field_path(path, "interests"@))
            + self.volunteer.violations(field_path(path, "volunteer"@))
            + self.references.violations(field_path(path, "references"@))
            + self.custom.violations(field_path(path, "custom"@))
    }

    open spec fn in_order(&self) -> bool {
        self.summary.in_order() && self.experience.in_order() && self.education.in_order()
            && self.skills.in_order() && self.projects.in_order() && self.profiles.in_order()
            && self.awards.in_order() && self.certifications.in_order()
            && self.publications.in_order() && self.languages.in_order()
            && self.interests.in_order() && self.volunteer.in_order()
            && self.references.in_order() && self.custom.in_order()
    }

    proof fn lemma_in_order(&self, path: Seq<char>) {
        self.summary.lemma_in_order(field_path(path, "summary"@));
        self.experience.lemma_in_order(field_path(path, "experience"@));
        self.education.lemma_in_order(field_path(path, "education"@));
        self.skills.lemma_in_order(field_path(path, "skills"@));
        self.projects.lemma_in_order(field_path(path, "projects"@));
        self.profiles.lemma_in_order(field_path(path, "profiles"@));
        self.awards.lemma_in_order(field_path(path, "awards"@));
        self.certifications.lemma_in_order(field_path(path, "certifications"@));
        self.publications.lemma_in_order(field_path(path, "publications"@));
        self.languages.lemma_in_order(field_path(path, "languages"@));
        self.interests.lemma_in_order(field_path(path, "interests"@));
        self.volunteer.lemma_in_order(field_path(path, "volunteer"@));
        self.references.lemma_in_order(field_path(path, "references"@));
        self.custom.lemma_in_order(field_path(path, "custom"@));
    }

    fn check(&self, path: &str, errors: &mut Vec<FieldError>) {
        self.summary.check(join_path(path, "summary").as_str(), errors);
        self.experience.check(join_path(path, "experience").as_str(), errors);
        self.education.check(join_path(path, "education").as_str(), errors);
        self.skills.check(join_path(path, "skills").as_str(), errors);
        self.projects.check(join_path(path, "projects").as_str(), errors);
        self.profiles.check(join_path(path, "profiles").as_str(), errors);
        self.awards.check(join_path(path, "awards").as_str(), errors);
        self.certifications.check(join_path(path, "certifications").as_str(), errors);
        self.publications.check(join_path(path, "publications").as_str(), errors);
        self.languages.check(join_path(path, "languages").as_str(), errors);
        self.interests.check(join_path(path, "interests").as_str(), errors);
        self.volunteer.check(join_path(path, "volunteer").as_str(), errors);
        self.references.check(join_path(path, "references").as_str(), errors);
        self.custom.check(join_path(path, "custom").as_str(), errors);
        assert(all_said(errors@) =~= all_said(old(errors)@) + self.violations(path@));
    }
}

impl Validate for Basics {
    /// The e-mail address is in order, and so is the link's address.
    open spec fn violations(&self, path: Seq<char>) -> Seq<Violation> {
        violation_if(!email_in_order(self.email@), field_path(path, "email"@), Rule::Email)
            + self.url.violations(field_path(path, "url"@))
    }

    open spec fn in_order(&self) -> bool {
        email_in_order(self.email@) && self.url.in_order()
    }

    proof fn lemma_in_order(&self, path: Seq<char>) {
        self.url.lemma_in_order(field_path(path, "url"@));
    }

    fn check(&self, path: &str, errors: &mut Vec<FieldError>) {
        if validate_optional_email(self.email.as_str()).is_err() {
            report(errors, join_path(path, "email"), Rule::Email);
        } else {
            assert(all_said(errors@) =~= all_said(old(errors)@) + Seq::<Violation>::empty());
        }
        self.url.check(join_path(path, "url").as_str(), errors);
        assert(all_said(errors@) =~= all_said(old(errors)@) + self.violations(path@));
    }
}

impl Validate for Metadata {
    /// Each colour of the theme is in order. The margin and the size of
    /// the font are not held against a rule here: the renderer does that.
    open spec fn violations(&self, path: Seq<char>) -> Seq<Violation> {
        color_violations(
            self.theme.background@,
            field_path(field_path(path, "theme"@), "background"@),
        ) + color_violations(self.theme.text@, field_path(field_path(path, "theme"@), "text"@))
            + color_violations(
            self.theme.primary@,
            field_path(field_path(path, "theme"@), "primary"@),
        )
    }

    open spec fn in_order(&self) -> bool {
        color_in_order(self.theme.background@) && color_in_order(self.theme.text@)
            && color_in_order(self.theme.primary@)
    }

    proof fn lemma_in_order(&self, path: Seq<char>) {

    }

    fn check(&self, path: &str, errors: &mut Vec<FieldError>) {
        let theme = join_path(path, "theme");
        check_color(self.theme.background.as_str(), join_path(theme.as_str(), "background"), errors);
        check_color(self.theme.text.as_str(), join_path(theme.as_str(), "text"), errors);
        check_color(self.theme.primary.as_str(), join_path(theme.as_str(), "primary"), errors);
        assert(all_said(errors@) =~= all_said(old(errors)@) + self.violations(path@));
    }
}

impl Validate for ResumeData {
    /// The basics, the sections and the metadata meet their rules.
    open spec fn violations(&self, path: Seq<char>) -> Seq<Violation> {
        self.basics.violations(field_path(path, "basics"@)) + self.sections.violations(
            field_path(path, "sections"@),
        ) + self.metadata.violations(field_path(path, "metadata"@))
    }

    open spec fn in_order(&self) -> bool {
        self.basics.in_order() && self.sections.in_order() && self.metadata.in_order()
    }

    proof fn lemma_in_order(&self, path: Seq<char>) {
        self.basics.lemma_in_order(field_path(path, "basics"@));
        self.sections.lemma_in_order(field_path(path, "sections"@));
        self.metadata.lemma_in_order(field_path(path, "metadata"@));
    }

    fn check(&self, path: &str, errors: &mut Vec<FieldError>) {
        self.basics.check(join_path(path, "basics").as_str(), errors);
        self.sections.check(join_path(path, "sections").as_str(), errors);
        self.metadata.check(join_path(path, "metadata").as_str(), errors);
        assert(all_said(errors@) =~= all_said(old(errors)@) + self.violations(path@));
    }
}

} // verus!
