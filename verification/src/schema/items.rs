//! The thirteen kinds of item that a section can hold.
//!
//! Every item carries an identifier of its own and a visibility flag. The
//! required fields are given when an item is made; the others start empty
//! and are set one at a time.

use vstd::prelude::*;
use crate::schema::shared::Url;
use crate::text::{lowercase, owned, texts, to_lowercase};
use crate::utils::id::{create_id, id_shaped};

verus! {

/// A level held to the range 0 to 5.
pub open spec fn clamp_level(level: u8) -> u8 {
    if level > 5 {
        5
    } else {
        level
    }
}

/// A position held.
#[derive(Debug, Clone)]
pub struct Experience {
    pub id: String,
    pub visible: bool,
    pub company: String,
    pub position: String,
    pub location: String,
    pub date: String,
    pub summary: String,
    pub url: Url,
}

impl Experience {
    /// Whether every field but the identifier is as in `other`.
    pub open spec fn same_content(self, other: Experience) -> bool {
        &&& self.visible == other.visible
        &&& self.company@ == other.company@
        &&& self.position@ == other.position@
        &&& self.location@ == other.location@
        &&& self.date@ == other.date@
        &&& self.summary@ == other.summary@
        &&& self.url.same(other.url)
    }

    /// Whether two items have the same fields.
    pub open spec fn same(self, other: Experience) -> bool {
        self.id@ == other.id@ && self.same_content(other)
    }

    /// Whether every optional field is as in an item that was just made.
    pub open spec fn bare(self) -> bool {
        &&& self.visible
        &&& self.location@.len() == 0
        &&& self.date@.len() == 0
        &&& self.summary@.len() == 0
        &&& self.url.label@.len() == 0 && self.url.href@.len() == 0
    }

    /// A visible item with a fresh identifier and the given required fields.
    pub fn new(company: &str, position: &str) -> (r: Experience)
        ensures
            id_shaped(r.id@),
            r.bare(),
            r.company@ == company@,
            r.position@ == position@,
    {
        Experience {
            id: create_id(),
            visible: true,
            company: owned(company),
            position: owned(position),
            location: String::new(),
            date: String::new(),
            summary: String::new(),
            url: Url::default(),
        }
    }

    /// Sets the location.
    pub fn with_location(self, location: &str) -> (r: Experience)
        ensures
            r.location@ == location@,
            r == (Experience { location: r.location, ..self }),
    {
        let mut item = self;
        item.location = owned(location);
        item
    }

    /// Sets the date.
    pub fn with_date(self, date: &str) -> (r: Experience)
        ensures
            r.date@ == date@,
            r == (Experience { date: r.date, ..self }),
    {
        let mut item = self;
        item.date = owned(date);
        item
    }

    /// Sets the summary.
    pub fn with_summary(self, summary: &str) -> (r: Experience)
        ensures
            r.summary@ == summary@,
            r == (Experience { summary: r.summary, ..self }),
    {
        let mut item = self;
        item.summary = owned(summary);
        item
    }

    /// Sets the link to `url`, without a label.
    pub fn with_url(self, url: &str) -> (r: Experience)
        ensures
            r.url.href@ == url@,
            r.url.label@.len() == 0,
            r == (Experience { url: r.url, ..self }),
    {
        let mut item = self;
        item.url = Url::new(url);
        item
    }

    /// A copy of the item.
    pub fn copy(&self) -> (r: Experience)
        ensures
            r.same(*self),
    {
        Experience {
            id: self.id.clone(),
            visible: self.visible,
            company: self.company.clone(),
            position: self.position.clone(),
            location: self.location.clone(),
            date: self.date.clone(),
            summary: self.summary.clone(),
            url: self.url.copy(),
        }
    }
}

impl Default for Experience {
    /// A visible item with every text empty, and no identifier yet.
    fn default() -> (r: Experience)
        ensures
            r.id@.len() == 0,
            r.bare(),
            r.company@.len() == 0,
            r.position@.len() == 0,
    {
        Experience {
            id: String::new(),
            visible: true,
            company: String::new(),
            position: String::new(),
            location: String::new(),
            date: String::new(),
            summary: String::new(),
            url: Url::default(),
        }
    }
}

/// A course of study.
#[derive(Debug, Clone)]
pub struct Education {
    pub id: String,
    pub visible: bool,
    pub institution: String,
    pub area: String,
    pub study_type: String,
    pub date: String,
    pub score: String,
    pub summary: String,
    pub url: Url,
}

impl Education {
    /// Whether every field but the identifier is as in `other`.
    pub open spec fn same_content(self, other: Education) -> bool {
        &&& self.visible == other.visible
        &&& self.institution@ == other.institution@
        &&& self.area@ == other.area@
        &&& self.study_type@ == other.study_type@
        &&& self.date@ == other.date@
        &&& self.score@ == other.score@
        &&& self.summary@ == other.summary@
        &&& self.url.same(other.url)
    }

    /// Whether two items have the same fields.
    pub open spec fn same(self, other: Education) -> bool {
        self.id@ == other.id@ && self.same_content(other)
    }

    /// Whether every optional field is as in an item that was just made.
    pub open spec fn bare(self) -> bool {
        &&& self.visible
        &&& self.study_type@.len() == 0
        &&& self.date@.len() == 0
        &&& self.score@.len() == 0
        &&& self.summary@.len() == 0
        &&& self.url.label@.len() == 0 && self.url.href@.len() == 0
    }

    /// A visible item with a fresh identifier and the given required fields.
    pub fn new(institution: &str, area: &str) -> (r: Education)
        ensures
            id_shaped(r.id@),
            r.bare(),
            r.institution@ == institution@,
            r.area@ == area@,
    {
        Education {
            id: create_id(),
            visible: true,
            institution: owned(institution),
            area: owned(area),
            study_type: String::new(),
            date: String::new(),
            score: String::new(),
            summary: String::new(),
            url: Url::default(),
        }
    }

    /// Sets the study type.
    pub fn with_study_type(self, study_type: &str) -> (r: Education)
        ensures
            r.study_type@ == study_type@,
            r == (Education { study_type: r.study_type, ..self }),
    {
        let mut item = self;
        item.study_type = owned(study_type);
        item
    }

    /// Sets the date.
    pub fn with_date(self, date: &str) -> (r: Education)
        ensures
            r.date@ == date@,
            r == (Education { date: r.date, ..self }),
    {
        let mut item = self;
        item.date = owned(date);
        item
    }

    /// Sets the score.
    pub fn with_score(self, score: &str) -> (r: Education)
        ensures
            r.score@ == score@,
            r == (Education { score: r.score, ..self }),
    {
        let mut item = self;
        item.score = owned(score);
        item
    }

    /// Sets the summary.
    pub fn with_summary(self, summary: &str) -> (r: Education)
        ensures
            r.summary@ == summary@,
            r == (Education { summary: r.summary, ..self }),
    {
        let mut item = self;
        item.summary = owned(summary);
        item
    }

    /// Sets the link to `url`, without a label.
    pub fn with_url(self, url: &str) -> (r: Education)
        ensures
            r.url.href@ == url@,
            r.url.label@.len() == 0,
            r == (Education { url: r.url, ..self }),
    {
        let mut item = self;
        item.url = Url::new(url);
        item
    }

    /// A copy of the item.
    pub fn copy(&self) -> (r: Education)
        ensures
            r.same(*self),
    {
        Education {
            id: self.id.clone(),
            visible: self.visible,
            institution: self.institution.clone(),
            area: self.area.clone(),
            study_type: self.study_type.clone(),
            date: self.date.clone(),
            score: self.score.clone(),
            summary: self.summary.clone(),
            url: self.url.copy(),
        }
    }
}

impl Default for Education {
    /// A visible item with every text empty, and no identifier yet.
    fn default() -> (r: Education)
        ensures
            r.id@.len() == 0,
            r.bare(),
            r.institution@.len() == 0,
            r.area@.len() == 0,
    {
        Education {
            id: String::new(),
            visible: true,
            institution: String::new(),
            area: String::new(),
            study_type: String::new(),
            date: String::new(),
            score: String::new(),
            summary: String::new(),
            url: Url::default(),
        }
    }
}

/// A skill, with a level from 0 to 5.
#[derive(Debug, Clone)]
pub struct Skill {
    pub id: String,
    pub visible: bool,
    pub name: String,
    pub description: String,
    pub level: u8,
    pub keywords: Vec<String>,
}

impl Skill {
    /// Whether every field but the identifier is as in `other`.
    pub open spec fn same_content(self, other: Skill) -> bool {
        &&& self.visible == other.visible
        &&& self.name@ == other.name@
        &&& self.description@ == other.description@
        &&& self.level == other.level
        &&& texts(self.keywords@) == texts(other.keywords@)
    }

    /// Whether two items have the same fields.
    pub open spec fn same(self, other: Skill) -> bool {
        self.id@ == other.id@ && self.same_content(other)
    }

    /// Whether every optional field is as in an item that was just made.
    pub open spec fn bare(self) -> bool {
        &&& self.visible
        &&& self.description@.len() == 0
        &&& self.level == 1
        &&& self.keywords@.len() == 0
    }

    /// A visible item with a fresh identifier and the given required fields.
    pub fn new(name: &str) -> (r: Skill)
        ensures
            id_shaped(r.id@),
            r.bare(),
            r.name@ == name@,
    {
        Skill {
            id: create_id(),
            visible: true,
            name: owned(name),
            description: String::new(),
            level: 1,
            keywords: Vec::new(),
        }
    }

    /// Sets the description.
    pub fn with_description(self, description: &str) -> (r: Skill)
        ensures
            r.description@ == description@,
            r == (Skill { description: r.description, ..self }),
    {
        let mut item = self;
        item.description = owned(description);
        item
    }

    /// Sets the level, which is held to the range 0 to 5.
    pub fn with_level(self, level: u8) -> (r: Skill)
        ensures
            r.level == clamp_level(level),
            r.level <= 5,
            r == (Skill { level: r.level, ..self }),
    {
        let mut item = self;
        item.level = if level > 5 {
            5
        } else {
            level
        };
        item
    }

    /// Sets the keywords.
    pub fn with_keywords(self, keywords: Vec<String>) -> (r: Skill)
        ensures
            r == (Skill { keywords, ..self }),
    {
        let mut item = self;
        item.keywords = keywords;
        item
    }

    /// A copy of the item.
    pub fn copy(&self) -> (r: Skill)
        ensures
            r.same(*self),
    {
        Skill {
            id: self.id.clone(),
            visible: self.visible,
            name: self.name.clone(),
            description: self.description.clone(),
            level: self.level,
            keywords: self.keywords.clone(),
        }
    }
}

impl Default for Skill {
    /// A visible item with every text empty, and no identifier yet.
    fn default() -> (r: Skill)
        ensures
            r.id@.len() == 0,
            r.bare(),
            r.name@.len() == 0,
    {
        Skill {
            id: String::new(),
            visible: true,
            name: String::new(),
            description: String::new(),
            level: 1,
            keywords: Vec::new(),
        }
    }
}

/// A project.
#[derive(Debug, Clone)]
pub struct Project {
    pub id: String,
    pub visible: bool,
    pub name: String,
    pub description: String,
    pub date: String,
    pub summary: String,
    pub keywords: Vec<String>,
    pub url: Url,
}

impl Project {
    /// Whether every field but the identifier is as in `other`.
    pub open spec fn same_content(self, other: Project) -> bool {
        &&& self.visible == other.visible
        &&& self.name@ == other.name@
        &&& self.description@ == other.description@
        &&& self.date@ == other.date@
        &&& self.summary@ == other.summary@
        &&& texts(self.keywords@) == texts(other.keywords@)
        &&& self.url.same(other.url)
    }

    /// Whether two items have the same fields.
    pub open spec fn same(self, other: Project) -> bool {
        self.id@ == other.id@ && self.same_content(other)
    }

    /// Whether every optional field is as in an item that was just made.
    pub open spec fn bare(self) -> bool {
        &&& self.visible
        &&& self.description@.len() == 0
        &&& self.date@.len() == 0
        &&& self.summary@.len() == 0
        &&& self.keywords@.len() == 0
        &&& self.url.label@.len() == 0 && self.url.href@.len() == 0
    }

    /// A visible item with a fresh identifier and the given required fields.
    pub fn new(name: &str) -> (r: Project)
        ensures
            id_shaped(r.id@),
            r.bare(),
            r.name@ == name@,
    {
        Project {
            id: create_id(),
            visible: true,
            name: owned(name),
            description: String::new(),
            date: String::new(),
            summary: String::new(),
            keywords: Vec::new(),
            url: Url::default(),
        }
    }

    /// Sets the description.
    pub fn with_description(self, description: &str) -> (r: Project)
        ensures
            r.description@ == description@,
            r == (Project { description: r.description, ..self }),
    {
        let mut item = self;
        item.description = owned(description);
        item
    }

    /// Sets the date.
    pub fn with_date(self, date: &str) -> (r: Project)
        ensures
            r.date@ == date@,
            r == (Project { date: r.date, ..self }),
    {
        let mut item = self;
        item.date = owned(date);
        item
    }

    /// Sets the summary.
    pub fn with_summary(self, summary: &str) -> (r: Project)
        ensures
            r.summary@ == summary@,
            r == (Project { summary: r.summary, ..self }),
    {
        let mut item = self;
        item.summary = owned(summary);
        item
    }

    /// Sets the keywords.
    pub fn with_keywords(self, keywords: Vec<String>) -> (r: Project)
        ensures
            r == (Project { keywords, ..self }),
    {
        let mut item = self;
        item.keywords = keywords;
        item
    }

    /// Sets the link to `url`, without a label.
    pub fn with_url(self, url: &str) -> (r: Project)
        ensures
            r.url.href@ == url@,
            r.url.label@.len() == 0,
            r == (Project { url: r.url, ..self }),
    {
        let mut item = self;
        item.url = Url::new(url);
        item
    }

    /// A copy of the item.
    pub fn copy(&self) -> (r: Project)
        ensures
            r.same(*self),
    {
        Project {
            id: self.id.clone(),
            visible: self.visible,
            name: self.name.clone(),
            description: self.description.clone(),
            date: self.date.clone(),
            summary: self.summary.clone(),
            keywords: self.keywords.clone(),
            url: self.url.copy(),
        }
    }
}

impl Default for Project {
    /// A visible item with every text empty, and no identifier yet.
    fn default() -> (r: Project)
        ensures
            r.id@.len() == 0,
            r.bare(),
            r.name@.len() == 0,
    {
        Project {
            id: String::new(),
            visible: true,
            name: String::new(),
            description: String::new(),
            date: String::new(),
            summary: String::new(),
            keywords: Vec::new(),
            url: Url::default(),
        }
    }
}

/// An account on a network.
#[derive(Debug, Clone)]
pub struct Profile {
    pub id: String,
    pub visible: bool,
    pub network: String,
    pub username: String,
    pub icon: String,
    pub url: Url,
}

impl Profile {
    /// Whether every field but the identifier is as in `other`.
    pub open spec fn same_content(self, other: Profile) -> bool {
        &&& self.visible == other.visible
        &&& self.network@ == other.network@
        &&& self.username@ == other.username@
        &&& self.icon@ == other.icon@
        &&& self.url.same(other.url)
    }

    /// Whether two items have the same fields.
    pub open spec fn same(self, other: Profile) -> bool {
        self.id@ == other.id@ && self.same_content(other)
    }

    /// Whether every optional field is as in an item that was just made.
    pub open spec fn bare(self) -> bool {
        &&& self.visible
        &&& self.url.label@.len() == 0 && self.url.href@.len() == 0
    }

    /// A visible item with a fresh identifier and the given required fields.
    pub fn new(network: &str, username: &str) -> (r: Profile)
        ensures
            id_shaped(r.id@),
            r.bare(),
            r.network@ == network@,
            r.username@ == username@,
            r.icon@ == lowercase(network@),
    {
        Profile {
            id: create_id(),
            visible: true,
            network: owned(network),
            username: owned(username),
            icon: to_lowercase(network),
            url: Url::default(),
        }
    }

    /// Sets the icon.
    pub fn with_icon(self, icon: &str) -> (r: Profile)
        ensures
            r.icon@ == icon@,
            r == (Profile { icon: r.icon, ..self }),
    {
        let mut item = self;
        item.icon = owned(icon);
        item
    }

    /// Sets the link to `url`, without a label.
    pub fn with_url(self, url: &str) -> (r: Profile)
        ensures
            r.url.href@ == url@,
            r.url.label@.len() == 0,
            r == (Profile { url: r.url, ..self }),
    {
        let mut item = self;
        item.url = Url::new(url);
        item
    }

    /// A copy of the item.
    pub fn copy(&self) -> (r: Profile)
        ensures
            r.same(*self),
    {
        Profile {
            id: self.id.clone(),
            visible: self.visible,
            network: self.network.clone(),
            username: self.username.clone(),
            icon: self.icon.clone(),
            url: self.url.copy(),
        }
    }
}

impl Default for Profile {
    /// A visible item with every text empty, and no identifier yet.
    fn default() -> (r: Profile)
        ensures
            r.id@.len() == 0,
            r.bare(),
            r.network@.len() == 0,
            r.username@.len() == 0,
            r.icon@.len() == 0,
    {
        Profile {
            id: String::new(),
            visible: true,
            network: String::new(),
            username: String::new(),
            icon: String::new(),
            url: Url::default(),
        }
    }
}

/// An award.
#[derive(Debug, Clone)]
pub struct Award {
    pub id: String,
    pub visible: bool,
    pub title: String,
    pub awarder: String,
    pub date: String,
    pub summary: String,
    pub url: Url,
}

impl Award {
    /// Whether every field but the identifier is as in `other`.
    pub open spec fn same_content(self, other: Award) -> bool {
        &&& self.visible == other.visible
        &&& self.title@ == other.title@
        &&& self.awarder@ == other.awarder@
        &&& self.date@ == other.date@
        &&& self.summary@ == other.summary@
        &&& self.url.same(other.url)
    }

    /// Whether two items have the same fields.
    pub open spec fn same(self, other: Award) -> bool {
        self.id@ == other.id@ && self.same_content(other)
    }

    /// Whether every optional field is as in an item that was just made.
    pub open spec fn bare(self) -> bool {
        &&& self.visible
        &&& self.awarder@.len() == 0
        &&& self.date@.len() == 0
        &&& self.summary@.len() == 0
        &&& self.url.label@.len() == 0 && self.url.href@.len() == 0
    }

    /// A visible item with a fresh identifier and the given required fields.
    pub fn new(title: &str) -> (r: Award)
        ensures
            id_shaped(r.id@),
            r.bare(),
            r.title@ == title@,
    {
        Award {
            id: create_id(),
            visible: true,
            title: owned(title),
            awarder: String::new(),
            date: String::new(),
            summary: String::new(),
            url: Url::default(),
        }
    }

    /// Sets the awarder.
    pub fn with_awarder(self, awarder: &str) -> (r: Award)
        ensures
            r.awarder@ == awarder@,
            r == (Award { awarder: r.awarder, ..self }),
    {
        let mut item = self;
        item.awarder = owned(awarder);
        item
    }

    /// Sets the date.
    pub fn with_date(self, date: &str) -> (r: Award)
        ensures
            r.date@ == date@,
            r == (Award { date: r.date, ..self }),
    {
        let mut item = self;
        item.date = owned(date);
        item
    }

    /// Sets the summary.
    pub fn with_summary(self, summary: &str) -> (r: Award)
        ensures
            r.summary@ == summary@,
            r == (Award { summary: r.summary, ..self }),
    {
        let mut item = self;
        item.summary = owned(summary);
        item
    }

    /// Sets the link to `url`, without a label.
    pub fn with_url(self, url: &str) -> (r: Award)
        ensures
            r.url.href@ == url@,
            r.url.label@.len() == 0,
            r == (Award { url: r.url, ..self }),
    {
        let mut item = self;
        item.url = Url::new(url);
        item
    }

    /// A copy of the item.
    pub fn copy(&self) -> (r: Award)
        ensures
            r.same(*self),
    {
        Award {
            id: self.id.clone(),
            visible: self.visible,
            title: self.title.clone(),
            awarder: self.awarder.clone(),
            date: self.date.clone(),
            summary: self.summary.clone(),
            url: self.url.copy(),
        }
    }
}

impl Default for Award {
    /// A visible item with every text empty, and no identifier yet.
    fn default() -> (r: Award)
        ensures
            r.id@.len() == 0,
            r.bare(),
            r.title@.len() == 0,
    {
        Award {
            id: String::new(),
            visible: true,
            title: String::new(),
            awarder: String::new(),
            date: String::new(),
            summary: String::new(),
            url: Url::default(),
        }
    }
}

/// A certificate.
#[derive(Debug, Clone)]
pub struct Certification {
    pub id: String,
    pub visible: bool,
    pub name: String,
    pub issuer: String,
    pub date: String,
    pub summary: String,
    pub url: Url,
}

impl Certification {
    /// Whether every field but the identifier is as in `other`.
    pub open spec fn same_content(self, other: Certification) -> bool {
        &&& self.visible == other.visible
        &&& self.name@ == other.name@
        &&& self.issuer@ == other.issuer@
        &&& self.date@ == other.date@
        &&& self.summary@ == other.summary@
        &&& self.url.same(other.url)
    }

    /// Whether two items have the same fields.
    pub open spec fn same(self, other: Certification) -> bool {
        self.id@ == other.id@ && self.same_content(other)
    }

    /// Whether every optional field is as in an item that was just made.
    pub open spec fn bare(self) -> bool {
        &&& self.visible
        &&& self.date@.len() == 0
        &&& self.summary@.len() == 0
        &&& self.url.label@.len() == 0 && self.url.href@.len() == 0
    }

    /// A visible item with a fresh identifier and the given required fields.
    pub fn new(name: &str, issuer: &str) -> (r: Certification)
        ensures
            id_shaped(r.id@),
            r.bare(),
            r.name@ == name@,
            r.issuer@ == issuer@,
    {
        Certification {
            id: create_id(),
            visible: true,
            name: owned(name),
            issuer: owned(issuer),
            date: String::new(),
            summary: String::new(),
            url: Url::default(),
        }
    }

    /// Sets the date.
    pub fn with_date(self, date: &str) -> (r: Certification)
        ensures
            r.date@ == date@,
            r == (Certification { date: r.date, ..self }),
    {
        let mut item = self;
        item.date = owned(date);
        item
    }

    /// Sets the summary.
    pub fn with_summary(self, summary: &str) -> (r: Certification)
        ensures
            r.summary@ == summary@,
            r == (Certification { summary: r.summary, ..self }),
    {
        let mut item = self;
        item.summary = owned(summary);
        item
    }

    /// Sets the link to `url`, without a label.
    pub fn with_url(self, url: &str) -> (r: Certification)
        ensures
            r.url.href@ == url@,
            r.url.label@.len() == 0,
            r == (Certification { url: r.url, ..self }),
    {
        let mut item = self;
        item.url = Url::new(url);
        item
    }

    /// A copy of the item.
    pub fn copy(&self) -> (r: Certification)
        ensures
            r.same(*self),
    {
        Certification {
            id: self.id.clone(),
            visible: self.visible,
            name: self.name.clone(),
            issuer: self.issuer.clone(),
            date: self.date.clone(),
            summary: self.summary.clone(),
            url: self.url.copy(),
        }
    }
}

impl Default for Certification {
    /// A visible item with every text empty, and no identifier yet.
    fn default() -> (r: Certification)
        ensures
            r.id@.len() == 0,
            r.bare(),
            r.name@.len() == 0,
            r.issuer@.len() == 0,
    {
        Certification {
            id: String::new(),
            visible: true,
            name: String::new(),
            issuer: String::new(),
            date: String::new(),
            summary: String::new(),
            url: Url::default(),
        }
    }
}

/// A publication.
#[derive(Debug, Clone)]
pub struct Publication {
    pub id: String,
    pub visible: bool,
    pub name: String,
    pub publisher: String,
    pub date: String,
    pub summary: String,
    pub url: Url,
}

impl Publication {
    /// Whether every field but the identifier is as in `other`.
    pub open spec fn same_content(self, other: Publication) -> bool {
        &&& self.visible == other.visible
        &&& self.name@ == other.name@
        &&& self.publisher@ == other.publisher@
        &&& self.date@ == other.date@
        &&& self.summary@ == other.summary@
        &&& self.url.same(other.url)
    }

    /// Whether two items have the same fields.
    pub open spec fn same(self, other: Publication) -> bool {
        self.id@ == other.id@ && self.same_content(other)
    }

    /// Whether every optional field is as in an item that was just made.
    pub open spec fn bare(self) -> bool {
        &&& self.visible
        &&& self.publisher@.len() == 0
        &&& self.date@.len() == 0
        &&& self.summary@.len() == 0
        &&& self.url.label@.len() == 0 && self.url.href@.len() == 0
    }

    /// A visible item with a fresh identifier and the given required fields.
    pub fn new(name: &str) -> (r: Publication)
        ensures
            id_shaped(r.id@),
            r.bare(),
            r.name@ == name@,
    {
        Publication {
            id: create_id(),
            visible: true,
            name: owned(name),
            publisher: String::new(),
            date: String::new(),
            summary: String::new(),
            url: Url::default(),
        }
    }

    /// Sets the publisher.
    pub fn with_publisher(self, publisher: &str) -> (r: Publication)
        ensures
            r.publisher@ == publisher@,
            r == (Publication { publisher: r.publisher, ..self }),
    {
        let mut item = self;
        item.publisher = owned(publisher);
        item
    }

    /// Sets the date.
    pub fn with_date(self, date: &str) -> (r: Publication)
        ensures
            r.date@ == date@,
            r == (Publication { date: r.date, ..self }),
    {
        let mut item = self;
        item.date = owned(date);
        item
    }

    /// Sets the summary.
    pub fn with_summary(self, summary: &str) -> (r: Publication)
        ensures
            r.summary@ == summary@,
            r == (Publication { summary: r.summary, ..self }),
    {
        let mut item = self;
        item.summary = owned(summary);
        item
    }

    /// Sets the link to `url`, without a label.
    pub fn with_url(self, url: &str) -> (r: Publication)
        ensures
            r.url.href@ == url@,
            r.url.label@.len() == 0,
            r == (Publication { url: r.url, ..self }),
    {
        let mut item = self;
        item.url = Url::new(url);
        item
    }

    /// A copy of the item.
    pub fn copy(&self) -> (r: Publication)
        ensures
            r.same(*self),
    {
        Publication {
            id: self.id.clone(),
            visible: self.visible,
            name: self.name.clone(),
            publisher: self.publisher.clone(),
            date: self.date.clone(),
            summary: self.summary.clone(),
            url: self.url.copy(),
        }
    }
}

impl Default for Publication {
    /// A visible item with every text empty, and no identifier yet.
    fn default() -> (r: Publication)
        ensures
            r.id@.len() == 0,
            r.bare(),
            r.name@.len() == 0,
    {
        Publication {
            id: String::new(),
            visible: true,
            name: String::new(),
            publisher: String::new(),
            date: String::new(),
            summary: String::new(),
            url: Url::default(),
        }
    }
}

/// A language, with a level from 0 to 5.
#[derive(Debug, Clone)]
pub struct Language {
    pub id: String,
    pub visible: bool,
    pub name: String,
    pub description: String,
    pub level: u8,
}

impl Language {
    /// Whether every field but the identifier is as in `other`.
    pub open spec fn same_content(self, other: Language) -> bool {
        &&& self.visible == other.visible
        &&& self.name@ == other.name@
        &&& self.description@ == other.description@
        &&& self.level == other.level
    }

    /// Whether two items have the same fields.
    pub open spec fn same(self, other: Language) -> bool {
        self.id@ == other.id@ && self.same_content(other)
    }

    /// Whether every optional field is as in an item that was just made.
    pub open spec fn bare(self) -> bool {
        &&& self.visible
        &&& self.description@.len() == 0
        &&& self.level == 1
    }

    /// A visible item with a fresh identifier and the given required fields.
    pub fn new(name: &str) -> (r: Language)
        ensures
            id_shaped(r.id@),
            r.bare(),
            r.name@ == name@,
    {
        Language {
            id: create_id(),
            visible: true,
            name: owned(name),
            description: String::new(),
            level: 1,
        }
    }

    /// Sets the description.
    pub fn with_description(self, description: &str) -> (r: Language)
        ensures
            r.description@ == description@,
            r == (Language { description: r.description, ..self }),
    {
        let mut item = self;
        item.description = owned(description);
        item
    }

    /// Sets the level, which is held to the range 0 to 5.
    pub fn with_level(self, level: u8) -> (r: Language)
        ensures
            r.level == clamp_level(level),
            r.level <= 5,
            r == (Language { level: r.level, ..self }),
    {
        let mut item = self;
        item.level = if level > 5 {
            5
        } else {
            level
        };
        item
    }

    /// A copy of the item.
    pub fn copy(&self) -> (r: Language)
        ensures
            r.same(*self),
    {
        Language {
            id: self.id.clone(),
            visible: self.visible,
            name: self.name.clone(),
            description: self.description.clone(),
            level: self.level,
        }
    }
}

impl Default for Language {
    /// A visible item with every text empty, and no identifier yet.
    fn default() -> (r: Language)
        ensures
            r.id@.len() == 0,
            r.bare(),
            r.name@.len() == 0,
    {
        Language {
            id: String::new(),
            visible: true,
            name: String::new(),
            description: String::new(),
            level: 1,
        }
    }
}

/// An interest.
#[derive(Debug, Clone)]
pub struct Interest {
    pub id: String,
    pub visible: bool,
    pub name: String,
    pub keywords: Vec<String>,
}

impl Interest {
    /// Whether every field but the identifier is as in `other`.
    pub open spec fn same_content(self, other: Interest) -> bool {
        &&& self.visible == other.visible
        &&& self.name@ == other.name@
        &&& texts(self.keywords@) == texts(other.keywords@)
    }

    /// Whether two items have the same fields.
    pub open spec fn same(self, other: Interest) -> bool {
        self.id@ == other.id@ && self.same_content(other)
    }

    /// Whether every optional field is as in an item that was just made.
    pub open spec fn bare(self) -> bool {
        &&& self.visible
        &&& self.keywords@.len() == 0
    }

    /// A visible item with a fresh identifier and the given required fields.
    pub fn new(name: &str) -> (r: Interest)
        ensures
            id_shaped(r.id@),
            r.bare(),
            r.name@ == name@,
    {
        Interest {
            id: create_id(),
            visible: true,
            name: owned(name),
            keywords: Vec::new(),
        }
    }

    /// Sets the keywords.
    pub fn with_keywords(self, keywords: Vec<String>) -> (r: Interest)
        ensures
            r == (Interest { keywords, ..self }),
    {
        let mut item = self;
        item.keywords = keywords;
        item
    }

    /// A copy of the item.
    pub fn copy(&self) -> (r: Interest)
        ensures
            r.same(*self),
    {
        Interest {
            id: self.id.clone(),
            visible: self.visible,
            name: self.name.clone(),
            keywords: self.keywords.clone(),
        }
    }
}

impl Default for Interest {
    /// A visible item with every text empty, and no identifier yet.
    fn default() -> (r: Interest)
        ensures
            r.id@.len() == 0,
            r.bare(),
            r.name@.len() == 0,
    {
        Interest {
            id: String::new(),
            visible: true,
            name: String::new(),
            keywords: Vec::new(),
        }
    }
}

/// Voluntary work.
#[derive(Debug, Clone)]
pub struct Volunteer {
    pub id: String,
    pub visible: bool,
    pub organization: String,
    pub position: String,
    pub location: String,
    pub date: String,
    pub summary: String,
    pub url: Url,
}

impl Volunteer {
    /// Whether every field but the identifier is as in `other`.
    pub open spec fn same_content(self, other: Volunteer) -> bool {
        &&& self.visible == other.visible
        &&& self.organization@ == other.organization@
        &&& self.position@ == other.position@
        &&& self.location@ == other.location@
        &&& self.date@ == other.date@
        &&& self.summary@ == other.summary@
        &&& self.url.same(other.url)
    }

    /// Whether two items have the same fields.
    pub open spec fn same(self, other: Volunteer) -> bool {
        self.id@ == other.id@ && self.same_content(other)
    }

    /// Whether every optional field is as in an item that was just made.
    pub open spec fn bare(self) -> bool {
        &&& self.visible
        &&& self.location@.len() == 0
        &&& self.date@.len() == 0
        &&& self.summary@.len() == 0
        &&& self.url.label@.len() == 0 && self.url.href@.len() == 0
    }

    /// A visible item with a fresh identifier and the given required fields.
    pub fn new(organization: &str, position: &str) -> (r: Volunteer)
        ensures
            id_shaped(r.id@),
            r.bare(),
            r.organization@ == organization@,
            r.position@ == position@,
    {
        Volunteer {
            id: create_id(),
            visible: true,
            organization: owned(organization),
            position: owned(position),
            location: String::new(),
            date: String::new(),
            summary: String::new(),
            url: Url::default(),
        }
    }

    /// Sets the location.
    pub fn with_location(self, location: &str) -> (r: Volunteer)
        ensures
            r.location@ == location@,
            r == (Volunteer { location: r.location, ..self }),
    {
        let mut item = self;
        item.location = owned(location);
        item
    }

    /// Sets the date.
    pub fn with_date(self, date: &str) -> (r: Volunteer)
        ensures
            r.date@ == date@,
            r == (Volunteer { date: r.date, ..self }),
    {
        let mut item = self;
        item.date = owned(date);
        item
    }

    /// Sets the summary.
    pub fn with_summary(self, summary: &str) -> (r: Volunteer)
        ensures
            r.summary@ == summary@,
            r == (Volunteer { summary: r.summary, ..self }),
    {
        let mut item = self;
        item.summary = owned(summary);
        item
    }

    /// Sets the link to `url`, without a label.
    pub fn with_url(self, url: &str) -> (r: Volunteer)
        ensures
            r.url.href@ == url@,
            r.url.label@.len() == 0,
            r == (Volunteer { url: r.url, ..self }),
    {
        let mut item = self;
        item.url = Url::new(url);
        item
    }

    /// A copy of the item.
    pub fn copy(&self) -> (r: Volunteer)
        ensures
            r.same(*self),
    {
        Volunteer {
            id: self.id.clone(),
            visible: self.visible,
            organization: self.organization.clone(),
            position: self.position.clone(),
            location: self.location.clone(),
            date: self.date.clone(),
            summary: self.summary.clone(),
            url: self.url.copy(),
        }
    }
}

impl Default for Volunteer {
    /// A visible item with every text empty, and no identifier yet.
    fn default() -> (r: Volunteer)
        ensures
            r.id@.len() == 0,
            r.bare(),
            r.organization@.len() == 0,
            r.position@.len() == 0,
    {
        Volunteer {
            id: String::new(),
            visible: true,
            organization: String::new(),
            position: String::new(),
            location: String::new(),
            date: String::new(),
            summary: String::new(),
            url: Url::default(),
        }
    }
}

/// A person who vouches for the subject.
#[derive(Debug, Clone)]
pub struct Reference {
    pub id: String,
    pub visible: bool,
    pub name: String,
    pub description: String,
    pub summary: String,
    pub url: Url,
}

impl Reference {
    /// Whether every field but the identifier is as in `other`.
    pub open spec fn same_content(self, other: Reference) -> bool {
        &&& self.visible == other.visible
        &&& self.name@ == other.name@
        &&& self.description@ == other.description@
        &&& self.summary@ == other.summary@
        &&& self.url.same(other.url)
    }

    /// Whether two items have the same fields.
    pub open spec fn same(self, other: Reference) -> bool {
        self.id@ == other.id@ && self.same_content(other)
    }

    /// Whether every optional field is as in an item that was just made.
    pub open spec fn bare(self) -> bool {
        &&& self.visible
        &&& self.description@.len() == 0
        &&& self.summary@.len() == 0
        &&& self.url.label@.len() == 0 && self.url.href@.len() == 0
    }

    /// A visible item with a fresh identifier and the given required fields.
    pub fn new(name: &str) -> (r: Reference)
        ensures
            id_shaped(r.id@),
            r.bare(),
            r.name@ == name@,
    {
        Reference {
            id: create_id(),
            visible: true,
            name: owned(name),
            description: String::new(),
            summary: String::new(),
            url: Url::default(),
        }
    }

    /// Sets the description.
    pub fn with_description(self, description: &str) -> (r: Reference)
        ensures
            r.description@ == description@,
            r == (Reference { description: r.description, ..self }),
    {
        let mut item = self;
        item.description = owned(description);
        item
    }

    /// Sets the summary.
    pub fn with_summary(self, summary: &str) -> (r: Reference)
        ensures
            r.summary@ == summary@,
            r == (Reference { summary: r.summary, ..self }),
    {
        let mut item = self;
        item.summary = owned(summary);
        item
    }

    /// Sets the link to `url`, without a label.
    pub fn with_url(self, url: &str) -> (r: Reference)
        ensures
            r.url.href@ == url@,
            r.url.label@.len() == 0,
            r == (Reference { url: r.url, ..self }),
    {
        let mut item = self;
        item.url = Url::new(url);
        item
    }

    /// A copy of the item.
    pub fn copy(&self) -> (r: Reference)
        ensures
            r.same(*self),
    {
        Reference {
            id: self.id.clone(),
            visible: self.visible,
            name: self.name.clone(),
            description: self.description.clone(),
            summary: self.summary.clone(),
            url: self.url.copy(),
        }
    }
}

impl Default for Reference {
    /// A visible item with every text empty, and no identifier yet.
    fn default() -> (r: Reference)
        ensures
            r.id@.len() == 0,
            r.bare(),
            r.name@.len() == 0,
    {
        Reference {
            id: String::new(),
            visible: true,
            name: String::new(),
            description: String::new(),
            summary: String::new(),
            url: Url::default(),
        }
    }
}

/// An item of a section that the subject defines.
#[derive(Debug, Clone)]
pub struct CustomItem {
    pub id: String,
    pub visible: bool,
    pub name: String,
    pub description: String,
    pub date: String,
    pub location: String,
    pub summary: String,
    pub keywords: Vec<String>,
    pub url: Url,
}

impl CustomItem {
    /// Whether every field but the identifier is as in `other`.
    pub open spec fn same_content(self, other: CustomItem) -> bool {
        &&& self.visible == other.visible
        &&& self.name@ == other.name@
        &&& self.description@ == other.description@
        &&& self.date@ == other.date@
        &&& self.location@ == other.location@
        &&& self.summary@ == other.summary@
        &&& texts(self.keywords@) == texts(other.keywords@)
        &&& self.url.same(other.url)
    }

    /// Whether two items have the same fields.
    pub open spec fn same(self, other: CustomItem) -> bool {
        self.id@ == other.id@ && self.same_content(other)
    }

    /// Whether every optional field is as in an item that was just made.
    pub open spec fn bare(self) -> bool {
        &&& self.visible
        &&& self.description@.len() == 0
        &&& self.date@.len() == 0
        &&& self.location@.len() == 0
        &&& self.summary@.len() == 0
        &&& self.keywords@.len() == 0
        &&& self.url.label@.len() == 0 && self.url.href@.len() == 0
    }

    /// A visible item with a fresh identifier and the given required fields.
    pub fn new(name: &str) -> (r: CustomItem)
        ensures
            id_shaped(r.id@),
            r.bare(),
            r.name@ == name@,
    {
        CustomItem {
            id: create_id(),
            visible: true,
            name: owned(name),
            description: String::new(),
            date: String::new(),
            location: String::new(),
            summary: String::new(),
            keywords: Vec::new(),
            url: Url::default(),
        }
    }

    /// Sets the description.
    pub fn with_description(self, description: &str) -> (r: CustomItem)
        ensures
            r.description@ == description@,
            r == (CustomItem { description: r.description, ..self }),
    {
        let mut item = self;
        item.description = owned(description);
        item
    }

    /// Sets the date.
    pub fn with_date(self, date: &str) -> (r: CustomItem)
        ensures
            r.date@ == date@,
            r == (CustomItem { date: r.date, ..self }),
    {
        let mut item = self;
        item.date = owned(date);
        item
    }

    /// Sets the location.
    pub fn with_location(self, location: &str) -> (r: CustomItem)
        ensures
            r.location@ == location@,
            r == (CustomItem { location: r.location, ..self }),
    {
        let mut item = self;
        item.location = owned(location);
        item
    }

    /// Sets the summary.
    pub fn with_summary(self, summary: &str) -> (r: CustomItem)
        ensures
            r.summary@ == summary@,
            r == (CustomItem { summary: r.summary, ..self }),
    {
        let mut item = self;
        item.summary = owned(summary);
        item
    }

    /// Sets the keywords.
    pub fn with_keywords(self, keywords: Vec<String>) -> (r: CustomItem)
        ensures
            r == (CustomItem { keywords, ..self }),
    {
        let mut item = self;
        item.keywords = keywords;
        item
    }

    /// Sets the link to `url`, without a label.
    pub fn with_url(self, url: &str) -> (r: CustomItem)
        ensures
            r.url.href@ == url@,
            r.url.label@.len() == 0,
            r == (CustomItem { url: r.url, ..self }),
    {
        let mut item = self;
        item.url = Url::new(url);
        item
    }

    /// A copy of the item.
    pub fn copy(&self) -> (r: CustomItem)
        ensures
            r.same(*self),
    {
        CustomItem {
            id: self.id.clone(),
            visible: self.visible,
            name: self.name.clone(),
            description: self.description.clone(),
            date: self.date.clone(),
            location: self.location.clone(),
            summary: self.summary.clone(),
            keywords: self.keywords.clone(),
            url: self.url.copy(),
        }
    }
}

impl Default for CustomItem {
    /// A visible item with every text empty, and no identifier yet.
    fn default() -> (r: CustomItem)
        ensures
            r.id@.len() == 0,
            r.bare(),
            r.name@.len() == 0,
    {
        CustomItem {
            id: String::new(),
            visible: true,
            name: String::new(),
            description: String::new(),
            date: String::new(),
            location: String::new(),
            summary: String::new(),
            keywords: Vec::new(),
            url: Url::default(),
        }
    }
}

/// A value that is compared without regard to identifiers.
pub trait Content {
    /// Whether the two agree in all but the identifiers that they or their
    /// parts carry.
    spec fn alike(self, other: Self) -> bool;
}

/// Whether the values agree, one for one and in order, in all but
/// identifiers.
pub open spec fn all_alike<T: Content>(a: Seq<T>, b: Seq<T>) -> bool {
    &&& a.len() == b.len()
    &&& forall|i: int| 0 <= i < a.len() ==> (#[trigger] a[i]).alike(b[i])
}

impl Content for Experience {
    open spec fn alike(self, other: Experience) -> bool {
        self.same_content(other)
    }
}

impl Content for Education {
    open spec fn alike(self, other: Education) -> bool {
        self.same_content(other)
    }
}

impl Content for Skill {
    open spec fn alike(self, other: Skill) -> bool {
        self.same_content(other)
    }
}

impl Content for Project {
    open spec fn alike(self, other: Project) -> bool {
        self.same_content(other)
    }
}

impl Content for Profile {
    open spec fn alike(self, other: Profile) -> bool {
        self.same_content(other)
    }
}

impl Content for Award {
    open spec fn alike(self, other: Award) -> bool {
        self.same_content(other)
    }
}

impl Content for Certification {
    open spec fn alike(self, other: Certification) -> bool {
        self.same_content(other)
    }
}

impl Content for Publication {
    open spec fn alike(self, other: Publication) -> bool {
        self.same_content(other)
    }
}

impl Content for Language {
    open spec fn alike(self, other: Language) -> bool {
        self.same_content(other)
    }
}

impl Content for Interest {
    open spec fn alike(self, other: Interest) -> bool {
        self.same_content(other)
    }
}

impl Content for Volunteer {
    open spec fn alike(self, other: Volunteer) -> bool {
        self.same_content(other)
    }
}

impl Content for Reference {
    open spec fn alike(self, other: Reference) -> bool {
        self.same_content(other)
    }
}

impl Content for CustomItem {
    open spec fn alike(self, other: CustomItem) -> bool {
        self.same_content(other)
    }
}

} // verus!
