//! The JSON of a document: each struct an object with its fields in the
//! order in which they are declared, each list an array, without any white
//! space.

use vstd::prelude::*;
use crate::json_text::{
    bool_json, decimal_json, json_string, list_json, list_writable, quotable, JsonWriter, ToJson,
};
use crate::numeral::decimal;
use crate::schema::basics::{Basics, Picture, PictureEffects};
use crate::schema::items::{
    Award, Certification, CustomItem, Education, Experience, Interest, Language, Profile, Project,
    Publication, Reference, Skill, Volunteer,
};
use crate::schema::metadata::{
    CustomCss, FontConfig, Metadata, PageConfig, PageFormat, PageOptions, Theme, Typography,
};
use crate::schema::resume::ResumeData;
use crate::schema::sections::{CustomSection, CustomSections, Section, Sections, SummarySection};
use crate::schema::shared::{CustomField, Url};

verus! {

impl ToJson for PageFormat {
    /// The paper's name in lower case, as a string.
    open spec fn json(&self) -> Seq<char> {
        match self {
            PageFormat::A4 => "\"a4\""@,
            PageFormat::Letter => "\"letter\""@,
        }
    }

    open spec fn writable(&self) -> bool {
        true
    }

    fn write(&self, w: &mut JsonWriter) {
        match self {
            PageFormat::A4 => w.raw("\"a4\""),
            PageFormat::Letter => w.raw("\"letter\""),
        }
    }
}

impl ToJson for CustomSection {
    /// A member of the object of the subject's own sections: the key, a
    /// colon, the section.
    open spec fn json(&self) -> Seq<char> {
        json_string(self.key@) + ":"@ + self.section.json()
    }

    open spec fn writable(&self) -> bool {
        &&& quotable(self.key@)
        &&& self.section.writable()
    }

    fn write(&self, w: &mut JsonWriter) {
        w.string(self.key.as_str());
        w.raw(":");
        self.section.write(w);
        proof {
            if w.error is None {
                assert(w.out@ =~= old(w).out@ + self.json());
            }
        }
    }
}

impl ToJson for CustomSections {
    /// An object with one member for each section, in the order in which
    /// the sections are held.
    open spec fn json(&self) -> Seq<char> {
        "{"@ + list_json(self.entries@, self.entries@.len() as nat) + "}"@
    }

    open spec fn writable(&self) -> bool {
        list_writable(self.entries@, self.entries@.len() as nat)
    }

    fn write(&self, w: &mut JsonWriter) {
        w.raw("{");
        let ghost start = *w;
        let mut i: usize = 0;
        assert(w.out@ =~= start.out@ + list_json(self.entries@, 0));
        while i < self.entries.len()
            invariant
                i <= self.entries@.len(),
                w.wrote(start, list_json(self.entries@, i as nat)),
                w.error is None <==> start.error is None && list_writable(
                    self.entries@,
                    i as nat,
                ),
            decreases self.entries@.len() - i,
        {
            if i > 0 {
                w.raw(",");
            }
            self.entries[i].write(w);
            proof {
                if w.error is None {
                    if i > 0 {
                        assert(w.out@ =~= start.out@ + (list_json(self.entries@, i as nat) + ","@
                            + self.entries@[i as int].json()));
                    } else {
                        assert(w.out@ =~= start.out@ + self.entries@[0].json());
                    }
                }
            }
            i += 1;
        }
        w.raw("}");
        proof {
            if w.error is None {
                assert(w.out@ =~= old(w).out@ + self.json());
            }
        }
    }
}

impl ToJson for Url {
    open spec fn json(&self) -> Seq<char> {
        "{\"label\":"@ + json_string(self.label@)
            + ",\"href\":"@ + json_string(self.href@)
            + "}"@
    }

    open spec fn writable(&self) -> bool {
        &&& quotable(self.label@)
        &&& quotable(self.href@)
    }

    fn write(&self, w: &mut JsonWriter) {
        let start = Ghost(*w);
        let t = w.string_field(start, Ghost(None), "{\"label\":", self.label.as_str());
        let t = w.string_field(start, t, ",\"href\":", self.href.as_str());
        w.close(start, t, "}");
    }
}

impl ToJson for CustomField {
    open spec fn json(&self) -> Seq<char> {
        "{\"id\":"@ + json_string(self.id@)
            + ",\"icon\":"@ + json_string(self.icon@)
            + ",\"name\":"@ + json_string(self.name@)
            + ",\"value\":"@ + json_string(self.value@)
            + "}"@
    }

    open spec fn writable(&self) -> bool {
        &&& quotable(self.id@)
        &&& quotable(self.icon@)
        &&& quotable(self.name@)
        &&& quotable(self.value@)
    }

    fn write(&self, w: &mut JsonWriter) {
        let start = Ghost(*w);
        let t = w.string_field(start, Ghost(None), "{\"id\":", self.id.as_str());
        let t = w.string_field(start, t, ",\"icon\":", self.icon.as_str());
        let t = w.string_field(start, t, ",\"name\":", self.name.as_str());
        let t = w.string_field(start, t, ",\"value\":", self.value.as_str());
        w.close(start, t, "}");
    }
}

impl ToJson for PictureEffects {
    open spec fn json(&self) -> Seq<char> {
        "{\"hidden\":"@ + bool_json(self.hidden)
            + ",\"border\":"@ + bool_json(self.border)
            + ",\"grayscale\":"@ + bool_json(self.grayscale)
            + "}"@
    }

    open spec fn writable(&self) -> bool {
        true
    }

    fn write(&self, w: &mut JsonWriter) {
        let start = Ghost(*w);
        let t = w.bool_field(start, Ghost(None), "{\"hidden\":", self.hidden);
        let t = w.bool_field(start, t, ",\"border\":", self.border);
        let t = w.bool_field(start, t, ",\"grayscale\":", self.grayscale);
        w.close(start, t, "}");
    }
}

impl ToJson for Picture {
    open spec fn json(&self) -> Seq<char> {
        "{\"url\":"@ + json_string(self.url@)
            + ",\"size\":"@ + decimal(self.size as nat)
            + ",\"aspectRatio\":"@ + decimal_json(self.aspect_ratio)
            + ",\"borderRadius\":"@ + decimal(self.border_radius as nat)
            + ",\"effects\":"@ + self.effects.json()
            + "}"@
    }

    open spec fn writable(&self) -> bool {
        &&& quotable(self.url@)
        &&& self.effects.writable()
    }

    fn write(&self, w: &mut JsonWriter) {
        let start = Ghost(*w);
        let t = w.string_field(start, Ghost(None), "{\"url\":", self.url.as_str());
        let t = w.number_field(start, t, ",\"size\":", self.size as u64);
        let t = w.decimal_field(start, t, ",\"aspectRatio\":", &self.aspect_ratio);
        let t = w.number_field(start, t, ",\"borderRadius\":", self.border_radius as u64);
        let t = w.value_field(start, t, ",\"effects\":", &self.effects);
        w.close(start, t, "}");
    }
}

impl ToJson for Basics {
    open spec fn json(&self) -> Seq<char> {
        "{\"name\":"@ + json_string(self.name@)
            + ",\"headline\":"@ + json_string(self.headline@)
            + ",\"email\":"@ + json_string(self.email@)
            + ",\"phone\":"@ + json_string(self.phone@)
            + ",\"location\":"@ + json_string(self.location@)
            + ",\"url\":"@ + self.url.json()
            + ",\"customFields\":"@ + self.custom_fields.json()
            + ",\"picture\":"@ + self.picture.json()
            + "}"@
    }

    open spec fn writable(&self) -> bool {
        &&& quotable(self.name@)
        &&& quotable(self.headline@)
        &&& quotable(self.email@)
        &&& quotable(self.phone@)
        &&& quotable(self.location@)
        &&& self.url.writable()
        &&& self.custom_fields.writable()
        &&& self.picture.writable()
    }

    fn write(&self, w: &mut JsonWriter) {
        let start = Ghost(*w);
        let t = w.string_field(start, Ghost(None), "{\"name\":", self.name.as_str());
        let t = w.string_field(start, t, ",\"headline\":", self.headline.as_str());
        let t = w.string_field(start, t, ",\"email\":", self.email.as_str());
        let t = w.string_field(start, t, ",\"phone\":", self.phone.as_str());
        let t = w.string_field(start, t, ",\"location\":", self.location.as_str());
        let t = w.value_field(start, t, ",\"url\":", &self.url);
        let t = w.value_field(start, t, ",\"customFields\":", &self.custom_fields);
        let t = w.value_field(start, t, ",\"picture\":", &self.picture);
        w.close(start, t, "}");
    }
}

impl ToJson for Experience {
    open spec fn json(&self) -> Seq<char> {
        "{\"id\":"@ + json_string(self.id@)
            + ",\"visible\":"@ + bool_json(self.visible)
            + ",\"company\":"@ + json_string(self.company@)
            + ",\"position\":"@ + json_string(self.position@)
            + ",\"location\":"@ + json_string(self.location@)
            + ",\"date\":"@ + json_string(self.date@)
            + ",\"summary\":"@ + json_string(self.summary@)
            + ",\"url\":"@ + self.url.json()
            + "}"@
    }

    open spec fn writable(&self) -> bool {
        &&& quotable(self.id@)
        &&& quotable(self.company@)
        &&& quotable(self.position@)
        &&& quotable(self.location@)
        &&& quotable(self.date@)
        &&& quotable(self.summary@)
        &&& self.url.writable()
    }

    fn write(&self, w: &mut JsonWriter) {
        let start = Ghost(*w);
        let t = w.string_field(start, Ghost(None), "{\"id\":", self.id.as_str());
        let t = w.bool_field(start, t, ",\"visible\":", self.visible);
        let t = w.string_field(start, t, ",\"company\":", self.company.as_str());
        let t = w.string_field(start, t, ",\"position\":", self.position.as_str());
        let t = w.string_field(start, t, ",\"location\":", self.location.as_str());
        let t = w.string_field(start, t, ",\"date\":", self.date.as_str());
        let t = w.string_field(start, t, ",\"summary\":", self.summary.as_str());
        let t = w.value_field(start, t, ",\"url\":", &self.url);
        w.close(start, t, "}");
    }
}

impl ToJson for Education {
    open spec fn json(&self) -> Seq<char> {
        "{\"id\":"@ + json_string(self.id@)
            + ",\"visible\":"@ + bool_json(self.visible)
            + ",\"institution\":"@ + json_string(self.institution@)
            + ",\"area\":"@ + json_string(self.area@)
            + ",\"studyType\":"@ + json_string(self.study_type@)
            + ",\"date\":"@ + json_string(self.date@)
            + ",\"score\":"@ + json_string(self.score@)
            + ",\"summary\":"@ + json_string(self.summary@)
            + ",\"url\":"@ + self.url.json()
            + "}"@
    }

    open spec fn writable(&self) -> bool {
        &&& quotable(self.id@)
        &&& quotable(self.institution@)
        &&& quotable(self.area@)
        &&& quotable(self.study_type@)
        &&& quotable(self.date@)
        &&& quotable(self.score@)
        &&& quotable(self.summary@)
        &&& self.url.writable()
    }

    fn write(&self, w: &mut JsonWriter) {
        let start = Ghost(*w);
        let t = w.string_field(start, Ghost(None), "{\"id\":", self.id.as_str());
        let t = w.bool_field(start, t, ",\"visible\":", self.visible);
        let t = w.string_field(start, t, ",\"institution\":", self.institution.as_str());
        let t = w.string_field(start, t, ",\"area\":", self.area.as_str());
        let t = w.string_field(start, t, ",\"studyType\":", self.study_type.as_str());
        let t = w.string_field(start, t, ",\"date\":", self.date.as_str());
        let t = w.string_field(start, t, ",\"score\":", self.score.as_str());
        let t = w.string_field(start, t, ",\"summary\":", self.summary.as_str());
        let t = w.value_field(start, t, ",\"url\":", &self.url);
        w.close(start, t, "}");
    }
}

impl ToJson for Skill {
    open spec fn json(&self) -> Seq<char> {
        "{\"id\":"@ + json_string(self.id@)
            + ",\"visible\":"@ + bool_json(self.visible)
            + ",\"name\":"@ + json_string(self.name@)
            + ",\"description\":"@ + json_string(self.description@)
            + ",\"level\":"@ + decimal(self.level as nat)
            + ",\"keywords\":"@ + self.keywords.json()
            + "}"@
    }

    open spec fn writable(&self) -> bool {
        &&& quotable(self.id@)
        &&& quotable(self.name@)
        &&& quotable(self.description@)
        &&& self.keywords.writable()
    }

    fn write(&self, w: &mut JsonWriter) {
        let start = Ghost(*w);
        let t = w.string_field(start, Ghost(None), "{\"id\":", self.id.as_str());
        let t = w.bool_field(start, t, ",\"visible\":", self.visible);
        let t = w.string_field(start, t, ",\"name\":", self.name.as_str());
        let t = w.string_field(start, t, ",\"description\":", self.description.as_str());
        let t = w.number_field(start, t, ",\"level\":", self.level as u64);
        let t = w.value_field(start, t, ",\"keywords\":", &self.keywords);
        w.close(start, t, "}");
    }
}

impl ToJson for Project {
    open spec fn json(&self) -> Seq<char> {
        "{\"id\":"@ + json_string(self.id@)
            + ",\"visible\":"@ + bool_json(self.visible)
            + ",\"name\":"@ + json_string(self.name@)
            + ",\"description\":"@ + json_string(self.description@)
            + ",\"date\":"@ + json_string(self.date@)
            + ",\"summary\":"@ + json_string(self.summary@)
            + ",\"keywords\":"@ + self.keywords.json()
            + ",\"url\":"@ + self.url.json()
            + "}"@
    }

    open spec fn writable(&self) -> bool {
        &&& quotable(self.id@)
        &&& quotable(self.name@)
        &&& quotable(self.description@)
        &&& quotable(self.date@)
        &&& quotable(self.summary@)
        &&& self.keywords.writable()
        &&& self.url.writable()
    }

    fn write(&self, w: &mut JsonWriter) {
        let start = Ghost(*w);
        let t = w.string_field(start, Ghost(None), "{\"id\":", self.id.as_str());
        let t = w.bool_field(start, t, ",\"visible\":", self.visible);
        let t = w.string_field(start, t, ",\"name\":", self.name.as_str());
        let t = w.string_field(start, t, ",\"description\":", self.description.as_str());
        let t = w.string_field(start, t, ",\"date\":", self.date.as_str());
        let t = w.string_field(start, t, ",\"summary\":", self.summary.as_str());
        let t = w.value_field(start, t, ",\"keywords\":", &self.keywords);
        let t = w.value_field(start, t, ",\"url\":", &self.url);
        w.close(start, t, "}");
    }
}

impl ToJson for Profile {
    open spec fn json(&self) -> Seq<char> {
        "{\"id\":"@ + json_string(self.id@)
            + ",\"visible\":"@ + bool_json(self.visible)
            + ",\"network\":"@ + json_string(self.network@)
            + ",\"username\":"@ + json_string(self.username@)
            + ",\"icon\":"@ + json_string(self.icon@)
            + ",\"url\":"@ + self.url.json()
            + "}"@
    }

    open spec fn writable(&self) -> bool {
        &&& quotable(self.id@)
        &&& quotable(self.network@)
        &&& quotable(self.username@)
        &&& quotable(self.icon@)
        &&& self.url.writable()
    }

    fn write(&self, w: &mut JsonWriter) {
        let start = Ghost(*w);
        let t = w.string_field(start, Ghost(None), "{\"id\":", self.id.as_str());
        let t = w.bool_field(start, t, ",\"visible\":", self.visible);
        let t = w.string_field(start, t, ",\"network\":", self.network.as_str());
        let t = w.string_field(start, t, ",\"username\":", self.username.as_str());
        let t = w.string_field(start, t, ",\"icon\":", self.icon.as_str());
        let t = w.value_field(start, t, ",\"url\":", &self.url);
        w.close(start, t, "}");
    }
}

impl ToJson for Award {
    open spec fn json(&self) -> Seq<char> {
        "{\"id\":"@ + json_string(self.id@)
            + ",\"visible\":"@ + bool_json(self.visible)
            + ",\"title\":"@ + json_string(self.title@)
            + ",\"awarder\":"@ + json_string(self.awarder@)
            + ",\"date\":"@ + json_string(self.date@)
            + ",\"summary\":"@ + json_string(self.summary@)
            + ",\"url\":"@ + self.url.json()
            + "}"@
    }

    open spec fn writable(&self) -> bool {
        &&& quotable(self.id@)
        &&& quotable(self.title@)
        &&& quotable(self.awarder@)
        &&& quotable(self.date@)
        &&& quotable(self.summary@)
        &&& self.url.writable()
    }

    fn write(&self, w: &mut JsonWriter) {
        let start = Ghost(*w);
        let t = w.string_field(start, Ghost(None), "{\"id\":", self.id.as_str());
        let t = w.bool_field(start, t, ",\"visible\":", self.visible);
        let t = w.string_field(start, t, ",\"title\":", self.title.as_str());
        let t = w.string_field(start, t, ",\"awarder\":", self.awarder.as_str());
        let t = w.string_field(start, t, ",\"date\":", self.date.as_str());
        let t = w.string_field(start, t, ",\"summary\":", self.summary.as_str());
        let t = w.value_field(start, t, ",\"url\":", &self.url);
        w.close(start, t, "}");
    }
}

impl ToJson for Certification {
    open spec fn json(&self) -> Seq<char> {
        "{\"id\":"@ + json_string(self.id@)
            + ",\"visible\":"@ + bool_json(self.visible)
            + ",\"name\":"@ + json_string(self.name@)
            + ",\"issuer\":"@ + json_string(self.issuer@)
            + ",\"date\":"@ + json_string(self.date@)
            + ",\"summary\":"@ + json_string(self.summary@)
            + ",\"url\":"@ + self.url.json()
            + "}"@
    }

    open spec fn writable(&self) -> bool {
        &&& quotable(self.id@)
        &&& quotable(self.name@)
        &&& quotable(self.issuer@)
        &&& quotable(self.date@)
        &&& quotable(self.summary@)
        &&& self.url.writable()
    }

    fn write(&self, w: &mut JsonWriter) {
        let start = Ghost(*w);
        let t = w.string_field(start, Ghost(None), "{\"id\":", self.id.as_str());
        let t = w.bool_field(start, t, ",\"visible\":", self.visible);
        let t = w.string_field(start, t, ",\"name\":", self.name.as_str());
        let t = w.string_field(start, t, ",\"issuer\":", self.issuer.as_str());
        let t = w.string_field(start, t, ",\"date\":", self.date.as_str());
        let t = w.string_field(start, t, ",\"summary\":", self.summary.as_str());
        let t = w.value_field(start, t, ",\"url\":", &self.url);
        w.close(start, t, "}");
    }
}

impl ToJson for Publication {
    open spec fn json(&self) -> Seq<char> {
        "{\"id\":"@ + json_string(self.id@)
            + ",\"visible\":"@ + bool_json(self.visible)
            + ",\"name\":"@ + json_string(self.name@)
            + ",\"publisher\":"@ + json_string(self.publisher@)
            + ",\"date\":"@ + json_string(self.date@)
            + ",\"summary\":"@ + json_string(self.summary@)
            + ",\"url\":"@ + self.url.json()
            + "}"@
    }

    open spec fn writable(&self) -> bool {
        &&& quotable(self.id@)
        &&& quotable(self.name@)
        &&& quotable(self.publisher@)
        &&& quotable(self.date@)
        &&& quotable(self.summary@)
        &&& self.url.writable()
    }

    fn write(&self, w: &mut JsonWriter) {
        let start = Ghost(*w);
        let t = w.string_field(start, Ghost(None), "{\"id\":", self.id.as_str());
        let t = w.bool_field(start, t, ",\"visible\":", self.visible);
        let t = w.string_field(start, t, ",\"name\":", self.name.as_str());
        let t = w.string_field(start, t, ",\"publisher\":", self.publisher.as_str());
        let t = w.string_field(start, t, ",\"date\":", self.date.as_str());
        let t = w.string_field(start, t, ",\"summary\":", self.summary.as_str());
        let t = w.value_field(start, t, ",\"url\":", &self.url);
        w.close(start, t, "}");
    }
}

impl ToJson for Language {
    open spec fn json(&self) -> Seq<char> {
        "{\"id\":"@ + json_string(self.id@)
            + ",\"visible\":"@ + bool_json(self.visible)
            + ",\"name\":"@ + json_string(self.name@)
            + ",\"description\":"@ + json_string(self.description@)
            + ",\"level\":"@ + decimal(self.level as nat)
            + "}"@
    }

    open spec fn writable(&self) -> bool {
        &&& quotable(self.id@)
        &&& quotable(self.name@)
        &&& quotable(self.description@)
    }

    fn write(&self, w: &mut JsonWriter) {
        let start = Ghost(*w);
        let t = w.string_field(start, Ghost(None), "{\"id\":", self.id.as_str());
        let t = w.bool_field(start, t, ",\"visible\":", self.visible);
        let t = w.string_field(start, t, ",\"name\":", self.name.as_str());
        let t = w.string_field(start, t, ",\"description\":", self.description.as_str());
        let t = w.number_field(start, t, ",\"level\":", self.level as u64);
        w.close(start, t, "}");
    }
}

impl ToJson for Interest {
    open spec fn json(&self) -> Seq<char> {
        "{\"id\":"@ + json_string(self.id@)
            + ",\"visible\":"@ + bool_json(self.visible)
            + ",\"name\":"@ + json_string(self.name@)
            + ",\"keywords\":"@ + self.keywords.json()
            + "}"@
    }

    open spec fn writable(&self) -> bool {
        &&& quotable(self.id@)
        &&& quotable(self.name@)
        &&& self.keywords.writable()
    }

    fn write(&self, w: &mut JsonWriter) {
        let start = Ghost(*w);
        let t = w.string_field(start, Ghost(None), "{\"id\":", self.id.as_str());
        let t = w.bool_field(start, t, ",\"visible\":", self.visible);
        let t = w.string_field(start, t, ",\"name\":", self.name.as_str());
        let t = w.value_field(start, t, ",\"keywords\":", &self.keywords);
        w.close(start, t, "}");
    }
}

impl ToJson for Volunteer {
    open spec fn json(&self) -> Seq<char> {
        "{\"id\":"@ + json_string(self.id@)
            + ",\"visible\":"@ + bool_json(self.visible)
            + ",\"organization\":"@ + json_string(self.organization@)
            + ",\"position\":"@ + json_string(self.position@)
            + ",\"location\":"@ + json_string(self.location@)
            + ",\"date\":"@ + json_string(self.date@)
            + ",\"summary\":"@ + json_string(self.summary@)
            + ",\"url\":"@ + self.url.json()
            + "}"@
    }

    open spec fn writable(&self) -> bool {
        &&& quotable(self.id@)
        &&& quotable(self.organization@)
        &&& quotable(self.position@)
        &&& quotable(self.location@)
        &&& quotable(self.date@)
        &&& quotable(self.summary@)
        &&& self.url.writable()
    }

    fn write(&self, w: &mut JsonWriter) {
        let start = Ghost(*w);
        let t = w.string_field(start, Ghost(None), "{\"id\":", self.id.as_str());
        let t = w.bool_field(start, t, ",\"visible\":", self.visible);
        let t = w.string_field(start, t, ",\"organization\":", self.organization.as_str());
        let t = w.string_field(start, t, ",\"position\":", self.position.as_str());
        let t = w.string_field(start, t, ",\"location\":", self.location.as_str());
        let t = w.string_field(start, t, ",\"date\":", self.date.as_str());
        let t = w.string_field(start, t, ",\"summary\":", self.summary.as_str());
        let t = w.value_field(start, t, ",\"url\":", &self.url);
        w.close(start, t, "}");
    }
}

impl ToJson for Reference {
    open spec fn json(&self) -> Seq<char> {
        "{\"id\":"@ + json_string(self.id@)
            + ",\"visible\":"@ + bool_json(self.visible)
            + ",\"name\":"@ + json_string(self.name@)
            + ",\"description\":"@ + json_string(self.description@)
            + ",\"summary\":"@ + json_string(self.summary@)
            + ",\"url\":"@ + self.url.json()
            + "}"@
    }

    open spec fn writable(&self) -> bool {
        &&& quotable(self.id@)
        &&& quotable(self.name@)
        &&& quotable(self.description@)
        &&& quotable(self.summary@)
        &&& self.url.writable()
    }

    fn write(&self, w: &mut JsonWriter) {
        let start = Ghost(*w);
        let t = w.string_field(start, Ghost(None), "{\"id\":", self.id.as_str());
        let t = w.bool_field(start, t, ",\"visible\":", self.visible);
        let t = w.string_field(start, t, ",\"name\":", self.name.as_str());
        let t = w.string_field(start, t, ",\"description\":", self.description.as_str());
        let t = w.string_field(start, t, ",\"summary\":", self.summary.as_str());
        let t = w.value_field(start, t, ",\"url\":", &self.url);
        w.close(start, t, "}");
    }
}

impl ToJson for CustomItem {
    open spec fn json(&self) -> Seq<char> {
        "{\"id\":"@ + json_string(self.id@)
            + ",\"visible\":"@ + bool_json(self.visible)
            + ",\"name\":"@ + json_string(self.name@)
            + ",\"description\":"@ + json_string(self.description@)
            + ",\"date\":"@ + json_string(self.date@)
            + ",\"location\":"@ + json_string(self.location@)
            + ",\"summary\":"@ + json_string(self.summary@)
            + ",\"keywords\":"@ + self.keywords.json()
            + ",\"url\":"@ + self.url.json()
            + "}"@
    }

    open spec fn writable(&self) -> bool {
        &&& quotable(self.id@)
        &&& quotable(self.name@)
        &&& quotable(self.description@)
        &&& quotable(self.date@)
        &&& quotable(self.location@)
        &&& quotable(self.summary@)
        &&& self.keywords.writable()
        &&& self.url.writable()
    }

    fn write(&self, w: &mut JsonWriter) {
        let start = Ghost(*w);
        let t = w.string_field(start, Ghost(None), "{\"id\":", self.id.as_str());
        let t = w.bool_field(start, t, ",\"visible\":", self.visible);
        let t = w.string_field(start, t, ",\"name\":", self.name.as_str());
        let t = w.string_field(start, t, ",\"description\":", self.description.as_str());
        let t = w.string_field(start, t, ",\"date\":", self.date.as_str());
        let t = w.string_field(start, t, ",\"location\":", self.location.as_str());
        let t = w.string_field(start, t, ",\"summary\":", self.summary.as_str());
        let t = w.value_field(start, t, ",\"keywords\":", &self.keywords);
        let t = w.value_field(start, t, ",\"url\":", &self.url);
        w.close(start, t, "}");
    }
}

impl<T: ToJson> ToJson for Section<T> {
    open spec fn json(&self) -> Seq<char> {
        "{\"id\":"@ + json_string(self.id@)
            + ",\"name\":"@ + json_string(self.name@)
            + ",\"columns\":"@ + decimal(self.columns as nat)
            + ",\"separateLinks\":"@ + bool_json(self.separate_links)
            + ",\"visible\":"@ + bool_json(self.visible)
            + ",\"items\":"@ + self.items.json()
            + "}"@
    }

    open spec fn writable(&self) -> bool {
        &&& quotable(self.id@)
        &&& quotable(self.name@)
        &&& self.items.writable()
    }

    fn write(&self, w: &mut JsonWriter) {
        let start = Ghost(*w);
        let t = w.string_field(start, Ghost(None), "{\"id\":", self.id.as_str());
        let t = w.string_field(start, t, ",\"name\":", self.name.as_str());
        let t = w.number_field(start, t, ",\"columns\":", self.columns as u64);
        let t = w.bool_field(start, t, ",\"separateLinks\":", self.separate_links);
        let t = w.bool_field(start, t, ",\"visible\":", self.visible);
        let t = w.value_field(start, t, ",\"items\":", &self.items);
        w.close(start, t, "}");
    }
}

impl ToJson for SummarySection {
    open spec fn json(&self) -> Seq<char> {
        "{\"id\":"@ + json_string(self.id@)
            + ",\"name\":"@ + json_string(self.name@)
            + ",\"columns\":"@ + decimal(self.columns as nat)
            + ",\"separateLinks\":"@ + bool_json(self.separate_links)
            + ",\"visible\":"@ + bool_json(self.visible)
            + ",\"content\":"@ + json_string(self.content@)
            + "}"@
    }

    open spec fn writable(&self) -> bool {
        &&& quotable(self.id@)
        &&& quotable(self.name@)
        &&& quotable(self.content@)
    }

    fn write(&self, w: &mut JsonWriter) {
        let start = Ghost(*w);
        let t = w.string_field(start, Ghost(None), "{\"id\":", self.id.as_str());
        let t = w.string_field(start, t, ",\"name\":", self.name.as_str());
        let t = w.number_field(start, t, ",\"columns\":", self.columns as u64);
        let t = w.bool_field(start, t, ",\"separateLinks\":", self.separate_links);
        let t = w.bool_field(start, t, ",\"visible\":", self.visible);
        let t = w.string_field(start, t, ",\"content\":", self.content.as_str());
        w.close(start, t, "}");
    }
}

impl ToJson for Sections {
    open spec fn json(&self) -> Seq<char> {
        "{\"summary\":"@ + self.summary.json()
            + ",\"experience\":"@ + self.experience.json()
            + ",\"education\":"@ + self.education.json()
            + ",\"skills\":"@ + self.skills.json()
            + ",\"projects\":"@ + self.projects.json()
            + ",\"profiles\":"@ + self.profiles.json()
            + ",\"awards\":"@ + self.awards.json()
            + ",\"certifications\":"@ + self.certifications.json()
            + ",\"publications\":"@ + self.publications.json()
            + ",\"languages\":"@ + self.languages.json()
            + ",\"interests\":"@ + self.interests.json()
            + ",\"volunteer\":"@ + self.volunteer.json()
            + ",\"references\":"@ + self.references.json()
            + ",\"custom\":"@ + self.custom.json()
            + "}"@
    }

    open spec fn writable(&self) -> bool {
        &&& self.summary.writable()
        &&& self.experience.writable()
        &&& self.education.writable()
        &&& self.skills.writable()
        &&& self.projects.writable()
        &&& self.profiles.writable()
        &&& self.awards.writable()
        &&& self.certifications.writable()
        &&& self.publications.writable()
        &&& self.languages.writable()
        &&& self.interests.writable()
        &&& self.volunteer.writable()
        &&& self.references.writable()
        &&& self.custom.writable()
    }

    fn write(&self, w: &mut JsonWriter) {
        let start = Ghost(*w);
        let t = w.value_field(start, Ghost(None), "{\"summary\":", &self.summary);
        let t = w.value_field(start, t, ",\"experience\":", &self.experience);
        let t = w.value_field(start, t, ",\"education\":", &self.education);
        let t = w.value_field(start, t, ",\"skills\":", &self.skills);
        let t = w.value_field(start, t, ",\"projects\":", &self.projects);
        let t = w.value_field(start, t, ",\"profiles\":", &self.profiles);
        let t = w.value_field(start, t, ",\"awards\":", &self.awards);
        let t = w.value_field(start, t, ",\"certifications\":", &self.certifications);
        let t = w.value_field(start, t, ",\"publications\":", &self.publications);
        let t = w.value_field(start, t, ",\"languages\":", &self.languages);
        let t = w.value_field(start, t, ",\"interests\":", &self.interests);
        let t = w.value_field(start, t, ",\"volunteer\":", &self.volunteer);
        let t = w.value_field(start, t, ",\"references\":", &self.references);
        let t = w.value_field(start, t, ",\"custom\":", &self.custom);
        w.close(start, t, "}");
    }
}

impl ToJson for CustomCss {
    open spec fn json(&self) -> Seq<char> {
        "{\"value\":"@ + json_string(self.value@)
            + ",\"visible\":"@ + bool_json(self.visible)
            + "}"@
    }

    open spec fn writable(&self) -> bool {
        quotable(self.value@)
    }

    fn write(&self, w: &mut JsonWriter) {
        let start = Ghost(*w);
        let t = w.string_field(start, Ghost(None), "{\"value\":", self.value.as_str());
        let t = w.bool_field(start, t, ",\"visible\":", self.visible);
        w.close(start, t, "}");
    }
}

impl ToJson for PageOptions {
    open spec fn json(&self) -> Seq<char> {
        "{\"breakLine\":"@ + bool_json(self.break_line)
            + ",\"pageNumbers\":"@ + bool_json(self.page_numbers)
            + "}"@
    }

    open spec fn writable(&self) -> bool {
        true
    }

    fn write(&self, w: &mut JsonWriter) {
        let start = Ghost(*w);
        let t = w.bool_field(start, Ghost(None), "{\"breakLine\":", self.break_line);
        let t = w.bool_field(start, t, ",\"pageNumbers\":", self.page_numbers);
        w.close(start, t, "}");
    }
}

impl ToJson for PageConfig {
    open spec fn json(&self) -> Seq<char> {
        "{\"margin\":"@ + decimal(self.margin as nat)
            + ",\"format\":"@ + self.format.json()
            + ",\"options\":"@ + self.options.json()
            + "}"@
    }

    open spec fn writable(&self) -> bool {
        &&& self.format.writable()
        &&& self.options.writable()
    }

    fn write(&self, w: &mut JsonWriter) {
        let start = Ghost(*w);
        let t = w.number_field(start, Ghost(None), "{\"margin\":", self.margin as u64);
        let t = w.value_field(start, t, ",\"format\":", &self.format);
        let t = w.value_field(start, t, ",\"options\":", &self.options);
        w.close(start, t, "}");
    }
}

impl ToJson for Theme {
    open spec fn json(&self) -> Seq<char> {
        "{\"background\":"@ + json_string(self.background@)
            + ",\"text\":"@ + json_string(self.text@)
            + ",\"primary\":"@ + json_string(self.primary@)
            + "}"@
    }

    open spec fn writable(&self) -> bool {
        &&& quotable(self.background@)
        &&& quotable(self.text@)
        &&& quotable(self.primary@)
    }

    fn write(&self, w: &mut JsonWriter) {
        let start = Ghost(*w);
        let t = w.string_field(start, Ghost(None), "{\"background\":", self.background.as_str());
        let t = w.string_field(start, t, ",\"text\":", self.text.as_str());
        let t = w.string_field(start, t, ",\"primary\":", self.primary.as_str());
        w.close(start, t, "}");
    }
}

impl ToJson for FontConfig {
    open spec fn json(&self) -> Seq<char> {
        "{\"family\":"@ + json_string(self.family@)
            + ",\"subset\":"@ + json_string(self.subset@)
            + ",\"variants\":"@ + self.variants.json()
            + ",\"size\":"@ + decimal(self.size as nat)
            + "}"@
    }

    open spec fn writable(&self) -> bool {
        &&& quotable(self.family@)
        &&& quotable(self.subset@)
        &&& self.variants.writable()
    }

    fn write(&self, w: &mut JsonWriter) {
        let start = Ghost(*w);
        let t = w.string_field(start, Ghost(None), "{\"family\":", self.family.as_str());
        let t = w.string_field(start, t, ",\"subset\":", self.subset.as_str());
        let t = w.value_field(start, t, ",\"variants\":", &self.variants);
        let t = w.number_field(start, t, ",\"size\":", self.size as u64);
        w.close(start, t, "}");
    }
}

impl ToJson for Typography {
    open spec fn json(&self) -> Seq<char> {
        "{\"font\":"@ + self.font.json()
            + ",\"lineHeight\":"@ + decimal_json(self.line_height)
            + ",\"hideIcons\":"@ + bool_json(self.hide_icons)
            + ",\"underlineLinks\":"@ + bool_json(self.underline_links)
            + "}"@
    }

    open spec fn writable(&self) -> bool {
        self.font.writable()
    }

    fn write(&self, w: &mut JsonWriter) {
        let start = Ghost(*w);
        let t = w.value_field(start, Ghost(None), "{\"font\":", &self.font);
        let t = w.decimal_field(start, t, ",\"lineHeight\":", &self.line_height);
        let t = w.bool_field(start, t, ",\"hideIcons\":", self.hide_icons);
        let t = w.bool_field(start, t, ",\"underlineLinks\":", self.underline_links);
        w.close(start, t, "}");
    }
}

impl ToJson for Metadata {
    open spec fn json(&self) -> Seq<char> {
        "{\"template\":"@ + json_string(self.template@)
            + ",\"layout\":"@ + self.layout.json()
            + ",\"css\":"@ + self.css.json()
            + ",\"page\":"@ + self.page.json()
            + ",\"theme\":"@ + self.theme.json()
            + ",\"typography\":"@ + self.typography.json()
            + ",\"notes\":"@ + json_string(self.notes@)
            + "}"@
    }

    open spec fn writable(&self) -> bool {
        &&& quotable(self.template@)
        &&& self.layout.writable()
        &&& self.css.writable()
        &&& self.page.writable()
        &&& self.theme.writable()
        &&& self.typography.writable()
        &&& quotable(self.notes@)
    }

    fn write(&self, w: &mut JsonWriter) {
        let start = Ghost(*w);
        let t = w.string_field(start, Ghost(None), "{\"template\":", self.template.as_str());
        let t = w.value_field(start, t, ",\"layout\":", &self.layout);
        let t = w.value_field(start, t, ",\"css\":", &self.css);
        let t = w.value_field(start, t, ",\"page\":", &self.page);
        let t = w.value_field(start, t, ",\"theme\":", &self.theme);
        let t = w.value_field(start, t, ",\"typography\":", &self.typography);
        let t = w.string_field(start, t, ",\"notes\":", self.notes.as_str());
        w.close(start, t, "}");
    }
}

impl ToJson for ResumeData {
    open spec fn json(&self) -> Seq<char> {
        "{\"basics\":"@ + self.basics.json()
            + ",\"sections\":"@ + self.sections.json()
            + ",\"metadata\":"@ + self.metadata.json()
            + "}"@
    }

    open spec fn writable(&self) -> bool {
        &&& self.basics.writable()
        &&& self.sections.writable()
        &&& self.metadata.writable()
    }

    fn write(&self, w: &mut JsonWriter) {
        let start = Ghost(*w);
        let t = w.value_field(start, Ghost(None), "{\"basics\":", &self.basics);
        let t = w.value_field(start, t, ",\"sections\":", &self.sections);
        let t = w.value_field(start, t, ",\"metadata\":", &self.metadata);
        w.close(start, t, "}");
    }
}

} // verus!
