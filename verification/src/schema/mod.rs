pub mod alike;
pub mod basics;
pub mod decimal;
pub mod from_json;
pub mod items;
pub mod metadata;
pub mod resume;
pub mod rules;
pub mod sections;
pub mod shared;
pub mod to_json;
pub mod validation;

pub use basics::{Basics, Picture, PictureEffects};
pub use decimal::Decimal;
pub use items::{
    Award, Certification, CustomItem, Education, Experience, Interest, Language, Profile, Project,
    Publication, Reference, Skill, Volunteer,
};
pub use metadata::{
    CustomCss, FontConfig, Metadata, PageConfig, PageFormat, PageOptions, Theme, Typography,
};
pub use resume::ResumeData;
pub use sections::{CustomSection, CustomSections, Section, Sections, SummarySection};
pub use shared::{CustomField, Url};
pub use validation::{
    validate_hex_color, validate_optional_email, validate_optional_url, FieldError, Validate,
    ValidationError, ValidationErrors,
};
