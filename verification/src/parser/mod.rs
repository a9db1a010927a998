pub mod archive;
pub mod csv_table;
pub mod json_resume;
pub mod json_resume_laws;
pub mod laws;
pub mod json_resume_shape;
pub mod linkedin;
pub mod linkedin_laws;
pub mod linkedin_shape;
pub mod reactive_resume_v3;
pub mod reactive_resume_v3_laws;
pub mod reactive_resume_v3_shape;
pub mod traits;

pub use json_resume::JsonResumeParser;
pub use json_resume_shape::JsonResume;
pub use linkedin::LinkedInParser;
pub use linkedin_shape::{
    LinkedInCertification, LinkedInData, LinkedInEducation, LinkedInLanguage, LinkedInPosition,
    LinkedInProfile, LinkedInProject, LinkedInSkill,
};
pub use reactive_resume_v3::ReactiveResumeV3Parser;
pub use reactive_resume_v3_shape::{
    V3Award, V3Basics, V3Certification, V3Css, V3CustomField, V3CustomItem, V3DateConfig,
    V3Education, V3Experience, V3Font, V3Interest, V3Language, V3Metadata, V3Page, V3PageOptions,
    V3Picture, V3PictureEffects, V3Profile, V3Project, V3Publication, V3Reference, V3Resume,
    V3Section, V3Sections, V3Skill, V3Summary, V3Theme, V3Typography, V3Url, V3Volunteer,
};
pub use traits::{ParseError, Parser};
