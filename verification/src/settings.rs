//! The document settings: the constants and the author list that the
//! host keeps per document and every page template reads. The caller
//! gathers them and hands them over as plain values.

use vstd::prelude::*;

verus! {

/// Everything the page templates read. A missing constant stays `None`
/// and the template that wants it leaves the matching part out.
pub struct DocSettings {
    /// Names of the authors.
    pub authors: Vec<String>,
    /// Title of the thesis.
    pub title: Option<String>,
    /// Subtitle of the thesis.
    pub subtitle: Option<String>,
    /// Department the authors belong to.
    pub department: Option<String>,
    /// Name of the supervisor.
    pub supervisor: Option<String>,
    /// The supervisor's department.
    pub supervisor_department: Option<String>,
    /// Name of the group's examiner.
    pub examiner: Option<String>,
    /// Department of the group's examiner.
    pub examiner_department: Option<String>,
    /// Name of the course examiner or examiners.
    pub course_examiner: Option<String>,
    /// Department of the course examiner.
    pub course_examiner_department: Option<String>,
    /// Path to the cover art.
    pub cover_art: Option<String>,
    /// A description of the cover art.
    pub cover_art_description: Option<String>,
    /// The abstract text.
    pub abstract_content: Option<String>,
    /// The Swedish abstract.
    pub sammandrag: Option<String>,
    /// Keywords mentioned in the abstract.
    pub keywords: Option<String>,
    /// The acknowledgement text.
    pub acknowledgements_content: Option<String>,
    /// The subject line of the title page.
    pub subject: Option<String>,
    /// Path to a bibliography file.
    pub sources: Option<String>,
}

/// The display title: the configured one, or a placeholder.
pub open spec fn spec_title(s: DocSettings) -> Seq<char> {
    match s.title {
        Some(t) => t@,
        None => "Missing title"@,
    }
}

impl DocSettings {
    /// The title to render, a placeholder when none was configured.
    pub fn get_title(&self) -> (r: String)
        ensures
            r@ == spec_title(*self),
    {
        match &self.title {
            Some(t) => t.clone(),
            None => "Missing title".to_owned(),
        }
    }
}

} // verus!
