//! The clipboard snapshot value object: one immutable clipboard value at a
//! point in time, across one or more formats.

use vstd::prelude::*;

verus! {

/// Which formats a snapshot carries, derived from the populated optional
/// fields and never set independently of them.
#[derive(Clone, Copy, Debug, PartialEq, Eq, Structural)]
pub enum ContentType {
    Text,
    Html,
    Rtf,
    Image,
    Mixed,
}

/// The content type that a snapshot with the given optional fields must have:
/// one populated rich format names it, two or more make it `Mixed`, none make
/// it plain `Text`.
pub open spec fn content_type_for(has_html: bool, has_rtf: bool, has_image: bool) -> ContentType {
    if (has_html && has_rtf) || (has_html && has_image) || (has_rtf && has_image) {
        ContentType::Mixed
    } else if has_html {
        ContentType::Html
    } else if has_rtf {
        ContentType::Rtf
    } else if has_image {
        ContentType::Image
    } else {
        ContentType::Text
    }
}

/// One immutable clipboard value: plain text (always present, possibly
/// empty), optional rich formats, an optional encoded image payload, the
/// derived content type, and the producer's timestamp in seconds since the
/// epoch.
pub struct ClipboardData {
    pub content: String,
    pub html: Option<String>,
    pub rtf: Option<String>,
    pub image: Option<String>,
    pub content_type: ContentType,
    pub timestamp: u64,
}

/// The mathematical shape of a snapshot: every text field as a character
/// sequence.
#[verifier::ext_equal]
pub struct SnapView {
    pub content: Seq<char>,
    pub html: Option<Seq<char>>,
    pub rtf: Option<Seq<char>>,
    pub image: Option<Seq<char>>,
    pub content_type: ContentType,
    pub timestamp: u64,
}

impl View for ClipboardData {
    type V = SnapView;

    open spec fn view(&self) -> SnapView {
        SnapView {
            content: self.content@,
            html: match self.html {
                Some(h) => Some(h@),
                None => None,
            },
            rtf: match self.rtf {
                Some(r) => Some(r@),
                None => None,
            },
            image: match self.image {
                Some(i) => Some(i@),
                None => None,
            },
            content_type: self.content_type,
            timestamp: self.timestamp,
        }
    }
}

/// Well-formedness of a snapshot view: the content type is the pure function
/// of which optional fields are populated.
pub open spec fn wf_view(v: SnapView) -> bool {
    v.content_type == content_type_for(v.html is Some, v.rtf is Some, v.image is Some)
}

/// The view of the empty default snapshot: empty text, no rich formats,
/// timestamp zero.
pub open spec fn empty_view() -> SnapView {
    SnapView {
        content: Seq::<char>::empty(),
        html: None,
        rtf: None,
        image: None,
        content_type: ContentType::Text,
        timestamp: 0,
    }
}

impl ClipboardData {
    /// Well-formedness: the stored content type matches the populated fields.
    pub open spec fn wf(&self) -> bool {
        wf_view(self@)
    }

    /// Builds a snapshot, deriving the content type from the populated
    /// optional fields.
    pub fn new(
        content: String,
        html: Option<String>,
        rtf: Option<String>,
        image: Option<String>,
        timestamp: u64,
    ) -> (r: ClipboardData)
        ensures
            r.wf(),
            r@.content == content@,
            r@.html == (match html {
                Some(h) => Some(h@),
                None => None::<Seq<char>>,
            }),
            r@.rtf == (match rtf {
                Some(t) => Some(t@),
                None => None::<Seq<char>>,
            }),
            r@.image == (match image {
                Some(i) => Some(i@),
                None => None::<Seq<char>>,
            }),
            r@.timestamp == timestamp,
    {
        let content_type = match (&html, &rtf, &image) {
            (Some(_), Some(_), _) => ContentType::Mixed,
            (Some(_), _, Some(_)) => ContentType::Mixed,
            (_, Some(_), Some(_)) => ContentType::Mixed,
            (Some(_), None, None) => ContentType::Html,
            (None, Some(_), None) => ContentType::Rtf,
            (None, None, Some(_)) => ContentType::Image,
            (None, None, None) => ContentType::Text,
        };
        ClipboardData { content, html, rtf, image, content_type, timestamp }
    }
}

impl Default for ClipboardData {
    /// The empty default snapshot that the relay's read endpoint answers with
    /// before any update has ever been stored.
    fn default() -> (r: ClipboardData)
        ensures
            r@ == empty_view(),
            r.wf(),
    {
        let r = ClipboardData {
            content: String::new(),
            html: None,
            rtf: None,
            image: None,
            content_type: ContentType::Text,
            timestamp: 0,
        };
        proof {
            assert(r@ =~= empty_view());
        }
        r
    }
}

fn clone_opt_string(o: &Option<String>) -> (r: Option<String>)
    ensures
        r == *o,
{
    match o {
        Some(s) => Some(s.clone()),
        None => None,
    }
}

impl Clone for ClipboardData {
    /// A clone is equal to the original, field for field.
    fn clone(&self) -> (r: ClipboardData)
        ensures
            r == *self,
    {
        ClipboardData {
            content: self.content.clone(),
            html: clone_opt_string(&self.html),
            rtf: clone_opt_string(&self.rtf),
            image: clone_opt_string(&self.image),
            content_type: self.content_type,
            timestamp: self.timestamp,
        }
    }
}

} // verus!
