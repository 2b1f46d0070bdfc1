//! Metadata hidden in a comment: a JSON text between two markers, appended
//! to the comment as an HTML comment, by which a comment that was published
//! earlier can be found again.

use vstd::prelude::*;
use vstd::string::*;

use crate::boundary::{json_decode_string, json_encode_string, json_of_string, string_of_json};
use crate::error::MetadataError;
use crate::text::{
    chars_of, contains, find, first_occurrence, lemma_first_occurrence, lemma_first_occurrence_is,
    occurs_at,
};

verus! {

/// What every prefix marker begins with.
pub open spec fn prefix_lead() -> Seq<char> {
    "\n\n<!-- "@
}

/// The prefix marker of the metadata with the identifier `id`.
pub open spec fn prefix_text(id: Seq<char>) -> Seq<char> {
    prefix_lead() + id
}

/// The suffix marker.
pub open spec fn suffix_text() -> Seq<char> {
    " -->"@
}

/// The comment `comment` with the metadata `json` appended between the
/// markers.
pub open spec fn embedded(comment: Seq<char>, id: Seq<char>, json: Seq<char>) -> Seq<char> {
    comment + prefix_text(id) + json + suffix_text()
}

/// Where the metadata of `comment` that begins at `metadata_start` ends: at
/// the leftmost suffix marker of the whole comment, wherever the metadata
/// begins. A suffix marker that stands earlier in the comment than the
/// true end of the metadata therefore cuts the metadata short. This is the
/// one place that says where the suffix marker is looked for.
pub open spec fn suffix_position(comment: Seq<char>, metadata_start: int) -> Option<int> {
    first_occurrence(comment, suffix_text())
}

/// The metadata that `comment` holds under the identifier `id`: nothing
/// without the prefix marker; else the text from the end of the leftmost
/// prefix marker to the leftmost suffix marker, or the reason why there is
/// no such text.
pub open spec fn extracted(comment: Seq<char>, id: Seq<char>) -> Option<
    Result<Seq<char>, MetadataError>,
> {
    match first_occurrence(comment, prefix_text(id)) {
        None => None,
        Some(start) => Some(
            match suffix_position(comment, start + prefix_text(id).len()) {
                None => Err(MetadataError::NoSuffix),
                Some(end) => if start + prefix_text(id).len() <= end {
                    Ok(comment.subrange(start + prefix_text(id).len(), end))
                } else {
                    Err(MetadataError::SuffixBeforeMetadata)
                },
            },
        ),
    }
}

/// `r` is `expected`, text for text.
pub open spec fn is_extracted(
    r: Option<Result<String, MetadataError>>,
    expected: Option<Result<Seq<char>, MetadataError>>,
) -> bool {
    match r {
        None => expected is None,
        Some(Ok(json)) => expected == Some(Ok::<Seq<char>, MetadataError>(json@)),
        Some(Err(e)) => expected == Some(Err::<Seq<char>, MetadataError>(e)),
    }
}

/// What was embedded is extracted again: where the prefix marker does not
/// begin inside the comment's text, and no suffix marker stands before the
/// end of the metadata, the metadata of the embedded comment is `json`.
pub proof fn lemma_embed_extract_round_trip(comment: Seq<char>, id: Seq<char>, json: Seq<char>)
    requires
        first_occurrence(comment + prefix_text(id), prefix_text(id)) == Some(comment.len() as int),
        !contains(comment + prefix_text(id) + json, suffix_text()),
    ensures
        extracted(embedded(comment, id, json), id) == Some(Ok::<Seq<char>, MetadataError>(json)),
{
    reveal_strlit(" -->");
    let prefix = prefix_text(id);
    let suffix = suffix_text();
    let marked = comment + prefix;
    let open = marked + json;
    let full = embedded(comment, id, json);
    let at = comment.len() as int;
    let end = open.len() as int;

    lemma_first_occurrence(marked, prefix);
    assert(full.subrange(at, at + prefix.len()) =~= prefix);
    assert forall|j: int| 0 <= j < at implies !occurs_at(full, prefix, j) by {
        assert(full.subrange(j, j + prefix.len()) =~= marked.subrange(j, j + prefix.len()));
        assert(!occurs_at(marked, prefix, j));
    }
    lemma_first_occurrence_is(full, prefix, at);

    assert(full.subrange(end, end + suffix.len()) =~= suffix);
    assert forall|j: int| 0 <= j < end implies !occurs_at(full, suffix, j) by {
        if occurs_at(full, suffix, j) {
            let window = full.subrange(j, j + suffix.len());
            if j + suffix.len() <= end {
                assert(open.subrange(j, j + suffix.len()) =~= window);
                assert(occurs_at(open, suffix, j));
            } else {
                // The window reaches into the marker that was appended, whose
                // first character is a space and stands nowhere else in it.
                assert(window[end - j] == full[end]);
                assert(full[end] == suffix[0]);
            }
        }
    }
    lemma_first_occurrence_is(full, suffix, end);
    assert(full.subrange(at + prefix.len(), end) =~= json);
}

/// A comment without the prefix marker holds no metadata, and only such a
/// comment holds none.
pub proof fn lemma_no_prefix_no_metadata(comment: Seq<char>, id: Seq<char>)
    ensures
        extracted(comment, id) is None <==> !contains(comment, prefix_text(id)),
{
    lemma_first_occurrence(comment, prefix_text(id));
}

/// The commit reference that a decoded JSON text writes: the string that
/// was read, or the failure to read one.
pub open spec fn decoded_commit_ref(decoded: Option<Seq<char>>) -> Result<
    Seq<char>,
    MetadataError,
> {
    match decoded {
        Some(commit_ref) => Ok(commit_ref),
        None => Err(MetadataError::Decode),
    }
}

/// The commit reference that `comment` records under the identifier `id`:
/// nothing without the prefix marker; else the string that the JSON text
/// between the markers writes, or the reason why there is none.
pub open spec fn commit_ref_extracted(comment: Seq<char>, id: Seq<char>) -> Option<
    Result<Seq<char>, MetadataError>,
> {
    match extracted(comment, id) {
        None => None,
        Some(Err(e)) => Some(Err(e)),
        Some(Ok(json)) => Some(decoded_commit_ref(string_of_json(json))),
    }
}

/// What reading a commit reference from JSON gave, as this library reports
/// it: the reference, or a decoding failure whatever the reader objected to.
pub fn commit_ref_from_decoded(decoded: Result<String, serde_json::Error>) -> (r: Result<
    String,
    MetadataError,
>)
    ensures
        match decoded {
            Ok(commit_ref) => r == Ok::<String, MetadataError>(commit_ref),
            Err(_) => r == Err::<String, MetadataError>(MetadataError::Decode),
        },
{
    match decoded {
        Ok(commit_ref) => Ok(commit_ref),
        Err(_) => Err(MetadataError::Decode),
    }
}

/// Where the metadata of `chars` that begins at `metadata_start` ends.
fn find_suffix(chars: &Vec<char>, metadata_start: usize) -> (r: Option<usize>)
    ensures
        match r {
            Some(end) => suffix_position(chars@, metadata_start as int) == Some(end as int)
                && end + suffix_text().len() <= chars.len(),
            None => suffix_position(chars@, metadata_start as int) is None,
        },
{
    let suffix = chars_of(" -->");
    find(chars, &suffix)
}

/// Appends metadata to the text of a comment as an HTML comment, and finds
/// it again.
pub struct HtmlCommentMetadataHandler {
    pub metadata_id: String,
}

impl View for HtmlCommentMetadataHandler {
    type V = Seq<char>;

    /// The identifier of the handler's metadata.
    open spec fn view(&self) -> Seq<char> {
        self.metadata_id@
    }
}

impl HtmlCommentMetadataHandler {
    /// The marker that precedes this handler's metadata.
    pub fn prefix(&self) -> (r: String)
        ensures
            r@ == prefix_text(self@),
    {
        let mut r = "\n\n<!-- ".to_owned();
        r.append(self.metadata_id.as_str());
        r
    }

    /// The marker that follows the metadata.
    pub fn suffix(&self) -> (r: String)
        ensures
            r@ == suffix_text(),
    {
        " -->".to_owned()
    }

    /// The comment with the metadata, given as its JSON text, appended
    /// between the markers.
    pub fn add_metadata_to_comment(&self, comment: &str, metadata_json: &str) -> (r: String)
        ensures
            r@ == embedded(comment@, self@, metadata_json@),
    {
        let mut r = comment.to_owned();
        r.append(self.prefix().as_str());
        r.append(metadata_json);
        r.append(self.suffix().as_str());
        r
    }

    /// The JSON text of the metadata that `comment` holds: `None` exactly
    /// when the prefix marker is absent; an error when the suffix marker is
    /// absent or begins before the metadata.
    pub fn get_metadata_from_comment(&self, comment: &str) -> (r: Option<
        Result<String, MetadataError>,
    >)
        ensures
            is_extracted(r, extracted(comment@, self@)),
            r is None <==> !contains(comment@, prefix_text(self@)),
    {
        proof {
            lemma_no_prefix_no_metadata(comment@, self@);
        }
        let chars = chars_of(comment);
        let prefix = chars_of(self.prefix().as_str());
        let start = match find(&chars, &prefix) {
            Some(start) => start,
            None => {
                return None;
            },
        };
        assert(start + prefix@.len() <= chars.len());
        let meta_start = start + prefix.len();
        match find_suffix(&chars, meta_start) {
            None => Some(Err(MetadataError::NoSuffix)),
            Some(end) => {
                if meta_start <= end {
                    Some(Ok(comment.substring_char(meta_start, end).to_owned()))
                } else {
                    Some(Err(MetadataError::SuffixBeforeMetadata))
                }
            },
        }
    }

    /// The comment with the commit reference appended as metadata: a JSON
    /// string between the markers. It fails only where the reference
    /// cannot be written as JSON.
    pub fn add_commit_ref_to_comment(&self, comment: &str, commit_ref: &str) -> (r: Result<
        String,
        MetadataError,
    >)
        ensures
            match json_of_string(commit_ref@) {
                Some(json) => r matches Ok(full) && full@ == embedded(
                    comment@,
                    self@,
                    json,
                ),
                None => r == Err::<String, MetadataError>(MetadataError::Encode),
            },
    {
        match json_encode_string(commit_ref) {
            Ok(json) => Ok(self.add_metadata_to_comment(comment, json.as_str())),
            Err(_) => Err(MetadataError::Encode),
        }
    }

    /// The commit reference that `comment` records: `None` exactly when the
    /// prefix marker is absent; an error when the suffix marker is absent
    /// or begins before the metadata, or when the text between the markers
    /// is not one JSON string.
    pub fn get_commit_ref_from_comment(&self, comment: &str) -> (r: Option<
        Result<String, MetadataError>,
    >)
        ensures
            is_extracted(r, commit_ref_extracted(comment@, self@)),
            r is None <==> !contains(comment@, prefix_text(self@)),
    {
        match self.get_metadata_from_comment(comment) {
            None => None,
            Some(Err(e)) => Some(Err(e)),
            Some(Ok(json)) => Some(commit_ref_from_decoded(json_decode_string(json.as_str()))),
        }
    }
}

} // verus!
