use github_pr_commentator::error::{ErrorKind, MetadataError};
use github_pr_commentator::github::metadata::{commit_ref_from_decoded, HtmlCommentMetadataHandler};

fn handler(id: &str) -> HtmlCommentMetadataHandler {
    HtmlCommentMetadataHandler { metadata_id: id.to_owned() }
}

#[test]
fn test_add_get_metadata() {
    let metadata: Vec<u64> = vec![1, 2];
    let comment = "Some comment";
    let metadata_handler = HtmlCommentMetadataHandler { metadata_id: "aaaa".to_string() };
    let expected_full_com = "Some comment\n\n<!-- aaaa[1,2] -->";

    assert_eq!(
        expected_full_com,
        &metadata_handler
            .add_metadata_to_comment(comment, &serde_json::to_string(&metadata).unwrap())
    );
    assert_eq!(
        &metadata,
        &serde_json::from_str::<Vec<u64>>(
            &metadata_handler.get_metadata_from_comment(expected_full_com).unwrap().unwrap()
        )
        .unwrap()
    );
    assert!(metadata_handler.get_metadata_from_comment(comment).is_none());
}

#[test]
fn markers_are_built_from_the_identifier() {
    assert_eq!(handler("aaaa").prefix(), "\n\n<!-- aaaa");
    assert_eq!(handler("").prefix(), "\n\n<!-- ");
    assert_eq!(handler("pr-bot:").prefix(), "\n\n<!-- pr-bot:");
    assert_eq!(handler("aaaa").suffix(), " -->");
    assert_eq!(handler("").suffix(), " -->");
}

#[test]
fn embedding_appends_markers_and_json() {
    let h = handler("id");
    assert_eq!(h.add_metadata_to_comment("", ""), "\n\n<!-- id -->");
    assert_eq!(h.add_metadata_to_comment("text", "{\"a\":1}"), "text\n\n<!-- id{\"a\":1} -->");
    assert_eq!(
        h.add_metadata_to_comment("\u{e9}t\u{e9}", "\"\u{4e2d}\""),
        "\u{e9}t\u{e9}\n\n<!-- id\"\u{4e2d}\" -->"
    );
}

#[test]
fn round_trip_of_several_values() {
    let h = handler("meta:");
    for text in ["", "Some comment", "line\n\nline", "caf\u{e9} \u{1f600}", "<!-- other -->x"] {
        for json in ["[1,2]", "{\"commit\":\"abc\"}", "\"\u{e9}\"", "null", ""] {
            if text.contains(" -->") {
                continue;
            }
            let full = h.add_metadata_to_comment(text, json);
            assert_eq!(
                h.get_metadata_from_comment(&full),
                Some(Ok(json.to_owned())),
                "{:?} {:?}",
                text,
                json
            );
        }
    }
}

#[test]
fn absent_prefix_gives_nothing() {
    let h = handler("aaaa");
    for comment in [
        "",
        "Some comment",
        "Some comment\n\n<!-- aaa[1,2] -->",
        "Some comment\n<!-- aaaa[1,2] -->",
        "Some comment\n\n<!--aaaa[1,2] -->",
        " -->",
        "\n\n<!-- bbbb[1,2] -->",
    ] {
        assert_eq!(h.get_metadata_from_comment(comment), None, "{:?}", comment);
    }
}

#[test]
fn prefix_without_suffix_is_an_error() {
    let h = handler("aaaa");
    assert_eq!(
        h.get_metadata_from_comment("text\n\n<!-- aaaa[1,2]"),
        Some(Err(MetadataError::NoSuffix))
    );
    assert_eq!(
        h.get_metadata_from_comment("text\n\n<!-- aaaa[1,2] --"),
        Some(Err(MetadataError::NoSuffix))
    );
    assert_eq!(h.get_metadata_from_comment("\n\n<!-- aaaa"), Some(Err(MetadataError::NoSuffix)));
    assert_eq!(MetadataError::NoSuffix.kind(), ErrorKind::SerializationFailure);
}

#[test]
fn only_the_first_prefix_counts() {
    let h = handler("aaaa");
    assert_eq!(
        h.get_metadata_from_comment("x\n\n<!-- aaaa[1]\n\n<!-- aaaa[2] -->"),
        Some(Ok("[1]\n\n<!-- aaaa[2]".to_owned()))
    );
    assert_eq!(
        h.get_metadata_from_comment("x\n\n<!-- aaaa[1] -->\n\n<!-- aaaa[2] -->"),
        Some(Ok("[1]".to_owned()))
    );
}

#[test]
fn suffix_is_searched_from_the_start_of_the_comment() {
    let h = handler("aaaa");
    // A suffix marker inside the metadata cuts it short.
    assert_eq!(
        h.get_metadata_from_comment("text\n\n<!-- aaaa[\" -->\",2] -->"),
        Some(Ok("[\"".to_owned()))
    );
    // One before the metadata leaves nothing to read.
    assert_eq!(
        h.get_metadata_from_comment("an arrow --> here\n\n<!-- aaaa[1,2] -->"),
        Some(Err(MetadataError::SuffixBeforeMetadata))
    );
    assert_eq!(
        h.get_metadata_from_comment("text\n\n<!-- aaaa -->"),
        Some(Ok(String::new()))
    );
    assert_eq!(MetadataError::SuffixBeforeMetadata.kind(), ErrorKind::SerializationFailure);
}

#[test]
fn suffix_that_overlaps_the_prefix_is_before_the_metadata() {
    // The identifier ends with the first characters of the suffix marker.
    let h = handler("a --");
    assert_eq!(
        h.get_metadata_from_comment("t\n\n<!-- a -->1 -->"),
        Some(Err(MetadataError::SuffixBeforeMetadata))
    );
}

#[test]
fn round_trip_fails_where_the_text_holds_the_suffix() {
    let h = handler("aaaa");
    let full = h.add_metadata_to_comment("a --> b", "[1,2]");
    assert_eq!(full, "a --> b\n\n<!-- aaaa[1,2] -->");
    assert_eq!(h.get_metadata_from_comment(&full), Some(Err(MetadataError::SuffixBeforeMetadata)));
}

#[test]
fn commit_ref_is_embedded_as_a_json_string() {
    let h = handler("bot:");
    assert_eq!(
        h.add_commit_ref_to_comment("Report", "abc123"),
        Ok("Report\n\n<!-- bot:\"abc123\" -->".to_owned())
    );
    assert_eq!(
        h.add_commit_ref_to_comment("", "a\"b\n"),
        Ok("\n\n<!-- bot:\"a\\\"b\\n\" -->".to_owned())
    );
}

#[test]
fn commit_ref_is_read_back() {
    let h = handler("bot:");
    for commit_ref in ["abc123", "", "refs/heads/f\u{e9}", "a\"b\\c", "<!-- x", "line\nbreak"] {
        let full = h.add_commit_ref_to_comment("Report", commit_ref).unwrap();
        assert_eq!(h.get_commit_ref_from_comment(&full), Some(Ok(commit_ref.to_owned())));
    }
    assert_eq!(h.get_commit_ref_from_comment("Report"), None);
}

#[test]
fn unreadable_commit_ref_is_a_decoding_failure() {
    let h = handler("bot:");
    for json in ["abc", "[1,2]", "{\"commit\":\"abc\"}", "\"abc", "12", "null", "", "\"a\" \"b\""] {
        let full = h.add_metadata_to_comment("Report", json);
        assert_eq!(
            h.get_commit_ref_from_comment(&full),
            Some(Err(MetadataError::Decode)),
            "{:?}",
            json
        );
    }
    assert_eq!(
        h.get_commit_ref_from_comment("Report\n\n<!-- bot:\"abc\""),
        Some(Err(MetadataError::NoSuffix))
    );
    assert_eq!(
        h.get_commit_ref_from_comment("a --> b\n\n<!-- bot:\"abc\" -->"),
        Some(Err(MetadataError::SuffixBeforeMetadata))
    );
}

#[test]
fn decoding_outcome_is_mapped() {
    assert_eq!(commit_ref_from_decoded(Ok("abc".to_owned())), Ok("abc".to_owned()));
    let failed = serde_json::from_str::<String>("[1]");
    assert_eq!(commit_ref_from_decoded(failed), Err(MetadataError::Decode));
}

#[test]
fn commit_ref_that_holds_the_suffix_is_not_read_back() {
    // The JSON string is written as it is, and the search for the suffix
    // marker stops inside it.
    let h = handler("bot:");
    let full = h.add_commit_ref_to_comment("Report", "a --> b").unwrap();
    assert_eq!(full, "Report\n\n<!-- bot:\"a --> b\" -->");
    assert_eq!(h.get_commit_ref_from_comment(&full), Some(Err(MetadataError::Decode)));
}
