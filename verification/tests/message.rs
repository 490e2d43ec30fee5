use social_cli::editor::{
    choose_editor, compose, fault_context, open_editor, template, EditorFault, EditorSession,
};
use social_cli::error::PostError;
use social_cli::run::get_message;
use social_cli::text::{
    digit_char, is_whitespace_char, last_segment_of, push_decimal, same_text, string_from_chars,
    to_chars, trim_bounds,
};

/// What the standard library makes of a draft, step by step.
fn compose_with_std(content: &str) -> String {
    content
        .lines()
        .filter(|line| !line.trim_start().starts_with('#'))
        .collect::<Vec<_>>()
        .join("\n")
        .trim()
        .to_string()
}

fn check_against_std(content: &str) {
    let expected = compose_with_std(content);
    match compose(content) {
        Ok(message) => {
            assert!(!expected.is_empty(), "draft {:?}", content);
            assert_eq!(message, expected, "draft {:?}", content);
        }
        Err(e) => {
            assert_eq!(e, PostError::EmptyMessage, "draft {:?}", content);
            assert!(expected.is_empty(), "draft {:?}", content);
        }
    }
}

#[test]
fn literal_message_is_returned_unchanged() {
    assert_eq!(get_message(Some("hello world".to_string())), Some("hello world".to_string()));
    assert_eq!(get_message(Some("  padded \n".to_string())), Some("  padded \n".to_string()));
    assert_eq!(get_message(Some("# not a comment here".to_string())), Some("# not a comment here".to_string()));
}

#[test]
fn missing_or_empty_option_asks_for_the_editor() {
    assert_eq!(get_message(None), None);
    assert_eq!(get_message(Some(String::new())), None);
}

#[test]
fn comment_line_between_two_lines_is_dropped() {
    assert_eq!(compose("line1\n# ignored\nline2"), Ok("line1\nline2".to_string()));
}

#[test]
fn draft_of_comments_only_is_empty() {
    assert_eq!(compose("# one\n# two\n"), Err(PostError::EmptyMessage));
    assert_eq!(compose("#"), Err(PostError::EmptyMessage));
    assert_eq!(compose("   # indented\n\t#tab"), Err(PostError::EmptyMessage));
}

#[test]
fn untouched_template_is_empty() {
    assert_eq!(compose(template()), Err(PostError::EmptyMessage));
}

#[test]
fn template_is_one_empty_line_and_three_comment_lines() {
    let t = template();
    assert_eq!(
        t,
        "\n# Enter your message above this line.\n# Lines starting with '#' will be ignored.\n# An empty message aborts the post.\n"
    );
    let lines: Vec<&str> = t.lines().collect();
    assert_eq!(lines.len(), 4);
    assert_eq!(lines[0], "");
    assert!(lines[1..].iter().all(|line| line.starts_with('#')));
}

#[test]
fn message_written_above_the_template_is_kept() {
    let draft = format!("Hello from the editor{}", template());
    assert_eq!(compose(&draft), Ok("Hello from the editor".to_string()));
}

#[test]
fn empty_and_blank_drafts_are_empty() {
    assert_eq!(compose(""), Err(PostError::EmptyMessage));
    assert_eq!(compose("\n\n\n"), Err(PostError::EmptyMessage));
    assert_eq!(compose("  \t \r\n  "), Err(PostError::EmptyMessage));
    assert_eq!(compose("\u{3000}\u{a0}\n# c"), Err(PostError::EmptyMessage));
}

#[test]
fn surrounding_white_space_is_trimmed() {
    assert_eq!(compose("  hello  "), Ok("hello".to_string()));
    assert_eq!(compose("\n\nhello\n\n"), Ok("hello".to_string()));
    assert_eq!(compose("\u{2003}hello\u{205f}\n"), Ok("hello".to_string()));
}

#[test]
fn inner_white_space_and_blank_lines_stay() {
    assert_eq!(compose("a\n\n  b  \nc"), Ok("a\n\n  b  \nc".to_string()));
    assert_eq!(compose("a\n# x\n\n# y\nb"), Ok("a\n\nb".to_string()));
}

#[test]
fn hash_after_other_text_is_no_comment() {
    assert_eq!(compose("tag #rust"), Ok("tag #rust".to_string()));
    assert_eq!(compose("a # b\n#c"), Ok("a # b".to_string()));
}

#[test]
fn carriage_return_before_line_feed_ends_the_line() {
    assert_eq!(compose("a\r\nb\r\n"), Ok("a\nb".to_string()));
    assert_eq!(compose("a\r\n# c\r\nb"), Ok("a\nb".to_string()));
    assert_eq!(compose("a\rb"), Ok("a\rb".to_string()));
    assert_eq!(compose("a\r\r\nb"), Ok("a\r\nb".to_string()));
}

#[test]
fn plain_draft_is_the_draft_trimmed() {
    for draft in ["one line", "  two\nlines \n", "\n\nfirst\n\nsecond\n\n", "x\ty", "ends with cr\r"] {
        assert_eq!(compose(draft), Ok(draft.trim().to_string()));
    }
}

#[test]
fn compose_agrees_with_the_standard_library() {
    let drafts = [
        "",
        "\n",
        "a",
        "a\n",
        "\na",
        "a\nb",
        "a\r\nb",
        "a\r",
        "\r\n",
        "\r",
        "#",
        " #",
        "# a\nb\n# c\nd\n",
        "a\n#\n\n#\nb",
        "\u{a0}# nbsp first",
        "\u{85}#",
        "\u{200b}# zero width space is no white space",
        "#\r\n#\r\n",
        "  lead\n trail  \n",
        "täst\n# ümlaut\n日本語 \n",
        "a\n\r\n\r\nb\r",
        "a\u{2028}# b",
        "\u{1680}x\u{1680}",
    ];
    for draft in drafts {
        check_against_std(draft);
    }
}

#[test]
fn editor_is_chosen_in_order() {
    assert_eq!(choose_editor(Some("nano".to_string()), Some("code".to_string())), "nano");
    assert_eq!(choose_editor(None, Some("code".to_string())), "code");
    assert_eq!(choose_editor(None, None), "vim");
    assert_eq!(choose_editor(Some(String::new()), Some("code".to_string())), "");
}

#[test]
fn aborted_editor_gives_editor_aborted() {
    assert_eq!(open_editor("vim", EditorSession::Aborted), Err(PostError::EditorAborted));
}

#[test]
fn saved_text_is_composed() {
    assert_eq!(
        open_editor("vim", EditorSession::Saved("hi\n# c\n".to_string())),
        Ok("hi".to_string())
    );
    assert_eq!(
        open_editor("vim", EditorSession::Saved("# c\n".to_string())),
        Err(PostError::EmptyMessage)
    );
}

#[test]
fn faults_give_io_errors_with_context() {
    let cases = [
        (EditorFault::CreateFile, "Failed to create temporary file"),
        (EditorFault::WriteTemplate, "Failed to write template to temporary file"),
        (EditorFault::Flush, "Failed to flush temporary file"),
        (EditorFault::Launch, "Failed to launch editor: emacs"),
        (EditorFault::ReadBack, "Failed to read edited content"),
    ];
    for (fault, text) in cases {
        assert_eq!(fault_context(fault, "emacs"), text);
        assert_eq!(
            open_editor("emacs", EditorSession::Failed(fault)),
            Err(PostError::IOError(text.to_string()))
        );
    }
}

#[test]
fn white_space_is_what_the_standard_library_says() {
    for code in 0..=0x10FFFFu32 {
        if let Some(c) = char::from_u32(code) {
            assert_eq!(is_whitespace_char(c), c.is_whitespace(), "U+{:04X}", code);
        }
    }
}

#[test]
fn characters_round_trip() {
    for text in ["", "a", "héllo", "日本語\n\t"] {
        let chars = to_chars(text);
        assert_eq!(chars, text.chars().collect::<Vec<char>>());
        assert_eq!(string_from_chars(&chars, 0, chars.len()), text);
    }
    let chars = to_chars("abcdef");
    assert_eq!(string_from_chars(&chars, 2, 4), "cd");
    assert_eq!(string_from_chars(&chars, 3, 3), "");
}

#[test]
fn trim_bounds_match_trim() {
    for text in ["", "   ", "a", " a", "a ", "  a b  ", "\n\ta\u{a0}", "\u{3000}"] {
        let chars = to_chars(text);
        let (from, to) = trim_bounds(&chars);
        assert_eq!(string_from_chars(&chars, from, to), text.trim(), "text {:?}", text);
    }
    assert_eq!(trim_bounds(&to_chars("  ab ")), (2, 4));
}

#[test]
fn same_text_compares_characters() {
    assert!(same_text("", ""));
    assert!(same_text("abc", "abc"));
    assert!(!same_text("abc", "abd"));
    assert!(!same_text("abc", "ab"));
    assert!(!same_text("EDITOR", "editor"));
}

#[test]
fn numbers_are_written_in_decimal() {
    for n in [0u64, 7, 10, 99, 100, 401, 65535, 1234567890, u64::MAX] {
        let mut text = String::from("n=");
        push_decimal(&mut text, n);
        assert_eq!(text, format!("n={}", n));
    }
    assert_eq!(digit_char(0), '0');
    assert_eq!(digit_char(9), '9');
}

#[test]
fn last_segment_follows_the_last_slash() {
    assert_eq!(last_segment_of("at://did:plc:abc/app.bsky.feed.post/3kxyz"), "3kxyz");
    assert_eq!(last_segment_of("no-slash"), "no-slash");
    assert_eq!(last_segment_of("ends/"), "");
    assert_eq!(last_segment_of(""), "");
    assert_eq!(last_segment_of("/a"), "a");
}
