use whisper_rs_cli::cli::transcribe::{push_segment, transcript, BLANK_AUDIO};
use whisper_rs_cli::cli::{Commands, TranscribeArgs};
use whisper_rs_cli::text::{chars_of, trim};

fn strings(texts: &[&str]) -> Vec<String> {
    texts.iter().map(|text| text.to_string()).collect()
}

#[test]
fn segments_are_trimmed_and_joined_by_blanks() {
    assert_eq!(transcript(&strings(&[" Hello,", " world. ", "\tBye.\n"])), "Hello, world. Bye.");
    assert_eq!(transcript(&strings(&["one"])), "one");
    assert_eq!(transcript(&strings(&["a  b"])), "a  b");
}

#[test]
fn blank_audio_and_empty_segments_are_left_out() {
    assert_eq!(BLANK_AUDIO, "[BLANK_AUDIO]");
    assert_eq!(transcript(&strings(&[" [BLANK_AUDIO]", "Hi.", "   ", "", "[BLANK_AUDIO] "])), "Hi.");
    assert_eq!(transcript(&strings(&["[BLANK_AUDIO]"])), "");
    assert_eq!(transcript(&strings(&[])), "");
    assert_eq!(
        transcript(&strings(&["[blank_audio]", "[BLANK_AUDIO] x"])),
        "[blank_audio] [BLANK_AUDIO] x"
    );
}

#[test]
fn a_segment_is_added_behind_a_blank() {
    let mut text = String::new();
    push_segment(&mut text, "So far.");
    assert_eq!(text, "So far.");
    push_segment(&mut text, "More.");
    assert_eq!(text, "So far. More.");
    push_segment(&mut text, "");
    assert_eq!(text, "So far. More.");
    push_segment(&mut text, "[BLANK_AUDIO]");
    assert_eq!(text, "So far. More.");
    push_segment(&mut text, "[BLANK_AUDIO]!");
    assert_eq!(text, "So far. More. [BLANK_AUDIO]!");
}

#[test]
fn white_space_goes_from_both_ends_only() {
    assert_eq!(trim("  a b  "), "a b");
    assert_eq!(trim("a"), "a");
    assert_eq!(trim(""), "");
    assert_eq!(trim(" \t\r\n"), "");
    assert_eq!(trim("\n x"), "x");
    assert_eq!(trim("x \n"), "x");
    assert_eq!(trim("\u{a0}\u{3000}\u{85}caf\u{e9} au lait\u{2003}\u{2028}"), "caf\u{e9} au lait");
    // No white space: a zero-width space.
    assert_eq!(trim("\u{200b}x\u{200b}"), "\u{200b}x\u{200b}");
    for text in ["  a b  ", "", " ", "\u{a0}x", "x\u{3000}", " \u{200b} ", "\ttab\t"] {
        assert_eq!(trim(text), text.trim());
        assert_eq!(trim(trim(text)), trim(text));
    }
}

#[test]
fn a_string_is_its_characters() {
    assert_eq!(chars_of("a\u{e9}\u{1f600}."), ['a', '\u{e9}', '\u{1f600}', '.']);
    assert_eq!(chars_of(""), Vec::<char>::new());
}

#[test]
fn the_arguments_are_plain_data() {
    let args = TranscribeArgs {
        file_name: "audio.mp3".to_string(),
        model: Some("tiny".to_string()),
        language: None,
        outfile: Some("output.txt".to_string()),
    };
    assert_eq!(args.file_name, "audio.mp3");
    assert_eq!(args.model, Some("tiny".to_string()));
    assert_eq!(args.language, None);
    let Commands::Transcribe(inner) = Commands::Transcribe(args);
    assert_eq!(inner.outfile, Some("output.txt".to_string()));
}
