use imap_proxy::text::{
    command_rejected_text, literal_accept_text, literal_reject_text, Text,
    COMMAND_REJECTED_TEXT, LITERAL_ACCEPT_TEXT, LITERAL_REJECT_TEXT,
};

#[test]
fn proxy_texts_are_the_documented_strings() {
    assert_eq!(LITERAL_ACCEPT_TEXT, "proxy: Literal accepted by proxy");
    assert_eq!(LITERAL_REJECT_TEXT, "proxy: Literal rejected by proxy");
    assert_eq!(COMMAND_REJECTED_TEXT, "proxy: Command rejected by server");
    assert_eq!(literal_accept_text().as_str(), "proxy: Literal accepted by proxy");
    assert_eq!(literal_reject_text().as_str(), "proxy: Literal rejected by proxy");
    assert_eq!(command_rejected_text().as_str(), "proxy: Command rejected by server");
}

#[test]
fn proxy_texts_pass_validation() {
    for text in [LITERAL_ACCEPT_TEXT, LITERAL_REJECT_TEXT, COMMAND_REJECTED_TEXT] {
        assert_eq!(Text::new(text.to_string()).map(Text::into_string), Some(text.to_string()));
    }
}

#[test]
fn a_valid_text_is_kept_as_it_is() {
    let text = Text::new("disk full".to_string()).unwrap();
    assert_eq!(text.as_str(), "disk full");
    assert_eq!(text.clone(), text);
    assert_eq!(text.into_string(), "disk full");
}

#[test]
fn every_text_char_is_accepted() {
    for byte in 0x01u8..=0x7f {
        let s = String::from_utf8(vec![byte]).unwrap();
        let ok = !(byte == b'\r' || byte == b'\n');
        assert_eq!(Text::new(s).is_some(), ok, "byte {byte:#x}");
    }
}

#[test]
fn an_empty_text_is_refused() {
    assert_eq!(Text::new(String::new()), None);
}

#[test]
fn line_breaks_and_nul_are_refused() {
    assert_eq!(Text::new("a\r\nb".to_string()), None);
    assert_eq!(Text::new("a\nb".to_string()), None);
    assert_eq!(Text::new("a\rb".to_string()), None);
    assert_eq!(Text::new("a\0b".to_string()), None);
}

#[test]
fn characters_beyond_ascii_are_refused() {
    assert_eq!(Text::new("grüße".to_string()), None);
    assert_eq!(Text::new("\u{80}".to_string()), None);
}

#[test]
fn validation_agrees_with_the_protocol_types() {
    let mut samples: Vec<String> = (0x00u8..=0x7f).map(|b| (b as char).to_string()).collect();
    for sample in ["", "disk full", "a\r\nb", "[ALERT] x", "gr\u{fc}\u{df}e", "\u{80}", "tab\tbed", " "] {
        samples.push(sample.to_string());
    }
    for sample in samples {
        let expected = imap_codec::imap_types::core::Text::validate(&sample).is_ok();
        assert_eq!(Text::new(sample.clone()).is_some(), expected, "{sample:?}");
    }
}
