//! Human-readable text of a response, and the texts that the proxy itself
//! puts on the wire.

use vstd::prelude::*;
use vstd::string::*;
use vstd::utf8::*;

verus! {

/// Tail of the continuation request that accepts a literal.
pub const LITERAL_ACCEPT_TEXT: &'static str = "proxy: Literal accepted by proxy";

/// Tail of the status that rejects a literal.
pub const LITERAL_REJECT_TEXT: &'static str = "proxy: Literal rejected by proxy";

/// Text of the status that replaces an upstream rejection.
pub const COMMAND_REJECTED_TEXT: &'static str = "proxy: Command rejected by server";

/// `TEXT-CHAR`: any 7-bit character but NUL, CR and LF.
pub open spec fn is_text_char(b: u8) -> bool {
    (0x01 <= b <= 0x09) || (0x0b <= b <= 0x0c) || (0x0e <= b <= 0x7f)
}

/// `text = 1*TEXT-CHAR`, over the bytes of the string.
pub open spec fn valid_text(s: Seq<char>) -> bool {
    let bytes = encode_utf8(s);
    &&& bytes.len() > 0
    &&& forall|i: int| 0 <= i < bytes.len() ==> is_text_char(#[trigger] bytes[i])
}

fn is_text_char_exec(b: u8) -> (is: bool)
    ensures
        is == is_text_char(b),
{
    (0x01 <= b && b <= 0x09) || (0x0b <= b && b <= 0x0c) || (0x0e <= b && b <= 0x7f)
}

/// Whether `text` is not empty and made of `TEXT-CHAR` alone.
fn validate_text(text: &str) -> (valid: bool)
    ensures
        valid == valid_text(text@),
{
    let bytes = text.as_bytes();
    if bytes.len() == 0 {
        return false;
    }
    let mut i: usize = 0;
    while i < bytes.len()
        invariant
            i <= bytes.len(),
            bytes@ == encode_utf8(text@),
            forall|j: int| 0 <= j < i ==> is_text_char(#[trigger] bytes@[j]),
        decreases bytes.len() - i,
    {
        if !is_text_char_exec(bytes[i]) {
            return false;
        }
        i += 1;
    }
    true
}

/// A valid response text.
#[derive(Debug, PartialEq, Eq)]
pub struct Text {
    inner: String,
}

impl View for Text {
    type V = Seq<char>;

    closed spec fn view(&self) -> Seq<char> {
        self.inner@
    }
}

impl Text {
    #[verifier::type_invariant]
    spec fn valid(self) -> bool {
        valid_text(self.inner@)
    }

    /// The text `text`, if it is valid.
    pub fn new(text: String) -> (out: Option<Text>)
        ensures
            out is Some <==> valid_text(text@),
            out matches Some(t) ==> t@ == text@,
    {
        if validate_text(text.as_str()) {
            Some(Text { inner: text })
        } else {
            None
        }
    }

    pub fn as_str(&self) -> (s: &str)
        ensures
            s@ == self@,
            valid_text(s@),
    {
        proof {
            use_type_invariant(self);
        }
        self.inner.as_str()
    }

    pub fn into_string(self) -> (s: String)
        ensures
            s@ == self@,
            valid_text(s@),
    {
        proof {
            use_type_invariant(&self);
        }
        self.inner
    }
}

/// A string of ASCII characters other than NUL, CR and LF is a valid text.
proof fn lemma_plain_ascii_is_text(s: Seq<char>)
    requires
        s.len() > 0,
        forall|i: int| 0 <= i < s.len() ==> ' ' <= #[trigger] s[i] <= '~',
    ensures
        valid_text(s),
{
    assert(is_ascii_chars(s));
    is_ascii_chars_encode_utf8(s);
    let bytes = encode_utf8(s);
    assert forall|i: int| 0 <= i < bytes.len() implies is_text_char(#[trigger] bytes[i]) by {
        assert(' ' <= s[i] <= '~');
        assert(bytes[i] == s[i] as u8);
    }
}

impl Clone for Text {
    fn clone(&self) -> (out: Text)
        ensures
            out@ == self@,
    {
        proof {
            use_type_invariant(self);
        }
        Text { inner: self.inner.clone() }
    }
}

/// The text with which the proxy accepts a literal.
pub fn literal_accept_text() -> (text: Text)
    ensures
        text@ == LITERAL_ACCEPT_TEXT@,
{
    proof {
        reveal_strlit("proxy: Literal accepted by proxy");
        lemma_plain_ascii_is_text(LITERAL_ACCEPT_TEXT@);
    }
    Text { inner: String::from_str(LITERAL_ACCEPT_TEXT) }
}

/// The text with which the proxy rejects a literal.
pub fn literal_reject_text() -> (text: Text)
    ensures
        text@ == LITERAL_REJECT_TEXT@,
{
    proof {
        reveal_strlit("proxy: Literal rejected by proxy");
        lemma_plain_ascii_is_text(LITERAL_REJECT_TEXT@);
    }
    Text { inner: String::from_str(LITERAL_REJECT_TEXT) }
}

/// The text that the proxy puts in place of an upstream rejection.
pub fn command_rejected_text() -> (text: Text)
    ensures
        text@ == COMMAND_REJECTED_TEXT@,
{
    proof {
        reveal_strlit("proxy: Command rejected by server");
        lemma_plain_ascii_is_text(COMMAND_REJECTED_TEXT@);
    }
    Text { inner: String::from_str(COMMAND_REJECTED_TEXT) }
}

/// The texts that the proxy inserts are valid response texts.
pub proof fn lemma_proxy_texts_valid()
    ensures
        valid_text(LITERAL_ACCEPT_TEXT@),
        valid_text(LITERAL_REJECT_TEXT@),
        valid_text(COMMAND_REJECTED_TEXT@),
{
    reveal_strlit("proxy: Literal accepted by proxy");
    reveal_strlit("proxy: Literal rejected by proxy");
    reveal_strlit("proxy: Command rejected by server");
    lemma_plain_ascii_is_text(LITERAL_ACCEPT_TEXT@);
    lemma_plain_ascii_is_text(LITERAL_REJECT_TEXT@);
    lemma_plain_ascii_is_text(COMMAND_REJECTED_TEXT@);
}

} // verus!
