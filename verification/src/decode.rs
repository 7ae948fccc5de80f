//! Turning the bytes of a cue file into text. The character set is guessed
//! from the bytes, and bytes that do not decode in it are dropped.

use crate::sheet::text_view;
use vstd::prelude::*;

verus! {

/// The character set that `chardet::detect` names for the bytes.
pub uninterp spec fn detected_charset(bytes: Seq<u8>) -> Seq<char>;

/// What the encoding that `encoding::label::encoding_from_whatwg_label`
/// finds under the label makes of the bytes, undecodable bytes ignored;
/// nothing where no encoding goes by the label or the decoding fails.
pub uninterp spec fn decoded_text(label: Seq<char>, bytes: Seq<u8>) -> Option<Seq<char>>;

/// Whether a byte is above the ASCII range, the no-break space aside.
pub open spec fn is_high_byte(b: u8) -> bool {
    b >= 0x80 && b != 0xa0
}

/// Whether the guess of the character set comes to an end on these bytes:
/// they hold no escape byte, or a high byte beside it.
pub open spec fn detection_decides(bytes: Seq<u8>) -> bool {
    !bytes.contains(0x1bu8) || exists|i: int| 0 <= i < bytes.len() && is_high_byte(bytes[i])
}

/// The label under which the decoder knows a detected character set: the
/// set's own name, but for three sets that the decoder calls otherwise.
pub open spec fn encoding_label(charset: Seq<char>) -> Seq<char> {
    if charset == "CP932"@ {
        "windows-31j"@
    } else if charset == "CP949"@ {
        "windows-949"@
    } else if charset == "MacCyrillic"@ {
        "x-mac-cyrillic"@
    } else {
        charset
    }
}

/// `chardet::detect`: the name of the character set that the bytes are
/// most likely written in, empty where it finds none. The detector gives
/// up with a panic on bytes that hold an escape byte and no high byte
/// unless it knows the escape sequence; such bytes are left out.
#[verifier::external_body]
fn detect_charset(data: &[u8]) -> (out: String)
    requires
        detection_decides(data@),
    ensures
        out@ == detected_charset(data@),
{
    chardet::detect(data).0
}

/// `chardet::charset2encoding`: renames `CP932`, `CP949` and `MacCyrillic`
/// to the labels `windows-31j`, `windows-949` and `x-mac-cyrillic`, and
/// hands every other name back as it is.
#[verifier::external_body]
fn charset_label(charset: &String) -> (out: String)
    ensures
        out@ == encoding_label(charset@),
{
    chardet::charset2encoding(charset).to_string()
}

/// `encoding::label::encoding_from_whatwg_label`, then `decode` of the
/// encoding found, with `DecoderTrap::Ignore`: the text that the bytes
/// decode to, bytes that do not decode being dropped. Nothing is claimed
/// of it but that it depends on the label and the bytes alone.
#[verifier::external_body]
fn decode_ignoring_errors(label: &str, data: &[u8]) -> (out: Option<String>)
    ensures
        text_view(out) == decoded_text(label@, data@),
{
    match encoding::label::encoding_from_whatwg_label(label) {
        Some(encoding) => encoding.decode(data, encoding::DecoderTrap::Ignore).ok(),
        None => None,
    }
}

/// Why the bytes of a cue file could not be made text.
#[derive(Debug, Clone, Copy, PartialEq, Eq, Structural)]
pub enum DecodeError {
    /// The bytes hold an escape byte and no high byte: the character set
    /// is not guessed for them.
    UndecidedEscape,
    /// No decoder goes by the name of the detected character set, or the
    /// decoder failed.
    Undecodable,
}

/// Whether the bytes are among those that the character set is guessed for.
pub fn can_detect(data: &[u8]) -> (out: bool)
    ensures
        out == detection_decides(data@),
{
    let mut escape: bool = false;
    let mut i: usize = 0;
    while i < data.len()
        invariant
            i <= data.len(),
            forall|j: int| 0 <= j < i ==> !is_high_byte(data@[j]),
            escape == data@.take(i as int).contains(0x1bu8),
        decreases data.len() - i,
    {
        let b = data[i];
        if b >= 0x80 && b != 0xa0 {
            return true;
        }
        assert(b == 0x1bu8 ==> data@.take(i + 1)[i as int] == 0x1bu8);
        if b == 0x1b {
            escape = true;
        }
        i += 1;
    }
    assert(data@.take(data.len() as int) =~= data@);
    !escape
}

/// The text that a cue file's bytes stand for, in the character set that
/// they are most likely written in.
pub fn read_cue_file_content(data: &[u8]) -> (out: Result<String, DecodeError>)
    ensures
        match out {
            Ok(text) => detection_decides(data@) && decoded_text(
                encoding_label(detected_charset(data@)),
                data@,
            ) == Some(text@),
            Err(DecodeError::UndecidedEscape) => !detection_decides(data@),
            Err(DecodeError::Undecodable) => detection_decides(data@) && decoded_text(
                encoding_label(detected_charset(data@)),
                data@,
            ) is None,
        },
{
    if !can_detect(data) {
        return Err(DecodeError::UndecidedEscape);
    }
    let charset = detect_charset(data);
    let label = charset_label(&charset);
    match decode_ignoring_errors(label.as_str(), data) {
        Some(text) => Ok(text),
        None => Err(DecodeError::Undecodable),
    }
}

} // verus!
