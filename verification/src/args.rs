//! The command line options, and what the delimiter option may hold.

use vstd::prelude::*;
use vstd::string::StrSliceExecFns;
use vstd::string::StringExecFns;

verus! {

/// The options of the command line.
#[derive(Debug)]
pub struct Args {
    /// The file to view. Standard input is read where none is given.
    pub filename: Option<String>,
    /// The delimiter character; a comma where none is given.
    pub delimiter: Option<String>,
    /// Whether to show timings.
    pub debug: bool,
}

/// Why a delimiter option was turned down.
#[derive(Debug)]
pub enum DelimiterError {
    /// The option is empty.
    Empty,
    /// The option starts with a character outside the ASCII range.
    NotAscii(char),
    /// The option holds more than one character.
    TooLong(String),
}

/// What a delimiter error is: the same, with the text of the option in place
/// of the string.
pub enum DelimiterErrorModel {
    Empty,
    NotAscii(char),
    TooLong(Seq<char>),
}

impl View for DelimiterError {
    type V = DelimiterErrorModel;

    open spec fn view(&self) -> DelimiterErrorModel {
        match self {
            DelimiterError::Empty => DelimiterErrorModel::Empty,
            DelimiterError::NotAscii(c) => DelimiterErrorModel::NotAscii(*c),
            DelimiterError::TooLong(text) => DelimiterErrorModel::TooLong(text@),
        }
    }
}

/// Whether a character lies in the ASCII range.
pub open spec fn is_ascii_char(c: char) -> bool {
    c as u32 <= 0x7f
}

/// The delimiter that the text of an option stands for: the text must be a
/// single ASCII character, which is the delimiter.
pub open spec fn delimiter_of(text: Seq<char>) -> Result<u8, DelimiterErrorModel> {
    if text.len() == 0 {
        Err(DelimiterErrorModel::Empty)
    } else if !is_ascii_char(text[0]) {
        Err(DelimiterErrorModel::NotAscii(text[0]))
    } else if text.len() > 1 {
        Err(DelimiterErrorModel::TooLong(text))
    } else {
        Ok(text[0] as u8)
    }
}

/// The message that goes with an error.
pub open spec fn message_of(error: DelimiterErrorModel) -> Seq<char> {
    match error {
        DelimiterErrorModel::Empty => "Delimiter should not be empty"@,
        DelimiterErrorModel::NotAscii(c) => "Delimiter should be within the ASCII range: "@.push(
            c,
        ) + " is too fancy"@,
        DelimiterErrorModel::TooLong(text) => "Delimiter should be exactly one character, got "@
            + text,
    }
}

/// `String::push` appends the character to the end of the string.
pub assume_specification[ String::push ](text: &mut String, c: char)
    ensures
        final(text)@ == old(text)@.push(c),
;

impl DelimiterError {
    /// The message to show for this error.
    pub fn message(&self) -> (message: String)
        ensures
            message@ == message_of(self@),
    {
        match self {
            DelimiterError::Empty => String::from_str("Delimiter should not be empty"),
            DelimiterError::NotAscii(c) => {
                let mut message = String::from_str("Delimiter should be within the ASCII range: ");
                message.push(*c);
                message.append(" is too fancy");
                message
            },
            DelimiterError::TooLong(text) => {
                let mut message = String::from_str(
                    "Delimiter should be exactly one character, got ",
                );
                message.append(text.as_str());
                message
            },
        }
    }
}

/// The delimiter that the command line asks for, if it names one. The option
/// must hold exactly one character of the ASCII range.
pub fn parse_delimiter(args: &Args) -> (delimiter: Result<Option<u8>, DelimiterError>)
    ensures
        match args.delimiter {
            None => delimiter matches Ok(None),
            Some(text) => match delimiter_of(text@) {
                Ok(byte) => delimiter matches Ok(Some(b)) && b == byte,
                Err(error) => delimiter matches Err(e) && e@ == error,
            },
        },
{
    if let Some(s) = &args.delimiter {
        let text = s.as_str();
        let len = text.unicode_len();
        if len == 0 {
            return Err(DelimiterError::Empty);
        }
        let c = text.get_char(0);
        if c as u32 > 0x7f {
            return Err(DelimiterError::NotAscii(c));
        }
        if len > 1 {
            return Err(DelimiterError::TooLong(s.clone()));
        }
        Ok(Some(c as u8))
    } else {
        Ok(None)
    }
}

} // verus!
