//! What a cartridge prints on the debug console, and what it prints when it
//! fails.

use crate::host::{views, Action, ActionView};
use crate::text::{ascii, decimal, lemma_ascii_utf8, lemma_decimal_digits, Formatter};
use vstd::prelude::*;
use vstd::string::StringSliceAdditionalSpecFns;

verus! {

/// Prints a message to the debug console.
pub fn trace(text: &str) -> (a: Action)
    ensures
        a@ == (ActionView::Trace { text: text@ }),
{
    Action::Trace { text: text.to_owned() }
}

/// Where in the source a failure was raised.
#[derive(Clone, Copy, Debug)]
pub struct Location<'a> {
    pub file: &'a str,
    pub line: u32,
    pub column: u32,
}

/// The length of the buffer that line and column are written to.
pub const POSITION_CAPACITY: usize = 9;

/// What is printed where line and column do not fit.
pub open spec fn no_numbers() -> Seq<char> {
    "NO NUMBERS"@
}

/// Line and column in decimal with a colon between them, as ASCII codes.
pub open spec fn position(line: u32, column: u32) -> Seq<u8> {
    decimal(line as nat) + seq![0x3au8] + decimal(column as nat)
}

/// The text that stands for a line and a column: `line:column` where that
/// takes no more than nine characters, `NO NUMBERS` where it takes more.
pub open spec fn spec_position_text(line: u32, column: u32) -> Seq<char> {
    if position(line, column).len() <= POSITION_CAPACITY {
        ascii(position(line, column))
    } else {
        no_numbers()
    }
}

/// The text that stands for a line and a column. It is written through a
/// [`Formatter`] over nine bytes.
pub fn position_text(line: u32, column: u32) -> (r: String)
    ensures
        r@ == spec_position_text(line, column),
{
    let mut buffer: [u8; 9] = [0; 9];
    let mut formatter = Formatter::new(&mut buffer);
    proof {
        reveal_strlit(":");
        lemma_ascii_utf8(seq![0x3au8]);
        assert(ascii(seq![0x3au8]) =~= ":"@);
        assert(":".spec_bytes() == seq![0x3au8]);
        lemma_decimal_digits(line as nat);
        lemma_decimal_digits(column as nat);
    }
    let fits = match formatter.write_u32(line) {
        Ok(()) => match formatter.write_str(":") {
            Ok(()) => formatter.write_u32(column).is_ok(),
            Err(_) => false,
        },
        Err(_) => false,
    };
    if fits {
        proof {
            assert(formatter.written() =~= position(line, column));
            lemma_ascii_utf8(position(line, column));
        }
        formatter.buffer().to_owned()
    } else {
        "NO NUMBERS".to_owned()
    }
}

/// The lines that report a failure: the word `panic`; where the location is
/// known, `location:`, the file, and line and column; where the payload is
/// text, `message: ` and the payload.
pub open spec fn report(location: Option<Location>, payload: Option<&str>) -> Seq<ActionView> {
    seq![ActionView::Trace { text: "panic"@ }] + (match location {
        Some(at) => seq![
            ActionView::Trace { text: "location:"@ },
            ActionView::Trace { text: at.file@ },
            ActionView::Trace { text: spec_position_text(at.line, at.column) },
        ],
        None => seq![],
    }) + (match payload {
        Some(message) => seq![
            ActionView::Trace { text: "message: "@ },
            ActionView::Trace { text: message@ },
        ],
        None => seq![],
    })
}

/// What a cartridge does when it fails: it prints the report of the failure,
/// line by line, on the debug console. The glue then stops the cartridge.
pub fn panicked(location: Option<Location>, payload: Option<&str>) -> (actions: Vec<Action>)
    ensures
        views(actions@) == report(location, payload),
{
    let mut actions: Vec<Action> = Vec::new();
    actions.push(trace("panic"));
    if let Some(at) = location {
        actions.push(trace("location:"));
        actions.push(trace(at.file));
        let numbers = position_text(at.line, at.column);
        actions.push(trace(numbers.as_str()));
    }
    if let Some(message) = payload {
        actions.push(trace("message: "));
        actions.push(trace(message));
    }
    assert(views(actions@) =~= report(location, payload));
    actions
}

} // verus!
