//! The captured response and its terminal rendering.

use vstd::prelude::*;

use crate::text::dec_str;
use crate::text::dec_u128;

verus! {

/// What one dispatched request produced: the numeric status, the elapsed
/// wall-clock time from just before dispatch to just after the body was
/// fully read, the body text, and the raw "name: value" header lines in the
/// order the transport reported them (no de-duplication, no case
/// normalization).
pub struct ResponseMessage {
    pub status: u16,
    pub time_in_ms: u128,
    pub body: String,
    pub headers: Vec<String>,
}

/// The ANSI color selector for a status: 0-299 render green (success),
/// 300-399 yellow (redirect), 400-499 bright yellow (client error), and
/// everything from 500 up red (server error).
pub open spec fn color_code(status: u16) -> Seq<char> {
    if status <= 299 {
        "32"@
    } else if status <= 399 {
        "33"@
    } else if status <= 499 {
        "93"@
    } else {
        "31"@
    }
}

/// Executable counterpart of [`color_code`].
pub fn status_color_code(status: u16) -> (r: &'static str)
    ensures
        r@ == color_code(status),
{
    if status <= 299 {
        "32"
    } else if status <= 399 {
        "33"
    } else if status <= 499 {
        "93"
    } else {
        "31"
    }
}

/// The captured header lines, one per line, in the order captured.
pub open spec fn header_lines(hs: Seq<String>) -> Seq<char>
    decreases hs.len(),
{
    if hs.len() == 0 {
        Seq::empty()
    } else {
        header_lines(hs.drop_last()) + hs.last()@ + "\n"@
    }
}

/// Renders every captured header line followed by a newline, in order.
fn header_lines_exec(headers: &Vec<String>) -> (r: String)
    ensures
        r@ == header_lines(headers@),
{
    let mut s = String::new();
    let mut i: usize = 0;
    while i < headers.len()
        invariant
            0 <= i <= headers@.len(),
            s@ == header_lines(headers@.take(i as int)),
        decreases headers@.len() - i,
    {
        s.append(headers[i].as_str());
        s.append("\n");
        proof {
            assert(headers@.take(i + 1).drop_last() =~= headers@.take(i as int));
            assert(headers@.take(i + 1).last() == headers@[i as int]);
            assert(s@ =~= header_lines(headers@.take(i + 1)));
        }
        i += 1;
    }
    proof {
        assert(headers@.take(headers@.len() as int) =~= headers@);
    }
    s
}

impl ResponseMessage {
    /// The full terminal rendering: the status line wrapped in its color
    /// escape, the elapsed time, each captured header line verbatim, a
    /// blank line, then the body.
    pub open spec fn spec_render(self) -> Seq<char> {
        "\u{1b}[0;"@ + color_code(self.status) + "mSTATUS CODE: "@ + dec_str(self.status as int)
            + "\u{1b}[0m\n"@ + "took: "@ + dec_str(self.time_in_ms as int) + "ms\n \n"@
            + header_lines(self.headers@) + "\n"@ + self.body@ + "\n"@
    }

    /// Renders the response exactly as [`Self::spec_render`] states; this
    /// never fails on any response value.
    pub fn render(&self) -> (r: String)
        ensures
            r@ == self.spec_render(),
    {
        let mut s = String::from_str("\u{1b}[0;");
        s.append(status_color_code(self.status));
        s.append("mSTATUS CODE: ");
        let status_text = dec_u128(self.status as u128);
        s.append(status_text.as_str());
        s.append("\u{1b}[0m\n");
        s.append("took: ");
        let time_text = dec_u128(self.time_in_ms);
        s.append(time_text.as_str());
        s.append("ms\n \n");
        let lines = header_lines_exec(&self.headers);
        s.append(lines.as_str());
        s.append("\n");
        s.append(self.body.as_str());
        s.append("\n");
        proof {
            assert(s@ =~= self.spec_render());
        }
        s
    }
}

} // verus!
