//! What the tool prints: lines made of coloured segments of text.

use colored::Colorize;
use vstd::prelude::*;

verus! {

/// The colour a segment of text is printed in.
#[derive(Clone, Copy, Debug, PartialEq, Eq, Structural)]
pub enum Colour {
    /// The terminal's own colour.
    Plain,
    /// Blue, used for a command the user is asked to run.
    Blue,
    /// Red, used for a failure.
    Red,
}

/// A run of text in one colour.
#[derive(Debug)]
pub struct Segment {
    pub text: String,
    pub colour: Colour,
}

/// The mathematical value of a [`Segment`].
pub struct SegmentView {
    pub text: Seq<char>,
    pub colour: Colour,
}

impl DeepView for Segment {
    type V = SegmentView;

    open spec fn deep_view(&self) -> SegmentView {
        SegmentView { text: self.text@, colour: self.colour }
    }
}

impl View for Segment {
    type V = SegmentView;

    open spec fn view(&self) -> SegmentView {
        self.deep_view()
    }
}

/// One printed line: its segments from left to right, without the line break.
#[derive(Debug)]
pub struct Line {
    pub segments: Vec<Segment>,
}

impl DeepView for Line {
    type V = Seq<SegmentView>;

    open spec fn deep_view(&self) -> Seq<SegmentView> {
        self.segments.deep_view()
    }
}

impl View for Line {
    type V = Seq<SegmentView>;

    open spec fn view(&self) -> Seq<SegmentView> {
        self.deep_view()
    }
}

/// A segment in the terminal's own colour.
pub open spec fn plain(text: Seq<char>) -> SegmentView {
    SegmentView { text, colour: Colour::Plain }
}

/// A line that holds `text` and nothing else, uncoloured.
pub open spec fn plain_line(text: Seq<char>) -> Seq<SegmentView> {
    seq![plain(text)]
}

/// The line every placeholder subcommand prints.
pub open spec fn greeting_line() -> Seq<SegmentView> {
    plain_line("Hello, world!"@)
}

/// The line printed when the identity service does not accept the token;
/// `detail` is the error as the service client reported it.
pub open spec fn token_rejection_line(detail: Seq<char>) -> Seq<SegmentView> {
    plain_line("Token validation failed: "@ + detail)
}

/// The hint printed when no usable service configuration was found. The
/// command to run stands out in blue.
pub open spec fn service_config_hint_line() -> Seq<SegmentView> {
    seq![
        plain(
            "There is no service configuration found or the existing one is invalid. Please use "@,
        ),
        SegmentView { text: "ginger-connector init"@, colour: Colour::Blue },
        plain(" to add one. Exiting"@),
    ]
}

/// The line printed, in red, when the package descriptor could not be had.
pub open spec fn package_failure_line() -> Seq<SegmentView> {
    seq![
        SegmentView {
            text: "Failed to retrieve package.json information. Exiting."@,
            colour: Colour::Red,
        },
    ]
}

impl Line {
    /// A line of one segment.
    fn single(text: String, colour: Colour) -> (line: Line)
        ensures
            line@ == seq![SegmentView { text: text@, colour }],
    {
        let mut segments: Vec<Segment> = Vec::new();
        segments.push(Segment { text, colour });
        let line = Line { segments };
        assert(line@ =~= seq![SegmentView { text: text@, colour }]);
        line
    }

    /// An uncoloured line that holds `text` as it is.
    pub fn plain(text: String) -> (line: Line)
        ensures
            line@ == plain_line(text@),
    {
        Line::single(text, Colour::Plain)
    }

    /// The line every placeholder subcommand prints.
    pub fn greeting() -> (line: Line)
        ensures
            line@ == greeting_line(),
    {
        Line::plain(String::from_str("Hello, world!"))
    }

    /// The line that reports a rejected token, with the error's text.
    pub fn token_rejection(detail: &str) -> (line: Line)
        ensures
            line@ == token_rejection_line(detail@),
    {
        Line::plain(String::from_str("Token validation failed: ").concat(detail))
    }

    /// The hint that tells the user how to get a service configuration.
    pub fn service_config_hint() -> (line: Line)
        ensures
            line@ == service_config_hint_line(),
    {
        let mut segments: Vec<Segment> = Vec::new();
        segments.push(
            Segment {
                text: String::from_str(
                    "There is no service configuration found or the existing one is invalid. Please use ",
                ),
                colour: Colour::Plain,
            },
        );
        segments.push(
            Segment { text: String::from_str("ginger-connector init"), colour: Colour::Blue },
        );
        segments.push(
            Segment { text: String::from_str(" to add one. Exiting"), colour: Colour::Plain },
        );
        let line = Line { segments };
        assert(line@ =~= service_config_hint_line());
        line
    }

    /// The line that reports a missing package descriptor.
    pub fn package_failure() -> (line: Line)
        ensures
            line@ == package_failure_line(),
    {
        Line::single(
            String::from_str("Failed to retrieve package.json information. Exiting."),
            Colour::Red,
        )
    }
}

/// The escape sequence that switches a terminal to `colour`; empty for the
/// terminal's own colour.
pub open spec fn colour_on(colour: Colour) -> Seq<char> {
    match colour {
        Colour::Plain => Seq::empty(),
        Colour::Blue => "\x1B[34m"@,
        Colour::Red => "\x1B[31m"@,
    }
}

/// The escape sequence that switches a terminal back to its own colour.
pub open spec fn colour_off() -> Seq<char> {
    "\x1B[0m"@
}

impl SegmentView {
    /// Whether the segment can be painted: a text that is to be coloured
    /// holds no escape character of its own.
    pub open spec fn paintable(self) -> bool {
        self.colour != Colour::Plain ==> !self.text.contains('\x1B')
    }

    /// The characters that stand for the segment on a terminal: the text
    /// between the escape sequences of its colour where the segment is
    /// painted, the bare text where it is not.
    pub open spec fn rendering(self, painted: bool) -> Seq<char> {
        if painted && self.colour != Colour::Plain {
            colour_on(self.colour) + self.text + colour_off()
        } else {
            self.text
        }
    }
}

/// Whether every segment of `line` can be painted.
pub open spec fn line_paintable(line: Seq<SegmentView>) -> bool {
    forall|i: int| 0 <= i < line.len() ==> (#[trigger] line[i]).paintable()
}

/// The characters that stand for `line` on a terminal, where `painted` says
/// of each segment whether it is painted: the segments' renderings one
/// after the other.
pub open spec fn line_rendering(line: Seq<SegmentView>, painted: Seq<bool>) -> Seq<char>
    recommends
        painted.len() == line.len(),
    decreases line.len(),
{
    if line.len() == 0 {
        Seq::empty()
    } else {
        line_rendering(line.drop_last(), painted.drop_last()) + line.last().rendering(
            painted.last(),
        )
    }
}

/// Calls `Colorize::blue` of the `colored` crate on `text` and formats what
/// it returns with `{}`. Whether `colored` paints depends on the
/// environment and on the terminal, so the result is not a function of the
/// text. This much is relied on without proof: for a text without an escape
/// character the result is the text itself where `colored` does not paint,
/// and the text between the escape sequences for blue and for the reset
/// where it does. Nothing is said of a text that holds an escape character,
/// in which `colored` may rewrite reset sequences.
#[verifier::external_body]
fn paint_blue(text: &str) -> (painted: String)
    ensures
        !text@.contains('\x1B') ==> painted@ == text@ || painted@ == "\x1B[34m"@ + text@
            + "\x1B[0m"@,
{
    format!("{}", text.blue())
}

/// Calls `Colorize::red` of the `colored` crate on `text` and formats what
/// it returns with `{}`. Whether `colored` paints depends on the
/// environment and on the terminal, so the result is not a function of the
/// text. This much is relied on without proof: for a text without an escape
/// character the result is the text itself where `colored` does not paint,
/// and the text between the escape sequences for red and for the reset
/// where it does. Nothing is said of a text that holds an escape character,
/// in which `colored` may rewrite reset sequences.
#[verifier::external_body]
fn paint_red(text: &str) -> (painted: String)
    ensures
        !text@.contains('\x1B') ==> painted@ == text@ || painted@ == "\x1B[31m"@ + text@
            + "\x1B[0m"@,
{
    format!("{}", text.red())
}

impl Segment {
    /// The segment as it is written to the terminal. Whether a coloured
    /// segment comes out painted is for the terminal to decide.
    pub fn render(&self) -> (text: String)
        ensures
            self@.paintable() ==> text@ == self@.rendering(false) || text@ == self@.rendering(
                true,
            ),
    {
        match self.colour {
            Colour::Plain => self.text.clone(),
            Colour::Blue => paint_blue(self.text.as_str()),
            Colour::Red => paint_red(self.text.as_str()),
        }
    }
}

impl Line {
    /// The line as it is written to the terminal, without the line break:
    /// its segments, each painted or not, one after the other.
    pub fn render(&self) -> (text: String)
        ensures
            line_paintable(self@) ==> exists|painted: Seq<bool>|
                painted.len() == self@.len() && text@ == line_rendering(self@, painted),
    {
        let mut text = String::new();
        let ghost mut painted: Seq<bool> = Seq::empty();
        let mut done: usize = 0;
        while done < self.segments.len()
            invariant
                done <= self.segments.len(),
                line_paintable(self@) ==> painted.len() == done && text@ == line_rendering(
                    self@.take(done as int),
                    painted,
                ),
            decreases self.segments.len() - done,
        {
            let part = self.segments[done].render();
            proof {
                if line_paintable(self@) {
                    let segment = self@[done as int];
                    assert(segment == self.segments[done as int]@);
                    assert(segment.paintable());
                    let this = part@ == segment.rendering(true);
                    let before = self@.take(done as int);
                    let now = self@.take(done as int + 1);
                    assert(now.drop_last() =~= before);
                    assert(now.last() == segment);
                    assert(painted.push(this).drop_last() =~= painted);
                    painted = painted.push(this);
                }
            }
            text.append(part.as_str());
            done = done + 1;
        }
        proof {
            assert(self@.take(done as int) =~= self@);
        }
        text
    }
}

/// A line of plain segments is rendered as its text, painted or not.
pub proof fn lemma_plain_line_renders_as_text(text: Seq<char>, painted: Seq<bool>)
    ensures
        line_paintable(plain_line(text)),
        line_rendering(plain_line(text), painted) == text,
{
    reveal_with_fuel(line_rendering, 2);
    assert(plain_line(text).drop_last() =~= Seq::<SegmentView>::empty());
    assert(line_rendering(plain_line(text), painted) =~= text);
}

/// Every line that the tool puts together itself can be painted.
pub proof fn lemma_fixed_lines_are_paintable()
    ensures
        line_paintable(greeting_line()),
        line_paintable(service_config_hint_line()),
        line_paintable(package_failure_line()),
{
    reveal_strlit("ginger-connector init");
    reveal_strlit("Failed to retrieve package.json information. Exiting.");
}

} // verus!
