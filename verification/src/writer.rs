//! A text sink that keeps track of the current level of indentation.

use vstd::prelude::*;

verus! {

/// The white space that begins a line at the given level: four spaces for
/// each level.
pub open spec fn indentation(level: nat) -> Seq<char> {
    Seq::new(4 * level, |i: int| ' ')
}

/// A line feed.
pub open spec fn line_feed() -> Seq<char> {
    seq!['\n']
}

/// A line at a level of indentation.
pub open spec fn line(level: nat, text: Seq<char>) -> Seq<char> {
    indentation(level) + text + line_feed()
}

/// A text at a level of indentation, with the line left open.
pub open spec fn indented(level: nat, text: Seq<char>) -> Seq<char> {
    indentation(level) + text
}

/// Writing one piece after another appends the two pieces together.
pub broadcast proof fn lemma_appended(base: Seq<char>, written: Seq<char>, piece: Seq<char>)
    ensures
        #[trigger] ((base + written) + piece) == base + (written + piece),
{
    vstd::seq_lib::lemma_concat_associative(base, written, piece);
}

/// Writing nothing leaves a text as it is.
pub proof fn lemma_nothing_appended(text: Seq<char>)
    ensures
        text + Seq::<char>::empty() == text,
{
    assert(text + Seq::<char>::empty() =~= text);
}

/// A growing text and a level of indentation.
pub struct IndentedWriter {
    buffer: String,
    indent: usize,
}

impl Default for IndentedWriter {
    /// A writer that has written nothing and does not indent.
    fn default() -> (writer: Self)
        ensures
            writer.text() == Seq::<char>::empty(),
            writer.level() == 0,
    {
        IndentedWriter { buffer: String::new(), indent: 0 }
    }
}

impl IndentedWriter {
    /// What has been written.
    pub closed spec fn text(&self) -> Seq<char> {
        self.buffer@
    }

    /// The current level of indentation.
    pub closed spec fn level(&self) -> nat {
        self.indent as nat
    }

    /// Indents one level more.
    pub fn push_indent(&mut self)
        requires
            old(self).level() < usize::MAX,
        ensures
            final(self).level() == old(self).level() + 1,
            final(self).text() == old(self).text(),
    {
        self.indent += 1;
    }

    /// Indents one level less; at level zero nothing changes.
    pub fn pop_indent(&mut self)
        ensures
            final(self).level() == if old(self).level() > 0 {
                old(self).level() - 1
            } else {
                0
            },
            final(self).text() == old(self).text(),
    {
        if self.indent > 0 {
            self.indent -= 1;
        }
    }

    /// Writes the white space that begins a line at the current level.
    pub fn write_indent(&mut self)
        requires
            4 * old(self).level() <= usize::MAX,
        ensures
            final(self).level() == old(self).level(),
            final(self).text() == old(self).text() + indentation(old(self).level()),
    {
        let spaces = self.indent * 4;
        let mut written: usize = 0;
        while written < spaces
            invariant
                written <= spaces,
                spaces == 4 * self.indent,
                self.indent == old(self).indent,
                self.buffer@ == old(self).buffer@ + Seq::new(written as nat, |i: int| ' '),
            decreases spaces - written,
        {
            self.buffer.push(' ');
            written += 1;
            assert(self.buffer@ =~= old(self).buffer@ + Seq::new(written as nat, |i: int| ' '));
        }
    }

    /// Writes a text as it is.
    pub fn write(&mut self, string: &str)
        ensures
            final(self).level() == old(self).level(),
            final(self).text() == old(self).text() + string@,
    {
        self.buffer.append(string);
    }

    /// Writes a text and ends the line.
    pub fn write_line(&mut self, string: &str)
        ensures
            final(self).level() == old(self).level(),
            final(self).text() == old(self).text() + (string@ + line_feed()),
    {
        self.buffer.append(string);
        self.next_line();
        proof {
            lemma_appended(old(self).text(), string@, line_feed());
        }
    }

    /// Writes a text as it is.
    pub fn write_string(&mut self, string: &str)
        ensures
            final(self).level() == old(self).level(),
            final(self).text() == old(self).text() + string@,
    {
        self.buffer.append(string);
    }

    /// Writes a text and ends the line.
    pub fn write_string_line(&mut self, string: &str)
        ensures
            final(self).level() == old(self).level(),
            final(self).text() == old(self).text() + (string@ + line_feed()),
    {
        self.buffer.append(string);
        self.next_line();
        proof {
            lemma_appended(old(self).text(), string@, line_feed());
        }
    }

    /// Writes the indentation of the current level and then a text.
    pub fn write_indented(&mut self, string: &str)
        requires
            4 * old(self).level() <= usize::MAX,
        ensures
            final(self).level() == old(self).level(),
            final(self).text() == old(self).text() + indented(old(self).level(), string@),
    {
        self.write_indent();
        self.buffer.append(string);
        proof {
            lemma_appended(old(self).text(), indentation(old(self).level()), string@);
        }
    }

    /// Writes the indentation of the current level and a text, and ends the
    /// line.
    pub fn write_indented_line(&mut self, string: &str)
        requires
            4 * old(self).level() <= usize::MAX,
        ensures
            final(self).level() == old(self).level(),
            final(self).text() == old(self).text() + line(old(self).level(), string@),
    {
        self.write_indented(string);
        self.next_line();
        proof {
            lemma_appended(
                old(self).text(),
                indentation(old(self).level()) + string@,
                line_feed(),
            );
        }
    }

    /// Ends the line.
    pub fn next_line(&mut self)
        ensures
            final(self).level() == old(self).level(),
            final(self).text() == old(self).text() + line_feed(),
    {
        self.buffer.push('\n');
        assert(self.buffer@ =~= old(self).buffer@ + line_feed());
    }

    /// Hands out what has been written.
    pub fn to_string(self) -> (text: String)
        ensures
            text@ == self.text(),
    {
        self.buffer
    }
}

} // verus!
