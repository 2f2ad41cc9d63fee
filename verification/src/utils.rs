//! The source writer that the binding generators print through: a text
//! buffer with brace-delimited indentation blocks and a hard nesting limit.
use vstd::prelude::*;

verus! {

/// The nesting depth the writer refuses to exceed.
pub const INDENT_LIMIT: u64 = 128;

/// A failure of the source writer: the nesting limit was exceeded, or an
/// unindent had no matching indent.
#[derive(Debug)]
pub struct SourceWriterError(pub String);

/// A generic type argument was expected and absent.
#[derive(Debug)]
pub struct GetGenericTypeError;

/// The indent prefix repeated a number of times.
pub open spec fn spec_repeat(s: Seq<char>, n: nat) -> Seq<char>
    decreases n,
{
    if n == 0 {
        Seq::empty()
    } else {
        spec_repeat(s, (n - 1) as nat) + s
    }
}

/// A growing source text with an indentation level; each opened block
/// writes its brace, and every line is prefixed by the indent text repeated
/// to the current level.
#[derive(Debug)]
pub struct SourceWriter {
    pub buffer: String,
    pub indentation_level: u64,
    pub indent_type: String,
}

impl SourceWriter {
    fn new_inner(indent_type: String) -> (r: SourceWriter)
        ensures
            r.buffer@ == Seq::<char>::empty(),
            r.indentation_level == 0,
            r.indent_type == indent_type,
    {
        SourceWriter { buffer: String::new(), indentation_level: 0, indent_type }
    }

    /// A writer with the conventional four-space indent.
    pub fn new() -> (r: SourceWriter)
        ensures
            r.buffer@ == Seq::<char>::empty(),
            r.indentation_level == 0,
            r.indent_type@ == "    "@,
    {
        Self::new_inner("    ".to_owned())
    }

    /// A writer with a caller-chosen indent text.
    pub fn new_custom_indent(indent_type: String) -> (r: SourceWriter)
        ensures
            r.buffer@ == Seq::<char>::empty(),
            r.indentation_level == 0,
            r.indent_type == indent_type,
    {
        Self::new_inner(indent_type)
    }

    /// Appends the indent prefix for the current level, then the text.
    pub fn write(&mut self, text: &str)
        ensures
            final(self).buffer@ == old(self).buffer@ + spec_repeat(
                old(self).indent_type@,
                old(self).indentation_level as nat,
            ) + text@,
            final(self).indentation_level == old(self).indentation_level,
            final(self).indent_type == old(self).indent_type,
    {
        let mut i: u64 = 0;
        while i < self.indentation_level
            invariant
                i <= self.indentation_level,
                self.indentation_level == old(self).indentation_level,
                self.indent_type == old(self).indent_type,
                self.buffer@ == old(self).buffer@ + spec_repeat(self.indent_type@, i as nat),
            decreases self.indentation_level - i,
        {
            let ghost before = self.buffer@;
            let prefix = self.indent_type.clone();
            self.buffer.append(prefix.as_str());
            i = i + 1;
        }
        self.buffer.append(text);
    }

    /// `write`, with a line break after the text.
    pub fn writeln(&mut self, text: &str)
        ensures
            final(self).buffer@ == old(self).buffer@ + spec_repeat(
                old(self).indent_type@,
                old(self).indentation_level as nat,
            ) + text@ + "\n"@,
            final(self).indentation_level == old(self).indentation_level,
            final(self).indent_type == old(self).indent_type,
    {
        self.write(text);
        self.buffer.append("\n");
    }

    /// Formats one prepared line: as `write`.
    pub fn fmt(&mut self, text: &str)
        ensures
            final(self).buffer@ == old(self).buffer@ + spec_repeat(
                old(self).indent_type@,
                old(self).indentation_level as nat,
            ) + text@,
            final(self).indentation_level == old(self).indentation_level,
            final(self).indent_type == old(self).indent_type,
    {
        self.write(text);
    }

    /// Formats one prepared line with a line break: as `writeln`.
    pub fn fmtln(&mut self, text: &str)
        ensures
            final(self).buffer@ == old(self).buffer@ + spec_repeat(
                old(self).indent_type@,
                old(self).indentation_level as nat,
            ) + text@ + "\n"@,
            final(self).indentation_level == old(self).indentation_level,
            final(self).indent_type == old(self).indent_type,
    {
        self.writeln(text);
    }

    /// Opens a block: writes the opening brace at the current level, then
    /// deepens the indent. Refused past the nesting limit.
    pub fn indent(&mut self) -> (r: Result<(), SourceWriterError>)
        ensures
            match r {
                Ok(_) => {
                    &&& old(self).indentation_level < INDENT_LIMIT
                    &&& final(self).indentation_level == old(self).indentation_level + 1
                    &&& final(self).buffer@ == old(self).buffer@ + spec_repeat(
                        old(self).indent_type@,
                        old(self).indentation_level as nat,
                    ) + "{"@ + "\n"@
                    &&& final(self).indent_type == old(self).indent_type
                },
                Err(_) => old(self).indentation_level >= INDENT_LIMIT && *final(self) == *old(
                    self,
                ),
            },
    {
        if self.indentation_level >= INDENT_LIMIT {
            Err(SourceWriterError("SourceWriter exceeded indentation limit".to_owned()))
        } else {
            self.writeln("{");
            self.indentation_level = self.indentation_level + 1;
            Ok(())
        }
    }

    /// Closes a block: shallows the indent, then writes the closing brace
    /// at the new level. Refused at depth zero.
    pub fn unindent(&mut self) -> (r: Result<(), SourceWriterError>)
        ensures
            match r {
                Ok(_) => {
                    &&& old(self).indentation_level > 0
                    &&& final(self).indentation_level == old(self).indentation_level - 1
                    &&& final(self).buffer@ == old(self).buffer@ + spec_repeat(
                        old(self).indent_type@,
                        (old(self).indentation_level - 1) as nat,
                    ) + "}"@ + "\n"@
                    &&& final(self).indent_type == old(self).indent_type
                },
                Err(_) => old(self).indentation_level == 0 && *final(self) == *old(self),
            },
    {
        if self.indentation_level == 0 {
            Err(SourceWriterError("Can't unindent SourceWriter, already at zero".to_owned()))
        } else {
            self.indentation_level = self.indentation_level - 1;
            self.writeln("}");
            Ok(())
        }
    }

    /// Yields the accumulated text.
    pub fn submit(self) -> (r: String)
        ensures
            r == self.buffer,
    {
        self.buffer
    }
}

} // verus!
