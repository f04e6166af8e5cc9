//! The pipes of a spawned peer.
//!
//! A peer is spawned with two of its standard streams piped: its input, and
//! its output or its error stream. The channel to it reads from the second and
//! writes to the first. A spawn that comes back without a pipe that was asked
//! for is an error of its own kind.

use vstd::prelude::*;

verus! {

/// A standard stream of a spawned process.
#[derive(Debug, Clone, Copy, PartialEq, Eq, Structural)]
pub enum Pipe {
    Stdin,
    Stdout,
    Stderr,
}

/// The error of a spawned process that lacks the pipe named.
#[derive(Debug, Clone, Copy, PartialEq, Eq, Structural)]
pub struct MissingPipe {
    pub pipe: Pipe,
}

/// The text that reports `pipe` as missing.
pub open spec fn missing_text(pipe: Pipe) -> Seq<char> {
    match pipe {
        Pipe::Stdin => "spawned process stdin pipe is missing"@,
        Pipe::Stdout => "spawned process stdout pipe is missing"@,
        Pipe::Stderr => "spawned process stderr pipe is missing"@,
    }
}

/// What pairing an input pipe with the output pipe `which` gives: the input
/// pipe is looked for first, and the pair is the output pipe, to read from,
/// then the input pipe, to write to.
pub open spec fn paired<I, O>(input: Option<I>, output: Option<O>, which: Pipe) -> Result<
    (O, I),
    MissingPipe,
> {
    match (input, output) {
        (None, _) => Err(MissingPipe { pipe: Pipe::Stdin }),
        (Some(_), None) => Err(MissingPipe { pipe: which }),
        (Some(writer), Some(reader)) => Ok((reader, writer)),
    }
}

impl MissingPipe {
    /// The text of the error.
    pub fn message(&self) -> (text: &'static str)
        ensures
            text@ == missing_text(self.pipe),
    {
        match self.pipe {
            Pipe::Stdin => "spawned process stdin pipe is missing",
            Pipe::Stdout => "spawned process stdout pipe is missing",
            Pipe::Stderr => "spawned process stderr pipe is missing",
        }
    }
}

/// Pairs the input and output pipes of a spawned process.
pub fn stdio_pipes<I, O>(
    stdin: Option<I>,
    stdout: Option<O>,
) -> (pipes: Result<(O, I), MissingPipe>)
    ensures
        pipes == paired(stdin, stdout, Pipe::Stdout),
{
    match stdin {
        Some(writer) => match stdout {
            Some(reader) => Ok((reader, writer)),
            None => Err(MissingPipe { pipe: Pipe::Stdout }),
        },
        None => Err(MissingPipe { pipe: Pipe::Stdin }),
    }
}

/// Pairs the input and error pipes of a spawned process.
pub fn stdie_pipes<I, E>(
    stdin: Option<I>,
    stderr: Option<E>,
) -> (pipes: Result<(E, I), MissingPipe>)
    ensures
        pipes == paired(stdin, stderr, Pipe::Stderr),
{
    match stdin {
        Some(writer) => match stderr {
            Some(reader) => Ok((reader, writer)),
            None => Err(MissingPipe { pipe: Pipe::Stderr }),
        },
        None => Err(MissingPipe { pipe: Pipe::Stdin }),
    }
}

} // verus!
