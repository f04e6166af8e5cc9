use ioserverlib::client::{stdie_pipes, stdio_pipes, MissingPipe, Pipe};

#[test]
fn stdio_pipes_gives_reader_then_writer() {
    assert_eq!(stdio_pipes(Some("in"), Some(7u8)), Ok((7u8, "in")));
}

#[test]
fn stdio_pipes_misses_stdin_first() {
    assert_eq!(
        stdio_pipes(None::<u8>, None::<u8>),
        Err(MissingPipe { pipe: Pipe::Stdin })
    );
    assert_eq!(
        stdio_pipes(None::<u8>, Some(1u8)),
        Err(MissingPipe { pipe: Pipe::Stdin })
    );
}

#[test]
fn stdio_pipes_misses_stdout() {
    assert_eq!(
        stdio_pipes(Some(1u8), None::<u8>),
        Err(MissingPipe { pipe: Pipe::Stdout })
    );
}

#[test]
fn stdie_pipes_gives_reader_then_writer() {
    assert_eq!(stdie_pipes(Some("in"), Some(7u8)), Ok((7u8, "in")));
}

#[test]
fn stdie_pipes_misses_stdin_first() {
    assert_eq!(
        stdie_pipes(None::<u8>, None::<u8>),
        Err(MissingPipe { pipe: Pipe::Stdin })
    );
}

#[test]
fn stdie_pipes_misses_stderr() {
    assert_eq!(
        stdie_pipes(Some(1u8), None::<u8>),
        Err(MissingPipe { pipe: Pipe::Stderr })
    );
}

#[test]
fn missing_pipe_messages() {
    assert_eq!(
        MissingPipe { pipe: Pipe::Stdin }.message(),
        "spawned process stdin pipe is missing"
    );
    assert_eq!(
        MissingPipe { pipe: Pipe::Stdout }.message(),
        "spawned process stdout pipe is missing"
    );
    assert_eq!(
        MissingPipe { pipe: Pipe::Stderr }.message(),
        "spawned process stderr pipe is missing"
    );
}
