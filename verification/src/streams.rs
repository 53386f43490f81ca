//! Output stream selection: a logical choice of destination, resolved to a
//! concrete writable handle only at the trusted write calls.

use vstd::prelude::*;

verus! {

/// Simplified type for a stream. By default, `Streams::Stdout` is used.
#[derive(Copy, Clone, Debug)]
pub enum Streams {
    Stdout,
    Stderr,
}

impl Default for Streams {
    fn default() -> (r: Self)
        ensures
            r == Streams::Stdout,
    {
        Streams::Stdout
    }
}

/// Relies on `std::io::Write::write_all` on the standard output: writes the
/// bytes; a failed write is fatal, as a broken stream defeats the library's
/// purpose.
#[verifier::external_body]
fn stdout_write_all(bytes: &[u8]) {
    std::io::Write::write_all(&mut std::io::stdout(), bytes)
        .expect("error: failed to write to stream");
}

/// Relies on `std::io::Write::write_all` on the standard error: writes the
/// bytes; a failed write is fatal, as a broken stream defeats the library's
/// purpose.
#[verifier::external_body]
fn stderr_write_all(bytes: &[u8]) {
    std::io::Write::write_all(&mut std::io::stderr(), bytes)
        .expect("error: failed to write to stream");
}

/// Relies on `std::io::Write::flush` on the standard output: forces the
/// written bytes out; a failed flush is fatal.
#[verifier::external_body]
fn stdout_flush() {
    std::io::Write::flush(&mut std::io::stdout()).expect("error: failed to flush stream");
}

/// Relies on `std::io::Write::flush` on the standard error: forces the
/// written bytes out; a failed flush is fatal.
#[verifier::external_body]
fn stderr_flush() {
    std::io::Write::flush(&mut std::io::stderr()).expect("error: failed to flush stream");
}

impl Streams {
    /// Writes raw bytes to the selected stream.
    pub fn write_bytes(self, bytes: &[u8]) {
        match self {
            Streams::Stdout => stdout_write_all(bytes),
            Streams::Stderr => stderr_write_all(bytes),
        }
    }

    /// Writes a piece of text to the selected stream.
    pub fn write_fmt(self, text: &str) {
        self.write_bytes(text.as_bytes());
    }

    /// Flushes the selected stream.
    pub fn flush(self) {
        match self {
            Streams::Stdout => stdout_flush(),
            Streams::Stderr => stderr_flush(),
        }
    }
}

} // verus!
