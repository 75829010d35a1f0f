use vstd::prelude::*;

verus! {

/// Why the age of a source file could not be told.
#[derive(Debug, Clone, Copy, PartialEq, Eq, Structural)]
pub enum ProbeError {
    /// The file is missing or cannot be opened.
    PathNotFound,
    /// The file's modification time cannot be read.
    MetadataUnavailable,
    /// The file was modified after "now".
    ClockSkew,
}

/// The age of a file modified at `modified`, seen at `now`: the time
/// between the two, or `ClockSkew` where the modification lies ahead.
pub open spec fn age_of(now: u128, modified: u128) -> Result<u128, ProbeError> {
    if modified <= now {
        Ok((now - modified) as u128)
    } else {
        Err(ProbeError::ClockSkew)
    }
}

/// The age of a file, in nanoseconds, from its modification time and the
/// time now (both in nanoseconds since the epoch). A modification time in
/// the future is reported, not clamped.
pub fn file_age(now: u128, modified: u128) -> (r: Result<u128, ProbeError>)
    ensures
        r == age_of(now, modified),
{
    if modified <= now {
        Ok(now - modified)
    } else {
        Err(ProbeError::ClockSkew)
    }
}

/// The age of a file given what reading its modification time gave: an
/// error from that read is passed on as it is.
pub fn probe_age(now: u128, modified: Result<u128, ProbeError>) -> (r: Result<u128, ProbeError>)
    ensures
        r == match modified {
            Ok(m) => age_of(now, m),
            Err(e) => Err(e),
        },
{
    match modified {
        Ok(m) => file_age(now, m),
        Err(e) => Err(e),
    }
}

} // verus!
