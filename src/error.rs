use vstd::prelude::*;

verus! {

/// Why one request/decode round trip produced no body.
#[derive(Debug, Clone)]
pub enum FetchFailure {
    /// The request could not be sent or no response came back (network,
    /// DNS or TLS failure); carries the underlying description.
    Transport(String),
    /// A response came back but its body did not have the expected shape
    /// (missing field, wrong primitive type); carries the decoder's message.
    Decode(String),
}

/// The errors that the resource operations report to their callers.
#[derive(Debug, Clone)]
pub enum SteamError {
    /// The remote service could not be reached.
    Unreachable(String),
    /// The remote service answered with a body of an unexpected shape.
    InvalidResponse(String),
    /// A named lookup legitimately has no result.
    NotFound(String),
    /// The player's achievement record and the game's schema disagree.
    MergeMismatch,
}

/// The error that a failed round trip becomes.
pub open spec fn fetch_error(f: FetchFailure) -> SteamError {
    match f {
        FetchFailure::Transport(m) => SteamError::Unreachable(m),
        FetchFailure::Decode(m) => SteamError::InvalidResponse(m),
    }
}

impl FetchFailure {
    /// Maps a transport failure to `Unreachable` and a decode failure to
    /// `InvalidResponse`, keeping the message.
    pub fn into_error(self) -> (r: SteamError)
        ensures
            r == fetch_error(self),
    {
        match self {
            FetchFailure::Transport(m) => SteamError::Unreachable(m),
            FetchFailure::Decode(m) => SteamError::InvalidResponse(m),
        }
    }
}

} // verus!
