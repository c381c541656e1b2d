//! Cancellation tokens of `tokio_util`, by what may be done with them.
//!
//! Whether a token's flag is set is no part of its value, so the types say it:
//! no other way leads to a value of one of them than the functions here, and no
//! verified code outside this file can set a flag but by giving up the
//! [`RunToken`] that goes with it.

use tokio_util::sync::CancellationToken;
use vstd::prelude::*;

verus! {

/// `tokio_util::sync::CancellationToken`: a handle to a cancellation flag that
/// its clones share. To the verifier a token's value is the flag it stands for,
/// not whether that flag is set.
#[verifier::external_type_specification]
#[verifier::external_body]
pub struct ExCancellationToken(CancellationToken);

/// A new token with its flag unset and no other handle to it. Only
/// [`fresh_token`] makes one.
#[derive(Debug)]
pub struct FreshToken {
    token: CancellationToken,
}

/// The handle by which the manager cancels a run. It cannot be copied, and
/// cancelling uses it up: while it is there, the manager has not cancelled the
/// run. Only [`share_token`] makes one.
#[derive(Debug)]
pub struct RunToken {
    token: CancellationToken,
}

/// The handle by which a service learns that its run was cancelled. Only
/// [`share_token`] makes one.
#[derive(Debug)]
pub struct ShutdownToken {
    token: CancellationToken,
}

/// A token that has been cancelled. Only [`cancel_token`] makes one.
#[derive(Debug)]
pub struct CancelledToken {
    token: CancellationToken,
}

impl FreshToken {
    /// The token.
    pub closed spec fn token(self) -> CancellationToken {
        self.token
    }

    /// Gives the token away, to be used as any other.
    pub fn into_token(self) -> (token: CancellationToken)
        ensures
            token == self.token(),
    {
        self.token
    }
}

impl RunToken {
    /// The token.
    pub closed spec fn token(self) -> CancellationToken {
        self.token
    }
}

impl ShutdownToken {
    /// The token.
    pub closed spec fn token(self) -> CancellationToken {
        self.token
    }

    /// Gives the token away, to be waited for.
    pub fn into_token(self) -> (token: CancellationToken)
        ensures
            token == self.token(),
    {
        self.token
    }
}

impl CancelledToken {
    /// The token that was cancelled.
    pub closed spec fn token(self) -> CancellationToken {
        self.token
    }

    /// The token that was cancelled.
    pub fn get(&self) -> (token: &CancellationToken)
        ensures
            *token == self.token(),
    {
        &self.token
    }
}

/// `CancellationToken::new` makes a token whose flag is not set. That is said
/// by the type of what comes back: whether a flag is set is no part of a
/// token's value, so no clause can speak of it.
#[verifier::external_body]
pub(crate) fn fresh_token() -> (fresh: FreshToken) {
    FreshToken { token: CancellationToken::new() }
}

/// `CancellationToken::clone` gives a second handle to the same flag:
/// cancelling one cancels the other. The two handles that come back stand for
/// the flag of the token that was given, and there is no third.
#[verifier::external_body]
pub(crate) fn share_token(fresh: FreshToken) -> (handles: (RunToken, ShutdownToken))
    ensures
        handles.0.token() == fresh.token(),
        handles.1.token() == fresh.token(),
{
    let twin = fresh.token.clone();
    (RunToken { token: fresh.token }, ShutdownToken { token: twin })
}

/// `CancellationToken::cancel` sets the token's flag, for its clones as well,
/// and wakes the tasks that wait for it. What comes back holds the token that
/// was given. That the flag is set is said by the type of what comes back:
/// whether it is set is no part of a token's value.
#[verifier::external_body]
pub(crate) fn cancel_token(run: RunToken) -> (cancelled: CancelledToken)
    ensures
        cancelled.token() == run.token(),
{
    run.token.cancel();
    CancelledToken { token: run.token }
}

} // verus!
