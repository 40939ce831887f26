//! What becomes of a client when its request has been answered.

use vstd::prelude::*;
use crate::timing::CONNECTION_ERROR_DELAY;
use crate::types::MaybeConnectionError;

verus! {

/// A request that has failed.
pub enum Failure<TClient, TError> {
    /// The client is available again at once.
    Failed(TError),
    /// The connection is lost: the client rests for `delay` nanoseconds, and only
    /// then is it available again.
    GoOffline {
        /// The client that rests.
        client: TClient,
        /// How long it rests, in nanoseconds.
        delay: u128,
        /// What the request has failed with.
        error: TError,
    },
}

/// The failure of `client`, and who is available after it, once it is known
/// whether the connection has caused the `error`.
pub open spec fn failed<TClient, TError>(
    maybe_client: Option<TClient>,
    client: TClient,
    error: TError,
    connection_error: bool,
) -> (Option<TClient>, Failure<TClient, TError>) {
    if connection_error {
        (maybe_client, Failure::GoOffline { client, delay: CONNECTION_ERROR_DELAY, error })
    } else {
        (Some(client), Failure::Failed(error))
    }
}

/// `failure` is what is left to deal with once `client` has come back with `result`,
/// and `after` is the client that is available from then on (`before`: until then).
pub open spec fn processed<TClient, TResult, TError: MaybeConnectionError>(
    before: Option<TClient>,
    client: TClient,
    result: Result<TResult, TError>,
    after: Option<TClient>,
    failure: Option<Failure<TClient, TError>>,
) -> bool {
    match result {
        Ok(_) => after == Some(client) && failure is None,
        Err(error) => exists|connection_error: bool|
            {
                &&& #[trigger] call_ensures(
                    TError::is_connection_error,
                    (&error,),
                    connection_error,
                )
                &&& after == failed(before, client, error, connection_error).0
                &&& failure == Some(failed(before, client, error, connection_error).1)
            },
    }
}

/// Decides where a client goes whose request has failed.
pub fn process_failure<TClient, TError>(
    maybe_client: &mut Option<TClient>,
    client: TClient,
    error: TError,
    connection_error: bool,
) -> (failure: Failure<TClient, TError>)
    ensures
        (*final(maybe_client), failure) == failed(
            *old(maybe_client),
            client,
            error,
            connection_error,
        ),
{
    if connection_error {
        Failure::GoOffline { client, delay: CONNECTION_ERROR_DELAY, error }
    } else {
        *maybe_client = Some(client);
        Failure::Failed(error)
    }
}

/// Process result of the future that may have been caused by connection failure.
///
/// A client that brings an answer is available again, and the answer is handed
/// on. One that brings an error is available again too, unless its connection is
/// lost.
pub fn process_future_result<TClient, TResult, TError: MaybeConnectionError>(
    maybe_client: &mut Option<TClient>,
    client: TClient,
    result: Result<TResult, TError>,
) -> (outcome: Result<TResult, Failure<TClient, TError>>)
    ensures
        processed(*old(maybe_client), client, result, *final(maybe_client), outcome.err()),
        result matches Ok(value) ==> outcome == Ok::<_, Failure<TClient, TError>>(value),
{
    match result {
        Ok(value) => {
            *maybe_client = Some(client);
            Ok(value)
        },
        Err(error) => {
            let connection_error = error.is_connection_error();
            Err(process_failure(maybe_client, client, error, connection_error))
        },
    }
}

} // verus!
