//! The execution context: the root of the cancellation hierarchy.

use tokio_util::sync::CancellationToken;
use vstd::prelude::*;

verus! {

#[verifier::external_type_specification]
#[verifier::external_body]
pub struct ExCancellationToken(tokio_util::sync::CancellationToken);

/// `CancellationToken::new`: a fresh root token in the non-cancelled state.
/// Whether a token is cancelled is shared, interior state that any holder of a
/// clone or of an ancestor may change, so nothing is claimed of the result.
#[verifier::external_body]
fn new_root_token() -> (token: CancellationToken) {
    CancellationToken::new()
}

/// `CancellationToken::clone`: another handle on the same node of the
/// cancellation tree. Two tokens are equal where they are handles on one
/// node, so that cancelling either cancels the other; the clone is claimed to
/// be equal to `token` in that sense, which is the token's own `==`.
#[verifier::external_body]
fn same_token(token: &CancellationToken) -> (handle: CancellationToken)
    ensures
        handle == *token,
{
    token.clone()
}

/// `CancellationToken::child_token`: a new node below `token`, cancelled
/// whenever `token` is. The child is claimed to be another node than
/// `token`: cancelling it does not cancel `token`.
#[verifier::external_body]
fn derive_child_token(token: &CancellationToken) -> (child: CancellationToken)
    ensures
        child != *token,
{
    token.child_token()
}

/// `CancellationToken::cancel`: cancels the node and every node derived from
/// it. The effect is on shared interior state, which no clause can reach.
#[verifier::external_body]
fn cancel_token(token: &CancellationToken) {
    token.cancel()
}

/// The execution context that every other part of the runtime borrows.
///
/// It owns the root of the cancellation tree. Every derived component receives
/// a child of that root, so that cancelling the root reaches all of them while
/// cancelling a child reaches nothing above it.
pub struct Runtime {
    cancellation_token: CancellationToken,
}

impl Runtime {
    /// The root of the context's cancellation tree.
    pub closed spec fn root(&self) -> CancellationToken {
        self.cancellation_token
    }

    /// A context with a fresh, non-cancelled root token. The token is made
    /// outside and handed to [`Runtime::from_token`], which says what the
    /// context is for each token; of the token itself nothing can be said
    /// here, for what tells one token from another is its place in the tree
    /// and whether it is cancelled, and both are shared state behind it.
    pub fn new() -> (runtime: Runtime) {
        Runtime::from_token(new_root_token())
    }

    /// A context rooted at `token`.
    pub fn from_token(token: CancellationToken) -> (runtime: Runtime)
        ensures
            runtime.root() == token,
    {
        Runtime { cancellation_token: token }
    }

    /// A handle on the root token itself.
    pub fn primary_token(&self) -> (token: CancellationToken)
        ensures
            token == self.root(),
    {
        same_token(&self.cancellation_token)
    }

    /// A new token one level below the root: cancelled with the root, and
    /// cancelled alone without the root.
    pub fn child_token(&self) -> (token: CancellationToken)
        ensures
            token != self.root(),
    {
        derive_child_token(&self.cancellation_token)
    }

    /// Cancels the root token, and with it every token derived from it.
    pub fn shutdown(&self) {
        cancel_token(&self.cancellation_token)
    }

    /// Another handle on the same context: it shares the root token.
    pub fn share(&self) -> (runtime: Runtime)
        ensures
            runtime.root() == self.root(),
    {
        Runtime { cancellation_token: same_token(&self.cancellation_token) }
    }
}

} // verus!
