//! The decisions of the local OAuth callback: what the browser is told and
//! whether the captured tokens go to the waiting caller, at most once.

use vstd::prelude::*;

verus! {

/// Where the authorization server sends the browser back to.
pub const REDIRECT_URI: &'static str = "http://127.0.0.1:8888/callback";

/// The loopback port the callback listener binds.
pub const CALLBACK_PORT: u16 = 8888;

/// The one route of the callback listener.
pub const CALLBACK_PATH: &'static str = "/callback";

/// The access and refresh token of an authenticated session.
#[derive(Debug)]
pub struct Tokens {
    pub access_token: String,
    pub refresh_token: String,
}

/// What exchanging the authorization code gave.
#[derive(Debug)]
pub enum Exchange {
    /// The service refused the code.
    Failed,
    /// The exchange went through, but the client holds no token.
    Empty,
    /// The client now holds this token.
    Granted { access_token: String, refresh_token: Option<String> },
}

/// The kind of reply the browser gets.
#[derive(Clone, Copy, Debug, PartialEq, Eq, Structural)]
pub enum Reply {
    Success,
    Failure,
}

/// The single-use completion of one handshake: `pending` until the tokens
/// have been handed on.
#[derive(Debug)]
pub struct Handshake {
    pub pending: bool,
}

/// The permission scopes asked for.
pub fn auth_scopes() -> (r: Vec<&'static str>)
    ensures
        r@ == seq![
            "user-read-private",
            "user-read-email",
            "playlist-read-private",
            "playlist-read-collaborative",
            "user-library-read",
            "user-modify-playback-state",
            "user-read-currently-playing",
            "user-read-playback-state",
        ],
{
    vec![
        "user-read-private",
        "user-read-email",
        "playlist-read-private",
        "playlist-read-collaborative",
        "user-library-read",
        "user-modify-playback-state",
        "user-read-currently-playing",
        "user-read-playback-state",
    ]
}

impl Reply {
    pub open spec fn text(self) -> Seq<char> {
        match self {
            Reply::Success => "Authentication successful! You can close this window."@,
            Reply::Failure => "Failed to get token"@,
        }
    }

    /// The plain-text body of the reply.
    pub fn body(self) -> (r: &'static str)
        ensures
            r@ == self.text(),
    {
        match self {
            Reply::Success => "Authentication successful! You can close this window.",
            Reply::Failure => "Failed to get token",
        }
    }
}

/// Whether the exchange gave a complete pair of tokens.
pub open spec fn complete(e: Exchange) -> bool {
    e matches Exchange::Granted { refresh_token: Some(_), .. }
}

/// The reply the browser gets after an exchange: a failure when the code
/// was refused or the token came without a refresh token.
pub open spec fn reply_for(e: Exchange) -> Reply {
    match e {
        Exchange::Failed => Reply::Failure,
        Exchange::Empty => Reply::Success,
        Exchange::Granted { refresh_token, .. } => if refresh_token is Some {
            Reply::Success
        } else {
            Reply::Failure
        },
    }
}

impl Handshake {
    pub fn new() -> (r: Handshake)
        ensures
            r.pending,
    {
        Handshake { pending: true }
    }

    /// What one callback does: the tokens are handed on exactly when the
    /// handshake is still pending and the exchange gave a complete pair;
    /// after that the handshake is no longer pending.
    pub open spec fn callback_handled(
        self,
        new: Handshake,
        e: Exchange,
        reply: Reply,
        out: Option<Tokens>,
    ) -> bool {
        &&& reply == reply_for(e)
        &&& out.is_some() == (self.pending && complete(e))
        &&& new.pending == (self.pending && out.is_none())
        &&& (out matches Some(t) ==> e matches Exchange::Granted { access_token, refresh_token } && t.access_token
            == access_token && refresh_token == Some(t.refresh_token))
    }

    /// Handles one callback, given what exchanging its code gave.
    pub fn on_callback(&mut self, e: Exchange) -> (r: (Reply, Option<Tokens>))
        ensures
            old(self).callback_handled(*final(self), e, r.0, r.1),
    {
        match e {
            Exchange::Failed => (Reply::Failure, None),
            Exchange::Empty => (Reply::Success, None),
            Exchange::Granted { access_token, refresh_token } => match refresh_token {
                None => (Reply::Failure, None),
                Some(refresh_token) => {
                    if self.pending {
                        self.pending = false;
                        (Reply::Success, Some(Tokens { access_token, refresh_token }))
                    } else {
                        (Reply::Success, None)
                    }
                },
            },
        }
    }
}

/// A handshake hands tokens on at most once: after one callback delivered
/// them, no later callback does.
pub proof fn lemma_single_delivery(
    h0: Handshake,
    h1: Handshake,
    h2: Handshake,
    e1: Exchange,
    e2: Exchange,
    r1: Reply,
    r2: Reply,
    t1: Option<Tokens>,
    t2: Option<Tokens>,
)
    requires
        h0.callback_handled(h1, e1, r1, t1),
        h1.callback_handled(h2, e2, r2, t2),
        t1.is_some(),
    ensures
        t2.is_none(),
        !h2.pending,
{
}

/// A refused exchange delivers nothing and leaves the handshake as it was,
/// so a caller waiting on it keeps waiting.
pub proof fn lemma_refused_exchange_delivers_nothing(
    h0: Handshake,
    h1: Handshake,
    r: Reply,
    t: Option<Tokens>,
)
    requires
        h0.callback_handled(h1, Exchange::Failed, r, t),
    ensures
        t.is_none(),
        h1 == h0,
        r == Reply::Failure,
{
}

} // verus!
