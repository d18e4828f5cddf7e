use vstd::prelude::*;
use vstd::string::*;

verus! {

/// Why a request produced no payload.
#[derive(Debug, Clone, PartialEq, Eq)]
pub enum FetchError {
    /// The transport failed before any response arrived.
    Network { reason: String },
    /// The server answered with a status outside 200..=299.
    HttpStatus { status: u16 },
    /// A body arrived but did not decode into the expected record.
    Decode { reason: String },
}

/// The character of a decimal digit.
pub open spec fn digit_char(d: nat) -> char
    recommends
        d < 10,
{
    seq!['0', '1', '2', '3', '4', '5', '6', '7', '8', '9'][d as int]
}

/// The decimal notation of `n`, without leading zeros.
pub open spec fn decimal(n: nat) -> Seq<char>
    decreases n,
{
    if n < 10 {
        seq![digit_char(n)]
    } else {
        decimal(n / 10).push(digit_char(n % 10))
    }
}

fn digit_str(d: u16) -> (r: &'static str)
    requires
        d < 10,
    ensures
        r@ == seq![digit_char(d as nat)],
{
    proof {
        reveal_strlit("0");
        reveal_strlit("1");
        reveal_strlit("2");
        reveal_strlit("3");
        reveal_strlit("4");
        reveal_strlit("5");
        reveal_strlit("6");
        reveal_strlit("7");
        reveal_strlit("8");
        reveal_strlit("9");
    }
    let r = match d {
        0 => "0",
        1 => "1",
        2 => "2",
        3 => "3",
        4 => "4",
        5 => "5",
        6 => "6",
        7 => "7",
        8 => "8",
        _ => "9",
    };
    assert(r@ =~= seq![digit_char(d as nat)]);
    r
}

fn push_decimal(s: &mut String, n: u16)
    ensures
        final(s)@ == old(s)@ + decimal(n as nat),
    decreases n,
{
    if n >= 10 {
        push_decimal(s, n / 10);
    }
    let d = digit_str(n % 10);
    s.append(d);
    assert(final(s)@ =~= old(s)@ + decimal(n as nat));
}

impl FetchError {
    /// The text shown to the user for this failure.
    pub open spec fn message_spec(&self) -> Seq<char> {
        match self {
            FetchError::Network { reason } => "network error: "@ + reason@,
            FetchError::HttpStatus { status } => "server returned status "@ + decimal(*status as nat),
            FetchError::Decode { reason } => "could not decode response: "@ + reason@,
        }
    }

    pub fn message(&self) -> (r: String)
        ensures
            r@ == self.message_spec(),
    {
        match self {
            FetchError::Network { reason } => {
                let mut s = String::from_str("network error: ");
                s.append(reason.as_str());
                s
            },
            FetchError::HttpStatus { status } => {
                let mut s = String::from_str("server returned status ");
                push_decimal(&mut s, *status);
                s
            },
            FetchError::Decode { reason } => {
                let mut s = String::from_str("could not decode response: ");
                s.append(reason.as_str());
                s
            },
        }
    }
}

} // verus!

verus! {

/// The state of one fetch: exactly one variant holds at any time.
#[derive(Debug, Clone, PartialEq, Eq)]
pub enum FetchState<T> {
    /// No request has been issued yet, or the last one was cancelled.
    Idle,
    /// One request is outstanding, identified by `token`.
    Loading { token: u64 },
    /// The last accepted payload.
    Success { value: T },
    /// The last request failed or its body did not decode.
    Error { message: String },
}

/// Owns the state of one fetch and the counter of issued request tokens.
#[derive(Debug, Clone, PartialEq, Eq)]
pub struct Fetcher<T> {
    pub state: FetchState<T>,
    /// The token of the most recently issued request; zero before the first.
    pub last_token: u64,
}

impl<T> Fetcher<T> {
    /// An outstanding request is always the most recently issued one.
    pub open spec fn wf(&self) -> bool {
        match self.state {
            FetchState::Loading { token } => token == self.last_token && token > 0,
            _ => true,
        }
    }

    /// `next` is `self` after issuing the request `token`.
    pub open spec fn started(&self, token: u64, next: &Self) -> bool {
        &&& token == self.last_token + 1
        &&& next.last_token == token
        &&& next.state == FetchState::<T>::Loading { token }
    }

    /// `next` is `self` after the completion of request `token` with `result`.
    pub open spec fn responded(&self, token: u64, result: Result<T, FetchError>, next: &Self) -> bool {
        if self.state == (FetchState::<T>::Loading { token }) {
            &&& next.last_token == self.last_token
            &&& match result {
                Ok(v) => next.state == FetchState::<T>::Success { value: v },
                Err(e) => next.state is Error && next.state->message@ == e.message_spec(),
            }
        } else {
            *next == *self
        }
    }

    /// `next` is `self` after a cancellation.
    pub open spec fn cancelled(&self, next: &Self) -> bool {
        if self.state is Loading {
            next.last_token == self.last_token && next.state is Idle
        } else {
            *next == *self
        }
    }

    pub fn new() -> (r: Self)
        ensures
            r.wf(),
            r.state is Idle,
            r.last_token == 0,
    {
        Fetcher { state: FetchState::Idle, last_token: 0 }
    }

    /// The token of the outstanding request, if any.
    pub fn outstanding(&self) -> (r: Option<u64>)
        ensures
            r == (match self.state {
                FetchState::Loading { token } => Some(token),
                _ => None,
            }),
    {
        match self.state {
            FetchState::Loading { token } => Some(token),
            _ => None,
        }
    }

    pub fn is_loading(&self) -> (r: bool)
        ensures
            r == self.state is Loading,
    {
        match self.state {
            FetchState::Loading { .. } => true,
            _ => false,
        }
    }

    /// Issues a new request: returns its token, which is greater than every
    /// token issued before, and supersedes any outstanding request.
    pub fn start_fetch(&mut self) -> (token: u64)
        requires
            old(self).last_token < u64::MAX,
        ensures
            old(self).started(token, final(self)),
            old(self).wf() ==> final(self).wf(),
    {
        let token = self.last_token + 1;
        self.last_token = token;
        self.state = FetchState::Loading { token };
        token
    }

    /// Applies the completion of request `token`; a completion for any other
    /// request than the outstanding one changes nothing. Returns whether the
    /// state changed.
    pub fn on_response(&mut self, token: u64, result: Result<T, FetchError>) -> (changed: bool)
        ensures
            old(self).responded(token, result, final(self)),
            changed == (old(self).state == (FetchState::<T>::Loading { token })),
            old(self).wf() ==> final(self).wf(),
    {
        let current = match self.state {
            FetchState::Loading { token: t } => t == token,
            _ => false,
        };
        if !current {
            return false;
        }
        match result {
            Ok(v) => {
                self.state = FetchState::Success { value: v };
            },
            Err(e) => {
                let message = e.message();
                self.state = FetchState::Error { message };
            },
        }
        true
    }

    /// Drops the outstanding request, if any, so that its completion can no
    /// longer change the state. Returns whether a request was outstanding.
    pub fn cancel(&mut self) -> (changed: bool)
        ensures
            old(self).cancelled(final(self)),
            changed == old(self).state is Loading,
            old(self).wf() ==> final(self).wf(),
    {
        if self.is_loading() {
            self.state = FetchState::Idle;
            true
        } else {
            false
        }
    }
}

} // verus!

verus! {

/// A fetch is in exactly one of its four states at any time.
pub proof fn lemma_exactly_one_state<T>(s: FetchState<T>)
    ensures
        (s is Idle) as int + (s is Loading) as int + (s is Success) as int + (s is Error) as int
            == 1,
{
}

/// Once a later request has been issued, the completion of any earlier
/// request leaves the state as it is, whatever it carries: only the most
/// recently issued token can change the state.
pub proof fn lemma_stale_response_ignored<T>(
    f: Fetcher<T>,
    token: u64,
    result: Result<T, FetchError>,
    next: Fetcher<T>,
)
    requires
        f.wf(),
        token < f.last_token,
        f.responded(token, result, &next),
    ensures
        next == f,
{
}

/// Tokens are issued in increasing order, so of two requests issued one
/// after the other, the completion of the first is ignored.
pub proof fn lemma_superseded_response_ignored<T>(
    a: Fetcher<T>,
    first: u64,
    b: Fetcher<T>,
    second: u64,
    c: Fetcher<T>,
    result: Result<T, FetchError>,
    d: Fetcher<T>,
)
    requires
        a.started(first, &b),
        b.started(second, &c),
        c.responded(first, result, &d),
    ensures
        first < second,
        d == c,
        d.state == (FetchState::<T>::Loading { token: second }),
{
}

/// Handling the completion of one request a second time has no effect
/// beyond the first.
pub proof fn lemma_response_idempotent<T>(
    a: Fetcher<T>,
    token: u64,
    first: Result<T, FetchError>,
    b: Fetcher<T>,
    second: Result<T, FetchError>,
    c: Fetcher<T>,
)
    requires
        a.responded(token, first, &b),
        b.responded(token, second, &c),
    ensures
        c == b,
{
}

/// Cancelling while no request is outstanding changes nothing.
pub proof fn lemma_cancel_idle_noop<T>(a: Fetcher<T>, b: Fetcher<T>)
    requires
        !(a.state is Loading),
        a.cancelled(&b),
    ensures
        b == a,
{
}

/// After a cancellation no completion can change the state.
pub proof fn lemma_no_change_after_cancel<T>(
    a: Fetcher<T>,
    b: Fetcher<T>,
    token: u64,
    result: Result<T, FetchError>,
    c: Fetcher<T>,
)
    requires
        a.cancelled(&b),
        b.responded(token, result, &c),
    ensures
        c == b,
{
}

/// A status error and a decoding error are never reported with the same text.
pub proof fn lemma_status_and_decode_messages_differ(status: u16, reason: String)
    ensures
        (FetchError::HttpStatus { status }).message_spec()
            != (FetchError::Decode { reason }).message_spec(),
{
    reveal_strlit("server returned status ");
    reveal_strlit("could not decode response: ");
    let a = (FetchError::HttpStatus { status }).message_spec();
    let b = (FetchError::Decode { reason }).message_spec();
    assert(a[0] == 's');
    assert(b[0] == 'c');
}

} // verus!

verus! {

/// Whether `status` is a success status (200..=299).
pub open spec fn is_success_status(status: u16) -> bool {
    200 <= status <= 299
}

/// The outcome of a completed request: a non-success status is an error
/// whatever the body held; otherwise the outcome of decoding the body.
pub open spec fn classified<T>(status: u16, decoded: Result<T, String>, r: Result<T, FetchError>) -> bool {
    if !is_success_status(status) {
        r == Err::<T, FetchError>(FetchError::HttpStatus { status })
    } else {
        match decoded {
            Ok(v) => r == Ok::<T, FetchError>(v),
            Err(reason) => r is Err && r->Err_0 is Decode && r->Err_0->Decode_reason@ == reason@,
        }
    }
}

/// Turns the status of a response and the result of decoding its body into
/// the outcome that the fetch state receives.
pub fn classify_response<T>(status: u16, decoded: Result<T, String>) -> (r: Result<T, FetchError>)
    ensures
        classified(status, decoded, r),
{
    if status < 200 || status > 299 {
        return Err(FetchError::HttpStatus { status });
    }
    match decoded {
        Ok(v) => Ok(v),
        Err(reason) => Err(FetchError::Decode { reason }),
    }
}

} // verus!
