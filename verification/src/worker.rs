//! The requests that a worker serves, the responses it sends back, and how a
//! worker decides what to do next.

use vstd::arithmetic::div_mod::lemma_fundamental_div_mod;
use vstd::prelude::*;

verus! {

/// Represents a request that is sent to the worker for processing.
///
/// The worker should compute `x! / y`
#[derive(Debug, Copy, Clone, PartialEq, Eq, Hash, Structural)]
pub struct Request {
    /// The value whose factorial should be computed.
    pub x: usize,
    /// The divisor of the operation.
    pub y: usize,
}

/// Represents a unit of work completed by the worker.
#[derive(Debug, Copy, Clone, PartialEq, Eq, Hash, Structural)]
pub struct Response {
    /// The value whose factorial should be computed.
    pub x: usize,
    /// The divisor of the operation.
    pub y: usize,
    /// The final result of the `x! / y` operation.
    pub result: usize,
}

/// `n!`
pub open spec fn factorial(n: nat) -> nat
    decreases n,
{
    if n == 0 {
        1
    } else {
        n * factorial((n - 1) as nat)
    }
}

/// A request can be answered when its divisor is not zero and `x!` fits in
/// a `usize`.
pub open spec fn answerable(request: Request) -> bool {
    &&& request.y != 0
    &&& factorial(request.x as nat) <= usize::MAX
}

/// The response owed to a request: it echoes `x` and `y` and carries `x! / y`.
pub open spec fn response_to(request: Request) -> Response {
    Response {
        x: request.x,
        y: request.y,
        result: (factorial(request.x as nat) / (request.y as nat)) as usize,
    }
}

/// `n!` is at least 1.
pub proof fn lemma_factorial_positive(n: nat)
    ensures
        factorial(n) >= 1,
    decreases n,
{
    if n > 0 {
        lemma_factorial_positive((n - 1) as nat);
        assert(n * factorial((n - 1) as nat) >= 1) by (nonlinear_arith)
            requires
                n >= 1,
                factorial((n - 1) as nat) >= 1,
        ;
    }
}

/// `n!` never decreases as `n` grows.
pub proof fn lemma_factorial_monotonic(m: nat, n: nat)
    requires
        m <= n,
    ensures
        factorial(m) <= factorial(n),
    decreases n - m,
{
    if m < n {
        lemma_factorial_monotonic(m, (n - 1) as nat);
        lemma_factorial_positive((n - 1) as nat);
        assert(factorial((n - 1) as nat) <= n * factorial((n - 1) as nat)) by (nonlinear_arith)
            requires
                n >= 1,
                factorial((n - 1) as nat) >= 1,
        ;
    }
}

/// `(n + 1)! == n! * (n + 1)`, written in the order in which a loop
/// multiplies.
pub proof fn lemma_factorial_step(n: nat)
    ensures
        factorial(n + 1) == factorial(n) * (n + 1),
{
    assert(factorial(n + 1) == (n + 1) * factorial(n));
    assert((n + 1) * factorial(n) == factorial(n) * (n + 1)) by (nonlinear_arith);
}

/// Computes `x! / y` using a provided `Request`.
///
/// The divisor must not be 0, and `x!` must fit in a `usize`.
pub fn compute_response(request: Request) -> (response: Response)
    requires
        answerable(request),
    ensures
        response == response_to(request),
{
    let mut fac: usize = 1;
    let mut i: usize = 0;
    while i < request.x
        invariant
            i <= request.x,
            fac == factorial(i as nat),
            factorial(request.x as nat) <= usize::MAX,
        decreases request.x - i,
    {
        proof {
            lemma_factorial_step(i as nat);
            lemma_factorial_monotonic((i + 1) as nat, request.x as nat);
        }
        i = i + 1;
        fac = fac * i;
    }
    Response { x: request.x, y: request.y, result: fac / request.y }
}

/// Computes `x! / y` where it is defined: `None` when the divisor is 0 or
/// when `x!` does not fit in a `usize`.
pub fn checked_compute_response(request: Request) -> (response: Option<Response>)
    ensures
        response == (if answerable(request) {
            Some(response_to(request))
        } else {
            None::<Response>
        }),
{
    if request.y == 0 {
        return None;
    }
    let mut fac: usize = 1;
    let mut i: usize = 0;
    while i < request.x
        invariant
            i <= request.x,
            fac == factorial(i as nat),
        decreases request.x - i,
    {
        proof {
            lemma_factorial_step(i as nat);
        }
        i = i + 1;
        match fac.checked_mul(i) {
            Some(next) => {
                fac = next;
            },
            None => {
                proof {
                    lemma_factorial_monotonic(i as nat, request.x as nat);
                }
                return None;
            },
        }
    }
    Some(Response { x: request.x, y: request.y, result: fac / request.y })
}

/// What a serving worker learns from its channels.
#[derive(Debug, Copy, Clone, PartialEq, Eq, Structural)]
pub enum ServeEvent {
    /// A request came in.
    Received(Request),
    /// The request channel is closed and empty.
    Closed,
    /// The last response was handed to the response channel.
    Delivered,
    /// The response channel refused the last response: nobody listens.
    Undelivered,
}

/// What a serving worker does next.
#[derive(Debug, Copy, Clone, PartialEq, Eq, Structural)]
pub enum ServeAction {
    /// Wait for the next request.
    Receive,
    /// Send this response back.
    Reply(Response),
    /// Stop serving.
    Finish,
}

/// The decision of a worker that serves requests one at a time: answer each
/// request that comes in, go on while responses are delivered, and stop when
/// the requests run out or the responses can no longer be delivered.
pub open spec fn serve_action(event: ServeEvent) -> ServeAction {
    match event {
        ServeEvent::Received(request) => ServeAction::Reply(response_to(request)),
        ServeEvent::Delivered => ServeAction::Receive,
        ServeEvent::Closed => ServeAction::Finish,
        ServeEvent::Undelivered => ServeAction::Finish,
    }
}

/// One decision of a worker that serves requests one at a time.
pub fn serve_step(event: ServeEvent) -> (action: ServeAction)
    requires
        event matches ServeEvent::Received(request) ==> answerable(request),
    ensures
        action == serve_action(event),
{
    match event {
        ServeEvent::Received(request) => ServeAction::Reply(compute_response(request)),
        ServeEvent::Delivered => ServeAction::Receive,
        ServeEvent::Closed => ServeAction::Finish,
        ServeEvent::Undelivered => ServeAction::Finish,
    }
}

/// The response owed to an answerable request echoes its `x` and `y` and
/// carries `x! / y` rounded down: the largest number whose product with `y`
/// does not exceed `x!`.
pub proof fn lemma_response_is_rounded_quotient(request: Request)
    requires
        answerable(request),
    ensures
        response_to(request).x == request.x,
        response_to(request).y == request.y,
        response_to(request).result * request.y <= factorial(request.x as nat),
        factorial(request.x as nat) < (response_to(request).result + 1) * request.y,
{
    let f = factorial(request.x as nat) as int;
    let y = request.y as int;
    lemma_fundamental_div_mod(f, y);
    let q = f / y;
    let r = f % y;
    assert(0 <= q <= f) by (nonlinear_arith)
        requires
            f == y * q + r,
            0 <= r < y,
            y >= 1,
            f >= 0,
    ;
    assert(q * y <= f < (q + 1) * y) by (nonlinear_arith)
        requires
            f == y * q + r,
            0 <= r < y,
    ;
}

/// A serving worker answers every answerable request it receives with a
/// reply that echoes the request's `x` and `y` and carries `x! / y` rounded
/// down.
pub proof fn lemma_serve_replies_with_quotient(request: Request)
    requires
        answerable(request),
    ensures
        serve_action(ServeEvent::Received(request)) matches ServeAction::Reply(response) && {
            &&& response.x == request.x
            &&& response.y == request.y
            &&& response.result * request.y <= factorial(request.x as nat)
            &&& factorial(request.x as nat) < (response.result + 1) * request.y
        },
{
    lemma_response_is_rounded_quotient(request);
}

} // verus!
