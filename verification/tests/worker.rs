use parallel_workers::worker::{
    checked_compute_response, compute_response, serve_step, Request, Response, ServeAction,
    ServeEvent,
};

#[test]
fn compute_response_divides_the_factorial() {
    let response = compute_response(Request { x: 5, y: 3 });
    assert_eq!(response, Response { x: 5, y: 3, result: 40 });
}

#[test]
fn compute_response_of_zero_factorial() {
    assert_eq!(compute_response(Request { x: 0, y: 1 }).result, 1);
    assert_eq!(compute_response(Request { x: 1, y: 1 }).result, 1);
    assert_eq!(compute_response(Request { x: 0, y: 2 }).result, 0);
}

#[test]
fn compute_response_largest_generated() {
    // 11! = 39916800
    assert_eq!(compute_response(Request { x: 11, y: 1 }).result, 39916800);
    assert_eq!(compute_response(Request { x: 11, y: 7 }).result, 5702400);
    assert_eq!(compute_response(Request { x: 11, y: 999 }).result, 39956);
}

#[test]
fn compute_response_rounds_down() {
    assert_eq!(compute_response(Request { x: 4, y: 5 }).result, 4);
    assert_eq!(compute_response(Request { x: 3, y: 7 }).result, 0);
}

#[test]
fn checked_compute_response_refuses_zero_divisor() {
    assert_eq!(checked_compute_response(Request { x: 3, y: 0 }), None);
    assert_eq!(checked_compute_response(Request { x: 0, y: 0 }), None);
}

#[test]
fn checked_compute_response_refuses_overflow() {
    assert_eq!(checked_compute_response(Request { x: 25, y: 1 }), None);
    assert_eq!(checked_compute_response(Request { x: usize::MAX, y: 1 }), None);
    if usize::BITS == 64 {
        assert_eq!(
            checked_compute_response(Request { x: 20, y: 1 }),
            Some(Response { x: 20, y: 1, result: 2432902008176640000 })
        );
        assert_eq!(checked_compute_response(Request { x: 21, y: 1 }), None);
    }
}

#[test]
fn checked_compute_response_agrees_with_compute_response() {
    for x in 0..12 {
        for y in 1..20 {
            let request = Request { x, y };
            assert_eq!(checked_compute_response(request), Some(compute_response(request)));
        }
    }
}

#[test]
fn serve_step_replies_to_a_request() {
    let action = serve_step(ServeEvent::Received(Request { x: 6, y: 4 }));
    assert_eq!(action, ServeAction::Reply(Response { x: 6, y: 4, result: 180 }));
}

#[test]
fn serve_step_receives_after_delivery() {
    assert_eq!(serve_step(ServeEvent::Delivered), ServeAction::Receive);
}

#[test]
fn serve_step_finishes_when_channels_close() {
    assert_eq!(serve_step(ServeEvent::Closed), ServeAction::Finish);
    assert_eq!(serve_step(ServeEvent::Undelivered), ServeAction::Finish);
}
