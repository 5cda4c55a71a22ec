use event_core::counter::EventCounter;
use event_core::edge::{EdgeDirection, EdgeEvent, EdgeLine, EdgeTrigger};
use event_core::handler::service_quadrature;
use event_core::quadrature::{Channel, QuadratureDecoder};

#[test]
fn active_edge_with_partner_low_steps_by_polarity() {
    let mut d = QuadratureDecoder::new(true);
    assert_eq!(d.on_edge(Channel::A, true, true), 1);
    assert_eq!(d.on_edge(Channel::B, true, true), -1);

    let mut flipped = QuadratureDecoder::new(false);
    assert_eq!(flipped.on_edge(Channel::A, true, true), -1);
    assert_eq!(flipped.on_edge(Channel::B, true, true), 1);
}

#[test]
fn partner_high_yields_no_step() {
    let mut d = QuadratureDecoder::new(true);
    assert_eq!(d.on_edge(Channel::A, true, false), 0);
    assert_eq!(d.on_edge(Channel::B, true, false), 0);
}

#[test]
fn inactive_edge_yields_no_step() {
    let mut d = QuadratureDecoder::new(true);
    assert_eq!(d.on_edge(Channel::A, false, true), 0);
    assert_eq!(d.on_edge(Channel::B, false, false), 0);
}

#[test]
fn last_direction_remembers_the_latest_step() {
    let mut d = QuadratureDecoder::new(true);
    assert_eq!(d.last_direction, 0);
    d.on_edge(Channel::A, true, true);
    assert_eq!(d.last_direction, 1);
    // A no-step edge leaves the remembered direction alone.
    d.on_edge(Channel::A, true, false);
    assert_eq!(d.last_direction, 1);
    d.on_edge(Channel::B, true, true);
    assert_eq!(d.last_direction, -1);
}

#[test]
fn observed_levels_follow_the_firing_channel() {
    let mut d = QuadratureDecoder::new(true);
    d.on_edge(Channel::A, true, false);
    assert!(d.a_low);
    assert!(!d.b_low);
    d.on_edge(Channel::B, true, true);
    assert!(d.a_low);
    assert!(d.b_low);
}

#[test]
fn ten_forward_then_three_back_drains_to_seven() {
    // 10 simulated +1 steps, then 3 simulated -1 steps, one drain: 7.
    let mut line_a = EdgeLine::new(2, EdgeTrigger::Falling);
    let mut line_b = EdgeLine::new(3, EdgeTrigger::Falling);
    let mut decoder = QuadratureDecoder::new(true);
    let mut counter = EventCounter::new();

    for _ in 0..10 {
        line_a.raise(EdgeEvent { line: 2, direction: EdgeDirection::Falling });
        let handled = service_quadrature(
            &mut line_a,
            &mut decoder,
            Channel::A,
            true,
            true,
            &mut counter,
        );
        assert!(handled);
    }
    for _ in 0..3 {
        line_b.raise(EdgeEvent { line: 3, direction: EdgeDirection::Falling });
        let handled = service_quadrature(
            &mut line_b,
            &mut decoder,
            Channel::B,
            true,
            true,
            &mut counter,
        );
        assert!(handled);
    }

    assert_eq!(counter.drain(), 7);
}

#[test]
fn spurious_quadrature_invocation_is_a_no_op() {
    let mut line = EdgeLine::new(2, EdgeTrigger::Falling);
    let mut decoder = QuadratureDecoder::new(true);
    let mut counter = EventCounter::new();
    let handled = service_quadrature(&mut line, &mut decoder, Channel::A, true, true, &mut counter);
    assert!(!handled);
    assert_eq!(decoder.last_direction, 0);
    assert_eq!(counter.drain(), 0);
}
