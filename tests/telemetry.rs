use zero2prod::telemetry::get_trace_and_span_id;

#[test]
fn valid_ids_are_written_as_fixed_width_hex() {
    let (trace, span) =
        get_trace_and_span_id(0x4bf92f3577b34da6a3ce929d0e0e4736, 0x00f067aa0ba902b7).unwrap();
    assert_eq!(trace, "4bf92f3577b34da6a3ce929d0e0e4736");
    assert_eq!(span, "00f067aa0ba902b7");
}

#[test]
fn small_ids_keep_leading_zeros() {
    let (trace, span) = get_trace_and_span_id(1, 255).unwrap();
    assert_eq!(trace, format!("{:032x}", 1u128));
    assert_eq!(span, "00000000000000ff");
}

#[test]
fn a_zero_id_is_an_invalid_context() {
    assert_eq!(get_trace_and_span_id(0, 7), None);
    assert_eq!(get_trace_and_span_id(7, 0), None);
}
