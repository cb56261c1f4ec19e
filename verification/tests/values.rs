use libsql_binding::error::connection_failure;
use libsql_binding::error::engine_failure;
use libsql_binding::text::format_value;
use libsql_binding::text::push_integer;
use libsql_binding::value::bind_parameters;
use libsql_binding::value::from_host;
use libsql_binding::value::to_host;
use libsql_binding::Error;
use libsql_binding::HostValue;
use libsql_binding::Value;
use libsql_binding::ValueType;

#[test]
fn null_becomes_nil() {
    assert_eq!(to_host(Value::Null), HostValue::Nil);
}

#[test]
fn integer_keeps_its_value() {
    assert_eq!(to_host(Value::Integer(-5)), HostValue::Integer(-5));
    assert_eq!(to_host(Value::Integer(i64::MAX)), HostValue::Integer(i64::MAX));
    assert_eq!(to_host(Value::Integer(i64::MIN)), HostValue::Integer(i64::MIN));
}

#[test]
fn real_keeps_its_bits() {
    let bits: u64 = 1.5f64.to_bits();
    assert_eq!(to_host(Value::Real(bits)), HostValue::Number(bits));
    let nan: u64 = f64::NAN.to_bits();
    assert_eq!(to_host(Value::Real(nan)), HostValue::Number(nan));
}

#[test]
fn text_and_blob_keep_their_contents() {
    assert_eq!(to_host(Value::Text("héllo".to_string())), HostValue::Str("héllo".to_string()));
    assert_eq!(to_host(Value::Blob(vec![0, 255, 7])), HostValue::Bytes(vec![0, 255, 7]));
    assert_eq!(to_host(Value::Blob(vec![])), HostValue::Bytes(vec![]));
}

#[test]
fn different_values_have_different_images() {
    assert_ne!(to_host(Value::Integer(1)), to_host(Value::Real(1)));
    assert_ne!(to_host(Value::Text("1".to_string())), to_host(Value::Blob(vec![b'1'])));
    assert_ne!(to_host(Value::Null), to_host(Value::Integer(0)));
}

#[test]
fn only_strings_bind_as_parameters() {
    assert_eq!(from_host(HostValue::Str("abc".to_string())), Ok("abc".to_string()));
    assert_eq!(from_host(HostValue::Str(String::new())), Ok(String::new()));
    assert_eq!(from_host(HostValue::Nil), Err(Error::TypeMismatch));
    assert_eq!(from_host(HostValue::Integer(3)), Err(Error::TypeMismatch));
    assert_eq!(from_host(HostValue::Number(0)), Err(Error::TypeMismatch));
    assert_eq!(from_host(HostValue::Bytes(vec![1])), Err(Error::TypeMismatch));
}

#[test]
fn text_round_trips_through_the_script() {
    let back = from_host(to_host(Value::Text("round trip".to_string())));
    assert_eq!(back, Ok("round trip".to_string()));
    assert_eq!(from_host(to_host(Value::Integer(1))), Err(Error::TypeMismatch));
}

#[test]
fn parameters_bind_in_order() {
    let params = vec![
        HostValue::Str("a".to_string()),
        HostValue::Str("".to_string()),
        HostValue::Str("c".to_string()),
    ];
    assert_eq!(
        bind_parameters(&params),
        Ok(vec!["a".to_string(), "".to_string(), "c".to_string()])
    );
    assert_eq!(bind_parameters(&vec![]), Ok(vec![]));
}

#[test]
fn one_bad_parameter_refuses_the_list() {
    let params = vec![HostValue::Str("a".to_string()), HostValue::Integer(2)];
    assert_eq!(bind_parameters(&params), Err(Error::TypeMismatch));
    let first_bad = vec![HostValue::Nil, HostValue::Str("a".to_string())];
    assert_eq!(bind_parameters(&first_bad), Err(Error::TypeMismatch));
}

#[test]
fn kinds_have_their_names() {
    assert_eq!(ValueType::Integer.name(), "integer");
    assert_eq!(ValueType::Real.name(), "real");
    assert_eq!(ValueType::Text.name(), "text");
    assert_eq!(ValueType::Blob.name(), "blob");
    assert_eq!(ValueType::Null.name(), "null");
}

#[test]
fn values_know_their_kind() {
    assert_eq!(Value::Null.kind(), ValueType::Null);
    assert_eq!(Value::Integer(0).kind(), ValueType::Integer);
    assert_eq!(Value::Real(0).kind(), ValueType::Real);
    assert_eq!(Value::Text(String::new()).kind(), ValueType::Text);
    assert_eq!(Value::Blob(vec![]).kind(), ValueType::Blob);
}

#[test]
fn duplicate_copies_the_value() {
    let v = Value::Blob(vec![1, 2, 3]);
    assert_eq!(v.duplicate(), v);
    let t = Value::Text("x".to_string());
    assert_eq!(t.duplicate(), t);
}

#[test]
fn integers_are_written_in_decimal() {
    assert_eq!(format_value(&Value::Integer(0), ""), "0");
    assert_eq!(format_value(&Value::Integer(7), ""), "7");
    assert_eq!(format_value(&Value::Integer(10), ""), "10");
    assert_eq!(format_value(&Value::Integer(42), ""), "42");
    assert_eq!(format_value(&Value::Integer(-1), ""), "-1");
    assert_eq!(format_value(&Value::Integer(-1200), ""), "-1200");
    assert_eq!(format_value(&Value::Integer(i64::MAX), ""), "9223372036854775807");
    assert_eq!(format_value(&Value::Integer(i64::MIN), ""), "-9223372036854775808");
}

#[test]
fn push_integer_appends() {
    let mut out = "n=".to_string();
    push_integer(&mut out, -305);
    assert_eq!(out, "n=-305");
}

#[test]
fn reals_are_written_in_the_decimal_form_given() {
    let x: f64 = 1.5;
    assert_eq!(format_value(&Value::Real(x.to_bits()), &x.to_string()), "1.5");
    let y: f64 = -0.25;
    assert_eq!(format_value(&Value::Real(y.to_bits()), &y.to_string()), "-0.25");
    assert_eq!(format_value(&Value::Real(0), "0"), "0");
}

#[test]
fn decimal_form_is_only_for_reals() {
    assert_eq!(format_value(&Value::Integer(3), "ignored"), "3");
    assert_eq!(format_value(&Value::Null, "ignored"), "null");
    assert_eq!(format_value(&Value::Text("t".to_string()), "ignored"), "t");
    assert_eq!(format_value(&Value::Blob(b"b".to_vec()), "ignored"), "b");
}

#[test]
fn null_text_and_blob_are_written_out() {
    assert_eq!(format_value(&Value::Null, ""), "null");
    assert_eq!(format_value(&Value::Text("plain".to_string()), ""), "plain");
    assert_eq!(format_value(&Value::Text(String::new()), ""), "");
    assert_eq!(format_value(&Value::Blob(b"bytes".to_vec()), ""), "bytes");
    assert_eq!(format_value(&Value::Blob(vec![b'a', 0xff, b'b']), ""), "a\u{fffd}b");
}

#[test]
fn engine_failures_keep_the_message() {
    let e = engine_failure(libsql::Error::Misuse("wrong turn".to_string()));
    assert_eq!(e, Error::Engine("API misuse: `wrong turn`".to_string()));
    assert_eq!(e.message(), "API misuse: `wrong turn`");
    let f = engine_failure(libsql::Error::InvalidColumnIndex);
    assert_eq!(f, Error::Engine("invalid column index".to_string()));
}

#[test]
fn connection_failures_keep_the_message() {
    let e = connection_failure(libsql::Error::ConnectionFailed("no route".to_string()));
    assert_eq!(e, Error::Connection("Failed to connect to database: `no route`".to_string()));
    assert_eq!(e.message(), "Failed to connect to database: `no route`");
}

#[test]
fn other_errors_carry_no_message() {
    assert_eq!(Error::AlreadyFinalized.message(), "");
    assert_eq!(Error::IndexOutOfRange(3).message(), "");
    assert_eq!(Error::TypeMismatch.message(), "");
    assert_eq!(Error::ConcurrencyConflict.message(), "");
    assert_eq!(Error::StaleReference.message(), "");
}

#[test]
fn surface_passes_results_on() {
    let fine: Result<u64, libsql::Error> = Ok(3);
    assert_eq!(libsql_binding::error::surface(fine), Ok(3));
    let bad: Result<u64, libsql::Error> = Err(libsql::Error::ExecuteReturnedRows);
    assert_eq!(
        libsql_binding::error::surface(bad),
        Err(Error::Engine("Execute returned rows".to_string()))
    );
}
