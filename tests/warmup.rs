use workshop::api;
use workshop::api::{async_error, param, param_json, Body};

#[test]
fn index() {
    assert_eq!(api::index(), "Hello RustLab");
}

#[test]
fn hello_params() {
    assert_eq!(param("RustLab"), "Hello RustLab");
}

#[test]
fn hello_params_json() {
    assert_eq!(param_json("Mark").message, "Hello Mark");
}

#[test]
fn json_body() {
    let payload = Body { name: String::from("Mark") };
    assert_eq!(api::json_body(payload).message, "Hello Mark");
}

#[test]
fn async_json_error() {
    let e = async_error();
    assert_eq!(e.status, 400);
    assert_eq!(e.msg, "some error");
}

#[test]
fn greeting_of_empty_name() {
    assert_eq!(param(""), "Hello ");
}
