use leptos_chat_app::greeting::{hello_world_server, ENDPOINT};
use leptos_chat_app::routes::call_server_fn;

#[test]
fn greeting_endpoint_returns_hey() {
    assert_eq!(hello_world_server(), Ok(String::from("Hey.")));
}

#[test]
fn greeting_endpoint_returns_the_same_every_time() {
    for _ in 0..5 {
        assert_eq!(hello_world_server(), Ok(String::from("Hey.")));
    }
}

#[test]
fn greeting_is_found_under_its_endpoint_name() {
    assert_eq!(ENDPOINT, "hello_world");
    assert_eq!(call_server_fn("hello_world"), Some(Ok(String::from("Hey."))));
}

#[test]
fn other_names_find_no_server_function() {
    assert_eq!(call_server_fn(""), None);
    assert_eq!(call_server_fn("hello"), None);
    assert_eq!(call_server_fn("hello_world/"), None);
    assert_eq!(call_server_fn("Hello_World"), None);
    assert_eq!(call_server_fn("hello_world2"), None);
}
