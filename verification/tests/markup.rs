use leptos::{CollectView, IntoView};
use leptos_chat_app::markup::BUTTON_LABEL;
use leptos_chat_app::routes::{Method, Route, RouteTable};
use leptos_chat_app::{Action, App, AppState, Node};

#[test]
fn the_markup_holds_the_button_label() {
    let nodes = App(&AppState::new());
    assert_eq!(BUTTON_LABEL, "Hello worlddddd.");
    assert!(nodes.iter().any(|node| matches!(node, Node::Button { label, .. } if label == "Hello worlddddd.")));
}

#[test]
fn the_markup_is_the_button_and_then_the_text() {
    let mut state = AppState::new();
    state.render();
    let nodes = App(&state);
    assert_eq!(
        nodes,
        vec![
            Node::Button { label: String::from("Hello worlddddd."), on_click: Action::Dispatch },
            Node::Text(String::from("WUT0")),
        ]
    );
}

#[test]
fn the_markup_of_a_fresh_component_has_an_empty_text() {
    let nodes = App(&AppState::new());
    assert_eq!(nodes.len(), 2);
    assert_eq!(nodes[1], Node::Text(String::new()));
}

#[test]
fn the_markup_follows_the_text_on_display() {
    let mut state = AppState::new();
    state.render();
    state.click();
    state.settle(Ok(String::from("Hey.")));
    let nodes = App(&state);
    assert_eq!(nodes[1], Node::Text(String::from("Hey.")));
    assert_eq!(
        nodes[0],
        Node::Button { label: String::from("Hello worlddddd."), on_click: Action::Dispatch }
    );
}

#[test]
fn the_markup_depends_on_the_text_alone() {
    let one = AppState { result: None, pending: false, counter: 4, text: String::from("same") };
    let other = AppState {
        result: Some(Ok(String::from("else"))),
        pending: true,
        counter: -9,
        text: String::from("same"),
    };
    assert_eq!(App(&one), App(&other));
}

fn render_html(nodes: Vec<Node>) -> String {
    leptos::ssr::render_to_string(move || {
        nodes
            .into_iter()
            .map(|node| match node {
                Node::Button { label, .. } => leptos::html::button().child(label).into_view(),
                Node::Text(text) => text.into_view(),
            })
            .collect_view()
    })
    .to_string()
}

#[test]
fn the_root_page_renders_to_html_with_the_button_label() {
    assert_eq!(RouteTable::root_only().resolve(Method::Get, "/"), Route::Page);
    let mut state = AppState::new();
    state.render();
    let html = render_html(App(&state));
    assert!(html.contains("<button"), "{}", html);
    assert!(html.contains("Hello worlddddd."), "{}", html);
    assert!(html.contains("WUT0"), "{}", html);
}

#[test]
fn the_rendered_html_shows_the_greeting_once_it_arrived() {
    let mut state = AppState::new();
    state.render();
    state.settle(leptos_chat_app::hello_world_server());
    let html = render_html(App(&state));
    assert!(html.contains("Hello worlddddd."), "{}", html);
    assert!(html.contains("Hey."), "{}", html);
    assert!(!html.contains("WUT"), "{}", html);
}
