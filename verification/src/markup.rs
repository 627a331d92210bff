//! The markup of the root component.
//!
//! The component is a function from its state to a short list of nodes. The
//! same function serves the first rendering on the server and the takeover in
//! the browser; turning nodes into HTML or into live elements is the
//! rendering library's business.

use crate::component::{Action, AppState};
use vstd::prelude::*;
use vstd::string::StringExecFns;

verus! {

/// The label of the button.
pub const BUTTON_LABEL: &'static str = "Hello worlddddd.";

/// One node of the component's markup.
#[derive(Clone, Debug, PartialEq, Eq)]
pub enum Node {
    /// A button with its label and what a click on it asks for.
    Button { label: String, on_click: Action },
    /// A run of text.
    Text(String),
}

/// The mathematical value of a [`Node`].
pub enum NodeView {
    Button { label: Seq<char>, on_click: Action },
    Text(Seq<char>),
}

impl View for Node {
    type V = NodeView;

    open spec fn view(&self) -> NodeView {
        match self {
            Node::Button { label, on_click } => NodeView::Button {
                label: label@,
                on_click: *on_click,
            },
            Node::Text(text) => NodeView::Text(text@),
        }
    }
}

/// The markup of the root component for a given text on display: the button,
/// whose click dispatches the remote call, and after it the text.
pub open spec fn app_markup(text: Seq<char>) -> Seq<NodeView> {
    seq![
        NodeView::Button { label: BUTTON_LABEL@, on_click: Action::Dispatch },
        NodeView::Text(text),
    ]
}

/// The values of a list of nodes, in order.
pub open spec fn markup_view(nodes: Seq<Node>) -> Seq<NodeView> {
    nodes.map_values(|node: Node| node@)
}

/// The root component: the markup for the given state. It depends on the
/// text on display and on nothing else in the state.
#[allow(non_snake_case)]
pub fn App(state: &AppState) -> (nodes: Vec<Node>)
    ensures
        markup_view(nodes@) == app_markup(state@.text),
{
    let mut nodes: Vec<Node> = Vec::new();
    nodes.push(Node::Button { label: String::from_str(BUTTON_LABEL), on_click: Action::Dispatch });
    nodes.push(Node::Text(state.text.clone()));
    assert(markup_view(nodes@) =~= app_markup(state@.text));
    nodes
}

/// Whatever the state, the markup starts with the button under its fixed
/// label, and the text follows it unchanged.
pub proof fn lemma_markup_holds_button_and_text(text: Seq<char>)
    ensures
        app_markup(text).len() == 2,
        app_markup(text)[0] == (NodeView::Button {
            label: BUTTON_LABEL@,
            on_click: Action::Dispatch,
        }),
        app_markup(text)[1] == NodeView::Text(text),
{
}

} // verus!
