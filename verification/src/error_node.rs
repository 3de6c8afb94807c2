//! The error tree before and after translation.
//!
//! An [`ErrorNode`] describes one error condition by a stable code, with the
//! values its message template needs and the conditions that caused it. A
//! [`TranslatedError`] has the same shape, and a readable message at every
//! node.

use crate::args::{keys_distinct, Args, Pairs};
use vstd::prelude::*;

verus! {

/// One error condition, with its nested causes in the order in which they
/// were found.
#[derive(Debug)]
pub struct ErrorNode {
    /// Stable identifier of the condition, the same in every language.
    pub code: String,
    /// Values for the placeholders of the message template, if it has any.
    pub args: Option<Args>,
    /// Nested causes, first found first.
    pub children: Vec<ErrorNode>,
}

/// An [`ErrorNode`] as a mathematical value.
pub struct ErrorNodeView {
    pub code: Seq<char>,
    pub args: Option<Pairs>,
    pub children: Seq<ErrorNodeView>,
}

/// The views of a list of nodes, in the same order.
pub open spec fn node_views(nodes: Seq<ErrorNode>) -> Seq<ErrorNodeView> {
    Seq::new(nodes.len(), |i: int| nodes[i]@)
}

impl ErrorNodeView {
    /// The node with code `code`, without arguments and without causes.
    pub open spec fn leaf(code: Seq<char>) -> ErrorNodeView {
        ErrorNodeView { code, args: None, children: Seq::empty() }
    }

    /// A node has a code and holds no argument twice, and so it is with
    /// every node below it.
    pub open spec fn well_formed(self) -> bool
        decreases self,
    {
        &&& self.code.len() > 0
        &&& self.args matches Some(pairs) ==> keys_distinct(pairs)
        &&& forall|i: int|
            0 <= i < self.children.len() ==> (#[trigger] self.children[i]).well_formed()
    }
}

impl ErrorNode {
    /// The node as a mathematical value.
    pub open spec fn model(self) -> ErrorNodeView
        decreases self,
    {
        ErrorNodeView {
            code: self.code@,
            args: match self.args {
                Some(args) => Some(args.pairs()),
                None => None,
            },
            children: Seq::new(
                self.children.len() as nat,
                |i: int|
                    if 0 <= i < self.children.len() {
                        self.children[i].model()
                    } else {
                        arbitrary()
                    },
            ),
        }
    }

    /// A node without arguments and without causes.
    pub fn leaf(code: &str) -> (node: ErrorNode)
        ensures
            node@ == ErrorNodeView::leaf(code@),
    {
        let node = ErrorNode { code: code.to_owned(), args: None, children: Vec::new() };
        assert(node@.children =~= Seq::empty());
        node
    }

    /// A node without causes whose template takes `args`.
    pub fn with_args(code: &str, args: Args) -> (node: ErrorNode)
        ensures
            node@ == (ErrorNodeView {
                code: code@,
                args: Some(args.pairs()),
                children: Seq::empty(),
            }),
    {
        let node = ErrorNode { code: code.to_owned(), args: Some(args), children: Vec::new() };
        assert(node@.children =~= Seq::empty());
        node
    }

    /// A node without arguments that aggregates `children`.
    pub fn with_children(code: &str, children: Vec<ErrorNode>) -> (node: ErrorNode)
        ensures
            node@ == (ErrorNodeView {
                code: code@,
                args: None,
                children: node_views(children@),
            }),
    {
        let node = ErrorNode { code: code.to_owned(), args: None, children };
        assert(node@.children =~= node_views(children@));
        node
    }
}

impl View for ErrorNode {
    type V = ErrorNodeView;

    open spec fn view(&self) -> ErrorNodeView {
        self.model()
    }
}

/// One translated error: the code of the source node, the message rendered
/// for it, and its translated causes in the source's order.
#[derive(Debug)]
pub struct TranslatedError {
    /// The code of the source node, unchanged.
    pub code: String,
    /// The message for display.
    pub message: String,
    /// The translated causes, in the order of the source's causes.
    pub children: Vec<TranslatedError>,
}

/// A [`TranslatedError`] as a mathematical value.
pub struct TranslatedView {
    pub code: Seq<char>,
    pub message: Seq<char>,
    pub children: Seq<TranslatedView>,
}

impl TranslatedError {
    /// The translated error as a mathematical value.
    pub open spec fn model(self) -> TranslatedView
        decreases self,
    {
        TranslatedView {
            code: self.code@,
            message: self.message@,
            children: Seq::new(
                self.children.len() as nat,
                |i: int|
                    if 0 <= i < self.children.len() {
                        self.children[i].model()
                    } else {
                        arbitrary()
                    },
            ),
        }
    }
}

impl View for TranslatedError {
    type V = TranslatedView;

    open spec fn view(&self) -> TranslatedView {
        self.model()
    }
}

} // verus!
