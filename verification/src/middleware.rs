//! The response-rewriting layer.
//!
//! The layer sits around a chain of handlers. A successful response passes
//! through it untouched. The body of a failed response is read as an error
//! tree, translated for the caller, and sent on under the same status; a
//! body that cannot be read is answered as an internal error. The layer
//! itself never fails.

use crate::catalog::{Catalog, CatalogView};
use crate::error::INTERNAL_SERVER_ERROR;
use crate::error_node::{ErrorNode, ErrorNodeView, TranslatedError, TranslatedView};
use crate::json::json_rendered;
use crate::locale::{parse_accept_language, requested_locales, texts};
use crate::response::{is_success, response_action, ResponseAction};
use crate::translate::{
    lemma_translation_keeps_shape, translate, translated, ConfigView, TranslationConfig,
};
use crate::wire::{node_from_bytes, node_in_bytes, translated_json, translated_to_bytes};
use vstd::prelude::*;

verus! {

/// The largest body, in bytes, that is read as an error tree. A larger
/// body counts as unreadable.
pub const MAX_ERROR_BODY_BYTES: usize = 2097152;

/// Makes an [`ErrorTranslator`] of a service.
#[derive(Clone, Copy, Debug)]
pub struct ErrorTranslatorLayer {}

/// A service wrapped for translation of its failed responses.
#[derive(Clone, Debug)]
pub struct ErrorTranslator<S> {
    inner: S,
}

impl ErrorTranslatorLayer {
    /// The layer.
    pub fn new() -> (layer: Self)
        ensures
            layer == (ErrorTranslatorLayer {  }),
    {
        ErrorTranslatorLayer {  }
    }

    /// Wraps `inner`.
    pub fn layer<S>(&self, inner: S) -> (service: ErrorTranslator<S>)
        ensures
            service.wrapped() == inner,
    {
        ErrorTranslator { inner }
    }
}

impl<S> ErrorTranslator<S> {
    /// The wrapped service.
    pub closed spec fn wrapped(self) -> S {
        self.inner
    }

    /// The wrapped service.
    pub fn inner(&self) -> (inner: &S)
        ensures
            *inner == self.wrapped(),
    {
        &self.inner
    }

    /// The wrapped service, to be called.
    pub fn inner_mut(&mut self) -> (inner: &mut S)
        ensures
            *inner == old(self).wrapped(),
            final(self).wrapped() == *final(inner),
    {
        &mut self.inner
    }

    /// Unwraps the service.
    pub fn into_inner(self) -> (inner: S)
        ensures
            inner == self.wrapped(),
    {
        self.inner
    }
}

/// The bytes of a body that may be missing.
pub open spec fn optional_bytes(body: Option<&[u8]>) -> Option<Seq<u8>> {
    match body {
        Some(bytes) => Some(bytes@),
        None => None,
    }
}

/// The text of a header that may be missing.
pub open spec fn optional_text(header: Option<&str>) -> Option<Seq<char>> {
    match header {
        Some(text) => Some(text@),
        None => None,
    }
}

/// The node that stands in for a body that cannot be read.
pub open spec fn internal_error_node() -> ErrorNodeView {
    ErrorNodeView::leaf(INTERNAL_SERVER_ERROR@)
}

/// The error tree of a failed response: the tree its body stands for, or
/// the internal error where the body is missing, too large, no JSON, or no
/// error tree.
pub open spec fn body_node(body: Option<Seq<u8>>) -> ErrorNodeView {
    match body {
        Some(bytes) => if bytes.len() <= MAX_ERROR_BODY_BYTES {
            match node_in_bytes(bytes) {
                Some(node) => node,
                None => internal_error_node(),
            }
        } else {
            internal_error_node()
        },
        None => internal_error_node(),
    }
}

/// The locales a request asks for: those of its language header, or none
/// where it has no such header.
pub open spec fn header_locales(header: Option<Seq<char>>) -> Seq<Seq<char>> {
    match header {
        Some(text) => requested_locales(text),
        None => Seq::empty(),
    }
}

/// What the translation of a failed response goes by: the locales of the
/// request, the catalog's default locale, and the arguments of the root of
/// the tree.
pub open spec fn failure_config(header: Option<Seq<char>>, root: ErrorNodeView, catalog: CatalogView)
    -> ConfigView {
    ConfigView {
        requested_locales: header_locales(header),
        fallback_locale: catalog.default_locale,
        args: root.args,
    }
}

/// The translated error that answers a failed response.
pub open spec fn translated_failure(
    body: Option<Seq<u8>>,
    header: Option<Seq<char>>,
    catalog: CatalogView,
) -> TranslatedView {
    let node = body_node(body);
    translated(catalog, failure_config(header, node, catalog), node)
}

/// The body that answers a failed response.
pub open spec fn translated_body(
    body: Option<Seq<u8>>,
    header: Option<Seq<char>>,
    catalog: CatalogView,
) -> Seq<u8> {
    json_rendered(translated_json(translated_failure(body, header, catalog)))
}

/// The response that leaves the layer: the status never changes, and the
/// body changes only where the status reports a failure.
pub open spec fn rewritten(
    status: u16,
    body: Seq<u8>,
    header: Option<Seq<char>>,
    catalog: CatalogView,
) -> (u16, Seq<u8>) {
    if is_success(status) {
        (status, body)
    } else {
        (status, translated_body(Some(body), header, catalog))
    }
}

/// Reads the error tree of a failed response from its body.
pub fn failure_node(body: Option<&[u8]>) -> (node: ErrorNode)
    ensures
        node@ == body_node(optional_bytes(body)),
{
    match body {
        Some(bytes) => {
            if bytes.len() <= MAX_ERROR_BODY_BYTES {
                match node_from_bytes(bytes) {
                    Some(node) => node,
                    None => ErrorNode::leaf(INTERNAL_SERVER_ERROR),
                }
            } else {
                ErrorNode::leaf(INTERNAL_SERVER_ERROR)
            }
        },
        None => ErrorNode::leaf(INTERNAL_SERVER_ERROR),
    }
}

/// Sets up the translation of the tree with root `root` for a request with
/// the language header `accept_language`.
pub fn translation_config(accept_language: Option<&str>, root: &ErrorNode, catalog: &Catalog) -> (config:
    TranslationConfig)
    ensures
        config@ == failure_config(optional_text(accept_language), root@, catalog@),
{
    let requested_locales = match accept_language {
        Some(header) => parse_accept_language(header),
        None => {
            let none: Vec<String> = Vec::new();
            assert(texts(none@) =~= Seq::<Seq<char>>::empty());
            none
        },
    };
    let args = match &root.args {
        Some(args) => Some(args.clone()),
        None => None,
    };
    TranslationConfig { requested_locales, fallback_locale: catalog.default_locale().clone(), args }
}

/// Translates the body of a failed response for the caller.
pub fn translate_failure(body: Option<&[u8]>, accept_language: Option<&str>, catalog: &Catalog) -> (error:
    TranslatedError)
    ensures
        error@ == translated_failure(
            optional_bytes(body),
            optional_text(accept_language),
            catalog@,
        ),
{
    let node = failure_node(body);
    let config = translation_config(accept_language, &node, catalog);
    translate(&node, catalog, &config)
}

/// The body that replaces the body of a failed response.
pub fn translate_failure_body(
    body: Option<&[u8]>,
    accept_language: Option<&str>,
    catalog: &Catalog,
) -> (bytes: Vec<u8>)
    ensures
        bytes@ == translated_body(optional_bytes(body), optional_text(accept_language), catalog@),
{
    let error = translate_failure(body, accept_language, catalog);
    translated_to_bytes(&error)
}

/// Passes a response through the layer when its whole body is at hand: a
/// success leaves as it came, a failure leaves under its status with the
/// translated body.
pub fn rewrite_response(
    status: u16,
    body: Vec<u8>,
    accept_language: Option<&str>,
    catalog: &Catalog,
) -> (response: (u16, Vec<u8>))
    ensures
        response.0 == rewritten(status, body@, optional_text(accept_language), catalog@).0,
        response.1@ == rewritten(status, body@, optional_text(accept_language), catalog@).1,
{
    match response_action(status) {
        ResponseAction::PassThrough => (status, body),
        ResponseAction::Translate => {
            let bytes = translate_failure_body(Some(body.as_slice()), accept_language, catalog);
            (status, bytes)
        },
    }
}

/// The layer never changes the status of a response.
pub proof fn lemma_status_is_kept(
    status: u16,
    body: Seq<u8>,
    header: Option<Seq<char>>,
    catalog: CatalogView,
)
    ensures
        rewritten(status, body, header, catalog).0 == status,
{
}

/// A response whose status is between 200 and 299 leaves the layer as it
/// came, whatever its body holds, and passing it through the layer again
/// changes nothing either.
pub proof fn lemma_success_passes_through(
    status: u16,
    body: Seq<u8>,
    header: Option<Seq<char>>,
    catalog: CatalogView,
)
    requires
        200 <= status <= 299,
    ensures
        rewritten(status, body, header, catalog) == (status, body),
        rewritten(
            rewritten(status, body, header, catalog).0,
            rewritten(status, body, header, catalog).1,
            header,
            catalog,
        ) == (status, body),
{
}

/// A failed response whose body is no error tree is answered as an internal
/// error without children.
pub proof fn lemma_unreadable_body(
    body: Option<Seq<u8>>,
    header: Option<Seq<char>>,
    catalog: CatalogView,
)
    requires
        body matches Some(bytes) ==> bytes.len() > MAX_ERROR_BODY_BYTES || node_in_bytes(bytes)
            is None,
    ensures
        translated_failure(body, header, catalog).code == INTERNAL_SERVER_ERROR@,
        translated_failure(body, header, catalog).children.len() == 0,
{
}

/// The translated answer has the shape of the tree in the body: the same
/// root code, and as many children in the same order.
pub proof fn lemma_failure_keeps_shape(
    body: Option<Seq<u8>>,
    header: Option<Seq<char>>,
    catalog: CatalogView,
)
    ensures
        translated_failure(body, header, catalog).code == body_node(body).code,
        translated_failure(body, header, catalog).children.len() == body_node(body).children.len(),
        forall|i: int|
            0 <= i < body_node(body).children.len() ==> (#[trigger] translated_failure(
                body,
                header,
                catalog,
            ).children[i]).code == body_node(body).children[i].code,
{
    let node = body_node(body);
    let config = failure_config(header, node, catalog);
    assert forall|i: int| 0 <= i < node.children.len() implies (#[trigger] translated_failure(
        body,
        header,
        catalog,
    ).children[i]).code == node.children[i].code by {
        lemma_translation_keeps_shape(catalog, config, node);
        lemma_translation_keeps_shape(catalog, config, node.children[i]);
    }
}

} // verus!
