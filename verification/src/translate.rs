//! Rendering an error tree in the caller's language.
//!
//! Every node gets its message on its own: the first requested locale in
//! which the catalog has a template for the node's code wins, then the
//! fallback locale, and where the catalog has nothing the code itself is the
//! message. Translation never fails.

use crate::args::{pairs_to_map, Args, Pairs};
use crate::catalog::{Catalog, CatalogView};
use crate::error_node::{ErrorNode, ErrorNodeView, TranslatedError, TranslatedView};
use crate::locale::texts;
use crate::template::{render_template, rendered_template};
use vstd::prelude::*;

verus! {

/// What the rendering of one response goes by.
#[derive(Debug)]
pub struct TranslationConfig {
    /// The locales the caller asked for, most preferred first.
    pub requested_locales: Vec<String>,
    /// The locale to use where none of the requested ones has a template.
    pub fallback_locale: String,
    /// Values that every node's template can use, unless the node has a
    /// value of its own under the same name.
    pub args: Option<Args>,
}

/// A [`TranslationConfig`] as a mathematical value.
pub struct ConfigView {
    pub requested_locales: Seq<Seq<char>>,
    pub fallback_locale: Seq<char>,
    pub args: Option<Pairs>,
}

impl View for TranslationConfig {
    type V = ConfigView;

    open spec fn view(&self) -> ConfigView {
        ConfigView {
            requested_locales: texts(self.requested_locales@),
            fallback_locale: self.fallback_locale@,
            args: match self.args {
                Some(args) => Some(args.pairs()),
                None => None,
            },
        }
    }
}

/// The template for `code` in the first of `locales`, at or behind position
/// `from`, in which the catalog has one.
pub open spec fn first_available(
    catalog: CatalogView,
    locales: Seq<Seq<char>>,
    code: Seq<char>,
    from: int,
) -> Option<Seq<char>>
    decreases locales.len() - from,
{
    if from < 0 || from >= locales.len() {
        None
    } else {
        match catalog.lookup(code, locales[from]) {
            Some(template) => Some(template),
            None => first_available(catalog, locales, code, from + 1),
        }
    }
}

/// The template that `code` is rendered from: that of the first requested
/// locale that has one, else that of the fallback locale, else none.
pub open spec fn resolved_template(catalog: CatalogView, config: ConfigView, code: Seq<char>)
    -> Option<Seq<char>> {
    match first_available(catalog, config.requested_locales, code, 0) {
        Some(template) => Some(template),
        None => catalog.lookup(code, config.fallback_locale),
    }
}

/// The values a node's template is filled with: the node's own, and under
/// the names the node leaves open those of the configuration.
pub open spec fn merged_args(node_args: Option<Pairs>, root_args: Option<Pairs>) -> Map<
    Seq<char>,
    Seq<char>,
> {
    let base = match root_args {
        Some(args) => pairs_to_map(args),
        None => Map::empty(),
    };
    let own = match node_args {
        Some(args) => pairs_to_map(args),
        None => Map::empty(),
    };
    base.union_prefer_right(own)
}

/// The message of a node with code `code` and arguments `node_args`.
pub open spec fn message_for(
    catalog: CatalogView,
    config: ConfigView,
    code: Seq<char>,
    node_args: Option<Pairs>,
) -> Seq<char> {
    match resolved_template(catalog, config, code) {
        Some(template) => rendered_template(template, merged_args(node_args, config.args)),
        None => code,
    }
}

/// The translation of a tree: every node keeps its code and its place, and
/// carries the message rendered for it.
pub open spec fn translated(catalog: CatalogView, config: ConfigView, node: ErrorNodeView)
    -> TranslatedView
    decreases node,
{
    TranslatedView {
        code: node.code,
        message: message_for(catalog, config, node.code, node.args),
        children: Seq::new(
            node.children.len(),
            |i: int|
                if 0 <= i < node.children.len() {
                    translated(catalog, config, node.children[i])
                } else {
                    arbitrary()
                },
        ),
    }
}

/// Looks for the template of `code` as [`resolved_template`] says.
pub fn resolve_template<'a>(catalog: &'a Catalog, config: &TranslationConfig, code: &str) -> (found:
    Option<&'a String>)
    ensures
        found is Some <==> resolved_template(catalog@, config@, code@) is Some,
        found matches Some(template) ==> resolved_template(catalog@, config@, code@) == Some(
            template@,
        ),
{
    let mut i: usize = 0;
    while i < config.requested_locales.len()
        invariant
            i <= config.requested_locales.len(),
            config@.requested_locales.len() == config.requested_locales.len(),
            first_available(catalog@, config@.requested_locales, code@, 0) == first_available(
                catalog@,
                config@.requested_locales,
                code@,
                i as int,
            ),
        decreases config.requested_locales.len() - i,
    {
        let found = catalog.lookup(code, config.requested_locales[i].as_str());
        if found.is_some() {
            return found;
        }
        i = i + 1;
    }
    catalog.lookup(code, config.fallback_locale.as_str())
}

/// Renders the message of one node: the resolved template with its
/// placeholders filled, or the code where the catalog has no template.
pub fn render_message(
    catalog: &Catalog,
    config: &TranslationConfig,
    code: &str,
    node_args: Option<&Args>,
) -> (message: String)
    ensures
        message@ == message_for(
            catalog@,
            config@,
            code@,
            match node_args {
                Some(args) => Some(args.pairs()),
                None => None,
            },
        ),
{
    match resolve_template(catalog, config, code) {
        Some(template) => {
            let base = match &config.args {
                Some(args) => args.clone(),
                None => Args::new(),
            };
            let values = match node_args {
                Some(args) => args.merged_over(&base),
                None => {
                    assert(base@.union_prefer_right(Map::<Seq<char>, Seq<char>>::empty()) =~= base@);
                    base
                },
            };
            render_template(template.as_str(), &values)
        },
        None => code.to_owned(),
    }
}

/// Translates a tree. The result has the shape of `node`: the same codes,
/// the same number of children at every node, in the same order.
pub fn translate(node: &ErrorNode, catalog: &Catalog, config: &TranslationConfig) -> (out:
    TranslatedError)
    ensures
        out@ == translated(catalog@, config@, node@),
    decreases node,
{
    let message = render_message(catalog, config, node.code.as_str(), node.args.as_ref());
    let mut children: Vec<TranslatedError> = Vec::new();
    let mut i: usize = 0;
    while i < node.children.len()
        invariant
            i <= node.children.len(),
            children.len() == i,
            node@.children.len() == node.children.len(),
            forall|j: int|
                0 <= j < i ==> (#[trigger] children[j])@ == translated(
                    catalog@,
                    config@,
                    node@.children[j],
                ),
        decreases node.children.len() - i,
    {
        let child = translate(&node.children[i], catalog, config);
        children.push(child);
        i = i + 1;
    }
    let out = TranslatedError { code: node.code.clone(), message, children };
    assert(out@.children =~= translated(catalog@, config@, node@).children);
    out
}

/// Translation keeps the shape of the tree: the code of every node, the
/// number of its children, and the place of each child among them.
pub proof fn lemma_translation_keeps_shape(
    catalog: CatalogView,
    config: ConfigView,
    node: ErrorNodeView,
)
    ensures
        translated(catalog, config, node).code == node.code,
        translated(catalog, config, node).children.len() == node.children.len(),
        forall|i: int|
            0 <= i < node.children.len() ==> (#[trigger] translated(
                catalog,
                config,
                node,
            ).children[i]) == translated(catalog, config, node.children[i]),
{
}

/// Where a node and the configuration both give a value under one name,
/// the node's value fills the placeholder; the configuration's value fills
/// it only where the node gives none.
pub proof fn lemma_node_args_take_precedence(node_args: Pairs, root_args: Pairs, name: Seq<char>)
    ensures
        pairs_to_map(node_args).contains_key(name) ==> merged_args(
            Some(node_args),
            Some(root_args),
        )[name] == pairs_to_map(node_args)[name],
        !pairs_to_map(node_args).contains_key(name) && pairs_to_map(root_args).contains_key(name)
            ==> merged_args(Some(node_args), Some(root_args))[name] == pairs_to_map(
            root_args,
        )[name],
        merged_args(Some(node_args), Some(root_args)).contains_key(name) <==> pairs_to_map(
            node_args,
        ).contains_key(name) || pairs_to_map(root_args).contains_key(name),
{
}

/// A code is rendered from exactly the template that the catalog has for
/// it under the first requested locale that has one.
pub proof fn lemma_requested_locale_wins(
    catalog: CatalogView,
    config: ConfigView,
    node: ErrorNodeView,
    at: int,
    template: Seq<char>,
)
    requires
        0 <= at < config.requested_locales.len(),
        catalog.lookup(node.code, config.requested_locales[at]) == Some(template),
        forall|i: int|
            0 <= i < at ==> catalog.lookup(node.code, #[trigger] config.requested_locales[i])
                is None,
    ensures
        translated(catalog, config, node).message == rendered_template(
            template,
            merged_args(node.args, config.args),
        ),
{
    lemma_first_available(catalog, config.requested_locales, node.code, 0, at);
}

/// The search through a list of locales ends at the first one that has a
/// template for the code.
pub proof fn lemma_first_available(
    catalog: CatalogView,
    locales: Seq<Seq<char>>,
    code: Seq<char>,
    from: int,
    at: int,
)
    requires
        0 <= from <= at < locales.len(),
        catalog.lookup(code, locales[at]) is Some,
        forall|i: int| from <= i < at ==> catalog.lookup(code, #[trigger] locales[i]) is None,
    ensures
        first_available(catalog, locales, code, from) == catalog.lookup(code, locales[at]),
    decreases at - from,
{
    if from < at {
        lemma_first_available(catalog, locales, code, from + 1, at);
    }
}

/// A code that the catalog lacks under every requested locale is rendered
/// from the template of the fallback locale.
pub proof fn lemma_fallback_locale(
    catalog: CatalogView,
    config: ConfigView,
    node: ErrorNodeView,
    template: Seq<char>,
)
    requires
        forall|i: int|
            0 <= i < config.requested_locales.len() ==> catalog.lookup(
                node.code,
                #[trigger] config.requested_locales[i],
            ) is None,
        catalog.lookup(node.code, config.fallback_locale) == Some(template),
    ensures
        translated(catalog, config, node).message == rendered_template(
            template,
            merged_args(node.args, config.args),
        ),
{
    lemma_none_available(catalog, config.requested_locales, node.code, 0);
}

/// A code that the catalog lacks under every requested locale and under the
/// fallback locale is its own message.
pub proof fn lemma_missing_code(catalog: CatalogView, config: ConfigView, node: ErrorNodeView)
    requires
        forall|i: int|
            0 <= i < config.requested_locales.len() ==> catalog.lookup(
                node.code,
                #[trigger] config.requested_locales[i],
            ) is None,
        catalog.lookup(node.code, config.fallback_locale) is None,
    ensures
        translated(catalog, config, node).message == node.code,
{
    lemma_none_available(catalog, config.requested_locales, node.code, 0);
}

/// Where no locale of the list has a template for the code, none is
/// available.
pub proof fn lemma_none_available(
    catalog: CatalogView,
    locales: Seq<Seq<char>>,
    code: Seq<char>,
    from: int,
)
    requires
        0 <= from,
        forall|i: int|
            0 <= i < locales.len() ==> catalog.lookup(code, #[trigger] locales[i]) is None,
    ensures
        first_available(catalog, locales, code, from) is None,
    decreases locales.len() - from,
{
    if from < locales.len() {
        lemma_none_available(catalog, locales, code, from + 1);
    }
}

} // verus!
